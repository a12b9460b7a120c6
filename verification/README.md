# pfp_verifier

The verifier for programs written for Cloudflare's Programmable Flow
Protection system, built on the prevail eBPF verifier, with the PFP-specific
rules proved in Verus. What prevail itself computes (the programs it reads
from an ELF file, the outcome of its analysis) enters the proofs through
named results of short trusted readers in `src/lib.rs`.

- `src/` is the verified library: the helper prototype table (`helpers`), the
  program types and context descriptors (`context_descriptors`), the platform
  answers that prevail asks for (`platform`), the analysis options (`config`),
  the values shared with the C headers (`headers`), and in `lib.rs` the choice
  of the entry point and the judgement of prevail's analysis.
- `app/` is the command line tool: prevail's `EbpfPlatform` trait implemented
  over the library's platform, the loading and analysis pipeline that hands
  prevail's results to the library, the error type with its messages, and
  `main`.
- `tests/` exercises the library on concrete values.
