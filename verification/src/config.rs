//! The options handed to prevail for every PFP program, and PFP-wide
//! verification constants.

use vstd::prelude::*;

verus! {

/// The name of the entry-point function every PFP program must export.
pub const MAIN_FUNCTION_NAME: &'static str = "cf_ebpf_main";

/// Maximum stack space (bytes) per call frame. Matches `-bpf-stack-size=8192`
/// split across [`MAX_CALL_STACK_FRAMES`] frames (2048 × 4 = 8192).
pub const STACK_FRAME_SIZE: i32 = 2048;

/// Maximum call-stack depth. Together with [`STACK_FRAME_SIZE`] this gives
/// a total verified stack of 8 KiB, matching the clang compilation flag.
pub const MAX_CALL_STACK_FRAMES: i32 = 4;

/// The stack size that clang is told a PFP program may use (`-bpf-stack-size`).
pub const TOTAL_STACK_SIZE: i32 = 8192;

/// Runtime and semantic knobs of the analysis (prevail's `EbpfRuntimeConfig`).
#[derive(Clone, Copy, Debug, PartialEq, Eq, Structural)]
pub struct RuntimeConfig {
    pub strict: bool,
    pub allow_division_by_zero: bool,
    pub setup_constraints: bool,
    pub big_endian: bool,
    pub check_for_termination: bool,
    pub subprogram_stack_size: i32,
    pub max_call_stack_frames: i32,
    pub max_packet_size: i32,
}

/// What prevail prints while it works (prevail's `VerbosityOptions`).
#[derive(Clone, Copy, Debug, PartialEq, Eq, Structural)]
pub struct VerbosityOptions {
    pub simplify: bool,
    pub print_invariants: bool,
    pub print_failures: bool,
    pub print_line_info: bool,
    pub dump_btf_types_json: bool,
    pub collect_instruction_deps: bool,
}

/// All options of one verification run (prevail's `EbpfVerifierOptions`).
#[derive(Clone, Copy, Debug, PartialEq, Eq, Structural)]
pub struct VerifierOptions {
    pub runtime: RuntimeConfig,
    pub verbosity_opts: VerbosityOptions,
    pub must_have_exit: bool,
    pub mock_map_fds: bool,
}

/// prevail's default upper bound on the packet size, `0xffff`.
pub open spec fn spec_default_max_packet_size() -> i32 {
    0xffff
}

/// `EbpfRuntimeConfig::DEFAULT_MAX_PACKET_SIZE` of prevail: the constant is
/// `0xffff` in prevail's `spec/config.rs`, and this says so.
#[verifier::external_body]
fn default_max_packet_size() -> (r: i32)
    ensures
        r == spec_default_max_packet_size(),
{
    prevail::spec::config::EbpfRuntimeConfig::DEFAULT_MAX_PACKET_SIZE
}

/// The options PFP verifies every program with. `big_endian` is whether the
/// host is big-endian: a program is taken to have been compiled for the host.
pub open spec fn spec_pfp_verifier_options(big_endian: bool) -> VerifierOptions {
    VerifierOptions {
        runtime: RuntimeConfig {
            // extra strictness around potential runtime failures
            strict: true,
            // division by zero is not allowed
            allow_division_by_zero: false,
            setup_constraints: true,
            big_endian: big_endian,
            // every program must provably terminate
            check_for_termination: true,
            subprogram_stack_size: STACK_FRAME_SIZE,
            max_call_stack_frames: MAX_CALL_STACK_FRAMES,
            max_packet_size: spec_default_max_packet_size(),
        },
        verbosity_opts: VerbosityOptions {
            // turn unconditional chains into basic blocks
            simplify: true,
            print_invariants: false,
            // failures found during verification are printed
            print_failures: true,
            // when printing the CFG, print line info for each instruction
            print_line_info: true,
            dump_btf_types_json: false,
            collect_instruction_deps: false,
        },
        // a program must have an exit
        must_have_exit: true,
        // PFP has no maps, so this keeps prevail's default
        mock_map_fds: true,
    }
}

/// The options used when verifying every single PFP program.
pub fn pfp_verifier_options(big_endian: bool) -> (r: VerifierOptions)
    ensures
        r == spec_pfp_verifier_options(big_endian),
{
    VerifierOptions {
        runtime: RuntimeConfig {
            strict: true,
            allow_division_by_zero: false,
            setup_constraints: true,
            big_endian,
            check_for_termination: true,
            subprogram_stack_size: STACK_FRAME_SIZE,
            max_call_stack_frames: MAX_CALL_STACK_FRAMES,
            max_packet_size: default_max_packet_size(),
        },
        verbosity_opts: VerbosityOptions {
            simplify: true,
            print_invariants: false,
            print_failures: true,
            print_line_info: true,
            dump_btf_types_json: false,
            collect_instruction_deps: false,
        },
        must_have_exit: true,
        mock_map_fds: true,
    }
}

/// The stack that the options allow a program (frames times frame size) is
/// exactly the stack that clang compiles PFP programs for, and the options
/// stay within the ranges prevail accepts (each size and count positive).
pub proof fn lemma_options_stack_matches_compiler(big_endian: bool)
    ensures
        ({
            let o = spec_pfp_verifier_options(big_endian);
            &&& o.runtime.subprogram_stack_size * o.runtime.max_call_stack_frames == TOTAL_STACK_SIZE
            &&& 0 < o.runtime.subprogram_stack_size
            &&& 0 < o.runtime.max_call_stack_frames
            &&& 0 < o.runtime.max_packet_size
        }),
{
}

} // verus!
