//! Context descriptors and program types.
//!
//! Each BPF program type has an associated context descriptor that tells
//! prevail the shape of the struct passed in `r1` at program entry. Prevail
//! uses this to track pointer bounds for memory-safety verification of packet
//! data accesses.

use vstd::prelude::*;
use crate::headers::{
    GENERIC_CTX_DATA_END_OFFSET, GENERIC_CTX_DATA_OFFSET, GENERIC_CTX_METADATA_OFFSET,
    GENERIC_CTX_SIZE,
};
use crate::text::starts_with;

verus! {

/// The layout of a program's context struct: its size and the byte offsets
/// of the packet data pointer, the packet end pointer and the metadata field.
#[derive(Clone, Copy, Debug, PartialEq, Eq, Structural)]
pub struct ContextDescriptor {
    pub size: i32,
    pub data: i32,
    pub end: i32,
    pub meta: i32,
}

/// Context descriptor for `cf_ebpf_generic` programs.
///
/// Maps to `cf_ebpf_generic_ctx` from `cf_ebpf_defs.h`:
/// ```c
/// struct cf_ebpf_generic_ctx {
///     uint64_t data;      // offset  0 — pointer to cf_ebpf_packet_data
///     uint64_t data_end;  // offset  8 — one-past-end pointer
///     uint64_t metadata;  // offset 16 — scratch field
/// };
/// ```
pub open spec fn spec_generic_descriptor() -> ContextDescriptor {
    ContextDescriptor {
        size: GENERIC_CTX_SIZE,
        data: GENERIC_CTX_DATA_OFFSET,
        end: GENERIC_CTX_DATA_END_OFFSET,
        meta: GENERIC_CTX_METADATA_OFFSET,
    }
}

/// Context descriptor for unspecified program types: PFP treats them the same
/// as generic programs.
pub open spec fn spec_unspec_descriptor() -> ContextDescriptor {
    spec_generic_descriptor()
}

/// The context descriptor of `cf_ebpf_generic` programs.
pub fn cf_ebpf_generic_descr() -> (r: ContextDescriptor)
    ensures
        r == spec_generic_descriptor(),
        // three 8-byte fields, in order, filling the struct
        r.data + 8 == r.end,
        r.end + 8 == r.meta,
        r.meta + 8 == r.size,
        r.data == 0,
{
    ContextDescriptor {
        size: GENERIC_CTX_SIZE,
        data: GENERIC_CTX_DATA_OFFSET,
        end: GENERIC_CTX_DATA_END_OFFSET,
        meta: GENERIC_CTX_METADATA_OFFSET,
    }
}

/// The context descriptor of unspecified programs: the same as the generic one,
/// so such programs still get full packet-data context pointer tracking.
pub fn cf_ebpf_unspec_descr() -> (r: ContextDescriptor)
    ensures
        r == spec_unspec_descriptor(),
        r == spec_generic_descriptor(),
{
    cf_ebpf_generic_descr()
}

/// A BPF program type, as prevail's `EbpfProgramType` describes it.
pub struct ProgramType {
    pub name: String,
    pub context_descriptor: Option<ContextDescriptor>,
    /// Only used by prevail's linux-kernel-verifier path, which PFP never invokes.
    pub platform_specific_data: u64,
    /// A section whose name starts with one of these is of this type.
    pub section_prefixes: Vec<String>,
    pub is_privileged: bool,
    pub is_sleepable: bool,
}

/// The mathematical value of a [`ProgramType`].
pub struct ProgramTypeView {
    pub name: Seq<char>,
    pub context_descriptor: Option<ContextDescriptor>,
    pub platform_specific_data: u64,
    pub section_prefixes: Seq<Seq<char>>,
    pub is_privileged: bool,
    pub is_sleepable: bool,
}

impl View for ProgramType {
    type V = ProgramTypeView;

    open spec fn view(&self) -> ProgramTypeView {
        ProgramTypeView {
            name: self.name@,
            context_descriptor: self.context_descriptor,
            platform_specific_data: self.platform_specific_data,
            section_prefixes: self.section_prefixes@.map_values(|p: String| p@),
            is_privileged: self.is_privileged,
            is_sleepable: self.is_sleepable,
        }
    }
}

/// The program type of `cf_ebpf_generic` programs: any section whose name
/// starts with `"cf_ebpf_generic"`.
pub open spec fn spec_generic_program_type() -> ProgramTypeView {
    ProgramTypeView {
        name: "cf_ebpf_generic"@,
        context_descriptor: Some(spec_generic_descriptor()),
        platform_specific_data: 0,
        section_prefixes: seq!["cf_ebpf_generic"@],
        is_privileged: false,
        is_sleepable: false,
    }
}

/// The program type used when no section prefix matches.
pub open spec fn spec_unspec_program_type() -> ProgramTypeView {
    ProgramTypeView {
        name: "unspec"@,
        context_descriptor: Some(spec_unspec_descriptor()),
        platform_specific_data: 0,
        section_prefixes: Seq::empty(),
        is_privileged: false,
        is_sleepable: false,
    }
}

/// Whether one of the section prefixes of `t` begins `section`.
pub open spec fn matches_section(t: ProgramTypeView, section: Seq<char>) -> bool {
    exists|i: int| 0 <= i < t.section_prefixes.len() && #[trigger] t.section_prefixes[i].is_prefix_of(section)
}

/// The program types that PFP knows, in the order in which they are tried.
pub open spec fn spec_known_program_types() -> Seq<ProgramTypeView> {
    seq![spec_generic_program_type()]
}

/// The first known program type that matches `section`, else the unspecified one.
pub open spec fn spec_get_program_type(section: Seq<char>) -> ProgramTypeView {
    if matches_section(spec_generic_program_type(), section) {
        spec_generic_program_type()
    } else {
        spec_unspec_program_type()
    }
}

/// Returns the program type used as a fallback when no section prefix matches.
pub fn unspec_program_type() -> (r: ProgramType)
    ensures
        r@ == spec_unspec_program_type(),
{
    let r = ProgramType {
        name: String::from_str("unspec"),
        context_descriptor: Some(cf_ebpf_unspec_descr()),
        platform_specific_data: 0,
        section_prefixes: Vec::new(),
        is_privileged: false,
        is_sleepable: false,
    };
    assert(r@.section_prefixes =~= Seq::<Seq<char>>::empty());
    r
}

/// Returns the program type for `cf_ebpf_generic` programs.
///
/// Matches any ELF section whose name starts with `"cf_ebpf_generic"`.
pub fn generic_program_type() -> (r: ProgramType)
    ensures
        r@ == spec_generic_program_type(),
{
    let mut prefixes: Vec<String> = Vec::new();
    prefixes.push(String::from_str("cf_ebpf_generic"));
    let r = ProgramType {
        name: String::from_str("cf_ebpf_generic"),
        context_descriptor: Some(cf_ebpf_generic_descr()),
        platform_specific_data: 0,
        section_prefixes: prefixes,
        is_privileged: false,
        is_sleepable: false,
    };
    assert(r@.section_prefixes =~= seq!["cf_ebpf_generic"@]);
    r
}

/// Whether one of the section prefixes of `t` begins `section`.
fn matches(t: &ProgramType, section: &str) -> (r: bool)
    ensures
        r == matches_section(t@, section@),
{
    let n = t.section_prefixes.len();
    let mut i: usize = 0;
    while i < n
        invariant
            n == t.section_prefixes@.len(),
            i <= n,
            forall|j: int| 0 <= j < i ==> !(#[trigger] t@.section_prefixes[j]).is_prefix_of(section@),
        decreases n - i,
    {
        if starts_with(section, t.section_prefixes[i].as_str()) {
            assert(t@.section_prefixes[i as int].is_prefix_of(section@));
            return true;
        }
        i = i + 1;
    }
    false
}

/// Resolves a BPF program type from an ELF section name.
///
/// Tries the known program types in order and returns the first whose section
/// prefixes match the start of `section`. Falls back to
/// [`unspec_program_type`] when nothing matches.
pub fn get_program_type(section: &str) -> (r: ProgramType)
    ensures
        r@ == spec_get_program_type(section@),
{
    let mut known: Vec<ProgramType> = Vec::new();
    known.push(generic_program_type());
    let n = known.len();
    let mut i: usize = 0;
    while i < n
        invariant
            n == known@.len(),
            n == spec_known_program_types().len(),
            forall|j: int| 0 <= j < n ==> (#[trigger] known@[j])@ == spec_known_program_types()[j],
            i <= n,
            forall|j: int| 0 <= j < i ==> !matches_section(#[trigger] spec_known_program_types()[j], section@),
        decreases n - i,
    {
        if matches(&known[i], section) {
            let r = known.remove(i);
            return r;
        }
        i = i + 1;
    }
    assert(!matches_section(spec_known_program_types()[0], section@));
    unspec_program_type()
}

/// A section is of the generic program type exactly when its name starts with
/// `"cf_ebpf_generic"`; every other section is of the unspecified type.
pub proof fn lemma_generic_iff_prefix(section: Seq<char>)
    ensures
        spec_get_program_type(section) == spec_generic_program_type()
            <==> "cf_ebpf_generic"@.is_prefix_of(section),
        !"cf_ebpf_generic"@.is_prefix_of(section) ==> spec_get_program_type(section)
            == spec_unspec_program_type(),
{
    let g = spec_generic_program_type();
    if "cf_ebpf_generic"@.is_prefix_of(section) {
        assert(g.section_prefixes[0].is_prefix_of(section));
    } else {
        assert(!matches_section(g, section));
        reveal_strlit("unspec");
        reveal_strlit("cf_ebpf_generic");
        assert(spec_unspec_program_type().name.len() != g.name.len());
    }
}

/// Whatever its section, every program gets the generic context descriptor,
/// so its packet data pointers are always tracked.
pub proof fn lemma_every_program_type_has_generic_context(section: Seq<char>)
    ensures
        spec_get_program_type(section).context_descriptor == Some(spec_generic_descriptor()),
{
}

} // verus!
