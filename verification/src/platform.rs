//! The PFP platform: what prevail asks of the platform it verifies for.
//!
//! PFP has no maps, so every map-related request of prevail is refused; what
//! remains is answered here.

use vstd::prelude::*;
use crate::context_descriptors::{get_program_type, spec_get_program_type, ProgramType};
use crate::headers::CF_EBPF_NUM_HELPERS_MAX;
use crate::helpers::{helper_protos, spec_helper_protos, HelperPrototype};

verus! {

/// `BASE32 | BASE64 | ATOMIC32 | ATOMIC64 | DIVMUL32 | DIVMUL64` of the
/// BPF instruction set conformance groups: every group but `packet` and `callx`.
pub open spec fn spec_default_conformance_groups() -> u32 {
    0x3f
}

/// prevail's `linux::linux_platform::conformance_groups::DEFAULT_GROUPS`, which
/// prevail's source defines as the union of the base, atomic and divmul groups
/// of 32 and 64 bits (0x3f); this says so.
#[verifier::external_body]
fn default_conformance_groups() -> (r: u32)
    ensures
        r == spec_default_conformance_groups(),
{
    prevail::linux::linux_platform::conformance_groups::DEFAULT_GROUPS
}

/// PFP specific platform details for the verifier.
pub struct PfpEbpfPlatform;

impl PfpEbpfPlatform {
    /// Whether helper number `n` may be called by a program.
    pub open spec fn spec_is_helper_usable(n: i32) -> bool {
        0 <= n < spec_helper_protos().len() && !spec_helper_protos()[n as int].unsupported
    }

    /// The program type of the programs in ELF section `section`; the path of
    /// the file plays no part.
    pub fn get_program_type(&self, section: &str, _path: &str) -> (r: ProgramType)
        ensures
            r@ == spec_get_program_type(section@),
    {
        get_program_type(section)
    }

    /// The prototype of helper number `n`.
    ///
    /// `n` must be a usable helper number (see [`Self::is_helper_usable`]).
    pub fn get_helper_prototype(&self, n: i32) -> (r: HelperPrototype)
        requires
            Self::spec_is_helper_usable(n),
        ensures
            r == spec_helper_protos()[n as int],
    {
        let protos = helper_protos();
        protos[n as usize]
    }

    /// Whether helper number `n` is a helper of the table that is supported.
    pub fn is_helper_usable(&self, n: i32) -> (r: bool)
        ensures
            r == Self::spec_is_helper_usable(n),
    {
        let protos = helper_protos();
        n >= 0 && (n as usize) < protos.len() && !protos[n as usize].unsupported
    }

    /// The BPF conformance groups that PFP programs may use: the default ones
    /// of the Linux platform.
    pub fn supported_conformance_groups(&self) -> (r: u32)
        ensures
            r == spec_default_conformance_groups(),
    {
        default_conformance_groups()
    }
}

/// The usable helpers are exactly helper numbers 0 to
/// `CF_EBPF_NUM_HELPERS_MAX - 1`.
pub proof fn lemma_usable_iff_in_table(n: i32)
    ensures
        PfpEbpfPlatform::spec_is_helper_usable(n) <==> 0 <= n < CF_EBPF_NUM_HELPERS_MAX,
{
    crate::helpers::lemma_helper_table_shape();
    if 0 <= n < CF_EBPF_NUM_HELPERS_MAX {
        assert(!spec_helper_protos()[n as int].unsupported);
    }
}

} // verus!
