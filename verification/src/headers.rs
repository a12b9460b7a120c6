//! Values that PFP programs and the verifier share with the C headers
//! `cf_ebpf_defs.h` and `cf_ebpf_helper.h`.

use vstd::prelude::*;

verus! {

/// `CF_EBPF_PASS`: the return value with which a program lets a packet through.
pub const CF_EBPF_PASS: u32 = 0;

/// `CF_EBPF_DROP`: the return value with which a program drops a packet.
pub const CF_EBPF_DROP: u32 = 1;

/// `CF_EBPF_NUM_HELPERS_MAX`: one more than the largest helper index of the
/// helper enum (index 0 is reserved and unused).
pub const CF_EBPF_NUM_HELPERS_MAX: u32 = 21;

/// Byte offset of `data` (pointer to the packet data) in `cf_ebpf_generic_ctx`.
pub const GENERIC_CTX_DATA_OFFSET: i32 = 0;

/// Byte offset of `data_end` (one past the packet data) in `cf_ebpf_generic_ctx`.
pub const GENERIC_CTX_DATA_END_OFFSET: i32 = 8;

/// Byte offset of `metadata` (a scratch field) in `cf_ebpf_generic_ctx`.
pub const GENERIC_CTX_METADATA_OFFSET: i32 = 16;

/// Size in bytes of `cf_ebpf_generic_ctx`: three `uint64_t` fields.
pub const GENERIC_CTX_SIZE: i32 = 24;

} // verus!
