//! Prototypes of the helper functions that PFP programs may call.
//!
//! The index of a prototype in the table is the helper's number in the helper
//! enum of `cf_ebpf_helper.h`, so the order here must match the header.

use vstd::prelude::*;
use crate::context_descriptors::ContextDescriptor;
use crate::headers::CF_EBPF_NUM_HELPERS_MAX;

verus! {

/// What a helper returns (a subset of prevail's `EbpfReturnType`).
#[derive(Clone, Copy, Debug, PartialEq, Eq, Structural)]
pub enum ReturnType {
    Integer,
}

/// What a helper expects in one argument register (a subset of prevail's
/// `EbpfArgumentType`).
#[derive(Clone, Copy, Debug, PartialEq, Eq, Structural)]
pub enum ArgumentType {
    /// The register is not an argument.
    DontCare,
    /// Any value.
    Anything,
    /// A size, known to be positive, of the buffer in the argument before.
    ConstSize,
    /// A size, possibly zero, of the buffer in the argument before.
    ConstSizeOrZero,
    /// A pointer to initialized memory that the helper reads.
    PtrToReadableMem,
    /// A pointer to memory that the helper writes in full.
    PtrToWritableMem,
}

/// The prototype of one helper function, as prevail's `HelperPrototype`.
#[derive(Clone, Copy, Debug)]
pub struct HelperPrototype {
    pub name: &'static str,
    pub return_type: ReturnType,
    pub argument_type: [ArgumentType; 5],
    pub reallocate_packet: bool,
    pub ctx_descriptor: Option<ContextDescriptor>,
    pub unsupported: bool,
    /// None of the helpers puts the thread to sleep.
    pub might_sleep: bool,
    /// Argument positions that must be provably zero: none for PFP helpers.
    pub zero_args_mask: u8,
    /// Map types the helper accepts: PFP has no maps.
    pub allowed_map_types: u64,
}

/// The prototype of a helper named `name` that returns an integer and takes
/// the arguments `args`; everything else is as in the base prototype.
pub open spec fn spec_helper(name: &'static str, args: [ArgumentType; 5]) -> HelperPrototype {
    HelperPrototype {
        name: name,
        return_type: ReturnType::Integer,
        argument_type: args,
        reallocate_packet: false,
        ctx_descriptor: None,
        unsupported: false,
        might_sleep: false,
        zero_args_mask: 0,
        allowed_map_types: 0,
    }
}

/// No arguments.
pub open spec fn no_args() -> [ArgumentType; 5] {
    [ArgumentType::DontCare, ArgumentType::DontCare, ArgumentType::DontCare, ArgumentType::DontCare, ArgumentType::DontCare]
}

/// `(uint8_t *src, size_t src_len, uint8_t *dest, size_t dest_len)`.
pub open spec fn read_then_write_args() -> [ArgumentType; 5] {
    [ArgumentType::PtrToReadableMem, ArgumentType::ConstSize, ArgumentType::PtrToWritableMem, ArgumentType::ConstSize, ArgumentType::DontCare]
}

/// `(uint8_t *src, size_t src_len)` where the length may be zero.
pub open spec fn read_maybe_empty_args() -> [ArgumentType; 5] {
    [ArgumentType::PtrToReadableMem, ArgumentType::ConstSizeOrZero, ArgumentType::DontCare, ArgumentType::DontCare, ArgumentType::DontCare]
}

/// `(uint8_t *src, size_t src_len)`.
pub open spec fn read_args() -> [ArgumentType; 5] {
    [ArgumentType::PtrToReadableMem, ArgumentType::ConstSize, ArgumentType::DontCare, ArgumentType::DontCare, ArgumentType::DontCare]
}

/// `(T *out, size_t out_len, U *out2, size_t out2_len)`.
pub open spec fn write_write_args() -> [ArgumentType; 5] {
    [ArgumentType::PtrToWritableMem, ArgumentType::ConstSize, ArgumentType::PtrToWritableMem, ArgumentType::ConstSize, ArgumentType::DontCare]
}

/// `(T *out, size_t out_len)`.
pub open spec fn write_args() -> [ArgumentType; 5] {
    [ArgumentType::PtrToWritableMem, ArgumentType::ConstSize, ArgumentType::DontCare, ArgumentType::DontCare, ArgumentType::DontCare]
}

/// `(uint64_t value)`.
pub open spec fn one_value_args() -> [ArgumentType; 5] {
    [ArgumentType::Anything, ArgumentType::DontCare, ArgumentType::DontCare, ArgumentType::DontCare, ArgumentType::DontCare]
}

/// `(uint8_t status, uint64_t expiry_secs)`.
pub open spec fn two_value_args() -> [ArgumentType; 5] {
    [ArgumentType::Anything, ArgumentType::Anything, ArgumentType::DontCare, ArgumentType::DontCare, ArgumentType::DontCare]
}

/// Prototypes for all PFP helper functions, indexed by helper number.
pub open spec fn spec_helper_protos() -> Seq<HelperPrototype> {
    seq![
        // helper index 0 is unused
        spec_helper("unused", no_args()),
        spec_helper("rand", no_args()),
        spec_helper("timestamp", no_args()),
        // printf is exempt from checks: prevail cannot follow a C format string
        spec_helper("printf", no_args()),
        spec_helper("hash_md5", read_then_write_args()),
        spec_helper("hash_sha256", read_then_write_args()),
        spec_helper("hash_sha512", read_then_write_args()),
        spec_helper("_cf_ebpf_hash_crc32_raw", read_then_write_args()),
        spec_helper("hmac_sha256", read_then_write_args()),
        spec_helper("hmac_sha512", read_then_write_args()),
        spec_helper("set_challenge", read_maybe_empty_args()),
        spec_helper("_cf_ebpf_get_src_ip_status_raw", write_write_args()),
        spec_helper("set_src_ip_status", two_value_args()),
        spec_helper("_cf_ebpf_get_src_ip_data_raw", write_args()),
        spec_helper("set_src_ip_data", one_value_args()),
        spec_helper("_cf_ebpf_get_flow_data_raw", write_args()),
        spec_helper("set_flow_data", one_value_args()),
        spec_helper("entropy", read_args()),
        spec_helper("set_network_analytics_tag", one_value_args()),
        spec_helper("hash_blake2b512", read_then_write_args()),
        spec_helper("hmac_blake2b512", read_then_write_args()),
    ]
}

/// Base defaults that the prototypes copy their missing fields from.
fn base_helper_proto() -> (r: HelperPrototype)
    ensures
        r == spec_helper("", no_args()),
{
    HelperPrototype {
        name: "",
        return_type: ReturnType::Integer,
        argument_type: [
            ArgumentType::DontCare,
            ArgumentType::DontCare,
            ArgumentType::DontCare,
            ArgumentType::DontCare,
            ArgumentType::DontCare,
        ],
        reallocate_packet: false,
        ctx_descriptor: None,
        unsupported: false,
        might_sleep: false,
        zero_args_mask: 0b00000,
        allowed_map_types: 0,
    }
}

/// The base prototype with a name and arguments of its own.
fn helper(name: &'static str, args: [ArgumentType; 5]) -> (r: HelperPrototype)
    ensures
        r == spec_helper(name, args),
{
    HelperPrototype { name, argument_type: args, ..base_helper_proto() }
}

/// Prototypes for all PFP helper functions.
///
/// The order must exactly match the order in the header files, since the
/// indices here map to the helper type enum in the header. There is one
/// prototype for each helper number below `CF_EBPF_NUM_HELPERS_MAX`.
pub fn helper_protos() -> (r: Vec<HelperPrototype>)
    ensures
        r@ == spec_helper_protos(),
        r@.len() == CF_EBPF_NUM_HELPERS_MAX,
{
    let dc = ArgumentType::DontCare;
    let any = ArgumentType::Anything;
    let size = ArgumentType::ConstSize;
    let size0 = ArgumentType::ConstSizeOrZero;
    let rd = ArgumentType::PtrToReadableMem;
    let wr = ArgumentType::PtrToWritableMem;
    let none = [dc, dc, dc, dc, dc];
    let rd_wr = [rd, size, wr, size, dc];
    let rd_maybe_empty = [rd, size0, dc, dc, dc];
    let rd_only = [rd, size, dc, dc, dc];
    let wr_wr = [wr, size, wr, size, dc];
    let wr_only = [wr, size, dc, dc, dc];
    let one = [any, dc, dc, dc, dc];
    let two = [any, any, dc, dc, dc];
    assert(none == no_args());
    assert(rd_wr == read_then_write_args());
    assert(rd_maybe_empty == read_maybe_empty_args());
    assert(rd_only == read_args());
    assert(wr_wr == write_write_args());
    assert(wr_only == write_args());
    assert(one == one_value_args());
    assert(two == two_value_args());
    let r = vec![
        helper("unused", none),
        helper("rand", none),
        helper("timestamp", none),
        helper("printf", none),
        helper("hash_md5", rd_wr),
        helper("hash_sha256", rd_wr),
        helper("hash_sha512", rd_wr),
        helper("_cf_ebpf_hash_crc32_raw", rd_wr),
        helper("hmac_sha256", rd_wr),
        helper("hmac_sha512", rd_wr),
        helper("set_challenge", rd_maybe_empty),
        helper("_cf_ebpf_get_src_ip_status_raw", wr_wr),
        helper("set_src_ip_status", two),
        helper("_cf_ebpf_get_src_ip_data_raw", wr_only),
        helper("set_src_ip_data", one),
        helper("_cf_ebpf_get_flow_data_raw", wr_only),
        helper("set_flow_data", one),
        helper("entropy", rd_only),
        helper("set_network_analytics_tag", one),
        helper("hash_blake2b512", rd_wr),
        helper("hmac_blake2b512", rd_wr),
    ];
    assert(r@ =~= spec_helper_protos());
    r
}

/// Whether an argument passes a pointer to a buffer.
pub open spec fn is_buffer(a: ArgumentType) -> bool {
    a == ArgumentType::PtrToReadableMem || a == ArgumentType::PtrToWritableMem
}

/// Whether an argument passes the size of the buffer before it.
pub open spec fn is_size(a: ArgumentType) -> bool {
    a == ArgumentType::ConstSize || a == ArgumentType::ConstSizeOrZero
}

/// Prevail requires that a buffer argument be immediately followed by its
/// size: every buffer argument is followed by a size argument, and every size
/// argument follows a buffer argument.
pub open spec fn buffers_sized(args: [ArgumentType; 5]) -> bool {
    &&& forall|j: int| 0 <= j < 5 && is_buffer(#[trigger] args@[j]) ==> j + 1 < 5 && is_size(args@[j + 1])
    &&& forall|j: int| 0 <= j < 5 && is_size(#[trigger] args@[j]) ==> 0 < j && is_buffer(args@[j - 1])
}

/// Every helper of the table is supported, returns an integer, neither sleeps
/// nor moves the packet, needs no context and no map, and passes each buffer
/// together with its size.
pub proof fn lemma_helper_table_shape()
    ensures
        spec_helper_protos().len() == CF_EBPF_NUM_HELPERS_MAX,
        forall|i: int| 0 <= i < spec_helper_protos().len() ==> {
            let p = #[trigger] spec_helper_protos()[i];
            &&& !p.unsupported
            &&& p.return_type == ReturnType::Integer
            &&& !p.might_sleep
            &&& !p.reallocate_packet
            &&& p.ctx_descriptor is None
            &&& p.zero_args_mask == 0
            &&& p.allowed_map_types == 0
            &&& buffers_sized(p.argument_type)
        },
{
    assert(buffers_sized(no_args()));
    assert(buffers_sized(read_then_write_args()));
    assert(buffers_sized(read_maybe_empty_args()));
    assert(buffers_sized(read_args()));
    assert(buffers_sized(write_write_args()));
    assert(buffers_sized(write_args()));
    assert(buffers_sized(one_value_args()));
    assert(buffers_sized(two_value_args()));
}

/// Each helper takes the arguments of its C prototype in `cf_ebpf_helper.h`,
/// helper number by helper number:
/// - 0 (unused), 1 `rand`, 2 `timestamp` and 3 `printf` take nothing that is
///   checked;
/// - the hashes and HMACs, 4 to 9, 19 and 20, take
///   `(uint8_t *src, size_t src_len, uint8_t *dest, size_t dest_len)`: they read
///   the source and write the whole destination;
/// - 10 `set_challenge` reads a buffer that may be empty;
/// - 11 `_cf_ebpf_get_src_ip_status_raw` writes two buffers;
/// - 12 `set_src_ip_status` takes two values;
/// - 13 `_cf_ebpf_get_src_ip_data_raw` and 15 `_cf_ebpf_get_flow_data_raw`
///   write one buffer;
/// - 14 `set_src_ip_data`, 16 `set_flow_data` and 18
///   `set_network_analytics_tag` take one value;
/// - 17 `entropy` reads one buffer.
pub proof fn lemma_helper_argument_kinds()
    ensures
        spec_helper_protos().len() == 21,
        forall|i: int| 0 <= i <= 3 ==> (#[trigger] spec_helper_protos()[i]).argument_type == [
            ArgumentType::DontCare,
            ArgumentType::DontCare,
            ArgumentType::DontCare,
            ArgumentType::DontCare,
            ArgumentType::DontCare,
        ],
        forall|i: int| (4 <= i <= 9 || i == 19 || i == 20) ==> (#[trigger] spec_helper_protos()[i]).argument_type == [
            ArgumentType::PtrToReadableMem,
            ArgumentType::ConstSize,
            ArgumentType::PtrToWritableMem,
            ArgumentType::ConstSize,
            ArgumentType::DontCare,
        ],
        spec_helper_protos()[10].argument_type == [
            ArgumentType::PtrToReadableMem,
            ArgumentType::ConstSizeOrZero,
            ArgumentType::DontCare,
            ArgumentType::DontCare,
            ArgumentType::DontCare,
        ],
        spec_helper_protos()[11].argument_type == [
            ArgumentType::PtrToWritableMem,
            ArgumentType::ConstSize,
            ArgumentType::PtrToWritableMem,
            ArgumentType::ConstSize,
            ArgumentType::DontCare,
        ],
        spec_helper_protos()[12].argument_type == [
            ArgumentType::Anything,
            ArgumentType::Anything,
            ArgumentType::DontCare,
            ArgumentType::DontCare,
            ArgumentType::DontCare,
        ],
        forall|i: int| (i == 13 || i == 15) ==> (#[trigger] spec_helper_protos()[i]).argument_type == [
            ArgumentType::PtrToWritableMem,
            ArgumentType::ConstSize,
            ArgumentType::DontCare,
            ArgumentType::DontCare,
            ArgumentType::DontCare,
        ],
        forall|i: int| (i == 14 || i == 16 || i == 18) ==> (#[trigger] spec_helper_protos()[i]).argument_type == [
            ArgumentType::Anything,
            ArgumentType::DontCare,
            ArgumentType::DontCare,
            ArgumentType::DontCare,
            ArgumentType::DontCare,
        ],
        spec_helper_protos()[17].argument_type == [
            ArgumentType::PtrToReadableMem,
            ArgumentType::ConstSize,
            ArgumentType::DontCare,
            ArgumentType::DontCare,
            ArgumentType::DontCare,
        ],
{
}

/// A helper reads memory exactly when it is one of the hashes and HMACs (4 to
/// 9, 19, 20), `set_challenge` (10) or `entropy` (17); it writes memory exactly
/// when it is a hash or HMAC or one of the getters (11, 13, 15). In
/// particular no getter requires its output buffer to be initialised.
pub proof fn lemma_helper_memory_access()
    ensures
        forall|i: int, j: int| 0 <= i < spec_helper_protos().len() && 0 <= j < 5 ==>
            (#[trigger] spec_helper_protos()[i].argument_type@[j] == ArgumentType::PtrToReadableMem
                ==> (4 <= i <= 10 || i == 17 || i == 19 || i == 20)),
        forall|i: int| (4 <= i <= 10 || i == 17 || i == 19 || i == 20) ==>
            (#[trigger] spec_helper_protos()[i]).argument_type@[0] == ArgumentType::PtrToReadableMem,
        forall|i: int, j: int| 0 <= i < spec_helper_protos().len() && 0 <= j < 5 ==>
            (#[trigger] spec_helper_protos()[i].argument_type@[j] == ArgumentType::PtrToWritableMem
                ==> (4 <= i <= 9 || i == 11 || i == 13 || i == 15 || i == 19 || i == 20)),
        forall|i: int| (4 <= i <= 9 || i == 19 || i == 20) ==>
            (#[trigger] spec_helper_protos()[i]).argument_type@[2] == ArgumentType::PtrToWritableMem,
        forall|i: int| (i == 11 || i == 13 || i == 15) ==>
            (#[trigger] spec_helper_protos()[i]).argument_type@[0] == ArgumentType::PtrToWritableMem,
{
    lemma_helper_argument_kinds();
}

} // verus!
