//! Trusted boundary around the compressed value buffer: an append-only
//! sequence store with random access, full iteration and memory-usage
//! accounting, provided by the `tantivy_bitpacker` crate.

use tantivy_bitpacker::BlockedBitpacker;
use vstd::prelude::*;

verus! {

/// Declares tantivy_bitpacker's BlockedBitpacker, the compressed buffer
/// behind every single-value accumulator.
#[verifier::external_type_specification]
#[verifier::external_body]
pub struct ExBlockedBitpacker(BlockedBitpacker);

/// The sequence of values appended to a compressed buffer so far, in
/// append order.
pub uninterp spec fn bitpacker_contents(b: BlockedBitpacker) -> Seq<u64>;

/// Relies on BlockedBitpacker::new: a freshly created buffer holds no
/// values.
#[verifier::external_body]
pub(crate) fn bitpacker_new() -> (r: BlockedBitpacker)
    ensures
        bitpacker_contents(r) == Seq::<u64>::empty(),
{
    BlockedBitpacker::new()
}

/// Relies on BlockedBitpacker::add: it appends the value behind the
/// already-buffered ones and changes nothing else about the contents.
#[verifier::external_body]
pub(crate) fn bitpacker_add(b: &mut BlockedBitpacker, val: u64)
    ensures
        bitpacker_contents(*final(b)) == bitpacker_contents(*old(b)).push(val),
{
    b.add(val)
}

/// Relies on BlockedBitpacker::get: within bounds it returns the value at
/// the given append position (out of bounds it may panic or read a
/// neighbouring block, hence the precondition).
#[verifier::external_body]
pub(crate) fn bitpacker_get(b: &BlockedBitpacker, idx: usize) -> (r: u64)
    requires
        idx < bitpacker_contents(*b).len(),
    ensures
        r == bitpacker_contents(*b)[idx as int],
{
    b.get(idx)
}

/// Relies on BlockedBitpacker::iter: it yields exactly the appended values
/// in append order, the compressed blocks first and the still-uncompressed
/// tail after them.
#[verifier::external_body]
pub(crate) fn bitpacker_to_vec(b: &BlockedBitpacker) -> (r: Vec<u64>)
    ensures
        r@ == bitpacker_contents(*b),
{
    b.iter().collect()
}

/// Relies on BlockedBitpacker::mem_usage. The result counts the capacity
/// of the buffer's allocations, which the allocator chooses, so nothing is
/// promised about it.
#[verifier::external_body]
pub(crate) fn bitpacker_mem_usage(b: &BlockedBitpacker) -> usize {
    b.mem_usage()
}

} // verus!
