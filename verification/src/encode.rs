//! Order-preserving encoding of typed field values into the unsigned 64-bit
//! domain in which all fast-field values are buffered and compared.

use vstd::prelude::*;

verus! {

/// Mask of the sign bit, the pivot of both order-preserving encodings.
pub const HIGHEST_BIT: u64 = 0x8000_0000_0000_0000;

/// What the signed-integer encoding returns: the two's-complement bit
/// pattern with the sign bit flipped, so that unsigned order on results
/// matches signed order on arguments.
pub open spec fn i64_to_u64_spec(val: i64) -> u64 {
    (val as u64) ^ HIGHEST_BIT
}

/// Relies on tantivy_common::i64_to_u64: it returns `(val as u64) ^ (1 << 63)`,
/// mapping `-2^63 .. 2^63 - 1` onto `0 .. 2^64 - 1` in order.
#[verifier::external_body]
pub(crate) fn encode_i64(val: i64) -> (r: u64)
    ensures
        r == i64_to_u64_spec(val),
{
    tantivy_common::i64_to_u64(val)
}

/// What the encoding of an IEEE-754 double-precision bit pattern returns:
/// patterns with the sign bit clear get the sign bit set; patterns with the
/// sign bit set are inverted wholesale. Unsigned order on results then
/// matches the sign-magnitude order on the original patterns.
pub open spec fn f64_bits_to_u64_spec(bits: u64) -> u64 {
    if bits & HIGHEST_BIT == 0 {
        bits ^ HIGHEST_BIT
    } else {
        !bits
    }
}

/// Order-preserving encoding of an IEEE-754 double-precision value, taken
/// as its bit pattern. Matches the folding used by the surrounding index
/// format for double-precision fast fields.
pub fn encode_f64_bits(bits: u64) -> (r: u64)
    ensures
        r == f64_bits_to_u64_spec(bits),
{
    if bits & HIGHEST_BIT == 0 {
        bits ^ HIGHEST_BIT
    } else {
        !bits
    }
}

/// The sign-magnitude total order on IEEE-754 double-precision bit
/// patterns. It agrees with the numeric comparison wherever the numeric
/// comparison orders two values strictly (and additionally orders the two
/// zero patterns and the non-numeric patterns).
pub open spec fn f64_bits_lt(a: u64, b: u64) -> bool {
    if a & HIGHEST_BIT == 0 && b & HIGHEST_BIT == 0 {
        a < b
    } else if a & HIGHEST_BIT != 0 && b & HIGHEST_BIT != 0 {
        b < a
    } else {
        a & HIGHEST_BIT != 0 && b & HIGHEST_BIT == 0
    }
}

/// The signed-integer encoding is strictly monotonic: smaller signed
/// arguments give strictly smaller unsigned encodings.
pub proof fn lemma_encode_i64_monotonic(a: i64, b: i64)
    requires
        a < b,
    ensures
        i64_to_u64_spec(a) < i64_to_u64_spec(b),
{
    assert(((a as u64) ^ 0x8000_0000_0000_0000u64) < ((b as u64) ^ 0x8000_0000_0000_0000u64))
        by (bit_vector)
        requires
            a < b,
    ;
}

/// The double-precision encoding is strictly monotonic with respect to the
/// sign-magnitude order on bit patterns: a pattern strictly below another
/// gets a strictly smaller unsigned encoding.
pub proof fn lemma_encode_f64_bits_monotonic(a: u64, b: u64)
    requires
        f64_bits_lt(a, b),
    ensures
        f64_bits_to_u64_spec(a) < f64_bits_to_u64_spec(b),
{
    if a & HIGHEST_BIT == 0 && b & HIGHEST_BIT == 0 {
        assert(a & 0x8000_0000_0000_0000u64 == 0 && b & 0x8000_0000_0000_0000u64 == 0 && a < b
            ==> (a ^ 0x8000_0000_0000_0000u64) < (b ^ 0x8000_0000_0000_0000u64)) by (bit_vector);
    } else if a & HIGHEST_BIT != 0 && b & HIGHEST_BIT != 0 {
        assert(a & 0x8000_0000_0000_0000u64 != 0 && b & 0x8000_0000_0000_0000u64 != 0 && b < a
            ==> !a < !b) by (bit_vector);
    } else {
        assert(a & 0x8000_0000_0000_0000u64 != 0 && b & 0x8000_0000_0000_0000u64 == 0
            ==> !a < (b ^ 0x8000_0000_0000_0000u64)) by (bit_vector);
    }
}

} // verus!
