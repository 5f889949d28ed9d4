//! Order keys of `f32` bit patterns.
//!
//! For IEEE-754 singles other than NaN, `a < b` holds exactly when the
//! sign-magnitude values of their bit patterns compare so (with -0 = +0).
//! Mapping a bit pattern to its order key turns that order into the order of
//! unsigned integers, so comparisons, maxima and minima of `f32` values can be
//! taken on keys, and the key maps back to the same bit pattern.

use vstd::prelude::*;

verus! {

/// Value of a sign-magnitude bit pattern (sign bit, then 31 magnitude bits), the
/// layout of an IEEE-754 single: for non-NaN singles, `a < b` exactly when the
/// sign-magnitude values of their bit patterns compare so (with -0 = +0).
pub open spec fn sign_magnitude(bits: u32) -> int {
    if bits >= 0x8000_0000 { -((bits - 0x8000_0000) as int) } else { bits as int }
}

/// Order key of a sign-magnitude bit pattern.
pub open spec fn spec_order_key(bits: u32) -> int {
    if bits >= 0x8000_0000 { 0xFFFF_FFFF - bits } else { bits + 0x8000_0000 }
}

/// Order key of the bit pattern of an `f32`: negative values map below
/// `2^31`, in reverse magnitude order, non-negative values to `2^31` and above.
pub fn order_key(bits: u32) -> (k: u32)
    ensures
        k == spec_order_key(bits),
{
    if bits >= 0x8000_0000 {
        let k = !bits;
        assert(bits >= 0x8000_0000 ==> !bits == 0xFFFF_FFFF - bits) by (bit_vector);
        k
    } else {
        let k = bits | 0x8000_0000;
        assert(bits < 0x8000_0000 ==> bits | 0x8000_0000 == bits + 0x8000_0000) by (bit_vector);
        k
    }
}

/// Order keys preserve the sign-magnitude order: a smaller value gets a
/// smaller key, and a smaller key never belongs to a larger value. Distinct
/// patterns get distinct keys.
pub proof fn lemma_order_key_monotone(a: u32, b: u32)
    ensures
        sign_magnitude(a) < sign_magnitude(b) ==> spec_order_key(a) < spec_order_key(b),
        spec_order_key(a) < spec_order_key(b) ==> sign_magnitude(a) <= sign_magnitude(b),
        a != b ==> spec_order_key(a) != spec_order_key(b),
{
}

/// Bit pattern of an order key: the inverse of [`order_key`].
pub open spec fn spec_bits_of_key(k: u32) -> int {
    if k >= 0x8000_0000 { k - 0x8000_0000 } else { 0xFFFF_FFFF - k }
}

/// Recover the `f32` bit pattern from its order key.
pub fn bits_from_key(k: u32) -> (bits: u32)
    ensures
        bits == spec_bits_of_key(k),
{
    if k >= 0x8000_0000 {
        let b = k & 0x7FFF_FFFF;
        assert(k >= 0x8000_0000 ==> k & 0x7FFF_FFFF == k - 0x8000_0000) by (bit_vector);
        b
    } else {
        let b = !k;
        assert(k < 0x8000_0000 ==> !k == 0xFFFF_FFFF - k) by (bit_vector);
        b
    }
}

/// Converting a bit pattern to its key and back gives the same pattern, and so
/// does the other way round.
pub proof fn lemma_key_roundtrip(bits: u32, k: u32)
    ensures
        spec_bits_of_key(spec_order_key(bits) as u32) == bits,
        spec_order_key(spec_bits_of_key(k) as u32) == k,
{
}

} // verus!
