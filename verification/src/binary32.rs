//! Classification of IEEE 754 binary32 bit patterns.
//!
//! A pattern is split into a sign bit, an eight-bit biased exponent and a
//! 23-bit fraction. The predicates below are stated over those three fields;
//! the executable tests decide them with masks and comparisons.
use vstd::prelude::*;

verus! {

/// Mask that clears the sign bit and keeps exponent and fraction.
pub const MAGNITUDE_MASK: u32 = 0x7fff_ffff;

/// Pattern of positive infinity: every exponent bit set, fraction zero.
pub const INFINITY: u32 = 0x7f80_0000;

/// The sign field, 0 or 1.
pub open spec fn sign(bits: u32) -> int {
    bits as int / 0x8000_0000
}

/// The biased exponent field, in `0..=255`.
pub open spec fn exponent(bits: u32) -> int {
    (bits as int / 0x80_0000) % 0x100
}

/// The fraction field, in `0..2^23`.
pub open spec fn fraction(bits: u32) -> int {
    bits as int % 0x80_0000
}

/// Not a number: exponent all ones and a nonzero fraction.
pub open spec fn nan(bits: u32) -> bool {
    exponent(bits) == 0xff && fraction(bits) != 0
}

/// Zero of either sign: exponent and fraction both zero.
pub open spec fn zero(bits: u32) -> bool {
    exponent(bits) == 0 && fraction(bits) == 0
}

/// A zero, subnormal or normal number: neither an infinity nor a NaN.
pub open spec fn finite(bits: u32) -> bool {
    exponent(bits) != 0xff
}

/// Strictly greater than zero: a positive subnormal, a positive normal
/// number or positive infinity.
pub open spec fn positive(bits: u32) -> bool {
    sign(bits) == 0 && !zero(bits) && !nan(bits)
}

/// A positive pattern is exactly one in `1..=INFINITY`.
pub proof fn lemma_positive_range(bits: u32)
    ensures
        positive(bits) <==> 0 < bits <= INFINITY,
{
}

/// A finite pattern is exactly one whose magnitude lies below infinity.
pub proof fn lemma_finite_range(bits: u32)
    ensures
        finite(bits) <==> bits as int % 0x8000_0000 < INFINITY,
{
}

/// Tests whether `bits` encodes a finite number.
pub fn is_finite(bits: u32) -> (r: bool)
    ensures
        r == finite(bits),
{
    let magnitude: u32 = bits & MAGNITUDE_MASK;
    proof {
        assert(bits & 0x7fff_ffffu32 == bits % 0x8000_0000u32) by (bit_vector);
        lemma_finite_range(bits);
    }
    magnitude < INFINITY
}

/// Tests whether `bits` encodes a value strictly greater than zero.
pub fn is_positive(bits: u32) -> (r: bool)
    ensures
        r == positive(bits),
{
    proof {
        lemma_positive_range(bits);
    }
    0 < bits && bits <= INFINITY
}

} // verus!
