//! Double-precision values held by their IEEE-754 bit pattern.
//!
//! Threshold values, field minimums and other numeric settings are doubles.
//! The library carries them as bit patterns and decides what it needs
//! (finiteness and order) from the bits.
use vstd::prelude::*;

verus! {

/// An IEEE-754 double, held by its bit pattern.
#[derive(Clone, Copy, Debug, PartialEq, Eq)]
pub struct Float {
    pub bits: u64,
}

/// The 63 low bits: exponent and mantissa.
pub open spec fn magnitude(bits: u64) -> u64 {
    bits & 0x7FFF_FFFF_FFFF_FFFFu64
}

/// Whether the sign bit is set.
pub open spec fn negative(bits: u64) -> bool {
    bits >> 63u64 == 1u64
}

/// A double is finite unless its exponent bits are all ones.
pub open spec fn is_finite(bits: u64) -> bool {
    (bits >> 52u64) & 0x7FFu64 != 0x7FFu64
}

/// A number that orders finite doubles the way `<` on `f64` does: finite
/// magnitudes compare like their bit patterns, and both zeros are equal.
pub open spec fn order_key(bits: u64) -> int {
    if negative(bits) {
        -(magnitude(bits) as int)
    } else {
        magnitude(bits) as int
    }
}

impl Float {
    /// The double whose bit pattern is `bits` (`f64::from_bits`).
    pub fn from_bits(bits: u64) -> (f: Float)
        ensures
            f.bits == bits,
    {
        Float { bits }
    }

    /// This double's bit pattern (`f64::to_bits`).
    pub fn to_bits(self) -> (bits: u64)
        ensures
            bits == self.bits,
    {
        self.bits
    }

    /// Whether this double is neither infinite nor NaN.
    pub fn is_finite(self) -> (b: bool)
        ensures
            b == is_finite(self.bits),
    {
        (self.bits >> 52u64) & 0x7FFu64 != 0x7FFu64
    }

    /// Whether `self <= other` for two finite doubles.
    pub fn le(self, other: Float) -> (b: bool)
        ensures
            b == (order_key(self.bits) <= order_key(other.bits)),
    {
        let a = self.bits & 0x7FFF_FFFF_FFFF_FFFFu64;
        let b = other.bits & 0x7FFF_FFFF_FFFF_FFFFu64;
        let a_negative = self.bits >> 63u64 == 1u64;
        let b_negative = other.bits >> 63u64 == 1u64;
        if !a_negative && !b_negative {
            a <= b
        } else if a_negative && !b_negative {
            true
        } else if !a_negative && b_negative {
            a == 0 && b == 0
        } else {
            b <= a
        }
    }
}

} // verus!
