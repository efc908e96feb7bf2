//! Scalar values carried by their binary64 bit pattern.

use vstd::prelude::*;

verus! {

/// The bits of the magnitude of a binary64 value: everything but the sign.
pub const MAGNITUDE_MASK: u64 = 0x7FFF_FFFF_FFFF_FFFF;

/// The magnitude bits of positive infinity: the largest magnitude of a number.
pub const INFINITY_BITS: u64 = 0x7FF0_0000_0000_0000;

/// A real number, held as the bit pattern of its binary64 encoding.
#[derive(Clone, Copy, Debug, PartialEq, Eq, Structural)]
pub struct Scalar {
    pub bits: u64,
}

impl Scalar {
    /// The magnitude bits of the value.
    pub open spec fn magnitude(self) -> u64 {
        self.bits & MAGNITUDE_MASK
    }

    /// Whether the sign bit is set.
    pub open spec fn negative(self) -> bool {
        self.bits > MAGNITUDE_MASK
    }

    /// Whether the pattern encodes no number.
    pub open spec fn is_nan(self) -> bool {
        self.magnitude() > INFINITY_BITS
    }

    /// The position of a number on the real line, as an integer that grows
    /// with the number. Both zeros have rank 0.
    pub open spec fn rank(self) -> int {
        if self.negative() {
            -(self.magnitude() as int)
        } else {
            self.magnitude() as int
        }
    }

    /// `self > other` as binary64 defines it: false when either is no number.
    pub open spec fn exceeds(self, other: Scalar) -> bool {
        !self.is_nan() && !other.is_nan() && self.rank() > other.rank()
    }

    /// Wraps a bit pattern.
    pub fn from_bits(bits: u64) -> (r: Scalar)
        ensures
            r.bits == bits,
    {
        Scalar { bits }
    }

    /// The bit pattern.
    pub fn to_bits(self) -> (bits: u64)
        ensures
            bits == self.bits,
    {
        self.bits
    }

    /// Whether the pattern encodes no number.
    pub fn nan(self) -> (b: bool)
        ensures
            b == self.is_nan(),
    {
        (self.bits & MAGNITUDE_MASK) > INFINITY_BITS
    }

    /// Whether `self` is strictly greater than `other`.
    pub fn greater_than(self, other: Scalar) -> (b: bool)
        ensures
            b == self.exceeds(other),
    {
        if self.nan() || other.nan() {
            return false;
        }
        let a: u64 = self.bits & MAGNITUDE_MASK;
        let b: u64 = other.bits & MAGNITUDE_MASK;
        let a_negative: bool = self.bits > MAGNITUDE_MASK;
        let b_negative: bool = other.bits > MAGNITUDE_MASK;
        if a_negative {
            b_negative && a < b
        } else if b_negative {
            a > 0 || b > 0
        } else {
            a > b
        }
    }
}

/// `exceeds` is a strict order: nothing exceeds itself, no two values exceed
/// each other, and it carries over a value in between. What is no number
/// neither exceeds anything nor is exceeded.
pub proof fn lemma_exceeds_is_a_strict_order(a: Scalar, b: Scalar, c: Scalar)
    ensures
        !a.exceeds(a),
        a.exceeds(b) ==> !b.exceeds(a),
        a.exceeds(b) && b.exceeds(c) ==> a.exceeds(c),
        a.is_nan() ==> !a.exceeds(b) && !b.exceeds(a),
{
}

/// The two zeros, of either sign, are one number: neither exceeds the other.
pub proof fn lemma_zeros_are_equal()
    ensures
        !(Scalar { bits: 0 }).exceeds(Scalar { bits: 0x8000_0000_0000_0000 }),
        !(Scalar { bits: 0x8000_0000_0000_0000 }).exceeds(Scalar { bits: 0 }),
{
    assert(0x8000_0000_0000_0000u64 & MAGNITUDE_MASK == 0) by (bit_vector);
    assert(0u64 & MAGNITUDE_MASK == 0) by (bit_vector);
}

} // verus!
