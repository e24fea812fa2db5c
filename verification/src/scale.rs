//! Display scale factors, carried as bit patterns.

use vstd::prelude::*;

verus! {

/// The bit pattern of positive infinity; every pattern whose magnitude lies
/// above it is a NaN.
pub const INFINITY_BITS: u64 = 0x7ff0_0000_0000_0000;

/// One more than the largest magnitude: the weight of the sign bit.
pub const SIGN_BIT: u64 = 0x8000_0000_0000_0000;

/// The bit pattern of the scale factor 1.
pub const ONE_BITS: u64 = 0x3ff0_0000_0000_0000;

/// A display scale factor: a double-precision number, held as its IEEE 754
/// bit pattern.
///
/// The library compares scale factors and never computes with them. Two
/// factors are compared as the numbers they stand for, not as patterns: a NaN
/// differs from every factor, itself included, and the two zeros are the same
/// number.
#[derive(Clone, Copy, Debug)]
pub struct ScaleFactor {
    bits: u64,
}

impl View for ScaleFactor {
    type V = u64;

    /// The bit pattern.
    closed spec fn view(&self) -> u64 {
        self.bits
    }
}

/// The pattern without its sign bit.
pub open spec fn magnitude(bits: u64) -> u64 {
    bits % SIGN_BIT
}

/// Whether a pattern stands for no number at all.
pub open spec fn is_nan_bits(bits: u64) -> bool {
    magnitude(bits) > INFINITY_BITS
}

/// Whether a pattern stands for positive or negative zero.
pub open spec fn is_zero_bits(bits: u64) -> bool {
    magnitude(bits) == 0
}

/// Whether two patterns stand for the same number.
pub open spec fn same_number(a: u64, b: u64) -> bool {
    &&& !is_nan_bits(a)
    &&& !is_nan_bits(b)
    &&& (a == b || (is_zero_bits(a) && is_zero_bits(b)))
}

impl ScaleFactor {
    /// The scale factor with the given bit pattern.
    pub fn from_bits(bits: u64) -> (s: ScaleFactor)
        ensures
            s@ == bits,
    {
        ScaleFactor { bits }
    }

    /// The scale factor 1: one logical unit per physical pixel.
    pub fn one() -> (s: ScaleFactor)
        ensures
            s@ == ONE_BITS,
    {
        ScaleFactor { bits: ONE_BITS }
    }

    /// The bit pattern of this scale factor.
    pub fn to_bits(self) -> (bits: u64)
        ensures
            bits == self@,
    {
        self.bits
    }

    /// Whether this factor is a NaN.
    pub fn is_nan(self) -> (r: bool)
        ensures
            r == is_nan_bits(self@),
    {
        self.bits % SIGN_BIT > INFINITY_BITS
    }

    /// Whether this factor is one of the two zeros.
    pub fn is_zero(self) -> (r: bool)
        ensures
            r == is_zero_bits(self@),
    {
        self.bits % SIGN_BIT == 0
    }

    /// Whether this factor and `other` are different numbers.
    pub fn differs(self, other: ScaleFactor) -> (r: bool)
        ensures
            r == !same_number(self@, other@),
    {
        if self.is_nan() || other.is_nan() {
            true
        } else if self.bits == other.bits {
            false
        } else {
            !(self.is_zero() && other.is_zero())
        }
    }
}

/// Among the factors that are numbers, being the same number is an
/// equivalence; a NaN is the same number as nothing, itself included.
pub proof fn lemma_same_number_is_equivalence(a: u64, b: u64, c: u64)
    ensures
        same_number(a, a) <==> !is_nan_bits(a),
        same_number(a, b) == same_number(b, a),
        same_number(a, b) && same_number(b, c) ==> same_number(a, c),
        is_nan_bits(a) ==> !same_number(a, b),
{
}

/// The factor 1 is a number, and it is not zero.
pub proof fn lemma_one_is_a_number()
    ensures
        !is_nan_bits(ONE_BITS),
        !is_zero_bits(ONE_BITS),
        same_number(ONE_BITS, ONE_BITS),
{
}

} // verus!
