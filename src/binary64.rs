//! IEEE-754 binary64 numbers held as their bit patterns, with the comparisons
//! against zero that the diode parameters are checked by.
use vstd::prelude::*;

verus! {

/// The sign bit of a binary64 bit pattern.
pub const SIGN_BIT: u64 = 0x8000_0000_0000_0000;

/// The bits below the sign of an infinity: all exponent bits set, a zero
/// significand.
pub const INFINITY_MAGNITUDE: u64 = 0x7FF0_0000_0000_0000;

/// A binary64 number, given by its bit pattern (as `f64::to_bits` returns it).
#[derive(Clone, Copy, Debug, PartialEq, Eq, Structural)]
pub struct Binary64 {
    pub bits: u64,
}

impl Binary64 {
    /// Whether the sign bit is set.
    pub open spec fn sign_set(self) -> bool {
        self.bits >= SIGN_BIT
    }

    /// The exponent and significand fields read together as one number:
    /// `2^52 * exponent + significand`.
    pub open spec fn magnitude(self) -> int {
        self.bits as int % SIGN_BIT as int
    }

    /// Not a number: all exponent bits set and a non-zero significand.
    pub open spec fn is_nan(self) -> bool {
        self.magnitude() > INFINITY_MAGNITUDE as int
    }

    /// Positive or negative zero.
    pub open spec fn is_zero(self) -> bool {
        self.magnitude() == 0
    }

    /// Ordered strictly below zero (`x < 0.0`): a negative subnormal, normal
    /// or infinite number.
    pub open spec fn is_negative(self) -> bool {
        self.sign_set() && 0 < self.magnitude() <= INFINITY_MAGNITUDE as int
    }

    /// Ordered strictly above zero (`x > 0.0`): a positive subnormal, normal
    /// or infinite number.
    pub open spec fn is_positive(self) -> bool {
        !self.sign_set() && 0 < self.magnitude() <= INFINITY_MAGNITUDE as int
    }

    /// Ordered at or below zero (`x <= 0.0`). A NaN is ordered against
    /// nothing, so it is not.
    pub open spec fn is_non_positive(self) -> bool {
        self.is_negative() || self.is_zero()
    }

    /// Whether `self < 0.0`.
    pub fn lt_zero(&self) -> (r: bool)
        ensures
            r == self.is_negative(),
    {
        let magnitude: u64 = self.bits % SIGN_BIT;
        self.bits >= SIGN_BIT && 0 < magnitude && magnitude <= INFINITY_MAGNITUDE
    }

    /// Whether `self <= 0.0`.
    pub fn le_zero(&self) -> (r: bool)
        ensures
            r == self.is_non_positive(),
    {
        let magnitude: u64 = self.bits % SIGN_BIT;
        magnitude == 0 || (self.bits >= SIGN_BIT && magnitude <= INFINITY_MAGNITUDE)
    }
}

} // verus!
