//! Double-precision numbers held by their IEEE 754 bit pattern.
//!
//! Readings and threshold bounds are binary64 values. The library never does
//! arithmetic on them: it only carries them and compares them, and both are
//! exact on the bit pattern.

use vstd::prelude::*;

verus! {

/// The sign bit of a binary64 pattern.
pub const SIGN_BIT: u64 = 0x8000_0000_0000_0000;

/// The pattern of positive infinity; a larger magnitude is not a number.
pub const INFINITY_BITS: u64 = 0x7ff0_0000_0000_0000;

/// A binary64 number, identified by its bits.
///
/// Two scalars are `==` when their bits agree. Equality of the numbers is
/// [`Scalar::same_value`]: it holds of the two zeros and of nothing that is
/// not a number.
#[derive(Debug, Clone, Copy, PartialEq, Eq, Structural)]
pub struct Scalar {
    pub bits: u64,
}

impl Scalar {
    /// The pattern without its sign bit.
    pub open spec fn magnitude(self) -> int {
        if self.bits >= SIGN_BIT {
            self.bits - SIGN_BIT
        } else {
            self.bits as int
        }
    }

    /// True for the patterns that encode no number.
    pub open spec fn is_nan(self) -> bool {
        self.magnitude() > INFINITY_BITS
    }

    /// An integer that orders numbers as their values are ordered: the
    /// magnitude, negated under the sign bit. Both zeros have key 0.
    pub open spec fn key(self) -> int {
        if self.bits >= SIGN_BIT {
            -self.magnitude()
        } else {
            self.magnitude()
        }
    }

    /// `self < other` as numbers; false when either is not a number.
    pub open spec fn is_below(self, other: Scalar) -> bool {
        !self.is_nan() && !other.is_nan() && self.key() < other.key()
    }

    /// `self > other` as numbers; false when either is not a number.
    pub open spec fn is_above(self, other: Scalar) -> bool {
        other.is_below(self)
    }

    /// `self <= other` as numbers; false when either is not a number.
    pub open spec fn at_most(self, other: Scalar) -> bool {
        !self.is_nan() && !other.is_nan() && self.key() <= other.key()
    }

    /// `self == other` as numbers: the zeros are equal, and what is not a
    /// number equals nothing.
    pub open spec fn same_value(self, other: Scalar) -> bool {
        !self.is_nan() && !other.is_nan() && self.key() == other.key()
    }

    /// The number with the given bits.
    pub fn from_bits(bits: u64) -> (s: Scalar)
        ensures
            s.bits == bits,
    {
        Scalar { bits }
    }

    /// The bits of the number.
    pub fn to_bits(self) -> (bits: u64)
        ensures
            bits == self.bits,
    {
        self.bits
    }

    /// Tells whether the pattern encodes no number.
    pub fn nan(self) -> (r: bool)
        ensures
            r == self.is_nan(),
    {
        let m: u64 = if self.bits >= SIGN_BIT {
            self.bits - SIGN_BIT
        } else {
            self.bits
        };
        m > INFINITY_BITS
    }

    /// The ordering key of the pattern.
    fn order_key(self) -> (k: i64)
        ensures
            k == self.key(),
    {
        if self.bits >= SIGN_BIT {
            let m: u64 = self.bits - SIGN_BIT;
            -(m as i64)
        } else {
            self.bits as i64
        }
    }

    /// Strict "less than" on numbers.
    pub fn lt(self, other: Scalar) -> (r: bool)
        ensures
            r == self.is_below(other),
    {
        !self.nan() && !other.nan() && self.order_key() < other.order_key()
    }

    /// Strict "greater than" on numbers.
    pub fn gt(self, other: Scalar) -> (r: bool)
        ensures
            r == self.is_above(other),
    {
        other.lt(self)
    }
}

} // verus!
