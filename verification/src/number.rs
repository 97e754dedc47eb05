//! Double-precision numbers as the driver exchanges them, carried by bit pattern.

use vstd::prelude::*;

verus! {

/// The bit pattern from which negative numbers start: the sign bit alone.
pub const SIGN: u64 = 0x8000_0000_0000_0000;

/// The bit pattern of positive infinity; every larger magnitude is not a number.
pub const INFINITY: u64 = 0x7FF0_0000_0000_0000;

/// A binary64 number of IEEE 754, given by its 64 bits.
///
/// The library never computes with these numbers. It hands them on between the
/// caller and the driver unchanged, and orders them where a range has to be
/// judged.
#[derive(Clone, Copy, Debug, PartialEq, Eq, Structural)]
pub struct Double {
    pub bits: u64,
}

impl Double {
    /// The bits without the sign.
    pub open spec fn magnitude(self) -> int {
        if self.bits >= SIGN {
            self.bits - SIGN
        } else {
            self.bits as int
        }
    }

    /// Whether the bits stand for no number at all.
    pub open spec fn is_nan(self) -> bool {
        self.magnitude() > INFINITY
    }

    /// Where the number stands on the number line, as an integer that grows
    /// with it. Both zeros stand at 0.
    pub open spec fn rank(self) -> int {
        if self.bits >= SIGN {
            -self.magnitude()
        } else {
            self.magnitude()
        }
    }

    /// `self <= other` as numbers: false as soon as one side is not a number.
    pub open spec fn le(self, other: Double) -> bool {
        !self.is_nan() && !other.is_nan() && self.rank() <= other.rank()
    }

    /// `self < other` as numbers: false as soon as one side is not a number.
    pub open spec fn lt(self, other: Double) -> bool {
        !self.is_nan() && !other.is_nan() && self.rank() < other.rank()
    }

    /// The number with the given bits.
    pub fn from_bits(bits: u64) -> (d: Double)
        ensures
            d.bits == bits,
    {
        Double { bits }
    }

    /// Positive zero.
    pub fn zero() -> (d: Double)
        ensures
            d.bits == 0,
    {
        Double { bits: 0 }
    }

    /// Whether the bits stand for a number.
    pub fn is_number(&self) -> (r: bool)
        ensures
            r == !self.is_nan(),
    {
        let magnitude: u64 = if self.bits >= SIGN {
            self.bits - SIGN
        } else {
            self.bits
        };
        magnitude <= INFINITY
    }

    /// Compares two numbers: `self <= other`.
    pub fn at_most(&self, other: &Double) -> (r: bool)
        ensures
            r == self.le(*other),
    {
        if !self.is_number() || !other.is_number() {
            return false;
        }
        if self.bits >= SIGN {
            if other.bits >= SIGN {
                other.bits <= self.bits
            } else {
                true
            }
        } else {
            if other.bits >= SIGN {
                // Only the two zeros meet across the sign.
                self.bits == 0 && other.bits == SIGN
            } else {
                self.bits <= other.bits
            }
        }
    }

    /// Compares two numbers: `self < other`.
    pub fn below(&self, other: &Double) -> (r: bool)
        ensures
            r == self.lt(*other),
    {
        if !self.is_number() || !other.is_number() {
            return false;
        }
        if self.bits >= SIGN {
            if other.bits >= SIGN {
                other.bits < self.bits
            } else {
                !(self.bits == SIGN && other.bits == 0)
            }
        } else {
            if other.bits >= SIGN {
                false
            } else {
                self.bits < other.bits
            }
        }
    }
}

} // verus!
