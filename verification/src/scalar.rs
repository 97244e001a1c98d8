//! Single-precision numbers, held by their bit patterns, and their order.
//!
//! The host measures in IEEE-754 binary32. This crate never does arithmetic
//! on such a number, but it compares them, and comparison can be read off
//! the bit pattern exactly: the top bit is the sign, the other 31 bits are a
//! magnitude that grows with the absolute value, and magnitudes above that
//! of infinity are not numbers. A [`Scalar`] is such a bit pattern; the host
//! converts with `to_bits` and `from_bits`, which lose nothing.

use vstd::prelude::*;

verus! {

/// The sign bit of a bit pattern.
pub const SIGN_BIT: u32 = 0x8000_0000;

/// Bit pattern of positive infinity.
pub const INFINITY_BITS: u32 = 0x7f80_0000;

/// Bit pattern of negative infinity.
pub const NEG_INFINITY_BITS: u32 = 0xff80_0000;

/// Bit pattern of zero.
pub const ZERO_BITS: u32 = 0;

/// Bit pattern of one.
pub const ONE_BITS: u32 = 0x3f80_0000;

/// A single-precision number, held by its bit pattern.
///
/// The derived equality compares bit patterns; [`Scalar::same_value`]
/// compares as numbers.
#[derive(Clone, Copy, Debug, PartialEq, Eq, Structural)]
pub struct Scalar {
    /// The bit pattern.
    pub bits: u32,
}

impl Scalar {
    /// The bit pattern without its sign bit.
    pub open spec fn magnitude(self) -> int {
        if self.bits >= SIGN_BIT {
            self.bits - SIGN_BIT
        } else {
            self.bits as int
        }
    }

    /// Whether the pattern is no number: its magnitude lies above that of infinity.
    pub open spec fn spec_is_nan(self) -> bool {
        self.magnitude() > INFINITY_BITS
    }

    /// Place of the number in the order of all numbers: the magnitude, negated
    /// where the sign bit is set. Both zeros have rank 0. Of two numbers the
    /// one of lower rank is the smaller, and equal rank means equal value.
    pub open spec fn rank(self) -> int {
        if self.bits >= SIGN_BIT {
            -self.magnitude()
        } else {
            self.magnitude()
        }
    }

    /// Whether `self < other` as numbers; false where either is no number.
    pub open spec fn spec_lt(self, other: Scalar) -> bool {
        !self.spec_is_nan() && !other.spec_is_nan() && self.rank() < other.rank()
    }

    /// Whether `self <= other` as numbers; false where either is no number.
    pub open spec fn spec_le(self, other: Scalar) -> bool {
        !self.spec_is_nan() && !other.spec_is_nan() && self.rank() <= other.rank()
    }

    /// Whether `self == other` as numbers; false where either is no number.
    pub open spec fn spec_same_value(self, other: Scalar) -> bool {
        !self.spec_is_nan() && !other.spec_is_nan() && self.rank() == other.rank()
    }

    /// The smaller of two numbers; where one is no number, the other.
    pub open spec fn spec_min(self, other: Scalar) -> Scalar {
        if self.spec_is_nan() {
            other
        } else if other.spec_lt(self) {
            other
        } else {
            self
        }
    }

    /// The larger of two numbers; where one is no number, the other.
    pub open spec fn spec_max(self, other: Scalar) -> Scalar {
        if self.spec_is_nan() {
            other
        } else if self.spec_lt(other) {
            other
        } else {
            self
        }
    }

    /// The number limited to the range from `low` to `high`; what is no
    /// number stays as it is.
    pub open spec fn spec_clamp(self, low: Scalar, high: Scalar) -> Scalar {
        if self.spec_lt(low) {
            low
        } else if high.spec_lt(self) {
            high
        } else {
            self
        }
    }

    /// Positive infinity.
    pub open spec fn spec_infinity() -> Scalar {
        Scalar { bits: INFINITY_BITS }
    }

    /// Negative infinity.
    pub open spec fn spec_neg_infinity() -> Scalar {
        Scalar { bits: NEG_INFINITY_BITS }
    }

    /// Zero.
    pub open spec fn spec_zero() -> Scalar {
        Scalar { bits: ZERO_BITS }
    }

    /// One.
    pub open spec fn spec_one() -> Scalar {
        Scalar { bits: ONE_BITS }
    }

    /// Positive infinity.
    pub fn infinity() -> (scalar: Scalar)
        ensures
            scalar == Scalar::spec_infinity(),
    {
        Scalar { bits: INFINITY_BITS }
    }

    /// Negative infinity.
    pub fn neg_infinity() -> (scalar: Scalar)
        ensures
            scalar == Scalar::spec_neg_infinity(),
    {
        Scalar { bits: NEG_INFINITY_BITS }
    }

    /// Zero.
    pub fn zero() -> (scalar: Scalar)
        ensures
            scalar == Scalar::spec_zero(),
    {
        Scalar { bits: ZERO_BITS }
    }

    /// One.
    pub fn one() -> (scalar: Scalar)
        ensures
            scalar == Scalar::spec_one(),
    {
        Scalar { bits: ONE_BITS }
    }

    /// The number with the given bit pattern.
    pub fn from_bits(bits: u32) -> (scalar: Scalar)
        ensures
            scalar.bits == bits,
    {
        Scalar { bits }
    }

    /// Whether the pattern is no number.
    pub fn is_nan(self) -> (nan: bool)
        ensures
            nan == self.spec_is_nan(),
    {
        if self.bits >= SIGN_BIT {
            self.bits - SIGN_BIT > INFINITY_BITS
        } else {
            self.bits > INFINITY_BITS
        }
    }

    /// Place of the number in the order of all numbers.
    pub fn ordinal(self) -> (ordinal: i64)
        ensures
            ordinal == self.rank(),
    {
        if self.bits >= SIGN_BIT {
            let magnitude: u32 = self.bits - SIGN_BIT;
            -(magnitude as i64)
        } else {
            self.bits as i64
        }
    }

    /// Whether `self < other` as numbers.
    pub fn lt(self, other: Scalar) -> (less: bool)
        ensures
            less == self.spec_lt(other),
    {
        !self.is_nan() && !other.is_nan() && self.ordinal() < other.ordinal()
    }

    /// Whether `self <= other` as numbers.
    pub fn le(self, other: Scalar) -> (at_most: bool)
        ensures
            at_most == self.spec_le(other),
    {
        !self.is_nan() && !other.is_nan() && self.ordinal() <= other.ordinal()
    }

    /// Whether `self == other` as numbers.
    pub fn same_value(self, other: Scalar) -> (same: bool)
        ensures
            same == self.spec_same_value(other),
    {
        !self.is_nan() && !other.is_nan() && self.ordinal() == other.ordinal()
    }

    /// The smaller of two numbers; where one is no number, the other.
    pub fn min(self, other: Scalar) -> (smaller: Scalar)
        ensures
            smaller == self.spec_min(other),
    {
        if self.is_nan() {
            other
        } else if other.lt(self) {
            other
        } else {
            self
        }
    }

    /// The larger of two numbers; where one is no number, the other.
    pub fn max(self, other: Scalar) -> (larger: Scalar)
        ensures
            larger == self.spec_max(other),
    {
        if self.is_nan() {
            other
        } else if self.lt(other) {
            other
        } else {
            self
        }
    }

    /// The number limited to the range from `low` to `high`.
    pub fn clamp(self, low: Scalar, high: Scalar) -> (limited: Scalar)
        requires
            low.spec_le(high),
        ensures
            limited == self.spec_clamp(low, high),
            !self.spec_is_nan() ==> low.spec_le(limited) && limited.spec_le(high),
            self.spec_is_nan() ==> limited == self,
    {
        if self.lt(low) {
            low
        } else if high.lt(self) {
            high
        } else {
            self
        }
    }
}

/// Among numbers, less-than is a strict order in which any two are
/// comparable or of equal value.
pub proof fn lemma_lt_is_a_strict_order(a: Scalar, b: Scalar, c: Scalar)
    ensures
        !a.spec_lt(a),
        a.spec_lt(b) && b.spec_lt(c) ==> a.spec_lt(c),
        a.spec_le(b) && b.spec_le(c) ==> a.spec_le(c),
        a.spec_le(b) <==> (a.spec_lt(b) || a.spec_same_value(b)),
        !a.spec_is_nan() && !b.spec_is_nan() ==> (a.spec_lt(b) || b.spec_lt(a) || a.spec_same_value(b)),
        a.spec_is_nan() || b.spec_is_nan() ==> !a.spec_lt(b) && !a.spec_le(b) && !a.spec_same_value(b),
{
}

/// Numbers without the sign bit are ordered as their bit patterns are, the
/// two infinities bound every number, and the two zeros have the same value.
pub proof fn lemma_order_of_bit_patterns(a: Scalar, b: Scalar)
    ensures
        a.bits < SIGN_BIT && b.bits < SIGN_BIT && !a.spec_is_nan() && !b.spec_is_nan() ==> (a.spec_lt(b)
            <==> a.bits < b.bits),
        a.bits >= SIGN_BIT && b.bits >= SIGN_BIT && !a.spec_is_nan() && !b.spec_is_nan() ==> (
        a.spec_lt(b) <==> a.bits > b.bits),
        !a.spec_is_nan() ==> (Scalar { bits: NEG_INFINITY_BITS }).spec_le(a) && a.spec_le(
            Scalar { bits: INFINITY_BITS },
        ),
        (Scalar { bits: ZERO_BITS }).spec_same_value(Scalar { bits: SIGN_BIT }),
{
}

/// The smaller and the larger of two numbers are among the two and bound them.
pub proof fn lemma_min_max_bound(a: Scalar, b: Scalar)
    ensures
        a.spec_min(b) == a || a.spec_min(b) == b,
        a.spec_max(b) == a || a.spec_max(b) == b,
        !a.spec_is_nan() && !b.spec_is_nan() ==> {
            &&& a.spec_min(b).spec_le(a)
            &&& a.spec_min(b).spec_le(b)
            &&& a.spec_le(a.spec_max(b))
            &&& b.spec_le(a.spec_max(b))
        },
        a.spec_min(b).spec_is_nan() <==> (a.spec_is_nan() && b.spec_is_nan()),
        a.spec_max(b).spec_is_nan() <==> (a.spec_is_nan() && b.spec_is_nan()),
{
}

} // verus!
