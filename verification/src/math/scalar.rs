//! Binary32 values by their bit pattern, with the IEEE-754 ordering.

use vstd::prelude::*;

verus! {

/// Bit pattern of the sign of a binary32 value.
pub const SIGN_BIT: u32 = 0x8000_0000;

/// Bit pattern of positive infinity; every larger magnitude is a NaN.
pub const INFINITY_BITS: u32 = 0x7f80_0000;

/// A binary32 value, held as its 32 bits.
///
/// Two scalars are `==` when their bits agree. The numeric comparisons are
/// [`Scalar::lt`] and its siblings: there a NaN compares false with
/// everything and the two zeros are equal.
#[derive(Clone, Copy, Debug, PartialEq, Eq, Structural)]
pub struct Scalar {
    pub bits: u32,
}

impl Scalar {
    /// The bits without the sign.
    pub open spec fn magnitude(self) -> int {
        if self.bits >= SIGN_BIT {
            self.bits - SIGN_BIT
        } else {
            self.bits as int
        }
    }

    /// Whether the sign bit is set.
    pub open spec fn sign_set(self) -> bool {
        self.bits >= SIGN_BIT
    }

    /// Whether the value is a NaN.
    pub open spec fn nan(self) -> bool {
        self.magnitude() > INFINITY_BITS
    }

    /// An integer that orders the values that are not NaN as IEEE-754 does:
    /// sign and magnitude, with both zeros at 0.
    pub open spec fn key(self) -> int {
        if self.sign_set() {
            -self.magnitude()
        } else {
            self.magnitude()
        }
    }

    /// `self < other` as binary32 values.
    pub open spec fn less(self, other: Scalar) -> bool {
        !self.nan() && !other.nan() && self.key() < other.key()
    }

    /// `self <= other` as binary32 values.
    pub open spec fn less_eq(self, other: Scalar) -> bool {
        !self.nan() && !other.nan() && self.key() <= other.key()
    }

    /// The value with its sign flipped.
    pub open spec fn negated(self) -> Scalar {
        if self.bits >= SIGN_BIT {
            Scalar { bits: (self.bits - SIGN_BIT) as u32 }
        } else {
            Scalar { bits: (self.bits + SIGN_BIT) as u32 }
        }
    }

    /// The value with its sign cleared.
    pub open spec fn magnitude_of(self) -> Scalar {
        Scalar { bits: self.magnitude() as u32 }
    }

    /// `self` limited to `[low, high]` by two comparisons: `low` when
    /// `self < low`, else `high` when `self > high`, else `self`.
    pub open spec fn limited(self, low: Scalar, high: Scalar) -> Scalar {
        if self.less(low) {
            low
        } else if high.less(self) {
            high
        } else {
            self
        }
    }

    pub fn from_bits(bits: u32) -> (s: Scalar)
        ensures
            s.bits == bits,
    {
        Scalar { bits }
    }

    pub fn to_bits(self) -> (bits: u32)
        ensures
            bits == self.bits,
    {
        self.bits
    }

    pub fn zero() -> (s: Scalar)
        ensures
            s.bits == 0,
    {
        Scalar { bits: 0 }
    }

    pub fn one() -> (s: Scalar)
        ensures
            s.bits == 0x3f80_0000,
    {
        Scalar { bits: 0x3f80_0000 }
    }

    pub fn infinity() -> (s: Scalar)
        ensures
            s.bits == INFINITY_BITS,
    {
        Scalar { bits: INFINITY_BITS }
    }

    fn magnitude_bits(self) -> (m: u32)
        ensures
            m == self.magnitude(),
            m < SIGN_BIT,
    {
        if self.bits >= SIGN_BIT {
            self.bits - SIGN_BIT
        } else {
            self.bits
        }
    }

    pub fn is_nan(self) -> (r: bool)
        ensures
            r == self.nan(),
    {
        self.magnitude_bits() > INFINITY_BITS
    }

    pub fn is_sign_negative(self) -> (r: bool)
        ensures
            r == self.sign_set(),
    {
        self.bits >= SIGN_BIT
    }

    /// `self < other`.
    pub fn lt(self, other: Scalar) -> (r: bool)
        ensures
            r == self.less(other),
    {
        if self.is_nan() || other.is_nan() {
            return false;
        }
        let a: u32 = self.magnitude_bits();
        let b: u32 = other.magnitude_bits();
        if self.bits >= SIGN_BIT {
            if other.bits >= SIGN_BIT {
                b < a
            } else {
                a > 0 || b > 0
            }
        } else {
            if other.bits >= SIGN_BIT {
                false
            } else {
                a < b
            }
        }
    }

    /// `self <= other`.
    pub fn le(self, other: Scalar) -> (r: bool)
        ensures
            r == self.less_eq(other),
    {
        if self.is_nan() || other.is_nan() {
            return false;
        }
        !other.lt(self)
    }

    /// `self > other`.
    pub fn gt(self, other: Scalar) -> (r: bool)
        ensures
            r == other.less(self),
    {
        other.lt(self)
    }

    /// `self >= other`.
    pub fn ge(self, other: Scalar) -> (r: bool)
        ensures
            r == other.less_eq(self),
    {
        other.le(self)
    }

    /// `-self`: the sign bit flipped, whatever the value.
    pub fn neg(self) -> (r: Scalar)
        ensures
            r == self.negated(),
    {
        if self.bits >= SIGN_BIT {
            Scalar { bits: self.bits - SIGN_BIT }
        } else {
            Scalar { bits: self.bits + SIGN_BIT }
        }
    }

    /// `|self|`: the sign bit cleared, whatever the value.
    pub fn abs(self) -> (r: Scalar)
        ensures
            r == self.magnitude_of(),
    {
        Scalar { bits: self.magnitude_bits() }
    }

    /// `self` limited to `[low, high]`; a NaN stays as it is.
    pub fn clamp(self, low: Scalar, high: Scalar) -> (r: Scalar)
        ensures
            r == self.limited(low, high),
    {
        if self.lt(low) {
            low
        } else if self.gt(high) {
            high
        } else {
            self
        }
    }
}

/// The order on scalars is strict: nothing is below itself, and it is
/// transitive.
pub proof fn lemma_less_is_strict_order(a: Scalar, b: Scalar, c: Scalar)
    ensures
        !a.less(a),
        a.less(b) ==> !b.less(a),
        a.less(b) && b.less(c) ==> a.less(c),
{
}

/// Of two values that are not NaN, one is below the other or they are
/// numerically equal.
pub proof fn lemma_less_is_total(a: Scalar, b: Scalar)
    requires
        !a.nan(),
        !b.nan(),
    ensures
        a.less(b) || b.less(a) || a.key() == b.key(),
        a.less_eq(b) <==> !b.less(a),
{
}

/// Negation mirrors the order and undoes itself.
pub proof fn lemma_negation_mirrors(a: Scalar, b: Scalar)
    ensures
        a.negated().negated() == a,
        a.negated().nan() == a.nan(),
        a.negated().key() == -a.key(),
        a.less(b) <==> b.negated().less(a.negated()),
{
}

/// A limited value lies between the bounds, when the bounds are in order
/// and nothing is a NaN.
pub proof fn lemma_limited_in_bounds(x: Scalar, low: Scalar, high: Scalar)
    requires
        !x.nan(),
        low.less_eq(high),
    ensures
        low.less_eq(x.limited(low, high)),
        x.limited(low, high).less_eq(high),
{
}

} // verus!
