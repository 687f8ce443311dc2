//! IEEE-754 binary64 values as bit patterns, with their ordering.
//!
//! A binary64 value is a sign bit, eleven exponent bits and fifty-two
//! fraction bits. Without the sign bit the pattern grows with the absolute
//! value it encodes, up to infinity; every pattern above that of infinity is
//! a NaN. Ordering two values therefore needs integer comparison only.

use vstd::prelude::*;

verus! {

/// The sign bit of a binary64 pattern.
pub const SIGN_BIT: u64 = 0x8000_0000_0000_0000;

/// Pattern of positive infinity. Larger magnitudes are NaNs.
pub const INFINITY_BITS: u64 = 0x7FF0_0000_0000_0000;

/// Pattern of the largest finite value.
pub const MAX_BITS: u64 = 0x7FEF_FFFF_FFFF_FFFF;

/// Pattern of 1.
pub const ONE_BITS: u64 = 0x3FF0_0000_0000_0000;

/// Pattern of -1.
pub const MINUS_ONE_BITS: u64 = 0xBFF0_0000_0000_0000;

/// Pattern of 0.5.
pub const HALF_BITS: u64 = 0x3FE0_0000_0000_0000;

/// A binary64 value, held as its bit pattern.
///
/// The derived `==` compares patterns: it tells `0.0` from `-0.0` and finds a
/// NaN equal to itself. Use [`Scalar::equals`] for equality of values.
#[derive(Clone, Copy, Debug, PartialEq, Eq, Structural)]
pub struct Scalar {
    pub bits: u64,
}

impl Scalar {
    /// The pattern with the sign bit cleared.
    pub open spec fn magnitude(self) -> u64 {
        if self.bits >= SIGN_BIT {
            (self.bits - SIGN_BIT) as u64
        } else {
            self.bits
        }
    }

    /// Whether the sign bit is set.
    pub open spec fn sign(self) -> bool {
        self.bits >= SIGN_BIT
    }

    /// Whether the value is a NaN.
    pub open spec fn nan(self) -> bool {
        self.magnitude() > INFINITY_BITS
    }

    /// Whether the value is neither infinite nor a NaN.
    pub open spec fn finite(self) -> bool {
        self.magnitude() < INFINITY_BITS
    }

    /// Place of a value that is no NaN on the number line: values compare as
    /// their ranks do, and both zeros have rank 0.
    pub open spec fn rank(self) -> int {
        if self.sign() {
            -(self.magnitude() as int)
        } else {
            self.magnitude() as int
        }
    }

    /// `self < rhs` on values: false as soon as either is a NaN.
    pub open spec fn less(self, rhs: Scalar) -> bool {
        !self.nan() && !rhs.nan() && self.rank() < rhs.rank()
    }

    /// `self == rhs` on values: false as soon as either is a NaN, true of
    /// `0.0` and `-0.0`.
    pub open spec fn same(self, rhs: Scalar) -> bool {
        !self.nan() && !rhs.nan() && self.rank() == rhs.rank()
    }

    /// `self <= rhs` on values.
    pub open spec fn at_most(self, rhs: Scalar) -> bool {
        !self.nan() && !rhs.nan() && self.rank() <= rhs.rank()
    }

    /// The value with its sign bit flipped.
    pub open spec fn negated(self) -> Scalar {
        if self.bits >= SIGN_BIT {
            Scalar { bits: (self.bits - SIGN_BIT) as u64 }
        } else {
            Scalar { bits: (self.bits + SIGN_BIT) as u64 }
        }
    }

    /// The value with its sign bit cleared.
    pub open spec fn absolute(self) -> Scalar {
        Scalar { bits: self.magnitude() }
    }

    /// The value restricted to `[min, max]`; a NaN stays as it is.
    pub open spec fn clamped(self, min: Scalar, max: Scalar) -> Scalar {
        if self.less(min) {
            min
        } else if max.less(self) {
            max
        } else {
            self
        }
    }

    /// The value with the given bit pattern.
    pub fn from_bits(bits: u64) -> (r: Scalar)
        ensures
            r.bits == bits,
    {
        Scalar { bits }
    }

    /// The bit pattern.
    pub fn to_bits(self) -> (r: u64)
        ensures
            r == self.bits,
    {
        self.bits
    }

    /// Positive zero.
    pub fn zero() -> (r: Scalar)
        ensures
            r.bits == 0,
    {
        Scalar { bits: 0 }
    }

    /// One.
    pub fn one() -> (r: Scalar)
        ensures
            r.bits == ONE_BITS,
    {
        Scalar { bits: ONE_BITS }
    }

    /// Minus one.
    pub fn minus_one() -> (r: Scalar)
        ensures
            r.bits == MINUS_ONE_BITS,
    {
        Scalar { bits: MINUS_ONE_BITS }
    }

    /// One half.
    pub fn half() -> (r: Scalar)
        ensures
            r.bits == HALF_BITS,
    {
        Scalar { bits: HALF_BITS }
    }

    /// Positive infinity.
    pub fn infinity() -> (r: Scalar)
        ensures
            r.bits == INFINITY_BITS,
    {
        Scalar { bits: INFINITY_BITS }
    }

    /// The largest finite value.
    pub fn max_value() -> (r: Scalar)
        ensures
            r.bits == MAX_BITS,
    {
        Scalar { bits: MAX_BITS }
    }

    fn abs_bits(self) -> (r: u64)
        ensures
            r == self.magnitude(),
    {
        if self.bits >= SIGN_BIT {
            self.bits - SIGN_BIT
        } else {
            self.bits
        }
    }

    /// Whether the value is a NaN.
    pub fn is_nan(self) -> (r: bool)
        ensures
            r == self.nan(),
    {
        self.abs_bits() > INFINITY_BITS
    }

    /// Whether the value is neither infinite nor a NaN.
    pub fn is_finite(self) -> (r: bool)
        ensures
            r == self.finite(),
    {
        self.abs_bits() < INFINITY_BITS
    }

    /// `self < rhs`, as IEEE-754 orders values.
    pub fn lt(self, rhs: Scalar) -> (r: bool)
        ensures
            r == self.less(rhs),
    {
        if self.is_nan() || rhs.is_nan() {
            return false;
        }
        let a: u64 = self.abs_bits();
        let b: u64 = rhs.abs_bits();
        if self.bits >= SIGN_BIT {
            if rhs.bits >= SIGN_BIT {
                a > b
            } else {
                a > 0 || b > 0
            }
        } else {
            rhs.bits < SIGN_BIT && a < b
        }
    }

    /// `self > rhs`, as IEEE-754 orders values.
    pub fn gt(self, rhs: Scalar) -> (r: bool)
        ensures
            r == rhs.less(self),
    {
        rhs.lt(self)
    }

    /// `self == rhs`, as IEEE-754 compares values.
    pub fn equals(self, rhs: Scalar) -> (r: bool)
        ensures
            r == self.same(rhs),
    {
        if self.is_nan() || rhs.is_nan() {
            return false;
        }
        let a: u64 = self.abs_bits();
        let b: u64 = rhs.abs_bits();
        if a == 0 && b == 0 {
            true
        } else {
            self.bits == rhs.bits
        }
    }

    /// `self <= rhs`, as IEEE-754 orders values.
    pub fn le(self, rhs: Scalar) -> (r: bool)
        ensures
            r == self.at_most(rhs),
    {
        self.lt(rhs) || self.equals(rhs)
    }

    /// `self >= rhs`, as IEEE-754 orders values.
    pub fn ge(self, rhs: Scalar) -> (r: bool)
        ensures
            r == rhs.at_most(self),
    {
        rhs.le(self)
    }

    /// `-self`: the sign bit flipped, of a NaN too.
    pub fn neg(self) -> (r: Scalar)
        ensures
            r == self.negated(),
    {
        if self.bits >= SIGN_BIT {
            Scalar { bits: self.bits - SIGN_BIT }
        } else {
            Scalar { bits: self.bits + SIGN_BIT }
        }
    }

    /// `|self|`: the sign bit cleared, of a NaN too.
    pub fn abs(self) -> (r: Scalar)
        ensures
            r == self.absolute(),
    {
        Scalar { bits: self.abs_bits() }
    }

    /// The value restricted to `[min, max]`: `min` where `self < min`, `max`
    /// where `self > max`, else `self`, so a NaN stays a NaN.
    pub fn clamp(self, min: Scalar, max: Scalar) -> (r: Scalar)
        requires
            min.at_most(max),
        ensures
            r == self.clamped(min, max),
    {
        if self.lt(min) {
            min
        } else if self.gt(max) {
            max
        } else {
            self
        }
    }
}

/// The order of values is strict: nothing is below itself, and of two values
/// at most one is below the other.
pub proof fn lemma_less_is_strict(a: Scalar, b: Scalar)
    ensures
        !a.less(a),
        a.less(b) ==> !b.less(a),
{
}

/// The order of values is transitive.
pub proof fn lemma_less_is_transitive(a: Scalar, b: Scalar, c: Scalar)
    requires
        a.less(b),
        b.less(c),
    ensures
        a.less(c),
{
}

/// Two values that are no NaNs are comparable: one is below the other, or
/// they are the same value. A NaN is comparable with nothing.
pub proof fn lemma_order_is_total_without_nan(a: Scalar, b: Scalar)
    ensures
        !a.nan() && !b.nan() ==> a.less(b) || a.same(b) || b.less(a),
        a.nan() || b.nan() ==> !a.less(b) && !a.same(b) && !b.less(a),
{
}

} // verus!
