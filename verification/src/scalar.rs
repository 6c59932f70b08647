//! Single-precision values as bit patterns, with the IEEE-754 comparisons.

use vstd::prelude::*;

verus! {

/// The bit pattern of positive infinity; every larger magnitude is a NaN.
pub const INFINITY_BITS: u32 = 0x7f80_0000;

/// Two to the power 31: patterns from here on carry the sign bit.
pub const SIGN_BIT: u32 = 0x8000_0000;

/// An IEEE-754 single-precision value, held by its 32-bit pattern.
///
/// The pattern is sign, then exponent and fraction. Among values that are
/// not NaN, exponent and fraction read as one integer grow with the
/// absolute value, so `rank` orders them as the numbers they stand for.
#[derive(Clone, Copy, Debug)]
pub struct Scalar {
    pub bits: u32,
}

impl Scalar {
    /// Exponent and fraction, read as one integer.
    pub open spec fn magnitude(self) -> int {
        (self.bits % SIGN_BIT) as int
    }

    /// Whether the sign bit is set.
    pub open spec fn negative(self) -> bool {
        self.bits >= SIGN_BIT
    }

    /// Whether the pattern is a NaN: all exponent bits set, fraction not zero.
    pub open spec fn spec_is_nan(self) -> bool {
        self.magnitude() > INFINITY_BITS
    }

    /// Whether the value is a number of finite size: neither a NaN nor an
    /// infinity.
    pub open spec fn spec_is_finite(self) -> bool {
        self.magnitude() < INFINITY_BITS
    }

    /// An integer that orders the values that are not NaN as IEEE-754
    /// orders them. Both zeros have rank 0.
    pub open spec fn rank(self) -> int {
        if self.negative() {
            -self.magnitude()
        } else {
            self.magnitude()
        }
    }

    /// Positive zero.
    pub open spec fn spec_zero() -> Scalar {
        Scalar { bits: 0 }
    }

    /// `self < other` as IEEE-754 has it: false as soon as one side is NaN.
    pub open spec fn spec_lt(self, other: Scalar) -> bool {
        !self.spec_is_nan() && !other.spec_is_nan() && self.rank() < other.rank()
    }

    /// `self <= other` as IEEE-754 has it: false as soon as one side is NaN.
    pub open spec fn spec_le(self, other: Scalar) -> bool {
        !self.spec_is_nan() && !other.spec_is_nan() && self.rank() <= other.rank()
    }

    /// The value with the given bit pattern.
    pub fn from_bits(bits: u32) -> (s: Scalar)
        ensures
            s.bits == bits,
    {
        Scalar { bits }
    }

    /// The bit pattern of the value.
    pub fn to_bits(self) -> (bits: u32)
        ensures
            bits == self.bits,
    {
        self.bits
    }

    /// Positive zero.
    pub fn zero() -> (s: Scalar)
        ensures
            s == Scalar::spec_zero(),
            s.rank() == 0,
            !s.spec_is_nan(),
    {
        Scalar { bits: 0 }
    }

    /// Whether the value is a NaN.
    pub fn is_nan(self) -> (nan: bool)
        ensures
            nan == self.spec_is_nan(),
    {
        self.bits % SIGN_BIT > INFINITY_BITS
    }

    /// Whether the value is neither a NaN nor an infinity.
    pub fn is_finite(self) -> (finite: bool)
        ensures
            finite == self.spec_is_finite(),
    {
        self.bits % SIGN_BIT < INFINITY_BITS
    }

    /// The rank as a machine integer.
    pub fn rank_value(self) -> (r: i64)
        ensures
            r == self.rank(),
    {
        let magnitude: u32 = self.bits % SIGN_BIT;
        if self.bits >= SIGN_BIT {
            -(magnitude as i64)
        } else {
            magnitude as i64
        }
    }

    /// `self < other`.
    pub fn lt(self, other: Scalar) -> (less: bool)
        ensures
            less == self.spec_lt(other),
    {
        !self.is_nan() && !other.is_nan() && self.rank_value() < other.rank_value()
    }

    /// `self <= other`.
    pub fn le(self, other: Scalar) -> (at_most: bool)
        ensures
            at_most == self.spec_le(other),
    {
        !self.is_nan() && !other.is_nan() && self.rank_value() <= other.rank_value()
    }

    /// `self > other`.
    pub fn gt(self, other: Scalar) -> (greater: bool)
        ensures
            greater == other.spec_lt(self),
    {
        other.lt(self)
    }

    /// `self >= other`.
    pub fn ge(self, other: Scalar) -> (at_least: bool)
        ensures
            at_least == other.spec_le(self),
    {
        other.le(self)
    }
}

/// The comparisons order the numbers as an order should: `<` is
/// irreflexive, one-way and transitive; of two values that are not NaN one
/// is below the other or they have the same rank; `<=` is `<` or the same
/// rank; and a NaN compares with nothing.
pub proof fn lemma_comparisons_order(a: Scalar, b: Scalar, c: Scalar)
    ensures
        !a.spec_lt(a),
        a.spec_lt(b) ==> !b.spec_lt(a),
        a.spec_lt(b) && b.spec_lt(c) ==> a.spec_lt(c),
        !a.spec_is_nan() && !b.spec_is_nan() ==> a.spec_lt(b) || b.spec_lt(a) || a.rank()
            == b.rank(),
        a.spec_le(b) <==> a.spec_lt(b) || (!a.spec_is_nan() && !b.spec_is_nan() && a.rank()
            == b.rank()),
        a.spec_is_nan() || b.spec_is_nan() ==> !a.spec_lt(b) && !a.spec_le(b),
{
}

} // verus!
