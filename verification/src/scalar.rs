//! Double-precision values as bit patterns.
//!
//! The library never performs real-number arithmetic. It decides: which of two
//! parameters is nearer, whether a root lies inside an interval, which face of
//! a box a point rests on. Every such decision is a comparison, and a
//! comparison of two IEEE-754 binary64 values can be read off their bit
//! patterns with integer operations alone. A [`Scalar`] therefore holds the
//! pattern, and callers who compute sums, products, quotients and square roots
//! hand their results over in that form.
//!
//! The model has two parts. A pattern whose low 63 bits exceed those of
//! infinity is not a number. Every other pattern has a `rank`: its low 63 bits
//! read as an integer, negated when the sign bit is set. Ranks order the
//! numbers exactly as IEEE-754 does, both zeros sharing rank 0 and the two
//! infinities holding the extreme ranks.
use vstd::prelude::*;

verus! {

/// The sign bit of a binary64 pattern.
pub const SIGN_BIT: u64 = 0x8000_0000_0000_0000;

/// The pattern of positive infinity: the largest magnitude that is a number.
pub const INFINITY_BITS: u64 = 0x7FF0_0000_0000_0000;

/// The pattern of the tolerance `1e-6` used when a point is matched against a
/// plane or a face.
pub const EPSILON_BITS: u64 = 0x3EB0_C6F7_A0B5_ED8D;

/// An IEEE-754 binary64 value, held as its bit pattern.
#[derive(Clone, Copy, Debug)]
pub struct Scalar {
    pub bits: u64,
}

impl Scalar {
    /// The low 63 bits of the pattern: exponent and fraction without the sign.
    pub open spec fn magnitude(self) -> int {
        if self.bits >= SIGN_BIT {
            self.bits - SIGN_BIT
        } else {
            self.bits as int
        }
    }

    /// Whether the sign bit is set.
    pub open spec fn sign(self) -> bool {
        self.bits >= SIGN_BIT
    }

    /// Whether the pattern is not a number.
    pub open spec fn spec_is_nan(self) -> bool {
        self.magnitude() > INFINITY_BITS
    }

    /// Whether the pattern is one of the two infinities.
    pub open spec fn spec_is_infinite(self) -> bool {
        self.magnitude() == INFINITY_BITS
    }

    /// The position of a number in the order of all numbers. Meaningful only
    /// where the pattern is a number.
    pub open spec fn rank(self) -> int {
        if self.sign() {
            -self.magnitude()
        } else {
            self.magnitude()
        }
    }

    /// `self < other` as IEEE-754 defines it: false whenever either side is
    /// not a number.
    pub open spec fn spec_lt(self, other: Scalar) -> bool {
        !self.spec_is_nan() && !other.spec_is_nan() && self.rank() < other.rank()
    }

    /// `self <= other` as IEEE-754 defines it.
    pub open spec fn spec_le(self, other: Scalar) -> bool {
        !self.spec_is_nan() && !other.spec_is_nan() && self.rank() <= other.rank()
    }

    /// `self > other` as IEEE-754 defines it.
    pub open spec fn spec_gt(self, other: Scalar) -> bool {
        other.spec_lt(self)
    }

    /// `self >= other` as IEEE-754 defines it.
    pub open spec fn spec_ge(self, other: Scalar) -> bool {
        other.spec_le(self)
    }

    /// `self == other` as IEEE-754 defines it: the two zeros are equal, and
    /// nothing equals a pattern that is not a number.
    pub open spec fn spec_equals(self, other: Scalar) -> bool {
        !self.spec_is_nan() && !other.spec_is_nan() && self.rank() == other.rank()
    }

    /// The pattern with its sign bit cleared.
    pub open spec fn spec_abs(self) -> Scalar {
        Scalar { bits: self.magnitude() as u64 }
    }

    /// The pattern of `1e-6`.
    pub open spec fn spec_epsilon() -> Scalar {
        Scalar { bits: EPSILON_BITS }
    }

    /// The pattern of positive infinity.
    pub open spec fn spec_infinity() -> Scalar {
        Scalar { bits: INFINITY_BITS }
    }

    /// The pattern of negative infinity.
    pub open spec fn spec_neg_infinity() -> Scalar {
        Scalar { bits: 0xFFF0_0000_0000_0000 }
    }

    /// The pattern of positive zero.
    pub open spec fn spec_zero() -> Scalar {
        Scalar { bits: 0 }
    }

    /// Wraps a bit pattern.
    pub fn from_bits(bits: u64) -> (s: Scalar)
        ensures
            s.bits == bits,
    {
        Scalar { bits }
    }

    /// The bit pattern.
    pub fn to_bits(self) -> (bits: u64)
        ensures
            bits == self.bits,
    {
        self.bits
    }

    /// The tolerance `1e-6`.
    #[verifier::when_used_as_spec(spec_epsilon)]
    pub fn epsilon() -> (s: Scalar)
        ensures
            s == Self::spec_epsilon(),
    {
        Scalar { bits: EPSILON_BITS }
    }

    /// Positive infinity.
    #[verifier::when_used_as_spec(spec_infinity)]
    pub fn infinity() -> (s: Scalar)
        ensures
            s == Self::spec_infinity(),
    {
        Scalar { bits: INFINITY_BITS }
    }

    /// Positive zero.
    #[verifier::when_used_as_spec(spec_zero)]
    pub fn zero() -> (s: Scalar)
        ensures
            s == Self::spec_zero(),
    {
        Scalar { bits: 0 }
    }

    /// Whether the value is not a number.
    #[verifier::when_used_as_spec(spec_is_nan)]
    pub fn is_nan(self) -> (r: bool)
        ensures
            r == self.spec_is_nan(),
    {
        if self.bits >= SIGN_BIT {
            self.bits - SIGN_BIT > INFINITY_BITS
        } else {
            self.bits > INFINITY_BITS
        }
    }

    /// Whether the value is positive or negative infinity.
    #[verifier::when_used_as_spec(spec_is_infinite)]
    pub fn is_infinite(self) -> (r: bool)
        ensures
            r == self.spec_is_infinite(),
    {
        if self.bits >= SIGN_BIT {
            self.bits - SIGN_BIT == INFINITY_BITS
        } else {
            self.bits == INFINITY_BITS
        }
    }

    /// The rank as a machine integer.
    fn ordinal(self) -> (r: i64)
        ensures
            r == self.rank(),
    {
        if self.bits >= SIGN_BIT {
            let low: u64 = self.bits - SIGN_BIT;
            -(low as i64)
        } else {
            self.bits as i64
        }
    }

    /// `self < other`.
    #[verifier::when_used_as_spec(spec_lt)]
    pub fn lt(self, other: Scalar) -> (r: bool)
        ensures
            r == self.spec_lt(other),
    {
        !self.is_nan() && !other.is_nan() && self.ordinal() < other.ordinal()
    }

    /// `self <= other`.
    #[verifier::when_used_as_spec(spec_le)]
    pub fn le(self, other: Scalar) -> (r: bool)
        ensures
            r == self.spec_le(other),
    {
        !self.is_nan() && !other.is_nan() && self.ordinal() <= other.ordinal()
    }

    /// `self > other`.
    #[verifier::when_used_as_spec(spec_gt)]
    pub fn gt(self, other: Scalar) -> (r: bool)
        ensures
            r == self.spec_gt(other),
    {
        other.lt(self)
    }

    /// `self >= other`.
    #[verifier::when_used_as_spec(spec_ge)]
    pub fn ge(self, other: Scalar) -> (r: bool)
        ensures
            r == self.spec_ge(other),
    {
        other.le(self)
    }

    /// `self == other` in the IEEE-754 sense.
    #[verifier::when_used_as_spec(spec_equals)]
    pub fn equals(self, other: Scalar) -> (r: bool)
        ensures
            r == self.spec_equals(other),
    {
        !self.is_nan() && !other.is_nan() && self.ordinal() == other.ordinal()
    }

    /// The absolute value: the same pattern with the sign bit cleared.
    #[verifier::when_used_as_spec(spec_abs)]
    pub fn abs(self) -> (r: Scalar)
        ensures
            r == self.spec_abs(),
            r.is_nan() == self.is_nan(),
            !self.is_nan() ==> r.rank() == if self.rank() < 0 {
                -self.rank()
            } else {
                self.rank()
            },
    {
        if self.bits >= SIGN_BIT {
            Scalar { bits: self.bits - SIGN_BIT }
        } else {
            self
        }
    }
}

/// Among numbers, exactly one of `a < b`, `a == b`, `a > b` holds, and `<=` is
/// `<` or `==`.
pub proof fn lemma_numbers_are_totally_ordered(a: Scalar, b: Scalar)
    requires
        !a.is_nan(),
        !b.is_nan(),
    ensures
        a.lt(b) || a.equals(b) || a.gt(b),
        !(a.lt(b) && a.equals(b)),
        !(a.lt(b) && a.gt(b)),
        !(a.equals(b) && a.gt(b)),
        a.le(b) == (a.lt(b) || a.equals(b)),
        a.ge(b) == !a.lt(b),
{
}

/// Among numbers, `<` and `<=` are transitive.
pub proof fn lemma_order_is_transitive(a: Scalar, b: Scalar, c: Scalar)
    ensures
        a.lt(b) && b.lt(c) ==> a.lt(c),
        a.le(b) && b.le(c) ==> a.le(c),
        a.lt(b) && b.le(c) ==> a.lt(c),
        a.le(b) && b.lt(c) ==> a.lt(c),
{
}

/// Every comparison with a value that is not a number is false.
pub proof fn lemma_nan_is_unordered(a: Scalar, b: Scalar)
    requires
        a.is_nan() || b.is_nan(),
    ensures
        !a.lt(b),
        !a.le(b),
        !a.gt(b),
        !a.ge(b),
        !a.equals(b),
{
}

/// The two infinities bound every number.
pub proof fn lemma_infinities_are_extreme(a: Scalar)
    requires
        !a.is_nan(),
    ensures
        a.le(Scalar::infinity()),
        Scalar::spec_neg_infinity().le(a),
{
}

} // verus!
