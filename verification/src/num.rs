//! Binary floating-point numbers as the library carries them.
//!
//! Prices, rates and amounts arrive as IEEE 754 binary64 values. The library
//! never adds or multiplies them; it stores them, compares them and picks one
//! of them. A [`Binary64`] is such a value by its bit pattern, and every
//! comparison below is decided on that pattern with integer arithmetic.

use vstd::prelude::*;
use vstd::arithmetic::power2::{lemma_pow2_adds, lemma_pow2_pos, lemma_pow2_strictly_increases, pow2};

verus! {

/// First bit pattern whose sign bit is set.
pub const SIGN_BIT: u64 = 0x8000_0000_0000_0000;

/// Bit pattern of positive infinity; larger magnitudes are NaNs.
pub const INFINITY_BITS: u64 = 0x7ff0_0000_0000_0000;

/// Number of fraction patterns per exponent, two to the power of 52.
pub const FRACTION_SPAN: u64 = 0x0010_0000_0000_0000;

/// An IEEE 754 binary64 value, held as its bit pattern.
#[derive(Clone, Copy, Debug, PartialEq, Eq, Structural)]
pub struct Binary64 {
    /// Sign, exponent and fraction, most significant bit first.
    pub bits: u64,
}

impl Binary64 {
    /// The pattern without its sign.
    pub open spec fn magnitude(self) -> int {
        if self.bits >= SIGN_BIT {
            self.bits - SIGN_BIT
        } else {
            self.bits as int
        }
    }

    /// Not a number.
    pub open spec fn spec_is_nan(self) -> bool {
        self.magnitude() > INFINITY_BITS
    }

    /// Neither infinite nor a NaN.
    pub open spec fn spec_is_finite(self) -> bool {
        self.magnitude() < INFINITY_BITS
    }

    /// Position of the value on the line of all values that are not NaNs;
    /// both zeros stand at 0.
    pub open spec fn key(self) -> int {
        if self.bits >= SIGN_BIT {
            -self.magnitude()
        } else {
            self.magnitude()
        }
    }

    /// The real number that a finite pattern denotes, in units of two to the
    /// power of -1074 (every finite value is a whole number of them).
    pub open spec fn units(self) -> int {
        let m = self.magnitude();
        let u = magnitude_units(m);
        if self.bits >= SIGN_BIT {
            -u
        } else {
            u
        }
    }

    /// IEEE `<`: false as soon as one side is a NaN.
    pub open spec fn spec_lt(self, other: Self) -> bool {
        !self.spec_is_nan() && !other.spec_is_nan() && self.key() < other.key()
    }

    /// IEEE `<=`: false as soon as one side is a NaN.
    pub open spec fn spec_le(self, other: Self) -> bool {
        !self.spec_is_nan() && !other.spec_is_nan() && self.key() <= other.key()
    }

    /// IEEE `==`: both zeros are equal, a NaN equals nothing.
    pub open spec fn spec_eq(self, other: Self) -> bool {
        !self.spec_is_nan() && !other.spec_is_nan() && self.key() == other.key()
    }

    /// Strictly above zero.
    pub open spec fn spec_is_positive(self) -> bool {
        !self.spec_is_nan() && self.key() > 0
    }

    /// Strictly below zero.
    pub open spec fn spec_is_negative(self) -> bool {
        !self.spec_is_nan() && self.key() < 0
    }

    /// One of the two zeros.
    pub open spec fn spec_is_zero(self) -> bool {
        self.key() == 0
    }

    /// The smaller of two values; a NaN yields to the other side.
    pub open spec fn spec_min(self, other: Self) -> Self {
        if self.spec_is_nan() || other.spec_lt(self) {
            other
        } else {
            self
        }
    }

    /// The larger of two values; a NaN yields to the other side.
    pub open spec fn spec_max(self, other: Self) -> Self {
        if self.spec_is_nan() || self.spec_lt(other) {
            other
        } else {
            self
        }
    }

    /// Positive zero.
    pub open spec fn spec_zero() -> Self {
        Binary64 { bits: 0 }
    }

    /// The value with the given bit pattern.
    pub fn from_bits(bits: u64) -> (r: Self)
        ensures
            r.bits == bits,
    {
        Binary64 { bits }
    }

    /// The bit pattern of the value.
    pub fn to_bits(self) -> (r: u64)
        ensures
            r == self.bits,
    {
        self.bits
    }

    /// Positive zero.
    pub fn zero() -> (r: Self)
        ensures
            r == Self::spec_zero(),
            r.spec_is_zero(),
    {
        Binary64 { bits: 0 }
    }

    fn magnitude_bits(self) -> (r: u64)
        ensures
            r == self.magnitude(),
    {
        if self.bits >= SIGN_BIT {
            self.bits - SIGN_BIT
        } else {
            self.bits
        }
    }

    /// Whether the value is a NaN.
    pub fn is_nan(self) -> (r: bool)
        ensures
            r == self.spec_is_nan(),
    {
        self.magnitude_bits() > INFINITY_BITS
    }

    /// Whether the value is neither infinite nor a NaN.
    pub fn is_finite(self) -> (r: bool)
        ensures
            r == self.spec_is_finite(),
    {
        self.magnitude_bits() < INFINITY_BITS
    }

    fn order_key(self) -> (r: i64)
        ensures
            r == self.key(),
    {
        let m: u64 = self.magnitude_bits();
        if self.bits >= SIGN_BIT {
            -(m as i64)
        } else {
            m as i64
        }
    }

    /// IEEE `<`.
    pub fn lt(self, other: Self) -> (r: bool)
        ensures
            r == self.spec_lt(other),
    {
        !self.is_nan() && !other.is_nan() && self.order_key() < other.order_key()
    }

    /// IEEE `<=`.
    pub fn le(self, other: Self) -> (r: bool)
        ensures
            r == self.spec_le(other),
    {
        !self.is_nan() && !other.is_nan() && self.order_key() <= other.order_key()
    }

    /// IEEE `==`.
    pub fn same(self, other: Self) -> (r: bool)
        ensures
            r == self.spec_eq(other),
    {
        !self.is_nan() && !other.is_nan() && self.order_key() == other.order_key()
    }

    /// Whether the value is strictly above zero.
    pub fn is_positive(self) -> (r: bool)
        ensures
            r == self.spec_is_positive(),
    {
        !self.is_nan() && self.order_key() > 0
    }

    /// Whether the value is strictly below zero.
    pub fn is_negative(self) -> (r: bool)
        ensures
            r == self.spec_is_negative(),
    {
        !self.is_nan() && self.order_key() < 0
    }

    /// Whether the value is one of the two zeros.
    pub fn is_zero(self) -> (r: bool)
        ensures
            r == self.spec_is_zero(),
    {
        self.order_key() == 0
    }

    /// The smaller of two values; a NaN yields to the other side.
    pub fn min(self, other: Self) -> (r: Self)
        ensures
            r == self.spec_min(other),
    {
        if self.is_nan() || other.lt(self) {
            other
        } else {
            self
        }
    }

    /// The larger of two values; a NaN yields to the other side.
    pub fn max(self, other: Self) -> (r: Self)
        ensures
            r == self.spec_max(other),
    {
        if self.is_nan() || self.lt(other) {
            other
        } else {
            self
        }
    }
}

/// The number denoted by a sign-less pattern, in units of two to the power of
/// -1074: the fraction itself for a subnormal, otherwise the fraction with its
/// leading one, doubled once per exponent step above the first.
pub open spec fn magnitude_units(m: int) -> int {
    let exponent = m / (FRACTION_SPAN as int);
    let fraction = m % (FRACTION_SPAN as int);
    if exponent <= 0 {
        fraction
    } else {
        (FRACTION_SPAN + fraction) * pow2((exponent - 1) as nat)
    }
}

proof fn magnitude_units_increase(a: int, b: int)
    requires
        0 <= a < b,
    ensures
        0 <= magnitude_units(a) < magnitude_units(b),
{
    let span = FRACTION_SPAN as int;
    let (ea, fa) = (a / span, a % span);
    let (eb, fb) = (b / span, b % span);
    assert(a == ea * span + fa && b == eb * span + fb && 0 <= fa < span && 0 <= fb < span && ea <= eb);
    if ea == eb {
        assert(fa < fb);
        if ea > 0 {
            let p = pow2((ea - 1) as nat);
            lemma_pow2_pos((ea - 1) as nat);
            assert((span + fa) * p < (span + fb) * p && 0 <= (span + fa) * p) by (nonlinear_arith)
                requires
                    0 <= fa < fb,
                    p > 0,
                    span > 0,
            ;
        }
    } else {
        let pb = pow2((eb - 1) as nat);
        lemma_pow2_pos((eb - 1) as nat);
        assert((span + fb) * pb >= span * pb && span * pb >= span) by (nonlinear_arith)
            requires
                0 <= fb,
                pb > 0,
                span > 0,
        ;
        if ea > 0 {
            let pa = pow2((ea - 1) as nat);
            lemma_pow2_pos((ea - 1) as nat);
            lemma_pow2_adds((ea - 1) as nat, 1);
            assert(pow2(1) == 2) by {
                reveal(pow2);
                vstd::arithmetic::power2::lemma2_to64();
            }
            if ea < eb - 1 {
                lemma_pow2_strictly_increases(ea as nat, (eb - 1) as nat);
            }
            assert(pow2(ea as nat) == pa * 2 && pow2(ea as nat) <= pb);
            assert((span + fa) * pa < span * (pa * 2) && 0 <= (span + fa) * pa && span * (pa * 2) <= span * pb)
                by (nonlinear_arith)
                requires
                    0 <= fa < span,
                    pa > 0,
                    pa * 2 <= pb,
            ;
        }
    }
}

/// Comparing the patterns of two finite values is comparing the numbers they
/// denote: the order on keys, and equality of keys, are those of the reals.
pub proof fn order_is_numeric(a: Binary64, b: Binary64)
    requires
        a.spec_is_finite(),
        b.spec_is_finite(),
    ensures
        a.spec_lt(b) <==> a.units() < b.units(),
        a.spec_le(b) <==> a.units() <= b.units(),
        a.spec_eq(b) <==> a.units() == b.units(),
        a.spec_is_positive() <==> a.units() > 0,
        a.spec_is_negative() <==> a.units() < 0,
        a.spec_is_zero() <==> a.units() == 0,
{
    let (ma, mb) = (a.magnitude(), b.magnitude());
    assert(magnitude_units(0) == 0);
    if ma > 0 {
        magnitude_units_increase(0, ma);
    }
    if mb > 0 {
        magnitude_units_increase(0, mb);
    }
    if ma < mb {
        magnitude_units_increase(ma, mb);
    } else if mb < ma {
        magnitude_units_increase(mb, ma);
    }
}

/// `min` and `max` of two numbers are the two numbers again, in order.
pub proof fn min_max_are_the_two(a: Binary64, b: Binary64)
    requires
        !a.spec_is_nan(),
        !b.spec_is_nan(),
    ensures
        a.spec_min(b) == a || a.spec_min(b) == b,
        a.spec_max(b) == a || a.spec_max(b) == b,
        a.spec_min(b).spec_le(a) && a.spec_min(b).spec_le(b),
        a.spec_le(a.spec_max(b)) && b.spec_le(a.spec_max(b)),
{
}

/// A NaN is neither below, nor above, nor equal to anything, and yields to the
/// other side in `min` and `max`.
pub proof fn nans_compare_with_nothing(nan: Binary64, other: Binary64)
    requires
        nan.spec_is_nan(),
    ensures
        !nan.spec_lt(other) && !other.spec_lt(nan),
        !nan.spec_le(other) && !other.spec_le(nan),
        !nan.spec_eq(other) && !other.spec_eq(nan),
        !nan.spec_is_positive() && !nan.spec_is_negative() && !nan.spec_is_zero(),
        nan.spec_min(other) == other && nan.spec_max(other) == other,
        !other.spec_is_nan() ==> other.spec_min(nan) == other && other.spec_max(nan) == other,
        !nan.spec_is_finite(),
{
}

/// The order is total on numbers: of two of them one is below the other or they
/// are equal, and `<=` is either of the last two.
pub proof fn numbers_are_in_order(a: Binary64, b: Binary64, c: Binary64)
    requires
        !a.spec_is_nan(),
        !b.spec_is_nan(),
        !c.spec_is_nan(),
    ensures
        a.spec_lt(b) || a.spec_eq(b) || b.spec_lt(a),
        !(a.spec_lt(b) && b.spec_lt(a)),
        a.spec_le(b) <==> a.spec_lt(b) || a.spec_eq(b),
        a.spec_lt(b) && b.spec_lt(c) ==> a.spec_lt(c),
        a.spec_is_positive() <==> Binary64::spec_zero().spec_lt(a),
        a.spec_is_negative() <==> a.spec_lt(Binary64::spec_zero()),
        a.spec_is_zero() <==> a.spec_eq(Binary64::spec_zero()),
{
}

} // verus!
