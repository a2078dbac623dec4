//! Single-precision numbers carried as their IEEE 754 bit patterns.
//!
//! The library never does arithmetic on them. It stores them, hands them back
//! and compares them, and the comparison is defined on the bits alone.

use vstd::arithmetic::power2::{
    lemma_pow2_pos, lemma_pow2_strictly_increases, lemma_pow2_unfold, pow2,
};
use vstd::prelude::*;

verus! {

/// Bit pattern with only the sign bit set.
pub const SIGN_BIT: u32 = 0x8000_0000;

/// Bit pattern of positive infinity: every exponent bit set, no fraction bit.
pub const INFINITY_BITS: u32 = 0x7f80_0000;

/// Number of distinct fractions within one exponent.
pub const FRACTION_SPAN: u32 = 0x0080_0000;

/// Bit pattern of `0.0`.
pub const ZERO_BITS: u32 = 0;

/// Bit pattern of `0.5`.
pub const HALF_BITS: u32 = 0x3f00_0000;

/// Bit pattern of `1.0`.
pub const ONE_BITS: u32 = 0x3f80_0000;

/// A single-precision number, held as its bit pattern.
///
/// Two scalars are `==` when their bits are the same, which is finer than
/// numeric equality: `0.0` and `-0.0` differ, and a NaN equals itself.
#[derive(Clone, Copy, Debug, PartialEq, Eq, Structural)]
pub struct Scalar {
    pub bits: u32,
}

impl Scalar {
    /// The bits without the sign.
    pub open spec fn magnitude(self) -> int {
        if self.bits >= SIGN_BIT {
            self.bits - SIGN_BIT
        } else {
            self.bits as int
        }
    }

    /// The sign bit is set. This holds of `-0.0` too.
    pub open spec fn is_sign_negative(self) -> bool {
        self.bits >= SIGN_BIT
    }

    /// Not a number: the exponent is all ones and the fraction is not zero.
    pub open spec fn is_nan_spec(self) -> bool {
        self.magnitude() > INFINITY_BITS
    }

    /// Neither infinite nor NaN.
    pub open spec fn is_finite_spec(self) -> bool {
        self.magnitude() < INFINITY_BITS
    }

    /// The biased exponent field.
    pub open spec fn exponent(self) -> int {
        self.magnitude() / (FRACTION_SPAN as int)
    }

    /// The fraction field.
    pub open spec fn fraction(self) -> int {
        self.magnitude() % (FRACTION_SPAN as int)
    }

    /// Position of the number on the number line, as an integer: the magnitude
    /// with the sign applied. Both zeros have rank 0.
    pub open spec fn rank(self) -> int {
        if self.is_sign_negative() {
            -self.magnitude()
        } else {
            self.magnitude()
        }
    }

    /// Numeric `<=`: false as soon as one side is NaN.
    pub open spec fn le_spec(self, other: Scalar) -> bool {
        !self.is_nan_spec() && !other.is_nan_spec() && self.rank() <= other.rank()
    }

    /// Numeric `<`: false as soon as one side is NaN.
    pub open spec fn lt_spec(self, other: Scalar) -> bool {
        !self.is_nan_spec() && !other.is_nan_spec() && self.rank() < other.rank()
    }

    /// The absolute value of a finite scalar in units of 2^-149, the spacing
    /// of the smallest subnormals. Every finite single-precision number is a
    /// whole multiple of that unit.
    pub open spec fn scaled_magnitude(self) -> int {
        if self.exponent() == 0 {
            self.fraction()
        } else {
            (FRACTION_SPAN as int + self.fraction()) * pow2((self.exponent() - 1) as nat) as int
        }
    }

    /// The value of a finite scalar in units of 2^-149.
    pub open spec fn scaled_value(self) -> int {
        if self.is_sign_negative() {
            -self.scaled_magnitude()
        } else {
            self.scaled_magnitude()
        }
    }

    /// Wraps a bit pattern.
    pub fn from_bits(bits: u32) -> (r: Scalar)
        ensures
            r.bits == bits,
    {
        Scalar { bits }
    }

    /// The bit pattern.
    pub fn to_bits(&self) -> (r: u32)
        ensures
            r == self.bits,
    {
        self.bits
    }

    /// The scalar `0.0`.
    pub fn zero() -> (r: Scalar)
        ensures
            r.bits == ZERO_BITS,
    {
        Scalar { bits: ZERO_BITS }
    }

    /// The scalar `1.0`.
    pub fn one() -> (r: Scalar)
        ensures
            r.bits == ONE_BITS,
    {
        Scalar { bits: ONE_BITS }
    }

    fn magnitude_bits(&self) -> (r: u32)
        ensures
            r == self.magnitude(),
    {
        if self.bits >= SIGN_BIT {
            self.bits - SIGN_BIT
        } else {
            self.bits
        }
    }

    /// Whether the scalar is NaN.
    pub fn is_nan(&self) -> (r: bool)
        ensures
            r == self.is_nan_spec(),
    {
        self.magnitude_bits() > INFINITY_BITS
    }

    /// Whether the scalar is neither infinite nor NaN.
    pub fn is_finite(&self) -> (r: bool)
        ensures
            r == self.is_finite_spec(),
    {
        self.magnitude_bits() < INFINITY_BITS
    }

    /// Numeric `<=`.
    pub fn le(&self, other: &Scalar) -> (r: bool)
        ensures
            r == self.le_spec(*other),
    {
        if self.is_nan() || other.is_nan() {
            return false;
        }
        let a: u32 = self.magnitude_bits();
        let b: u32 = other.magnitude_bits();
        if self.bits >= SIGN_BIT {
            if other.bits >= SIGN_BIT {
                b <= a
            } else {
                true
            }
        } else {
            if other.bits >= SIGN_BIT {
                a == 0 && b == 0
            } else {
                a <= b
            }
        }
    }

    /// Numeric `<`.
    pub fn lt(&self, other: &Scalar) -> (r: bool)
        ensures
            r == self.lt_spec(*other),
    {
        if self.is_nan() || other.is_nan() {
            return false;
        }
        let a: u32 = self.magnitude_bits();
        let b: u32 = other.magnitude_bits();
        if self.bits >= SIGN_BIT {
            if other.bits >= SIGN_BIT {
                b < a
            } else {
                !(a == 0 && b == 0)
            }
        } else {
            if other.bits >= SIGN_BIT {
                false
            } else {
                a < b
            }
        }
    }
}

/// Among magnitudes of finite scalars, the larger bit pattern is the larger
/// number.
pub proof fn lemma_magnitude_orders_by_value(a: Scalar, b: Scalar)
    requires
        a.is_finite_spec(),
        b.is_finite_spec(),
        a.magnitude() < b.magnitude(),
    ensures
        a.scaled_magnitude() < b.scaled_magnitude(),
{
    let span = FRACTION_SPAN as int;
    let (ea, fa) = (a.exponent(), a.fraction());
    let (eb, fb) = (b.exponent(), b.fraction());
    assert(ea < eb || (ea == eb && fa < fb)) by {
        if ea >= eb {
            vstd::arithmetic::div_mod::lemma_fundamental_div_mod(a.magnitude(), span);
            vstd::arithmetic::div_mod::lemma_fundamental_div_mod(b.magnitude(), span);
            if ea > eb {
                assert(span * ea >= span * (eb + 1)) by (nonlinear_arith)
                    requires
                        ea >= eb + 1,
                        span > 0,
                ;
                assert(span * (eb + 1) == span * eb + span) by (nonlinear_arith);
            }
        }
    }
    assert(0 <= ea && 0 <= eb);
    if ea == eb {
        if ea != 0 {
            let p = pow2((ea - 1) as nat) as int;
            lemma_pow2_pos((ea - 1) as nat);
            assert((span + fa) * p < (span + fb) * p) by (nonlinear_arith)
                requires
                    fa < fb,
                    p > 0,
            ;
        }
    } else {
        let pb = pow2((eb - 1) as nat) as int;
        lemma_pow2_pos((eb - 1) as nat);
        assert(span <= (span + fb) * pb) by (nonlinear_arith)
            requires
                pb >= 1,
                fb >= 0,
                span > 0,
        ;
        if ea != 0 {
            let pa = pow2((ea - 1) as nat) as int;
            lemma_pow2_pos((ea - 1) as nat);
            lemma_pow2_unfold(ea as nat);
            if ea < eb - 1 {
                lemma_pow2_strictly_increases(ea as nat, (eb - 1) as nat);
            }
            assert(2 * pa <= pb);
            assert((span + fa) * pa < (span + fb) * pb) by (nonlinear_arith)
                requires
                    0 <= fa < span,
                    0 <= fb,
                    pa > 0,
                    2 * pa <= pb,
            ;
        }
    }
}

/// The order of the ranks is the order of the numbers: of two finite scalars
/// the one of lower rank is the smaller number, and scalars of equal rank are
/// the same number.
pub proof fn lemma_rank_orders_by_value(a: Scalar, b: Scalar)
    requires
        a.is_finite_spec(),
        b.is_finite_spec(),
    ensures
        a.rank() < b.rank() <==> a.scaled_value() < b.scaled_value(),
        a.le_spec(b) <==> a.scaled_value() <= b.scaled_value(),
{
    lemma_scaled_magnitude_sign(a);
    lemma_scaled_magnitude_sign(b);
    if a.magnitude() < b.magnitude() {
        lemma_magnitude_orders_by_value(a, b);
    } else if b.magnitude() < a.magnitude() {
        lemma_magnitude_orders_by_value(b, a);
    }
}

/// The magnitude of a finite scalar is zero exactly for the two zeros, and
/// positive otherwise.
pub proof fn lemma_scaled_magnitude_sign(a: Scalar)
    requires
        a.is_finite_spec(),
    ensures
        a.scaled_magnitude() >= 0,
        a.scaled_magnitude() == 0 <==> a.magnitude() == 0,
{
    let span = FRACTION_SPAN as int;
    vstd::arithmetic::div_mod::lemma_fundamental_div_mod(a.magnitude(), span);
    if a.exponent() != 0 {
        let p = pow2((a.exponent() - 1) as nat) as int;
        lemma_pow2_pos((a.exponent() - 1) as nat);
        assert((span + a.fraction()) * p > 0) by (nonlinear_arith)
            requires
                span > 0,
                a.fraction() >= 0,
                p > 0,
        ;
        assert(span * a.exponent() >= span) by (nonlinear_arith)
            requires
                span > 0,
                a.exponent() >= 1,
        ;
    } else {
        assert(span * a.exponent() == 0) by (nonlinear_arith)
            requires
                a.exponent() == 0,
        ;
    }
}

} // verus!
