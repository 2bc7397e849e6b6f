//! Signed fixed-point numbers with 32 fractional bits and saturating arithmetic.
//!
//! A [`Fixed`] holds a 64-bit count of units of 2^-32, so it represents the
//! multiples of 2^-32 from -2^31 up to just under 2^31. Every operation is
//! total: a result beyond the representable range is replaced by the nearest
//! bound, and products and quotients are rounded toward zero.
use vstd::arithmetic::div_mod::{lemma_fundamental_div_mod, lemma_fundamental_div_mod_converse};
use vstd::prelude::*;

verus! {

/// The number of units in the value one.
pub const ONE: i64 = 0x1_0000_0000;

/// The distance of `a` from zero.
pub open spec fn magnitude(a: int) -> int {
    if a < 0 {
        -a
    } else {
        a
    }
}

/// The nearest representable count of units to `x`.
pub open spec fn saturate(x: int) -> int {
    if x < i64::MIN {
        i64::MIN as int
    } else if x > i64::MAX {
        i64::MAX as int
    } else {
        x
    }
}

/// The integer quotient of `a` by a nonzero `b`, rounded toward zero.
pub open spec fn quotient(a: int, b: int) -> int {
    if (a < 0) != (b < 0) {
        -(magnitude(a) / magnitude(b))
    } else {
        magnitude(a) / magnitude(b)
    }
}

/// Units of the saturating sum of two numbers given in units.
pub open spec fn sum(a: int, b: int) -> int {
    saturate(a + b)
}

/// Units of the saturating difference of two numbers given in units.
pub open spec fn difference(a: int, b: int) -> int {
    saturate(a - b)
}

/// Units of the saturating product of two numbers given in units: the exact
/// product, rounded toward zero to a whole number of units.
pub open spec fn product(a: int, b: int) -> int {
    saturate(quotient(a * b, ONE as int))
}

/// Units of the saturating quotient of two numbers given in units: the exact
/// quotient, rounded toward zero to a whole number of units. Division by zero
/// yields the bound on the side of the dividend's sign, and zero for a zero
/// dividend.
pub open spec fn ratio(a: int, b: int) -> int {
    if b == 0 {
        if a > 0 {
            i64::MAX as int
        } else if a < 0 {
            i64::MIN as int
        } else {
            0
        }
    } else {
        saturate(quotient(a * ONE, b))
    }
}

/// Units of the fractional part of a number given in units: what is left
/// after the whole part, rounded toward zero, is taken away. It carries the
/// sign of `a`.
pub open spec fn fraction(a: int) -> int {
    a - quotient(a, ONE as int) * ONE
}

/// Units of the fraction `numerator / denominator` of whole numbers, for a
/// positive denominator, rounded to the nearest unit.
pub open spec fn nearest(numerator: int, denominator: int) -> int {
    (2 * numerator * ONE + denominator) / (2 * denominator)
}

/// `q` is the nearest unit to `numerator / denominator` when twice the
/// fraction, in units, lies within one of `2q`.
pub proof fn lemma_nearest(numerator: int, denominator: int, q: int)
    requires
        denominator > 0,
        2 * denominator * q <= 2 * numerator * ONE + denominator < 2 * denominator * (q + 1),
    ensures
        nearest(numerator, denominator) == q,
{
    let x = 2 * numerator * ONE + denominator;
    let d = 2 * denominator;
    assert(x == q * d + (x - d * q)) by (nonlinear_arith);
    assert(d * (q + 1) == d * q + d) by (nonlinear_arith);
    lemma_fundamental_div_mod_converse(x, d, q, x - d * q);
}

/// Multiplying by a whole number `k` is exact: the product of `k` and `x`
/// is `k` times `x`, saturated.
pub proof fn lemma_product_by_whole(k: int, x: int)
    ensures
        product(k * ONE, x) == saturate(k * x),
        product(x, k * ONE) == saturate(k * x),
{
    let one = ONE as int;
    assert((k * one) * x == (k * x) * one && x * (k * one) == (k * x) * one) by (nonlinear_arith);
    assert(magnitude((k * x) * one) == magnitude(k * x) * one) by (nonlinear_arith)
        requires
            one > 0,
    ;
    assert((magnitude(k * x) * one) / one == magnitude(k * x)) by (nonlinear_arith)
        requires
            one > 0,
    ;
    assert(((k * x) * one < 0) == (k * x < 0)) by (nonlinear_arith)
        requires
            one > 0,
    ;
}

/// The fractional part is the remainder of the magnitude by one, with the
/// sign of the number.
pub proof fn lemma_fraction_is_remainder(a: int)
    ensures
        a >= 0 ==> fraction(a) == a % (ONE as int),
        a < 0 ==> fraction(a) == -((-a) % (ONE as int)),
        -ONE < fraction(a) < ONE,
{
    let one = ONE as int;
    let m = magnitude(a);
    lemma_fundamental_div_mod(m, one);
    assert((m / one) * one == one * (m / one)) by (nonlinear_arith);
    assert((-(m / one)) * one == -(one * (m / one))) by (nonlinear_arith);
}

/// A fixed-point number; its view is its count of units of 2^-32.
#[derive(Clone, Copy, PartialEq, Eq, Structural, Debug)]
pub struct Fixed {
    /// The count of units of 2^-32.
    pub bits: i64,
}

impl View for Fixed {
    type V = int;

    open spec fn view(&self) -> int {
        self.bits as int
    }
}

/// The magnitude of a count of units as an unsigned integer.
fn unsigned_magnitude(raw: i64) -> (m: u128)
    ensures
        m == magnitude(raw as int),
{
    if raw < 0 {
        let wide: i128 = raw as i128;
        (-wide) as u128
    } else {
        raw as u128
    }
}

/// The number with the given sign and magnitude, saturated.
fn from_sign_magnitude(negative: bool, m: u128) -> (r: Fixed)
    ensures
        r@ == saturate(if negative { -(m as int) } else { m as int }),
{
    if negative {
        if m >= 0x8000_0000_0000_0000u128 {
            Fixed { bits: i64::MIN }
        } else {
            let narrow: i64 = m as i64;
            Fixed { bits: -narrow }
        }
    } else {
        if m > 0x7fff_ffff_ffff_ffffu128 {
            Fixed { bits: i64::MAX }
        } else {
            Fixed { bits: m as i64 }
        }
    }
}

impl Fixed {
    /// The whole number `n`, which is always representable.
    pub fn from_int(n: i32) -> (r: Fixed)
        ensures
            r@ == n * ONE,
    {
        let wide: i64 = n as i64;
        Fixed { bits: wide * ONE }
    }

    /// Whether `self` is less than `other`.
    pub fn lt(self, other: Fixed) -> (b: bool)
        ensures
            b == (self@ < other@),
    {
        self.bits < other.bits
    }

    /// Whether `self` is greater than `other`.
    pub fn gt(self, other: Fixed) -> (b: bool)
        ensures
            b == (self@ > other@),
    {
        self.bits > other.bits
    }

    /// Whether `self` is at least `other`.
    pub fn ge(self, other: Fixed) -> (b: bool)
        ensures
            b == (self@ >= other@),
    {
        self.bits >= other.bits
    }

    /// The sum of `self` and `rhs`, saturated.
    pub fn saturating_add(self, rhs: Fixed) -> (r: Fixed)
        ensures
            r@ == sum(self@, rhs@),
    {
        let wide: i128 = self.bits as i128 + rhs.bits as i128;
        if wide < i64::MIN as i128 {
            Fixed { bits: i64::MIN }
        } else if wide > i64::MAX as i128 {
            Fixed { bits: i64::MAX }
        } else {
            Fixed { bits: wide as i64 }
        }
    }

    /// The difference of `self` and `rhs`, saturated.
    pub fn saturating_sub(self, rhs: Fixed) -> (r: Fixed)
        ensures
            r@ == difference(self@, rhs@),
    {
        let wide: i128 = self.bits as i128 - rhs.bits as i128;
        if wide < i64::MIN as i128 {
            Fixed { bits: i64::MIN }
        } else if wide > i64::MAX as i128 {
            Fixed { bits: i64::MAX }
        } else {
            Fixed { bits: wide as i64 }
        }
    }

    /// The product of `self` and `rhs`, rounded toward zero and saturated.
    pub fn saturating_mul(self, rhs: Fixed) -> (r: Fixed)
        ensures
            r@ == product(self@, rhs@),
    {
        let negative = (self.bits < 0) != (rhs.bits < 0);
        let a: u128 = unsigned_magnitude(self.bits);
        let b: u128 = unsigned_magnitude(rhs.bits);
        assert(a * b <= 0x8000_0000_0000_0000 * 0x8000_0000_0000_0000) by (nonlinear_arith)
            requires
                a <= 0x8000_0000_0000_0000,
                b <= 0x8000_0000_0000_0000,
        ;
        assert(magnitude(self@ * rhs@) == a * b && ((self@ * rhs@ < 0) ==> negative) && (negative ==> self@ * rhs@ <= 0)) by (nonlinear_arith)
            requires
                a == magnitude(self@),
                b == magnitude(rhs@),
                negative == ((self@ < 0) != (rhs@ < 0)),
        ;
        let q: u128 = (a * b) / 0x1_0000_0000u128;
        from_sign_magnitude(negative, q)
    }

    /// The quotient of `self` by `rhs`, rounded toward zero and saturated. A
    /// zero divisor gives the bound on the side of the sign of `self`, and
    /// zero when `self` is zero.
    pub fn saturating_div(self, rhs: Fixed) -> (r: Fixed)
        ensures
            r@ == ratio(self@, rhs@),
    {
        if rhs.bits == 0 {
            if self.bits > 0 {
                Fixed { bits: i64::MAX }
            } else if self.bits < 0 {
                Fixed { bits: i64::MIN }
            } else {
                Fixed { bits: 0 }
            }
        } else {
            let negative = (self.bits < 0) != (rhs.bits < 0);
            let a: u128 = unsigned_magnitude(self.bits);
            let b: u128 = unsigned_magnitude(rhs.bits);
            let q: u128 = (a * 0x1_0000_0000u128) / b;
            from_sign_magnitude(negative, q)
        }
    }

    /// The fractional part of `self`, with the sign of `self`.
    pub fn fract(self) -> (r: Fixed)
        ensures
            r@ == fraction(self@),
    {
        let m: u128 = unsigned_magnitude(self.bits);
        let low: u128 = m % 0x1_0000_0000u128;
        from_sign_magnitude(self.bits < 0, low)
    }
}

} // verus!
