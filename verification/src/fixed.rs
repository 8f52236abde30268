//! Signed fixed-point scalars with six decimal fractional digits.
//!
//! Every operation is total: results that do not fit are clamped to the
//! representable range, and products and quotients are rounded toward zero,
//! so rounding never increases a magnitude. The range is symmetric about
//! zero, so that negation is exact on every result.

use vstd::arithmetic::div_mod::*;
use vstd::arithmetic::mul::*;
use vstd::prelude::*;

verus! {

/// Number of raw units in one whole unit.
pub const SCALE: i64 = 1_000_000;

/// Absolute value of a mathematical integer.
pub open spec fn magnitude(x: int) -> nat {
    if x < 0 {
        (-x) as nat
    } else {
        x as nat
    }
}

/// Clamps a mathematical integer to the range of raw values, which runs
/// from `-i64::MAX` to `i64::MAX`.
pub open spec fn saturate(x: int) -> i64 {
    if x < -i64::MAX {
        (-i64::MAX) as i64
    } else if x > i64::MAX {
        i64::MAX
    } else {
        x as i64
    }
}

/// Quotient of `n` by a non-zero `d`, rounded toward zero.
pub open spec fn trunc_div(n: int, d: int) -> int {
    if (n < 0) == (d < 0) {
        (magnitude(n) / magnitude(d)) as int
    } else {
        -((magnitude(n) / magnitude(d)) as int)
    }
}

/// `x` lies between zero and `bound`, both included: it has the sign of
/// `bound` (or is zero) and is no larger in magnitude.
pub open spec fn within(x: int, bound: int) -> bool {
    (0 <= x <= bound) || (bound <= x <= 0)
}

/// `x` lies between `a` and `b`, both included, whichever of them is the
/// larger.
pub open spec fn between(x: int, a: int, b: int) -> bool {
    (a <= x <= b) || (b <= x <= a)
}

/// A fixed-point number; its value is `raw / SCALE`.
#[derive(Clone, Copy, Debug, PartialEq, Eq, Structural)]
pub struct Fixed {
    pub raw: i64,
}

impl View for Fixed {
    type V = int;

    open spec fn view(&self) -> int {
        self.raw as int
    }
}

/// Applies the sign of `negative` to a magnitude and clamps the result.
fn signed_saturate(mag: u128, negative: bool) -> (r: i64)
    ensures
        r == saturate(if negative { -(mag as int) } else { mag as int }),
{
    if negative {
        if mag > 0x7fff_ffff_ffff_ffffu128 {
            -i64::MAX
        } else {
            -(mag as i64)
        }
    } else {
        if mag > 0x7fff_ffff_ffff_ffffu128 {
            i64::MAX
        } else {
            mag as i64
        }
    }
}

/// Magnitude of a raw value, which always fits in 64 unsigned bits.
fn raw_magnitude(x: i64) -> (r: u64)
    ensures
        r == magnitude(x as int),
{
    if x == i64::MIN {
        0x8000_0000_0000_0000u64
    } else if x < 0 {
        (-x) as u64
    } else {
        x as u64
    }
}

/// `num * SCALE / den`, rounded toward zero and clamped.
pub fn scaled_quotient(num: i64, den: u128) -> (r: i64)
    requires
        den > 0,
    ensures
        r == saturate(trunc_div(num * SCALE, den as int)),
{
    let a: u128 = raw_magnitude(num) as u128;
    let scaled: u128 = a * 1_000_000u128;
    proof {
        assert(num * SCALE == num * 1_000_000);
        assert(magnitude(num * SCALE) == scaled);
    }
    let q: u128 = scaled / den;
    signed_saturate(q, num < 0 && q != 0)
}

impl Fixed {
    /// The number is one that the operations produce: anything but the
    /// most negative 64-bit value.
    pub open spec fn wf(self) -> bool {
        self.raw > i64::MIN
    }

    pub open spec fn zero_spec() -> Fixed {
        Fixed { raw: 0 }
    }

    pub open spec fn one_spec() -> Fixed {
        Fixed { raw: SCALE }
    }

    pub open spec fn add_spec(self, rhs: Fixed) -> Fixed {
        Fixed { raw: saturate(self.raw + rhs.raw) }
    }

    pub open spec fn sub_spec(self, rhs: Fixed) -> Fixed {
        Fixed { raw: saturate(self.raw - rhs.raw) }
    }

    pub open spec fn neg_spec(self) -> Fixed {
        Fixed { raw: saturate(-self.raw) }
    }

    pub open spec fn abs_spec(self) -> Fixed {
        Fixed { raw: saturate(magnitude(self.raw as int) as int) }
    }

    pub open spec fn mul_spec(self, rhs: Fixed) -> Fixed {
        Fixed { raw: saturate(trunc_div(self.raw * rhs.raw, SCALE as int)) }
    }

    /// Quotient by a non-zero `rhs`.
    pub open spec fn div_spec(self, rhs: Fixed) -> Fixed {
        Fixed { raw: saturate(trunc_div(self.raw * SCALE, rhs.raw as int)) }
    }

    pub open spec fn min_spec(self, rhs: Fixed) -> Fixed {
        if self.raw <= rhs.raw {
            self
        } else {
            rhs
        }
    }

    pub open spec fn max_spec(self, rhs: Fixed) -> Fixed {
        if self.raw >= rhs.raw {
            self
        } else {
            rhs
        }
    }

    /// The number with the given raw representation.
    pub fn from_raw(raw: i64) -> (r: Fixed)
        ensures
            r.raw == raw,
    {
        Fixed { raw }
    }

    /// The whole number `n`.
    pub fn from_int(n: i32) -> (r: Fixed)
        ensures
            r.raw == n * SCALE,
    {
        Fixed { raw: (n as i64) * SCALE }
    }

    #[verifier::when_used_as_spec(zero_spec)]
    pub fn zero() -> (r: Fixed)
        ensures
            r == Fixed::zero_spec(),
    {
        Fixed { raw: 0 }
    }

    #[verifier::when_used_as_spec(one_spec)]
    pub fn one() -> (r: Fixed)
        ensures
            r == Fixed::one_spec(),
    {
        Fixed { raw: SCALE }
    }

    /// Sum, clamped to the representable range.
    pub fn saturating_add(self, rhs: Fixed) -> (r: Fixed)
        ensures
            r == self.add_spec(rhs),
    {
        let wide: i128 = self.raw as i128 + rhs.raw as i128;
        if wide < 0 {
            Fixed { raw: signed_saturate((-wide) as u128, true) }
        } else {
            Fixed { raw: signed_saturate(wide as u128, false) }
        }
    }

    /// Difference, clamped to the representable range.
    pub fn saturating_sub(self, rhs: Fixed) -> (r: Fixed)
        ensures
            r == self.sub_spec(rhs),
    {
        let wide: i128 = self.raw as i128 - rhs.raw as i128;
        if wide < 0 {
            Fixed { raw: signed_saturate((-wide) as u128, true) }
        } else {
            Fixed { raw: signed_saturate(wide as u128, false) }
        }
    }

    /// Negation.
    pub fn saturating_neg(self) -> (r: Fixed)
        ensures
            r == self.neg_spec(),
    {
        Fixed { raw: signed_saturate(raw_magnitude(self.raw) as u128, self.raw >= 0) }
    }

    /// Absolute value.
    pub fn saturating_abs(self) -> (r: Fixed)
        ensures
            r == self.abs_spec(),
    {
        Fixed { raw: signed_saturate(raw_magnitude(self.raw) as u128, false) }
    }

    /// Product, rounded toward zero and clamped.
    pub fn saturating_mul(self, rhs: Fixed) -> (r: Fixed)
        ensures
            r == self.mul_spec(rhs),
    {
        let a: u128 = raw_magnitude(self.raw) as u128;
        let b: u128 = raw_magnitude(rhs.raw) as u128;
        proof {
            lemma_magnitude_mul(self.raw as int, rhs.raw as int);
            lemma_mul_sign(self.raw as int, rhs.raw as int);
            assert(a * b <= 0x4000_0000_0000_0000_0000_0000_0000_0000) by (nonlinear_arith)
                requires
                    0 <= a <= 0x8000_0000_0000_0000,
                    0 <= b <= 0x8000_0000_0000_0000,
            ;
        }
        let q: u128 = (a * b) / 1_000_000u128;
        let negative = (self.raw < 0) != (rhs.raw < 0);
        Fixed { raw: signed_saturate(q, negative && q != 0) }
    }

    /// Quotient, rounded toward zero and clamped.
    pub fn saturating_div(self, rhs: Fixed) -> (r: Fixed)
        requires
            rhs.raw != 0,
        ensures
            r == self.div_spec(rhs),
    {
        let a: u128 = raw_magnitude(self.raw) as u128;
        let b: u128 = raw_magnitude(rhs.raw) as u128;
        let scaled: u128 = a * 1_000_000u128;
        proof {
            assert(self.raw * SCALE == self.raw * 1_000_000);
            assert(magnitude(self.raw * SCALE) == scaled);
        }
        let q: u128 = scaled / b;
        let negative = (self.raw < 0) != (rhs.raw < 0);
        Fixed { raw: signed_saturate(q, negative && q != 0) }
    }

    /// The smaller of two numbers.
    pub fn min(self, rhs: Fixed) -> (r: Fixed)
        ensures
            r == self.min_spec(rhs),
    {
        if self.raw <= rhs.raw {
            self
        } else {
            rhs
        }
    }

    /// The larger of two numbers.
    pub fn max(self, rhs: Fixed) -> (r: Fixed)
        ensures
            r == self.max_spec(rhs),
    {
        if self.raw >= rhs.raw {
            self
        } else {
            rhs
        }
    }
}

/// The magnitude of a product is the product of the magnitudes.
pub proof fn lemma_magnitude_mul(a: int, b: int)
    ensures
        magnitude(a * b) == magnitude(a) * magnitude(b),
{
    assert(magnitude(a * b) == magnitude(a) * magnitude(b)) by (nonlinear_arith);
}

/// A product is negative exactly when its factors are non-zero and differ in sign.
pub proof fn lemma_mul_sign(a: int, b: int)
    ensures
        (a * b < 0) <==> ((a < 0 && b > 0) || (a > 0 && b < 0)),
        (a * b == 0) <==> (a == 0 || b == 0),
{
    assert((a * b < 0) <==> ((a < 0 && b > 0) || (a > 0 && b < 0))) by (nonlinear_arith);
    assert((a * b == 0) <==> (a == 0 || b == 0)) by (nonlinear_arith);
}

/// `r` is the square root of `n`, rounded down.
pub open spec fn is_floor_sqrt(n: nat, r: nat) -> bool {
    r * r <= n < (r + 1) * (r + 1)
}

/// The square root of `n`, rounded down.
pub open spec fn floor_sqrt(n: nat) -> nat {
    choose|r: nat| is_floor_sqrt(n, r)
}

/// The square root of `n`, rounded up.
pub open spec fn ceil_sqrt(n: nat) -> nat {
    let r = floor_sqrt(n);
    if r * r == n {
        r
    } else {
        r + 1
    }
}

/// At most one number is the rounded-down square root of `n`.
pub proof fn lemma_floor_sqrt_unique(n: nat, r1: nat, r2: nat)
    requires
        is_floor_sqrt(n, r1),
        is_floor_sqrt(n, r2),
    ensures
        r1 == r2,
{
    if r1 < r2 {
        assert((r1 + 1) * (r1 + 1) <= r2 * r2) by (nonlinear_arith)
            requires
                r1 + 1 <= r2,
        ;
    } else if r2 < r1 {
        assert((r2 + 1) * (r2 + 1) <= r1 * r1) by (nonlinear_arith)
            requires
                r2 + 1 <= r1,
        ;
    }
}

/// Any number with the defining property is the rounded-down square root.
pub proof fn lemma_floor_sqrt_is(n: nat, r: nat)
    requires
        is_floor_sqrt(n, r),
    ensures
        floor_sqrt(n) == r,
{
    lemma_floor_sqrt_unique(n, floor_sqrt(n), r);
}

/// Every number has a rounded-down square root.
pub proof fn lemma_floor_sqrt(n: nat)
    ensures
        is_floor_sqrt(n, floor_sqrt(n)),
    decreases n,
{
    if n == 0 {
        assert(0nat * 0nat == 0 && (0nat + 1) * (0nat + 1) == 1) by (nonlinear_arith);
        assert(is_floor_sqrt(0, 0));
    } else {
        lemma_floor_sqrt((n - 1) as nat);
        let r = floor_sqrt((n - 1) as nat);
        if (r + 1) * (r + 1) <= n {
            assert((r + 2) * (r + 2) > (r + 1) * (r + 1)) by (nonlinear_arith);
            assert(is_floor_sqrt(n, r + 1));
        } else {
            assert(is_floor_sqrt(n, r));
        }
    }
}

/// The rounded-up square root is the least number whose square reaches `n`.
pub proof fn lemma_ceil_sqrt(n: nat)
    ensures
        ceil_sqrt(n) * ceil_sqrt(n) >= n,
        ceil_sqrt(n) == 0 <==> n == 0,
{
    lemma_floor_sqrt(n);
    let r = floor_sqrt(n);
    assert(r == 0 <==> r * r == 0) by (nonlinear_arith);
}

/// Square root of a 128-bit number, rounded down.
pub fn isqrt(n: u128) -> (r: u64)
    ensures
        r == floor_sqrt(n as nat),
        is_floor_sqrt(n as nat, r as nat),
{
    let mut lo: u128 = 0;
    let mut hi: u128 = 0x1_0000_0000_0000_0000u128;
    assert(n < hi * hi) by (nonlinear_arith)
        requires
            hi == 0x1_0000_0000_0000_0000u128,
            n <= u128::MAX,
    ;
    while hi - lo > 1
        invariant
            lo < hi <= 0x1_0000_0000_0000_0000u128,
            lo * lo <= n,
            n < hi * hi,
        decreases hi - lo,
    {
        let mid: u128 = lo + (hi - lo) / 2;
        assert(mid * mid <= u128::MAX) by (nonlinear_arith)
            requires
                0 <= mid <= 0xffff_ffff_ffff_ffffu128,
        ;
        if mid * mid <= n {
            lo = mid;
        } else {
            hi = mid;
        }
    }
    proof {
        lemma_floor_sqrt_is(n as nat, lo as nat);
    }
    lo as u64
}

/// Square root of a 128-bit number, rounded up.
pub fn isqrt_ceil(n: u128) -> (r: u128)
    ensures
        r == ceil_sqrt(n as nat),
        r <= 0x1_0000_0000_0000_0000u128,
{
    let root: u128 = isqrt(n) as u128;
    assert(root * root <= u128::MAX) by (nonlinear_arith)
        requires
            0 <= root <= 0xffff_ffff_ffff_ffffu128,
    ;
    if root * root == n {
        root
    } else {
        root + 1
    }
}

impl Fixed {
    /// Square root rounded down; zero for a number that is not positive.
    pub open spec fn sqrt_spec(self) -> Fixed {
        if self.raw <= 0 {
            Fixed { raw: 0 }
        } else {
            Fixed { raw: saturate(floor_sqrt((self.raw * SCALE) as nat) as int) }
        }
    }

    /// Square root rounded down; zero for a number that is not positive.
    pub fn sqrt(self) -> (r: Fixed)
        ensures
            r == self.sqrt_spec(),
    {
        if self.raw <= 0 {
            Fixed { raw: 0 }
        } else {
            let n: u128 = (self.raw as u128) * (SCALE as u128);
            Fixed { raw: signed_saturate(isqrt(n) as u128, false) }
        }
    }

}

/// Rounding toward zero keeps the sign and loses less than one divisor.
pub proof fn lemma_trunc_div_bounds(n: int, d: int)
    requires
        d > 0,
    ensures
        within(trunc_div(n, d) * d, n),
        within(trunc_div(n, d), n),
        magnitude(n) - magnitude(trunc_div(n, d) * d) < d,
{
    let m = magnitude(n) as int;
    let q = m / d;
    lemma_fundamental_div_mod(m, d);
    lemma_mod_bound(m, d);
    lemma_div_pos_is_pos(m, d);
    lemma_mul_is_commutative(d, q);
    assert(0 <= q * d <= m);
    assert(q <= m) by (nonlinear_arith)
        requires
            0 <= q,
            q * d <= m,
            d >= 1,
    ;
    if n < 0 {
        assert(trunc_div(n, d) == -q);
        assert((-q) * d == -(q * d)) by (nonlinear_arith);
    } else {
        assert(trunc_div(n, d) == q);
    }
}

/// Rounding toward zero preserves order.
pub proof fn lemma_trunc_div_monotone(n1: int, n2: int, d: int)
    requires
        d > 0,
        n1 <= n2,
    ensures
        trunc_div(n1, d) <= trunc_div(n2, d),
{
    if n1 >= 0 {
        lemma_div_is_ordered(n1, n2, d);
    } else if n2 >= 0 {
        lemma_div_pos_is_pos(-n1, d);
        lemma_div_pos_is_pos(n2, d);
    } else {
        lemma_div_is_ordered(-n2, -n1, d);
    }
}

/// Dividing a multiple of the divisor gives the multiplier back.
pub proof fn lemma_trunc_div_multiple(a: int, d: int)
    requires
        d > 0,
    ensures
        trunc_div(a * d, d) == a,
{
    lemma_magnitude_mul(a, d);
    lemma_mul_sign(a, d);
    lemma_div_by_multiple(magnitude(a) as int, d);
}

impl Fixed {
    /// Multiplying by one changes nothing.
    pub proof fn lemma_mul_one(self)
        requires
            self.wf(),
        ensures
            self.mul_spec(Fixed::one_spec()) == self,
    {
        lemma_trunc_div_multiple(self.raw as int, SCALE as int);
    }

    /// A product with zero is zero.
    pub proof fn lemma_mul_zero(self, rhs: Fixed)
        requires
            self.raw == 0 || rhs.raw == 0,
        ensures
            self.mul_spec(rhs).raw == 0,
    {
        lemma_mul_sign(self.raw as int, rhs.raw as int);
    }

    /// Multiplication by a fixed non-negative factor preserves order.
    pub proof fn lemma_mul_monotone(self, other: Fixed, factor: Fixed)
        requires
            factor.raw >= 0,
            self.raw <= other.raw,
        ensures
            self.mul_spec(factor).raw <= other.mul_spec(factor).raw,
    {
        lemma_mul_inequality(self.raw as int, other.raw as int, factor.raw as int);
        lemma_trunc_div_monotone(self.raw * factor.raw, other.raw * factor.raw, SCALE as int);
    }

    /// Division by a fixed positive divisor preserves order.
    pub proof fn lemma_div_monotone(self, other: Fixed, divisor: Fixed)
        requires
            divisor.raw > 0,
            self.raw <= other.raw,
        ensures
            self.div_spec(divisor).raw <= other.div_spec(divisor).raw,
    {
        lemma_trunc_div_monotone(self.raw * SCALE, other.raw * SCALE, divisor.raw as int);
    }

    /// A quotient of zero is zero.
    pub proof fn lemma_div_zero(divisor: Fixed)
        requires
            divisor.raw != 0,
        ensures
            Fixed::zero_spec().div_spec(divisor).raw == 0,
    {
        lemma_div_basics(magnitude(divisor.raw as int) as int);
    }

    /// Multiplying by a non-negative factor keeps a value on its side of zero.
    pub proof fn lemma_mul_keeps_within(self, bound: Fixed, factor: Fixed)
        requires
            factor.raw >= 0,
            within(self.raw as int, bound.raw as int),
        ensures
            within(self.mul_spec(factor).raw as int, bound.mul_spec(factor).raw as int),
    {
        let zero = Fixed::zero_spec();
        zero.lemma_mul_zero(factor);
        if 0 <= self.raw <= bound.raw {
            zero.lemma_mul_monotone(self, factor);
            self.lemma_mul_monotone(bound, factor);
        } else {
            self.lemma_mul_monotone(zero, factor);
            bound.lemma_mul_monotone(self, factor);
        }
    }

    /// Dividing by a positive divisor keeps a value on its side of zero.
    pub proof fn lemma_div_keeps_within(self, bound: Fixed, divisor: Fixed)
        requires
            divisor.raw > 0,
            within(self.raw as int, bound.raw as int),
        ensures
            within(self.div_spec(divisor).raw as int, bound.div_spec(divisor).raw as int),
    {
        let zero = Fixed::zero_spec();
        Fixed::lemma_div_zero(divisor);
        if 0 <= self.raw <= bound.raw {
            zero.lemma_div_monotone(self, divisor);
            self.lemma_div_monotone(bound, divisor);
        } else {
            self.lemma_div_monotone(zero, divisor);
            bound.lemma_div_monotone(self, divisor);
        }
    }

    /// Multiplying by a factor between zero and one never grows a value.
    pub proof fn lemma_mul_fraction_within(self, factor: Fixed)
        requires
            0 <= factor.raw <= SCALE,
        ensures
            within(self.mul_spec(factor).raw as int, self.raw as int),
    {
        let a = self.raw as int;
        let f = factor.raw as int;
        let s = SCALE as int;
        lemma_trunc_div_multiple(a, s);
        if a >= 0 {
            lemma_mul_nonnegative(a, f);
            lemma_mul_inequality(f, s, a);
            lemma_mul_is_commutative(a, f);
            lemma_mul_is_commutative(a, s);
            lemma_trunc_div_monotone(0, a * f, s);
            lemma_trunc_div_monotone(a * f, a * s, s);
        } else {
            lemma_mul_inequality(f, s, -a);
            lemma_mul_nonnegative(-a, f);
            assert((-a) * f == -(a * f)) by (nonlinear_arith);
            assert((-a) * s == -(a * s)) by (nonlinear_arith);
            lemma_mul_is_commutative(-a, f);
            lemma_mul_is_commutative(-a, s);
            lemma_trunc_div_monotone(a * f, 0, s);
            lemma_trunc_div_monotone(a * s, a * f, s);
        }
        assert(trunc_div(0, s) == 0);
    }

    /// Multiplying by a factor between zero and two at most doubles a value.
    pub proof fn lemma_mul_double_within(self, factor: Fixed)
        requires
            0 <= factor.raw <= 2 * SCALE,
        ensures
            within(self.mul_spec(factor).raw as int, 2 * self.raw),
    {
        let a = self.raw as int;
        let f = factor.raw as int;
        let s = SCALE as int;
        lemma_trunc_div_multiple(2 * a, s);
        assert(within(a * f, (2 * a) * s)) by (nonlinear_arith)
            requires
                0 <= f <= 2 * s,
        ;
        if a >= 0 {
            lemma_trunc_div_monotone(0, a * f, s);
            lemma_trunc_div_monotone(a * f, (2 * a) * s, s);
        } else {
            lemma_trunc_div_monotone(a * f, 0, s);
            lemma_trunc_div_monotone((2 * a) * s, a * f, s);
        }
        assert(trunc_div(0, s) == 0);
    }

    /// Of two values, the one that is smaller in magnitude stays so when
    /// both are multiplied by the same non-negative factor.
    pub proof fn lemma_mul_keeps_smaller(self, other: Fixed, factor: Fixed)
        requires
            factor.raw >= 0,
            self.wf(),
            other.wf(),
            magnitude(self.raw as int) <= magnitude(other.raw as int),
        ensures
            magnitude(self.mul_spec(factor).raw as int) <= magnitude(
                other.mul_spec(factor).raw as int,
            ),
    {
        let a = if self.raw >= 0 {
            self
        } else {
            self.neg_spec()
        };
        let b = if other.raw >= 0 {
            other
        } else {
            other.neg_spec()
        };
        self.lemma_mul_neg(factor);
        other.lemma_mul_neg(factor);
        a.lemma_mul_monotone(b, factor);
        a.lemma_mul_same_sign(factor);
        b.lemma_mul_same_sign(factor);
    }

    /// Multiplying and then dividing by the same positive number never
    /// grows a value.
    pub proof fn lemma_mul_div_within(self, by: Fixed)
        requires
            by.raw > 0,
        ensures
            within(self.mul_spec(by).div_spec(by).raw as int, self.raw as int),
    {
        let x = self.raw as int;
        let y = by.raw as int;
        let s = SCALE as int;
        let p = trunc_div(x * y, s);
        let a = self.mul_spec(by).raw as int;
        lemma_trunc_div_bounds(x * y, s);
        lemma_trunc_div_multiple(x, y);
        lemma_mul_sign(x, y);
        assert(trunc_div(0, y) == 0) by {
            lemma_div_basics(y);
        }
        assert(within(a, p));
        if x >= 0 {
            assert(0 <= a * s <= x * y);
            lemma_trunc_div_monotone(0, a * s, y);
            lemma_trunc_div_monotone(a * s, x * y, y);
        } else {
            assert(x * y <= a * s <= 0);
            lemma_trunc_div_monotone(a * s, 0, y);
            lemma_trunc_div_monotone(x * y, a * s, y);
        }
    }

    /// Dividing and then multiplying by the same positive number never
    /// grows a value.
    pub proof fn lemma_div_mul_within(self, by: Fixed)
        requires
            by.raw > 0,
        ensures
            within(self.div_spec(by).mul_spec(by).raw as int, self.raw as int),
    {
        let x = self.raw as int;
        let y = by.raw as int;
        let s = SCALE as int;
        let q = trunc_div(x * s, y);
        let b = self.div_spec(by).raw as int;
        lemma_trunc_div_bounds(x * s, y);
        lemma_trunc_div_multiple(x, s);
        assert(trunc_div(0, s) == 0);
        assert(within(b, q));
        if x >= 0 {
            assert(0 <= b * y <= x * s) by (nonlinear_arith)
                requires
                    0 <= b <= q,
                    0 <= q * y <= x * s,
                    y > 0,
            ;
            lemma_trunc_div_monotone(0, b * y, s);
            lemma_trunc_div_monotone(b * y, x * s, s);
        } else {
            assert(x * s <= b * y <= 0) by (nonlinear_arith)
                requires
                    q <= b <= 0,
                    x * s <= q * y <= 0,
                    y > 0,
            ;
            lemma_trunc_div_monotone(b * y, 0, s);
            lemma_trunc_div_monotone(x * s, b * y, s);
        }
    }

    /// Multiplying by a non-negative factor keeps the sign.
    pub proof fn lemma_mul_same_sign(self, factor: Fixed)
        requires
            factor.raw >= 0,
        ensures
            self.raw >= 0 ==> self.mul_spec(factor).raw >= 0,
            self.raw <= 0 ==> self.mul_spec(factor).raw <= 0,
    {
        let zero = Fixed::zero_spec();
        zero.lemma_mul_zero(factor);
        if self.raw >= 0 {
            zero.lemma_mul_monotone(self, factor);
        }
        if self.raw <= 0 {
            self.lemma_mul_monotone(zero, factor);
        }
    }

    /// Dividing by a positive divisor keeps the sign.
    pub proof fn lemma_div_same_sign(self, divisor: Fixed)
        requires
            divisor.raw > 0,
        ensures
            self.raw >= 0 ==> self.div_spec(divisor).raw >= 0,
            self.raw <= 0 ==> self.div_spec(divisor).raw <= 0,
    {
        let zero = Fixed::zero_spec();
        Fixed::lemma_div_zero(divisor);
        if self.raw >= 0 {
            zero.lemma_div_monotone(self, divisor);
        }
        if self.raw <= 0 {
            self.lemma_div_monotone(zero, divisor);
        }
    }

    /// The order of the factors does not matter.
    pub proof fn lemma_mul_commutative(self, rhs: Fixed)
        ensures
            self.mul_spec(rhs) == rhs.mul_spec(self),
    {
        lemma_mul_is_commutative(self.raw as int, rhs.raw as int);
    }

    /// Negating a factor negates the product.
    pub proof fn lemma_mul_neg(self, rhs: Fixed)
        requires
            self.wf(),
        ensures
            self.neg_spec().mul_spec(rhs).raw == -self.mul_spec(rhs).raw,
    {
        let a = self.raw as int;
        let b = rhs.raw as int;
        assert((-a) * b == -(a * b)) by (nonlinear_arith);
        lemma_trunc_div_odd(a * b, SCALE as int);
    }

    /// Negating the dividend negates the quotient.
    pub proof fn lemma_div_neg(self, divisor: Fixed)
        requires
            self.wf(),
            divisor.raw != 0,
        ensures
            self.neg_spec().div_spec(divisor).raw == -self.div_spec(divisor).raw,
    {
        lemma_trunc_div_odd(self.raw * SCALE, divisor.raw as int);
    }

    /// A factor between zero and a bound gives a product between zero and
    /// the product with the bound.
    pub proof fn lemma_mul_factor_within(self, factor: Fixed, bound: Fixed)
        requires
            0 <= factor.raw <= bound.raw,
        ensures
            within(self.mul_spec(factor).raw as int, self.mul_spec(bound).raw as int),
    {
        let zero = Fixed::zero_spec();
        self.lemma_mul_commutative(factor);
        self.lemma_mul_commutative(bound);
        self.lemma_mul_zero(zero);
        self.lemma_mul_commutative(zero);
        if self.raw >= 0 {
            zero.lemma_mul_monotone(factor, self);
            factor.lemma_mul_monotone(bound, self);
        } else {
            let a = self.raw as int;
            let f = factor.raw as int;
            let b = bound.raw as int;
            assert(a * b <= a * f <= 0) by (nonlinear_arith)
                requires
                    a < 0,
                    0 <= f <= b,
            ;
            lemma_trunc_div_monotone(a * b, a * f, SCALE as int);
            lemma_trunc_div_monotone(a * f, 0, SCALE as int);
            assert(trunc_div(0, SCALE as int) == 0);
        }
    }
}

/// Rounding toward zero commutes with negation.
pub proof fn lemma_trunc_div_odd(n: int, d: int)
    requires
        d != 0,
    ensures
        trunc_div(-n, d) == -trunc_div(n, d),
{
    if n == 0 {
        lemma_div_basics(magnitude(d) as int);
    }
}

} // verus!
