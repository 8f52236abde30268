//! Three-dimensional vectors of fixed-point numbers.

use crate::fixed::{
    between, ceil_sqrt, isqrt_ceil, magnitude, lemma_ceil_sqrt, lemma_trunc_div_bounds, saturate, scaled_quotient,
    trunc_div, within, Fixed, SCALE,
};
use vstd::prelude::*;

verus! {

/// A vector with fixed-point components.
#[derive(Clone, Copy, Debug, PartialEq, Eq, Structural)]
pub struct Vec3 {
    pub x: Fixed,
    pub y: Fixed,
    pub z: Fixed,
}

/// Sum of the squares of three raw values, without rounding.
pub open spec fn sum_squares(x: int, y: int, z: int) -> nat {
    (x * x + y * y + z * z) as nat
}

impl Vec3 {
    pub open spec fn zero_spec() -> Vec3 {
        Vec3 { x: Fixed::zero_spec(), y: Fixed::zero_spec(), z: Fixed::zero_spec() }
    }

    pub open spec fn one_spec() -> Vec3 {
        Vec3 { x: Fixed::one_spec(), y: Fixed::one_spec(), z: Fixed::one_spec() }
    }

    pub open spec fn add_spec(self, rhs: Vec3) -> Vec3 {
        Vec3 {
            x: self.x.add_spec(rhs.x),
            y: self.y.add_spec(rhs.y),
            z: self.z.add_spec(rhs.z),
        }
    }

    pub open spec fn sub_spec(self, rhs: Vec3) -> Vec3 {
        Vec3 {
            x: self.x.sub_spec(rhs.x),
            y: self.y.sub_spec(rhs.y),
            z: self.z.sub_spec(rhs.z),
        }
    }

    pub open spec fn neg_spec(self) -> Vec3 {
        Vec3 { x: self.x.neg_spec(), y: self.y.neg_spec(), z: self.z.neg_spec() }
    }

    pub open spec fn abs_spec(self) -> Vec3 {
        Vec3 { x: self.x.abs_spec(), y: self.y.abs_spec(), z: self.z.abs_spec() }
    }

    /// Every component multiplied by `factor`.
    pub open spec fn scale_spec(self, factor: Fixed) -> Vec3 {
        Vec3 {
            x: self.x.mul_spec(factor),
            y: self.y.mul_spec(factor),
            z: self.z.mul_spec(factor),
        }
    }

    /// Every component divided by a non-zero `divisor`.
    pub open spec fn unscale_spec(self, divisor: Fixed) -> Vec3 {
        Vec3 {
            x: self.x.div_spec(divisor),
            y: self.y.div_spec(divisor),
            z: self.z.div_spec(divisor),
        }
    }

    /// Component-wise product.
    pub open spec fn hadamard_spec(self, rhs: Vec3) -> Vec3 {
        Vec3 {
            x: self.x.mul_spec(rhs.x),
            y: self.y.mul_spec(rhs.y),
            z: self.z.mul_spec(rhs.z),
        }
    }

    /// Dot product: the three rounded products, summed left to right.
    pub open spec fn dot_spec(self, rhs: Vec3) -> Fixed {
        self.x.mul_spec(rhs.x).add_spec(self.y.mul_spec(rhs.y)).add_spec(self.z.mul_spec(rhs.z))
    }

    /// Cross product.
    pub open spec fn cross_spec(self, rhs: Vec3) -> Vec3 {
        Vec3 {
            x: self.y.mul_spec(rhs.z).sub_spec(self.z.mul_spec(rhs.y)),
            y: self.z.mul_spec(rhs.x).sub_spec(self.x.mul_spec(rhs.z)),
            z: self.x.mul_spec(rhs.y).sub_spec(self.y.mul_spec(rhs.x)),
        }
    }

    /// Exact sum of the squared raw components.
    pub open spec fn norm_squared(self) -> nat {
        sum_squares(self.x.raw as int, self.y.raw as int, self.z.raw as int)
    }

    /// Euclidean length in raw units, rounded up and not clamped.
    pub open spec fn norm(self) -> nat {
        ceil_sqrt(self.norm_squared())
    }

    /// Euclidean length, rounded up to the next representable number.
    pub open spec fn length_spec(self) -> Fixed {
        Fixed { raw: saturate(self.norm() as int) }
    }

    /// The vector divided by its length; the zero vector stays zero.
    pub open spec fn normalize_spec(self) -> Vec3 {
        if self.norm() == 0 {
            Vec3::zero_spec()
        } else {
            Vec3 {
                x: Fixed { raw: saturate(trunc_div(self.x.raw * SCALE, self.norm() as int)) },
                y: Fixed { raw: saturate(trunc_div(self.y.raw * SCALE, self.norm() as int)) },
                z: Fixed { raw: saturate(trunc_div(self.z.raw * SCALE, self.norm() as int)) },
            }
        }
    }

    /// The part of `self` along `rhs`; zero where `rhs` has no length.
    pub open spec fn project_onto_spec(self, rhs: Vec3) -> Vec3 {
        let denominator = rhs.dot_spec(rhs);
        if denominator.raw == 0 {
            Vec3::zero_spec()
        } else {
            rhs.scale_spec(self.dot_spec(rhs).div_spec(denominator))
        }
    }

    /// The vector itself while no longer than `max`, else its direction
    /// scaled to `max`.
    pub open spec fn clamp_length_max_spec(self, max: Fixed) -> Vec3 {
        if self.norm() > max.raw {
            self.normalize_spec().scale_spec(max)
        } else {
            self
        }
    }

    /// Two vectors that, for a unit `self`, complete it to an orthonormal
    /// basis up to rounding.
    pub open spec fn any_orthonormal_pair_spec(self) -> (Vec3, Vec3) {
        let one = Fixed::one_spec();
        let sign = if self.z.raw >= 0 {
            one
        } else {
            one.neg_spec()
        };
        let a = one.neg_spec().div_spec(sign.add_spec(self.z));
        let b = self.x.mul_spec(self.y).mul_spec(a);
        (
            Vec3 {
                x: one.add_spec(sign.mul_spec(self.x).mul_spec(self.x).mul_spec(a)),
                y: sign.mul_spec(b),
                z: sign.neg_spec().mul_spec(self.x),
            },
            Vec3 {
                x: b,
                y: sign.add_spec(self.y.mul_spec(self.y).mul_spec(a)),
                z: self.y.neg_spec(),
            },
        )
    }

    /// No component is the most negative 64-bit value.
    pub open spec fn wf(self) -> bool {
        self.x.wf() && self.y.wf() && self.z.wf()
    }

    /// Every component lies between zero and one.
    pub open spec fn is_fraction(self) -> bool {
        &&& 0 <= self.x.raw <= SCALE
        &&& 0 <= self.y.raw <= SCALE
        &&& 0 <= self.z.raw <= SCALE
    }

    /// Every component lies between the matching components of `a` and `b`.
    pub open spec fn between_spec(self, a: Vec3, b: Vec3) -> bool {
        &&& between(self.x.raw as int, a.x.raw as int, b.x.raw as int)
        &&& between(self.y.raw as int, a.y.raw as int, b.y.raw as int)
        &&& between(self.z.raw as int, a.z.raw as int, b.z.raw as int)
    }

    /// No component is larger in magnitude than the matching component of
    /// `other`.
    pub open spec fn no_larger_spec(self, other: Vec3) -> bool {
        &&& magnitude(self.x.raw as int) <= magnitude(other.x.raw as int)
        &&& magnitude(self.y.raw as int) <= magnitude(other.y.raw as int)
        &&& magnitude(self.z.raw as int) <= magnitude(other.z.raw as int)
    }

    /// Every component lies between zero and the matching component of `bound`.
    pub open spec fn within_spec(self, bound: Vec3) -> bool {
        &&& within(self.x.raw as int, bound.x.raw as int)
        &&& within(self.y.raw as int, bound.y.raw as int)
        &&& within(self.z.raw as int, bound.z.raw as int)
    }

    pub fn new(x: Fixed, y: Fixed, z: Fixed) -> (r: Vec3)
        ensures
            r == (Vec3 { x, y, z }),
    {
        Vec3 { x, y, z }
    }

    /// The vector with all components equal to `value`.
    pub fn splat(value: Fixed) -> (r: Vec3)
        ensures
            r == (Vec3 { x: value, y: value, z: value }),
    {
        Vec3 { x: value, y: value, z: value }
    }

    #[verifier::when_used_as_spec(zero_spec)]
    pub fn zero() -> (r: Vec3)
        ensures
            r == Vec3::zero_spec(),
    {
        Vec3 { x: Fixed::zero(), y: Fixed::zero(), z: Fixed::zero() }
    }

    #[verifier::when_used_as_spec(one_spec)]
    pub fn one() -> (r: Vec3)
        ensures
            r == Vec3::one_spec(),
    {
        Vec3 { x: Fixed::one(), y: Fixed::one(), z: Fixed::one() }
    }

    /// Component-wise clamped sum.
    pub fn saturating_add(self, rhs: Vec3) -> (r: Vec3)
        ensures
            r == self.add_spec(rhs),
    {
        Vec3 {
            x: self.x.saturating_add(rhs.x),
            y: self.y.saturating_add(rhs.y),
            z: self.z.saturating_add(rhs.z),
        }
    }

    /// Component-wise clamped difference.
    pub fn saturating_sub(self, rhs: Vec3) -> (r: Vec3)
        ensures
            r == self.sub_spec(rhs),
    {
        Vec3 {
            x: self.x.saturating_sub(rhs.x),
            y: self.y.saturating_sub(rhs.y),
            z: self.z.saturating_sub(rhs.z),
        }
    }

    /// Component-wise negation.
    pub fn saturating_neg(self) -> (r: Vec3)
        ensures
            r == self.neg_spec(),
    {
        Vec3 {
            x: self.x.saturating_neg(),
            y: self.y.saturating_neg(),
            z: self.z.saturating_neg(),
        }
    }

    /// Component-wise absolute value.
    pub fn abs(self) -> (r: Vec3)
        ensures
            r == self.abs_spec(),
    {
        Vec3 {
            x: self.x.saturating_abs(),
            y: self.y.saturating_abs(),
            z: self.z.saturating_abs(),
        }
    }

    /// Every component multiplied by `factor`.
    pub fn scale(self, factor: Fixed) -> (r: Vec3)
        ensures
            r == self.scale_spec(factor),
    {
        Vec3 {
            x: self.x.saturating_mul(factor),
            y: self.y.saturating_mul(factor),
            z: self.z.saturating_mul(factor),
        }
    }

    /// Every component divided by `divisor`.
    pub fn unscale(self, divisor: Fixed) -> (r: Vec3)
        requires
            divisor.raw != 0,
        ensures
            r == self.unscale_spec(divisor),
    {
        Vec3 {
            x: self.x.saturating_div(divisor),
            y: self.y.saturating_div(divisor),
            z: self.z.saturating_div(divisor),
        }
    }

    /// Component-wise product.
    pub fn hadamard(self, rhs: Vec3) -> (r: Vec3)
        ensures
            r == self.hadamard_spec(rhs),
    {
        Vec3 {
            x: self.x.saturating_mul(rhs.x),
            y: self.y.saturating_mul(rhs.y),
            z: self.z.saturating_mul(rhs.z),
        }
    }

    /// Dot product.
    pub fn dot(self, rhs: Vec3) -> (r: Fixed)
        ensures
            r == self.dot_spec(rhs),
    {
        let xx = self.x.saturating_mul(rhs.x);
        let yy = self.y.saturating_mul(rhs.y);
        let zz = self.z.saturating_mul(rhs.z);
        xx.saturating_add(yy).saturating_add(zz)
    }

    /// Cross product.
    pub fn cross(self, rhs: Vec3) -> (r: Vec3)
        ensures
            r == self.cross_spec(rhs),
    {
        Vec3 {
            x: self.y.saturating_mul(rhs.z).saturating_sub(self.z.saturating_mul(rhs.y)),
            y: self.z.saturating_mul(rhs.x).saturating_sub(self.x.saturating_mul(rhs.z)),
            z: self.x.saturating_mul(rhs.y).saturating_sub(self.y.saturating_mul(rhs.x)),
        }
    }

    /// Euclidean length in raw units, rounded up.
    fn raw_norm(self) -> (r: u128)
        ensures
            r == self.norm(),
            r <= 0x1_0000_0000_0000_0000u128,
    {
        let x: u128 = square(self.x.raw);
        let y: u128 = square(self.y.raw);
        let z: u128 = square(self.z.raw);
        isqrt_ceil(x + y + z)
    }

    /// Euclidean length, rounded up.
    pub fn length(self) -> (r: Fixed)
        ensures
            r == self.length_spec(),
    {
        let norm: u128 = self.raw_norm();
        if norm > 0x7fff_ffff_ffff_ffffu128 {
            Fixed { raw: i64::MAX }
        } else {
            Fixed { raw: norm as i64 }
        }
    }

    /// The direction of the vector; zero for the zero vector.
    pub fn normalize(self) -> (r: Vec3)
        ensures
            r == self.normalize_spec(),
    {
        let norm: u128 = self.raw_norm();
        if norm == 0 {
            Vec3::zero()
        } else {
            Vec3 {
                x: Fixed { raw: scaled_quotient(self.x.raw, norm) },
                y: Fixed { raw: scaled_quotient(self.y.raw, norm) },
                z: Fixed { raw: scaled_quotient(self.z.raw, norm) },
            }
        }
    }

    /// The part of `self` along `rhs`.
    pub fn project_onto(self, rhs: Vec3) -> (r: Vec3)
        ensures
            r == self.project_onto_spec(rhs),
    {
        let denominator = rhs.dot(rhs);
        if denominator.raw == 0 {
            Vec3::zero()
        } else {
            rhs.scale(self.dot(rhs).saturating_div(denominator))
        }
    }

    /// Shortens the vector to length `max` where it is longer.
    pub fn clamp_length_max(self, max: Fixed) -> (r: Vec3)
        ensures
            r == self.clamp_length_max_spec(max),
    {
        let norm: u128 = self.raw_norm();
        if max.raw < 0 || norm > max.raw as u128 {
            self.normalize().scale(max)
        } else {
            self
        }
    }

    /// Two vectors completing a unit vector to an orthonormal basis.
    pub fn any_orthonormal_pair(self) -> (r: (Vec3, Vec3))
        ensures
            r == self.any_orthonormal_pair_spec(),
    {
        let one = Fixed::one();
        let sign = if self.z.raw >= 0 {
            one
        } else {
            one.saturating_neg()
        };
        let a = one.saturating_neg().saturating_div(sign.saturating_add(self.z));
        let b = self.x.saturating_mul(self.y).saturating_mul(a);
        (
            Vec3 {
                x: one.saturating_add(
                    sign.saturating_mul(self.x).saturating_mul(self.x).saturating_mul(a),
                ),
                y: sign.saturating_mul(b),
                z: sign.saturating_neg().saturating_mul(self.x),
            },
            Vec3 {
                x: b,
                y: sign.saturating_add(self.y.saturating_mul(self.y).saturating_mul(a)),
                z: self.y.saturating_neg(),
            },
        )
    }
}

/// The exact square of a raw value.
fn square(v: i64) -> (r: u128)
    ensures
        r == v * v,
        r <= 0x4000_0000_0000_0000_0000_0000_0000_0000u128,
{
    let m: u128 = if v == i64::MIN {
        0x8000_0000_0000_0000u128
    } else if v < 0 {
        (-v) as u128
    } else {
        v as u128
    };
    assert(m * m == v * v && m * m <= 0x4000_0000_0000_0000_0000_0000_0000_0000) by (nonlinear_arith)
        requires
            m == v || m == -v,
            0 <= m <= 0x8000_0000_0000_0000,
    ;
    m * m
}

/// The square of a quotient rounded toward zero, times the square of the
/// divisor, is no more than the square of what was divided.
proof fn lemma_quotient_square(c: int, n: int)
    requires
        n > 0,
    ensures
        trunc_div(c * SCALE, n) * trunc_div(c * SCALE, n) * (n * n) <= c * c * (SCALE * SCALE),
        c * c <= n * n ==> -SCALE <= trunc_div(c * SCALE, n) <= SCALE,
{
    let q = trunc_div(c * SCALE, n);
    let s = SCALE as int;
    lemma_trunc_div_bounds(c * SCALE, n);
    assert(within(q * n, c * s));
    assert((q * n) * (q * n) <= (c * s) * (c * s)) by (nonlinear_arith)
        requires
            within(q * n, c * s),
    ;
    assert((q * n) * (q * n) == q * q * (n * n)) by (nonlinear_arith);
    assert((c * s) * (c * s) == c * c * (s * s)) by (nonlinear_arith);
    if c * c <= n * n {
        assert(-s <= q <= s) by (nonlinear_arith)
            requires
                q * q * (n * n) <= c * c * (s * s),
                c * c <= n * n,
                n > 0,
                s > 0,
        ;
    }
}

impl Vec3 {
    /// A normalized vector is no longer than one: rounding shortens, and
    /// never lengthens.
    #[verifier::rlimit(40)]
    pub proof fn lemma_normalize_unit(self)
        ensures
            self.normalize_spec().norm_squared() <= SCALE * SCALE,
    {
        let n = self.norm() as int;
        let total = self.norm_squared() as int;
        let s = SCALE as int;
        lemma_ceil_sqrt(self.norm_squared());
        if n != 0 {
            let x = self.x.raw as int;
            let y = self.y.raw as int;
            let z = self.z.raw as int;
            assert(x * x >= 0 && y * y >= 0 && z * z >= 0) by (nonlinear_arith);
            assert(total == x * x + y * y + z * z);
            lemma_quotient_square(x, n);
            lemma_quotient_square(y, n);
            lemma_quotient_square(z, n);
            let a = trunc_div(x * SCALE, n);
            let b = trunc_div(y * SCALE, n);
            let c = trunc_div(z * SCALE, n);
            let unit = self.normalize_spec();
            assert(unit.x.raw == a && unit.y.raw == b && unit.z.raw == c);
            assert(a * a >= 0 && b * b >= 0 && c * c >= 0) by (nonlinear_arith);
            assert(unit.norm_squared() == a * a + b * b + c * c);
            let aa = a * a;
            let bb = b * b;
            let cc = c * c;
            let nn = n * n;
            let ss = s * s;
            let xx = x * x;
            let yy = y * y;
            let zz = z * z;
            assert(nn > 0 && ss > 0) by (nonlinear_arith)
                requires
                    nn == n * n,
                    ss == s * s,
                    n > 0,
                    s > 0,
            ;
            assert((aa + bb + cc) * nn == aa * nn + bb * nn + cc * nn) by (nonlinear_arith);
            assert((xx + yy + zz) * ss == xx * ss + yy * ss + zz * ss) by (nonlinear_arith);
            assert((xx + yy + zz) * ss <= nn * ss) by (nonlinear_arith)
                requires
                    xx + yy + zz <= nn,
                    ss > 0,
            ;
            assert(aa + bb + cc <= ss) by (nonlinear_arith)
                requires
                    (aa + bb + cc) * nn <= nn * ss,
                    nn > 0,
            ;
        } else {
            assert(0int * 0int == 0) by (nonlinear_arith);
        }
    }
}

} // verus!
