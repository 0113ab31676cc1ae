//! Three-component fixed-point vectors.
//!
//! A `Vec3` holds world-space coordinates in signed 16.16 fixed point.
//! Its view is the triple of mathematical integers behind the
//! components, and every operation's contract is stated over that view.

use vstd::prelude::*;

verus! {

use crate::fixed::{
    fx_div, fx_mul, fx_div_s, fx_mul_s, iabs, isqrt, lemma_tdiv_mag, sqrt_floor, FX_LIMIT, FX_ONE,
    FX_WORLD,
};
use vstd::arithmetic::mul::lemma_mul_inequality;

/// A point or direction in world space, fixed-point per component.
#[derive(Clone, Copy, PartialEq, Eq, Structural, Debug)]
pub struct Vec3 {
    pub x: i64,
    pub y: i64,
    pub z: i64,
}

impl View for Vec3 {
    type V = (int, int, int);

    open spec fn view(&self) -> (int, int, int) {
        (self.x as int, self.y as int, self.z as int)
    }
}

/// All three components within magnitude `m`.
pub open spec fn v3_in(a: (int, int, int), m: int) -> bool {
    iabs(a.0) <= m && iabs(a.1) <= m && iabs(a.2) <= m
}

/// Componentwise sum.
pub open spec fn v3_add(a: (int, int, int), b: (int, int, int)) -> (int, int, int) {
    (a.0 + b.0, a.1 + b.1, a.2 + b.2)
}

/// Componentwise difference.
pub open spec fn v3_sub(a: (int, int, int), b: (int, int, int)) -> (int, int, int) {
    (a.0 - b.0, a.1 - b.1, a.2 - b.2)
}

/// Componentwise negation.
pub open spec fn v3_neg(a: (int, int, int)) -> (int, int, int) {
    (-a.0, -a.1, -a.2)
}

/// The vector scaled by a fixed-point factor.
pub open spec fn v3_scale(a: (int, int, int), t: int) -> (int, int, int) {
    (fx_mul_s(a.0, t), fx_mul_s(a.1, t), fx_mul_s(a.2, t))
}

/// Linear interpolation from `a` to `b` by the fixed-point fraction
/// `t`.
pub open spec fn v3_lerp(a: (int, int, int), b: (int, int, int), t: int) -> (int, int, int) {
    v3_add(v3_scale(a, FX_ONE - t), v3_scale(b, t))
}

/// The cross product, each product a fixed-point multiplication.
pub open spec fn v3_cross(a: (int, int, int), b: (int, int, int)) -> (int, int, int) {
    (
        fx_mul_s(a.1, b.2) - fx_mul_s(a.2, b.1),
        fx_mul_s(a.2, b.0) - fx_mul_s(a.0, b.2),
        fx_mul_s(a.0, b.1) - fx_mul_s(a.1, b.0),
    )
}

/// Squared Euclidean length, in squared fixed-point steps.
pub open spec fn v3_norm_sq(a: (int, int, int)) -> int {
    a.0 * a.0 + a.1 * a.1 + a.2 * a.2
}

/// Euclidean length, in fixed-point steps (floor of the real length).
pub open spec fn v3_norm(a: (int, int, int)) -> int {
    sqrt_floor(v3_norm_sq(a))
}

/// The unit vector along `a`, each component a fixed-point quotient by
/// the length.
pub open spec fn v3_unit(a: (int, int, int)) -> (int, int, int) {
    (fx_div_s(a.0, v3_norm(a)), fx_div_s(a.1, v3_norm(a)), fx_div_s(a.2, v3_norm(a)))
}

impl Vec3 {
    /// Builds a vector from its components.
    pub fn new(x: i64, y: i64, z: i64) -> (r: Vec3)
        ensures
            r@ == (x as int, y as int, z as int),
    {
        Vec3 { x, y, z }
    }

    /// The zero vector.
    pub fn zeros() -> (r: Vec3)
        ensures
            r@ == (0int, 0int, 0int),
    {
        Vec3 { x: 0, y: 0, z: 0 }
    }

    /// Componentwise sum.
    pub fn add(&self, o: &Vec3) -> (r: Vec3)
        requires
            v3_in(self@, FX_LIMIT as int),
            v3_in(o@, FX_LIMIT as int),
        ensures
            r@ == v3_add(self@, o@),
    {
        Vec3 { x: self.x + o.x, y: self.y + o.y, z: self.z + o.z }
    }

    /// Componentwise difference.
    pub fn sub(&self, o: &Vec3) -> (r: Vec3)
        requires
            v3_in(self@, FX_LIMIT as int),
            v3_in(o@, FX_LIMIT as int),
        ensures
            r@ == v3_sub(self@, o@),
    {
        Vec3 { x: self.x - o.x, y: self.y - o.y, z: self.z - o.z }
    }

    /// Componentwise negation.
    pub fn neg(&self) -> (r: Vec3)
        requires
            v3_in(self@, FX_LIMIT as int),
        ensures
            r@ == v3_neg(self@),
    {
        Vec3 { x: -self.x, y: -self.y, z: -self.z }
    }

    /// Scales by a fixed-point factor.
    pub fn scale(&self, t: i64) -> (r: Vec3)
        requires
            v3_in(self@, FX_LIMIT as int),
            -FX_LIMIT <= t <= FX_LIMIT,
        ensures
            r@ == v3_scale(self@, t as int),
    {
        Vec3 { x: fx_mul(self.x, t), y: fx_mul(self.y, t), z: fx_mul(self.z, t) }
    }

    /// The cross product with another vector.
    pub fn cross(&self, o: &Vec3) -> (r: Vec3)
        requires
            v3_in(self@, FX_WORLD as int),
            v3_in(o@, FX_WORLD as int),
        ensures
            r@ == v3_cross(self@, o@),
    {
        proof {
            crate::fixed::lemma_fx_mul_abs_mono(self@.0, o@.1, FX_WORLD as int, FX_WORLD as int);
            crate::fixed::lemma_fx_mul_abs_mono(self@.0, o@.2, FX_WORLD as int, FX_WORLD as int);
            crate::fixed::lemma_fx_mul_abs_mono(self@.1, o@.0, FX_WORLD as int, FX_WORLD as int);
            crate::fixed::lemma_fx_mul_abs_mono(self@.1, o@.2, FX_WORLD as int, FX_WORLD as int);
            crate::fixed::lemma_fx_mul_abs_mono(self@.2, o@.0, FX_WORLD as int, FX_WORLD as int);
            crate::fixed::lemma_fx_mul_abs_mono(self@.2, o@.1, FX_WORLD as int, FX_WORLD as int);
        }
        Vec3 {
            x: fx_mul(self.y, o.z) - fx_mul(self.z, o.y),
            y: fx_mul(self.z, o.x) - fx_mul(self.x, o.z),
            z: fx_mul(self.x, o.y) - fx_mul(self.y, o.x),
        }
    }

    /// Squared length, exact.
    pub fn norm_sq(&self) -> (r: u128)
        requires
            v3_in(self@, FX_LIMIT as int),
        ensures
            r as int == v3_norm_sq(self@),
            r < 0x1_0000_0000_0000_0000_0000,
    {
        proof {
            lemma_square_bound(self.x as int, FX_LIMIT as int);
            lemma_square_bound(self.y as int, FX_LIMIT as int);
            lemma_square_bound(self.z as int, FX_LIMIT as int);
        }
        let xx: i128 = (self.x as i128) * (self.x as i128);
        let yy: i128 = (self.y as i128) * (self.y as i128);
        let zz: i128 = (self.z as i128) * (self.z as i128);
        (xx + yy + zz) as u128
    }

    /// Length in fixed-point steps: the floor of the real length.
    pub fn norm(&self) -> (r: i64)
        requires
            v3_in(self@, FX_LIMIT as int),
        ensures
            r == v3_norm(self@),
            0 <= r <= 0x100_0000_0000,
            (r as int) * (r as int) <= v3_norm_sq(self@),
            ((r as int) + 1) * ((r as int) + 1) > v3_norm_sq(self@),
            v3_in(self@, FX_WORLD as int) ==> r <= 2 * FX_WORLD,
            v3_in(self@, 2 * FX_WORLD as int) ==> r <= 4 * FX_WORLD,
            v3_in(self@, 8 * FX_WORLD as int) ==> r <= 16 * FX_WORLD,
            v3_in(self@, 32 * FX_WORLD as int) ==> r <= 64 * FX_WORLD,
    {
        let s = self.norm_sq();
        let r = isqrt(s);
        proof {
            if r > 0x100_0000_0000u64 {
                assert((r as int) * (r as int) > 0x1_0000_0000_0000_0000_0000) by (nonlinear_arith)
                    requires
                        r > 0x100_0000_0000u64,
                ;
            }
            if v3_in(self@, FX_WORLD as int) {
                lemma_square_bound(self.x as int, FX_WORLD as int);
                lemma_square_bound(self.y as int, FX_WORLD as int);
                lemma_square_bound(self.z as int, FX_WORLD as int);
                if r as int > 2 * FX_WORLD {
                    assert((r as int) * (r as int) > 3 * (FX_WORLD as int) * (FX_WORLD as int))
                        by (nonlinear_arith)
                        requires
                            r as int > 2 * (FX_WORLD as int),
                            FX_WORLD == 0x1_0000_0000i64,
                    ;
                }
            }
            if v3_in(self@, 2 * FX_WORLD as int) {
                lemma_square_bound(self.x as int, 2 * FX_WORLD as int);
                lemma_square_bound(self.y as int, 2 * FX_WORLD as int);
                lemma_square_bound(self.z as int, 2 * FX_WORLD as int);
                if r as int > 4 * FX_WORLD {
                    assert((r as int) * (r as int) > 3 * (2 * FX_WORLD as int) * (2
                        * FX_WORLD as int)) by (nonlinear_arith)
                        requires
                            r as int > 4 * (FX_WORLD as int),
                            FX_WORLD == 0x1_0000_0000i64,
                    ;
                }
            }
            if v3_in(self@, 8 * FX_WORLD as int) {
                lemma_square_bound(self.x as int, 8 * FX_WORLD as int);
                lemma_square_bound(self.y as int, 8 * FX_WORLD as int);
                lemma_square_bound(self.z as int, 8 * FX_WORLD as int);
                if r as int > 16 * FX_WORLD {
                    assert((r as int) * (r as int) > 3 * (8 * FX_WORLD as int) * (8
                        * FX_WORLD as int)) by (nonlinear_arith)
                        requires
                            r as int > 16 * (FX_WORLD as int),
                            FX_WORLD == 0x1_0000_0000i64,
                    ;
                }
            }
            if v3_in(self@, 32 * FX_WORLD as int) {
                lemma_square_bound(self.x as int, 32 * FX_WORLD as int);
                lemma_square_bound(self.y as int, 32 * FX_WORLD as int);
                lemma_square_bound(self.z as int, 32 * FX_WORLD as int);
                if r as int > 64 * FX_WORLD {
                    assert((r as int) * (r as int) > 3 * (32 * FX_WORLD as int) * (32
                        * FX_WORLD as int)) by (nonlinear_arith)
                        requires
                            r as int > 64 * (FX_WORLD as int),
                            FX_WORLD == 0x1_0000_0000i64,
                    ;
                }
            }
        }
        r as i64
    }

    /// The unit direction along `self`, components bounded by one.
    pub fn unit(&self) -> (r: Vec3)
        requires
            v3_in(self@, 32 * FX_WORLD as int),
            self@ != (0int, 0int, 0int),
        ensures
            r@ == v3_unit(self@),
            v3_in(r@, FX_ONE as int),
    {
        proof {
            lemma_norm_sq_pos(self@);
        }
        let n = self.norm();
        proof {
            if n == 0 {
                assert(v3_norm_sq(self@) < (0 + 1) * (0 + 1));
            }
            lemma_unit_components(self@, n as int);
        }
        Vec3 { x: fx_div(self.x, n), y: fx_div(self.y, n), z: fx_div(self.z, n) }
    }
}

/// A square grows with the magnitude of its root.
proof fn lemma_square_bound(a: int, m: int)
    requires
        iabs(a) <= m,
    ensures
        0 <= a * a <= m * m,
{
    assert(0 <= a * a <= m * m) by (nonlinear_arith)
        requires
            iabs(a) <= m,
    ;
}

/// The components of a cross product are bounded by twice the product
/// of the factors' componentwise bounds.
pub proof fn lemma_cross_in(a: (int, int, int), b: (int, int, int), ma: int, mb: int)
    requires
        v3_in(a, ma),
        v3_in(b, mb),
    ensures
        v3_in(v3_cross(a, b), 2 * fx_mul_s(ma, mb)),
{
    crate::fixed::lemma_fx_mul_abs_mono(a.0, b.1, ma, mb);
    crate::fixed::lemma_fx_mul_abs_mono(a.0, b.2, ma, mb);
    crate::fixed::lemma_fx_mul_abs_mono(a.1, b.0, ma, mb);
    crate::fixed::lemma_fx_mul_abs_mono(a.1, b.2, ma, mb);
    crate::fixed::lemma_fx_mul_abs_mono(a.2, b.0, ma, mb);
    crate::fixed::lemma_fx_mul_abs_mono(a.2, b.1, ma, mb);
}

/// A non-zero vector has positive squared length.
pub proof fn lemma_norm_sq_pos(a: (int, int, int))
    requires
        a != (0int, 0int, 0int),
    ensures
        v3_norm_sq(a) > 0,
{
    assert(a.0 * a.0 + a.1 * a.1 + a.2 * a.2 > 0) by (nonlinear_arith)
        requires
            a.0 != 0 || a.1 != 0 || a.2 != 0,
    ;
}

/// Each component of a vector is bounded by the vector's length, so the
/// components of the unit vector are bounded by one.
proof fn lemma_unit_components(a: (int, int, int), n: int)
    requires
        n == v3_norm(a),
        n > 0,
        n * n <= v3_norm_sq(a),
        (n + 1) * (n + 1) > v3_norm_sq(a),
    ensures
        v3_in(v3_unit(a), FX_ONE as int),
{
    lemma_component_le_norm(a.0, a.1, a.2, n);
    lemma_component_le_norm(a.1, a.0, a.2, n);
    lemma_component_le_norm(a.2, a.0, a.1, n);
    lemma_mul_inequality(iabs(a.0), n, FX_ONE as int);
    lemma_mul_inequality(iabs(a.1), n, FX_ONE as int);
    lemma_mul_inequality(iabs(a.2), n, FX_ONE as int);
    assert(iabs(a.0 * FX_ONE) == iabs(a.0) * FX_ONE) by (nonlinear_arith);
    assert(iabs(a.1 * FX_ONE) == iabs(a.1) * FX_ONE) by (nonlinear_arith);
    assert(iabs(a.2 * FX_ONE) == iabs(a.2) * FX_ONE) by (nonlinear_arith);
    lemma_tdiv_mag(a.0 * FX_ONE, n, FX_ONE as int);
    lemma_tdiv_mag(a.1 * FX_ONE, n, FX_ONE as int);
    lemma_tdiv_mag(a.2 * FX_ONE, n, FX_ONE as int);
}

/// One component squared is at most the squared length.
proof fn lemma_component_le_norm(c: int, d: int, e: int, n: int)
    requires
        n >= 0,
        n * n <= c * c + d * d + e * e,
        (n + 1) * (n + 1) > c * c + d * d + e * e,
    ensures
        iabs(c) <= n,
{
    assert(iabs(c) <= n) by (nonlinear_arith)
        requires
            n >= 0,
            (n + 1) * (n + 1) > c * c + d * d + e * e,
    ;
}

} // verus!
