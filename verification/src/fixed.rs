//! Signed 16.16 fixed-point scalars.
//!
//! Every scalar of the simulation (coordinates, angles, times, blend
//! factors) is an `i64` counting steps of `1 / FX_ONE`. The operations
//! here are exact integer arithmetic, so every contract built on them can
//! be stated and proved without approximation.

use vstd::prelude::*;

verus! {

use vstd::arithmetic::div_mod::{
    lemma_div_is_ordered,
    lemma_div_multiples_vanish,
    lemma_div_nonincreasing,
    lemma_fundamental_div_mod,
    lemma_fundamental_div_mod_converse,
};
use vstd::arithmetic::mul::lemma_mul_inequality;

/// Number of fractional steps in one unit: scalars are signed 16.16
/// fixed-point values.
pub const FX_ONE: i64 = 65536;

/// Half a unit.
pub const FX_HALF: i64 = 32768;

/// Magnitude bound (2^39 steps, about eight million units) under which
/// the fixed-point operations are exact and free of overflow.
pub const FX_LIMIT: i64 = 0x80_0000_0000;

/// Magnitude bound (2^32 steps, about sixty-five thousand units) on
/// world coordinates: sums, differences and norms of world vectors, and
/// the products that the camera operations chain on them, then stay
/// well under `FX_LIMIT`.
pub const FX_WORLD: i64 = 0x1_0000_0000;

/// Magnitude bound (64 radians per second, in fixed point) on angular
/// rates, so that a rate times a world-sized time step stays within
/// `FX_LIMIT`.
pub const FX_SPEED_MAX: i64 = 4194304;

/// pi in fixed-point radians.
pub const FX_PI: i64 = 205887;

/// 2*pi in fixed-point radians; every phase angle is kept in [0, FX_TAU).
pub const FX_TAU: i64 = 2 * FX_PI;

/// pi/2 in fixed-point radians.
pub const FX_HALF_PI: i64 = 102944;

/// Magnitude of an integer.
pub open spec fn iabs(a: int) -> int {
    if a >= 0 {
        a
    } else {
        -a
    }
}

/// Division truncating toward zero (the machine division), for a
/// positive divisor.
pub open spec fn tdiv(a: int, b: int) -> int {
    if a >= 0 {
        a / b
    } else {
        -((-a) / b)
    }
}

/// The product of two fixed-point scalars: the mathematical product,
/// scaled back down with truncation toward zero.
pub open spec fn fx_mul_s(a: int, b: int) -> int {
    tdiv(a * b, FX_ONE as int)
}

/// The quotient of two fixed-point scalars (positive divisor).
pub open spec fn fx_div_s(a: int, b: int) -> int {
    tdiv(a * FX_ONE, b)
}

/// Clamping into a closed interval.
pub open spec fn clamp_s(x: int, lo: int, hi: int) -> int {
    if x < lo {
        lo
    } else if x > hi {
        hi
    } else {
        x
    }
}

/// Signs and magnitudes multiply as expected.
proof fn lemma_mul_sign_abs(a: int, b: int)
    ensures
        iabs(a) * iabs(b) == iabs(a * b),
        (a >= 0 && b >= 0) ==> a * b >= 0,
        (a <= 0 && b <= 0) ==> a * b >= 0,
        (a >= 0 && b <= 0) ==> a * b <= 0,
        (a <= 0 && b >= 0) ==> a * b <= 0,
{
    assert(iabs(a) * iabs(b) == iabs(a * b) && ((a >= 0 && b >= 0) ==> a * b >= 0) && ((a <= 0
        && b <= 0) ==> a * b >= 0) && ((a >= 0 && b <= 0) ==> a * b <= 0) && ((a <= 0 && b >= 0)
        ==> a * b <= 0)) by (nonlinear_arith);
}

/// Truncating division shrinks magnitudes by the divisor.
pub proof fn lemma_tdiv_mag(a: int, b: int, m: int)
    requires
        b > 0,
        iabs(a) <= m * b,
        m >= 0,
    ensures
        iabs(tdiv(a, b)) <= m,
{
    lemma_div_multiples_vanish(m, b);
    assert((b * m) / b == m);
    if a >= 0 {
        lemma_div_is_ordered(a, m * b, b);
        vstd::arithmetic::div_mod::lemma_div_pos_is_pos(a, b);
        assert(tdiv(a, b) == a / b);
        assert(a / b <= m);
    } else {
        lemma_div_is_ordered(-a, m * b, b);
        vstd::arithmetic::div_mod::lemma_div_pos_is_pos(-a, b);
        assert(tdiv(a, b) == -((-a) / b));
        assert((-a) / b <= m);
    }
}

/// A fixed-point product with a factor of magnitude at most one keeps
/// the other factor's magnitude bound.
pub proof fn lemma_fx_mul_bound(a: int, b: int, m: int)
    requires
        iabs(a) <= m,
        iabs(b) <= FX_ONE,
        m >= 0,
    ensures
        iabs(fx_mul_s(a, b)) <= m,
{
    lemma_mul_sign_abs(a, b);
    lemma_mul_inequality(iabs(b), FX_ONE as int, iabs(a));
    assert(iabs(a) * iabs(b) <= iabs(a) * FX_ONE) by (nonlinear_arith)
        requires
            iabs(b) <= FX_ONE,
            iabs(a) >= 0,
    ;
    assert(iabs(a) * FX_ONE <= m * FX_ONE) by (nonlinear_arith)
        requires
            iabs(a) <= m,
    ;
    lemma_tdiv_mag(a * b, FX_ONE as int, m);
}

/// A product of non-negative scalars is non-negative.
pub proof fn lemma_fx_mul_nonneg(a: int, b: int)
    requires
        a >= 0,
        b >= 0,
    ensures
        fx_mul_s(a, b) >= 0,
{
    lemma_mul_sign_abs(a, b);
    vstd::arithmetic::div_mod::lemma_div_pos_is_pos(a * b, FX_ONE as int);
}

/// The fixed-point product is monotone on non-negative scalars.
pub proof fn lemma_fx_mul_mono(a: int, b: int, ma: int, mb: int)
    requires
        0 <= a <= ma,
        0 <= b <= mb,
    ensures
        0 <= fx_mul_s(a, b) <= fx_mul_s(ma, mb),
{
    lemma_fx_mul_nonneg(a, b);
    assert(a * b <= ma * mb) by (nonlinear_arith)
        requires
            0 <= a <= ma,
            0 <= b <= mb,
    ;
    lemma_mul_sign_abs(a, b);
    lemma_mul_sign_abs(ma, mb);
    lemma_div_is_ordered(a * b, ma * mb, FX_ONE as int);
}

/// Multiplying by one fixed-point unit is the identity.
pub proof fn lemma_fx_mul_one(a: int)
    ensures
        fx_mul_s(a, FX_ONE as int) == a,
{
    lemma_div_multiples_vanish(a, FX_ONE as int);
    if a >= 0 {
        assert(a * FX_ONE == FX_ONE * a);
    } else {
        lemma_div_multiples_vanish(-a, FX_ONE as int);
        assert((-(a as int)) * FX_ONE == FX_ONE * (-(a as int)));
    }
}

/// Multiplying by zero gives zero.
pub proof fn lemma_fx_mul_zero(a: int)
    ensures
        fx_mul_s(a, 0) == 0,
{
    assert(a * 0 == 0);
}

/// A fixed-point quotient of a value at least the divisor is at least
/// one unit.
pub proof fn lemma_fx_div_ge_one(t: int, d: int)
    requires
        d > 0,
        t >= d,
    ensures
        fx_div_s(t, d) >= FX_ONE,
{
    lemma_div_multiples_vanish(FX_ONE as int, d);
    assert(d * FX_ONE == FX_ONE * d);
    lemma_div_is_ordered(d * FX_ONE, t * FX_ONE, d);
    assert(d * FX_ONE <= t * FX_ONE) by (nonlinear_arith)
        requires
            0 < d <= t,
    ;
    vstd::arithmetic::div_mod::lemma_div_pos_is_pos(t * FX_ONE, d);
}

/// Quotients of non-negative values add up to at most the quotient of
/// the sum.
proof fn lemma_div_subadditive(x: int, y: int, d: int)
    requires
        0 <= x,
        0 <= y,
        0 < d,
    ensures
        x / d + y / d <= (x + y) / d,
{
    lemma_fundamental_div_mod(x, d);
    lemma_fundamental_div_mod(y, d);
    vstd::arithmetic::div_mod::lemma_mod_bound(x, d);
    vstd::arithmetic::div_mod::lemma_mod_bound(y, d);
    lemma_div_multiples_vanish(x / d + y / d, d);
    assert(d * (x / d + y / d) == d * (x / d) + d * (y / d)) by (nonlinear_arith);
    lemma_div_is_ordered(d * (x / d + y / d), x + y, d);
}

/// A convex blend of two scalars within a bound stays within it: the
/// two complementary fixed-point products together shrink no slower
/// than the exact blend.
pub proof fn lemma_fx_blend_bound(a: int, b: int, t: int, m: int)
    requires
        iabs(a) <= m,
        iabs(b) <= m,
        0 <= t <= FX_ONE,
    ensures
        iabs(fx_mul_s(a, FX_ONE - t) + fx_mul_s(b, t)) <= m,
{
    lemma_mul_sign_abs(a, FX_ONE - t);
    lemma_mul_sign_abs(b, t);
    assert(iabs(a) * (FX_ONE - t) <= m * (FX_ONE - t)) by (nonlinear_arith)
        requires
            iabs(a) <= m,
            0 <= FX_ONE - t,
    ;
    assert(iabs(b) * t <= m * t) by (nonlinear_arith)
        requires
            iabs(b) <= m,
            0 <= t,
    ;
    vstd::arithmetic::div_mod::lemma_div_pos_is_pos(iabs(a) * (FX_ONE - t), FX_ONE as int);
    vstd::arithmetic::div_mod::lemma_div_pos_is_pos(iabs(b) * t, FX_ONE as int);
    lemma_div_subadditive(iabs(a) * (FX_ONE - t), iabs(b) * t, FX_ONE as int);
    lemma_div_is_ordered(
        iabs(a) * (FX_ONE - t) + iabs(b) * t,
        m * (FX_ONE - t) + m * t,
        FX_ONE as int,
    );
    assert(m * (FX_ONE - t) + m * t == m * FX_ONE) by (nonlinear_arith);
    lemma_div_multiples_vanish(m, FX_ONE as int);
    assert(m * FX_ONE == FX_ONE * m);
    assert(iabs(fx_mul_s(a, FX_ONE - t)) <= tdiv(iabs(a) * (FX_ONE - t), FX_ONE as int)) by {
        assert(iabs(a * (FX_ONE - t)) == iabs(a) * (FX_ONE - t));
    }
    assert(iabs(fx_mul_s(b, t)) <= tdiv(iabs(b) * t, FX_ONE as int)) by {
        assert(iabs(b * t) == iabs(b) * t);
    }
}

/// The magnitude of a fixed-point product is bounded by the product of
/// the factors' magnitude bounds.
pub proof fn lemma_fx_mul_abs_mono(a: int, b: int, ma: int, mb: int)
    requires
        iabs(a) <= ma,
        iabs(b) <= mb,
    ensures
        iabs(fx_mul_s(a, b)) <= fx_mul_s(ma, mb),
{
    lemma_mul_sign_abs(a, b);
    assert(iabs(a) * iabs(b) <= ma * mb) by (nonlinear_arith)
        requires
            0 <= iabs(a) <= ma,
            0 <= iabs(b) <= mb,
    ;
    if a * b >= 0 {
        lemma_div_is_ordered(a * b, ma * mb, FX_ONE as int);
        vstd::arithmetic::div_mod::lemma_div_pos_is_pos(a * b, FX_ONE as int);
        vstd::arithmetic::div_mod::lemma_div_pos_is_pos(ma * mb, FX_ONE as int);
    } else {
        lemma_div_is_ordered(-(a * b), ma * mb, FX_ONE as int);
        vstd::arithmetic::div_mod::lemma_div_pos_is_pos(-(a * b), FX_ONE as int);
        vstd::arithmetic::div_mod::lemma_div_pos_is_pos(ma * mb, FX_ONE as int);
    }
}

/// A fixed-point quotient of a smaller value by a larger one stays
/// within one unit.
pub proof fn lemma_fx_div_le_one(a: int, b: int)
    requires
        0 <= a <= b,
        0 < b,
    ensures
        0 <= fx_div_s(a, b) <= FX_ONE,
{
    lemma_fx_div_nonneg(a, b);
    assert(a * FX_ONE <= b * FX_ONE);
    lemma_div_is_ordered(a * FX_ONE, b * FX_ONE, b);
    lemma_div_multiples_vanish(FX_ONE as int, b);
    assert(b * FX_ONE == FX_ONE * b);
}

/// A fixed-point quotient of non-negative by positive is non-negative.
pub proof fn lemma_fx_div_nonneg(t: int, d: int)
    requires
        d > 0,
        t >= 0,
    ensures
        fx_div_s(t, d) >= 0,
{
    vstd::arithmetic::div_mod::lemma_div_pos_is_pos(t * FX_ONE, d);
}

/// Multiplies two fixed-point scalars, exactly as `fx_mul_s` describes.
pub fn fx_mul(a: i64, b: i64) -> (r: i64)
    requires
        -FX_LIMIT <= a <= FX_LIMIT,
        -FX_LIMIT <= b <= FX_LIMIT,
    ensures
        r == fx_mul_s(a as int, b as int),
{
    let neg: bool = (a < 0) != (b < 0);
    let ma: u64 = if a < 0 {
        (-a) as u64
    } else {
        a as u64
    };
    let mb: u64 = if b < 0 {
        (-b) as u64
    } else {
        b as u64
    };
    proof {
        lemma_mul_sign_abs(a as int, b as int);
        assert((ma as int) * (mb as int) <= FX_LIMIT * FX_LIMIT) by (nonlinear_arith)
            requires
                0 <= ma <= FX_LIMIT,
                0 <= mb <= FX_LIMIT,
        ;
    }
    let p: u128 = (ma as u128) * (mb as u128);
    let q: u128 = p / (FX_ONE as u128);
    proof {
        lemma_div_is_ordered(p as int, FX_LIMIT * FX_LIMIT, FX_ONE as int);
    }
    let qi: i64 = q as i64;
    if neg {
        -qi
    } else {
        qi
    }
}

/// Divides two fixed-point scalars (positive divisor), exactly as
/// `fx_div_s` describes.
pub fn fx_div(a: i64, b: i64) -> (r: i64)
    requires
        -FX_LIMIT <= a <= FX_LIMIT,
        0 < b <= FX_LIMIT,
    ensures
        r == fx_div_s(a as int, b as int),
{
    let ma: u64 = if a < 0 {
        (-a) as u64
    } else {
        a as u64
    };
    let p: u128 = (ma as u128) * (FX_ONE as u128);
    let q: u128 = p / (b as u128);
    proof {
        lemma_div_nonincreasing(p as int, b as int);
    }
    let qi: i64 = q as i64;
    if a < 0 {
        -qi
    } else {
        qi
    }
}

/// Clamps a scalar into a closed interval.
pub fn fx_clamp(x: i64, lo: i64, hi: i64) -> (r: i64)
    requires
        lo <= hi,
    ensures
        r == clamp_s(x as int, lo as int, hi as int),
        lo <= r <= hi,
{
    if x < lo {
        lo
    } else if x > hi {
        hi
    } else {
        x
    }
}

/// Magnitude of a fixed-point scalar.
pub fn fx_abs(x: i64) -> (r: i64)
    requires
        -FX_LIMIT <= x <= FX_LIMIT,
    ensures
        r == iabs(x as int),
{
    if x < 0 {
        -x
    } else {
        x
    }
}

/// The smaller of two scalars.
pub fn fx_min(a: i64, b: i64) -> (r: i64)
    ensures
        r == vstd::math::min(a as int, b as int),
{
    if a < b {
        a
    } else {
        b
    }
}

/// The Euclidean remainder of an angle, in [0, FX_TAU).
pub open spec fn wrap_angle_s(a: int) -> int {
    a % (FX_TAU as int)
}

/// Normalizes an angle into [0, FX_TAU); every phase angle of the
/// simulation passes through here after it is advanced.
pub fn wrap_angle(a: i64) -> (r: i64)
    requires
        -FX_LIMIT <= a <= FX_LIMIT,
    ensures
        r == wrap_angle_s(a as int),
        0 <= r < FX_TAU,
{
    if a >= 0 {
        let m: u64 = (a as u64) % (FX_TAU as u64);
        m as i64
    } else {
        let m: u64 = ((-a) as u64) % (FX_TAU as u64);
        proof {
            let t = FX_TAU as int;
            let na = -(a as int);
            lemma_fundamental_div_mod(na, t);
            let q = na / t;
            let mm = na % t;
            if mm == 0 {
                lemma_fundamental_div_mod_converse(a as int, t, -q, 0);
            } else {
                lemma_fundamental_div_mod_converse(a as int, t, -q - 1, t - mm);
            }
        }
        if m == 0 {
            0
        } else {
            FX_TAU - (m as i64)
        }
    }
}

/// The normalized angle always lies in `[0, FX_TAU)`: however far a
/// phase is advanced, wrapping brings it back into one turn.
pub proof fn lemma_wrap_angle_s_bounds(a: int)
    ensures
        0 <= wrap_angle_s(a) < FX_TAU,
{
    vstd::arithmetic::div_mod::lemma_mod_division_less_than_divisor(a, FX_TAU as int);
}

/// The floor of the real square root.
pub open spec fn sqrt_floor(x: int) -> int {
    choose|r: int| 0 <= r && #[trigger] (r * r) <= x && (r + 1) * (r + 1) > x
}

/// Any value with the defining property of `sqrt_floor` is it.
pub proof fn lemma_sqrt_floor_unique(x: int, r: int)
    requires
        0 <= r,
        r * r <= x,
        (r + 1) * (r + 1) > x,
    ensures
        sqrt_floor(x) == r,
{
    assert(exists|q: int| 0 <= q && #[trigger] (q * q) <= x && (q + 1) * (q + 1) > x) by {
        assert(0 <= r && r * r <= x && (r + 1) * (r + 1) > x);
    }
    let c = sqrt_floor(x);
    assert(0 <= c && c * c <= x && (c + 1) * (c + 1) > x);
    if c < r {
        assert(false) by (nonlinear_arith)
            requires
                0 <= c < r,
                (c + 1) * (c + 1) > x,
                r * r <= x,
        ;
    }
    if r < c {
        assert(false) by (nonlinear_arith)
            requires
                0 <= r < c,
                (r + 1) * (r + 1) > x,
                c * c <= x,
        ;
    }
}

/// Integer square root: the greatest `r` with `r * r <= x`.
pub fn isqrt(x: u128) -> (r: u64)
    requires
        x < 0x1_0000_0000_0000_0000_0000,
    ensures
        r as int == sqrt_floor(x as int),
        (r as int) * (r as int) <= x as int,
        ((r as int) + 1) * ((r as int) + 1) > x as int,
{
    let mut lo: u64 = 0;
    let mut hi: u64 = 0x100_0000_0000;
    proof {
        assert((hi as int) * (hi as int) > x as int) by (nonlinear_arith)
            requires
                hi == 0x100_0000_0000u64,
                x < 0x1_0000_0000_0000_0000_0000u128,
        ;
    }
    while hi - lo > 1
        invariant
            lo < hi <= 0x100_0000_0000,
            (lo as int) * (lo as int) <= x as int,
            (hi as int) * (hi as int) > x as int,
        decreases hi - lo,
    {
        let mid: u64 = lo + (hi - lo) / 2;
        proof {
            assert((mid as int) * (mid as int) <= 0x100_0000_0000i64 * 0x100_0000_0000i64)
                by (nonlinear_arith)
                requires
                    0 <= mid <= 0x100_0000_0000u64,
            ;
        }
        let m2: u128 = (mid as u128) * (mid as u128);
        if m2 <= x {
            lo = mid;
        } else {
            hi = mid;
        }
    }
    proof {
        lemma_sqrt_floor_unique(x as int, lo as int);
    }
    lo
}

} // verus!
