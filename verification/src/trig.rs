//! Fixed-point sine and cosine.
//!
//! The half-wave is Bhaskara's rational approximation
//! `16 x (pi - x) / (5 pi^2 - 4 x (pi - x))`, carried out in exact
//! integer arithmetic and clamped to one unit of magnitude; the second
//! half-wave is its negation, and cosine is sine a quarter turn ahead.
//! The spec functions below are the definition of the crate's
//! trigonometry: the executable code matches them exactly.

use vstd::prelude::*;

verus! {

use crate::fixed::{
    clamp_s, fx_clamp, fx_div, fx_div_s, fx_mul, fx_mul_s, iabs, lemma_tdiv_mag, tdiv, wrap_angle,
    wrap_angle_s, FX_HALF_PI, FX_LIMIT, FX_ONE, FX_PI, FX_TAU,
};
/// pi squared, in fixed point (`FX_PI * FX_PI / FX_ONE`).
pub const FX_PI_SQ: i64 = 646811;

/// The rational half-wave approximation on `[0, FX_PI]`, before
/// clamping.
pub open spec fn bhaskara_s(x: int) -> int {
    let uv = tdiv(x * (FX_PI - x), FX_ONE as int);
    let denom = 5 * FX_PI_SQ - 4 * uv;
    fx_div_s(16 * uv, denom)
}

/// Sine of an angle in `[0, FX_TAU)`.
pub open spec fn sin_s(x: int) -> int {
    if x <= FX_PI {
        clamp_s(bhaskara_s(x), -FX_ONE as int, FX_ONE as int)
    } else {
        -clamp_s(bhaskara_s(x - FX_PI), -FX_ONE as int, FX_ONE as int)
    }
}

/// Cosine of an angle in `[0, FX_TAU)`: sine a quarter turn ahead.
pub open spec fn cos_s(x: int) -> int {
    sin_s(wrap_angle_s(x + FX_HALF_PI))
}

/// Sine stays within one unit.
pub proof fn lemma_sin_bound(x: int)
    ensures
        iabs(sin_s(x)) <= FX_ONE,
{
}

/// Cosine stays within one unit.
pub proof fn lemma_cos_bound(x: int)
    ensures
        iabs(cos_s(x)) <= FX_ONE,
{
}

/// Sine of the zero angle is exactly zero.
pub proof fn lemma_sin_zero()
    ensures
        sin_s(0) == 0,
{
    assert(tdiv(0int * (FX_PI - 0int), FX_ONE as int) == 0);
    assert(fx_div_s(16int * 0int, 5 * FX_PI_SQ - 4int * 0int) == 0);
}

/// The half-wave on `[0, FX_PI]`, exactly as `bhaskara_s` with the
/// clamp.
fn bhaskara(x: i64) -> (r: i64)
    requires
        0 <= x <= FX_PI,
    ensures
        r == clamp_s(bhaskara_s(x as int), -FX_ONE as int, FX_ONE as int),
        -FX_ONE <= r <= FX_ONE,
{
    let uv: i64 = fx_mul(x, FX_PI - x);
    proof {
        assert(0 <= (x as int) * (FX_PI - x as int) <= FX_PI * FX_PI) by (nonlinear_arith)
            requires
                0 <= x as int <= FX_PI as int,
        ;
        lemma_tdiv_mag((x as int) * (FX_PI - x as int), FX_ONE as int, FX_PI_SQ as int + 1);
        vstd::arithmetic::div_mod::lemma_div_pos_is_pos(
            (x as int) * (FX_PI - x as int),
            FX_ONE as int,
        );
    }
    let denom: i64 = 5 * FX_PI_SQ - 4 * uv;
    let q = fx_div(16 * uv, denom);
    fx_clamp(q, -FX_ONE, FX_ONE)
}

/// Sine of an angle in `[0, FX_TAU)`, exactly as `sin_s`.
pub fn sin_fx(x: i64) -> (r: i64)
    requires
        0 <= x < FX_TAU,
    ensures
        r == sin_s(x as int),
        -FX_ONE <= r <= FX_ONE,
{
    if x <= FX_PI {
        bhaskara(x)
    } else {
        -bhaskara(x - FX_PI)
    }
}

/// Cosine of an angle in `[0, FX_TAU)`, exactly as `cos_s`.
pub fn cos_fx(x: i64) -> (r: i64)
    requires
        0 <= x < FX_TAU,
    ensures
        r == cos_s(x as int),
        -FX_ONE <= r <= FX_ONE,
{
    let shifted = wrap_angle(x + FX_HALF_PI);
    sin_fx(shifted)
}

/// pi/4 in fixed-point radians.
pub const FX_QUARTER_PI: i64 = 51472;

/// The correction coefficient of the arctangent approximation
/// (0.273 rad in fixed point).
pub const ATAN_K: i64 = 17891;

/// Arctangent of a ratio in `[0, 1]`: the linear term `t * pi/4` plus
/// the correction `0.273 * t * (1 - t)`.
pub open spec fn atan_s(t: int) -> int {
    fx_mul_s(t, FX_QUARTER_PI as int) + fx_mul_s(fx_mul_s(ATAN_K as int, t), FX_ONE - t)
}

/// The angle of the point `(x, y)` from the positive X axis, in
/// `[-FX_PI, FX_PI]`; zero at the origin.
pub open spec fn atan2_s(y: int, x: int) -> int {
    if x == 0 && y == 0 {
        0
    } else {
        let ax = iabs(x);
        let ay = iabs(y);
        let base = if ay <= ax {
            atan_s(fx_div_s(ay, ax))
        } else {
            FX_HALF_PI - atan_s(fx_div_s(ax, ay))
        };
        if x >= 0 && y >= 0 {
            base
        } else if x < 0 && y >= 0 {
            FX_PI - base
        } else if x < 0 {
            -(FX_PI - base)
        } else {
            -base
        }
    }
}

/// The arctangent approximation of a ratio in `[0, 1]` lies in
/// `[0, pi/2]`.
pub proof fn lemma_atan_range(t: int)
    requires
        0 <= t <= FX_ONE,
    ensures
        0 <= atan_s(t) <= FX_HALF_PI,
{
    crate::fixed::lemma_fx_mul_mono(t, FX_QUARTER_PI as int, FX_ONE as int, FX_QUARTER_PI as int);
    crate::fixed::lemma_fx_mul_mono(ATAN_K as int, t, ATAN_K as int, FX_ONE as int);
    crate::fixed::lemma_fx_mul_mono(
        fx_mul_s(ATAN_K as int, t),
        FX_ONE - t,
        ATAN_K as int,
        FX_ONE as int,
    );
    crate::fixed::lemma_fx_mul_one(FX_QUARTER_PI as int);
    crate::fixed::lemma_fx_mul_one(ATAN_K as int);
}

/// Arctangent of a ratio in `[0, 1]`, exactly as `atan_s`.
fn atan_frac(t: i64) -> (r: i64)
    requires
        0 <= t <= FX_ONE,
    ensures
        r == atan_s(t as int),
        0 <= r <= FX_HALF_PI,
{
    proof {
        lemma_atan_range(t as int);
    }
    fx_mul(t, FX_QUARTER_PI) + fx_mul(fx_mul(ATAN_K, t), FX_ONE - t)
}

/// The angle of the point `(x, y)` from the positive X axis, exactly
/// as `atan2_s`, in `[-FX_PI, FX_PI]`.
pub fn atan2_fx(y: i64, x: i64) -> (r: i64)
    requires
        -FX_LIMIT < x < FX_LIMIT,
        -FX_LIMIT < y < FX_LIMIT,
    ensures
        r == atan2_s(y as int, x as int),
        -FX_PI <= r <= FX_PI,
{
    if x == 0 && y == 0 {
        return 0;
    }
    let ax = if x < 0 {
        -x
    } else {
        x
    };
    let ay = if y < 0 {
        -y
    } else {
        y
    };
    let base = if ay <= ax {
        proof {
            crate::fixed::lemma_fx_div_le_one(ay as int, ax as int);
        }
        atan_frac(fx_div(ay, ax))
    } else {
        proof {
            crate::fixed::lemma_fx_div_le_one(ax as int, ay as int);
        }
        FX_HALF_PI - atan_frac(fx_div(ax, ay))
    };
    if x >= 0 && y >= 0 {
        base
    } else if x < 0 && y >= 0 {
        FX_PI - base
    } else if x < 0 {
        -(FX_PI - base)
    } else {
        -base
    }
}

} // verus!
