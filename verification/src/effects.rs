//! Orbit-ring and skybox geometry.
//!
//! Both helpers sample exact fixed-point positions: evenly spaced
//! points along an inclined orbit circle, and a latitude-longitude grid
//! on a sphere. The rendering collaborator thickens the ring into
//! triangles and attaches normals and texture coordinates to the grid.

use vstd::prelude::*;

verus! {

use crate::fixed::{fx_mul, fx_mul_s, FX_PI, FX_TAU, FX_WORLD};
use crate::orbit::{orbit_pos_s, OrbitParams};
use crate::trig::{cos_fx, cos_s, sin_fx, sin_s};
use crate::vec3::Vec3;
use vstd::arithmetic::div_mod::{
    lemma_div_pos_is_pos,
    lemma_multiply_divide_le,
    lemma_multiply_divide_lt,
};

/// How many segments an orbit ring is drawn with: distant rings use
/// fewer, near rings are capped.
pub open spec fn ring_segments_s(radius: int, segments: int) -> int {
    if radius > 1310720 {
        vstd::math::max(segments / 3, 30)
    } else if radius > 655360 {
        vstd::math::max(segments / 2, 50)
    } else {
        vstd::math::min(segments, 100)
    }
}

/// The phase angle of sample `i` out of `n`: an even fraction of a
/// full turn, in `[0, FX_TAU)`.
pub open spec fn ring_angle_s(i: int, n: int) -> int {
    (i * FX_TAU) / n
}

/// An even fraction of a full turn stays within the turn.
proof fn lemma_ring_angle_in_turn(i: int, n: int)
    requires
        0 <= i < n,
    ensures
        0 <= ring_angle_s(i, n) < FX_TAU,
{
    lemma_div_pos_is_pos(i * FX_TAU, n);
    assert(i * FX_TAU < n * (FX_TAU as int)) by (nonlinear_arith)
        requires
            0 <= i < n,
    ;
    lemma_multiply_divide_lt(i * FX_TAU, n, FX_TAU as int);
}

/// Evenly spaced points along an orbit ring of the given radius and
/// inclination: one point per segment, each exactly the orbit position
/// at its even fraction of a full turn.
pub fn create_orbit_lines(radius: i64, segments: u32, inclination: i64) -> (r: Vec<Vec3>)
    requires
        0 <= radius <= FX_WORLD,
        0 <= inclination < FX_TAU,
        1 <= segments <= 100000,
    ensures
        r@.len() == ring_segments_s(radius as int, segments as int),
        forall|i: int|
            0 <= i < r@.len() ==> (#[trigger] r@[i])@ == orbit_pos_s(
                (OrbitParams { radius, speed: 0, inclination, initial_angle: 0 }),
                ring_angle_s(i, ring_segments_s(radius as int, segments as int)),
            ),
{
    let orbit = OrbitParams { radius, speed: 0, inclination, initial_angle: 0 };
    let n: u32 = if radius > 1310720 {
        let t = segments / 3;
        if t > 30 {
            t
        } else {
            30
        }
    } else if radius > 655360 {
        let t = segments / 2;
        if t > 50 {
            t
        } else {
            50
        }
    } else {
        if segments < 100 {
            segments
        } else {
            100
        }
    };
    let mut out: Vec<Vec3> = Vec::new();
    let mut i: u32 = 0;
    while i < n
        invariant
            orbit == (OrbitParams { radius, speed: 0, inclination, initial_angle: 0 }),
            orbit.wf(),
            1 <= n <= 100000,
            n == ring_segments_s(radius as int, segments as int),
            0 <= i <= n,
            out@.len() == i,
            forall|j: int|
                0 <= j < i ==> (#[trigger] out@[j])@ == orbit_pos_s(
                    orbit,
                    ring_angle_s(j, n as int),
                ),
        decreases n - i,
    {
        proof {
            lemma_ring_angle_in_turn(i as int, n as int);
        }
        let angle: i64 = ((i as i64) * FX_TAU) / (n as i64);
        out.push(orbit.calculate_position(angle));
        i = i + 1;
    }
    out
}

/// A point on a sphere of the given radius at colatitude `phi` and
/// longitude `theta`.
pub open spec fn sphere_point_s(radius: int, phi: int, theta: int) -> (int, int, int) {
    (
        fx_mul_s(fx_mul_s(sin_s(phi), cos_s(theta)), radius),
        fx_mul_s(cos_s(phi), radius),
        fx_mul_s(fx_mul_s(sin_s(phi), sin_s(theta)), radius),
    )
}

/// The colatitude of grid row `i` out of `n`: an even fraction of a
/// half turn.
pub open spec fn grid_phi_s(i: int, n: int) -> int {
    (i * FX_PI) / n
}

/// The latitude-longitude point grid of an inward-facing sky sphere:
/// one row of longitudes per colatitude, pole to pole, every point
/// exactly on the sphere formula.
pub fn create_skybox_sphere(radius: i64, stacks: u32, slices: u32) -> (r: Vec<Vec<Vec3>>)
    requires
        0 <= radius <= FX_WORLD,
        1 <= stacks <= 1000,
        1 <= slices <= 1000,
    ensures
        r@.len() == stacks + 1,
        forall|s: int| 0 <= s < r@.len() ==> (#[trigger] r@[s])@.len() == slices,
        forall|s: int, t: int|
            #![trigger r@[s]@[t]]
            0 <= s <= stacks && 0 <= t < slices ==> (r@[s]@[t])@ == sphere_point_s(
                radius as int,
                grid_phi_s(s, stacks as int),
                ring_angle_s(t, slices as int),
            ),
{
    let mut out: Vec<Vec<Vec3>> = Vec::new();
    let mut s: u32 = 0;
    while s <= stacks
        invariant
            0 <= radius <= FX_WORLD,
            1 <= stacks <= 1000,
            1 <= slices <= 1000,
            0 <= s <= stacks + 1,
            out@.len() == s,
            forall|a: int| 0 <= a < s ==> (#[trigger] out@[a])@.len() == slices,
            forall|a: int, u: int|
                #![trigger out@[a]@[u]]
                0 <= a < s && 0 <= u < slices ==> (out@[a]@[u])@ == sphere_point_s(
                    radius as int,
                    grid_phi_s(a, stacks as int),
                    ring_angle_s(u, slices as int),
                ),
        decreases stacks + 1 - s,
    {
        proof {
            lemma_div_pos_is_pos(s as int * FX_PI, stacks as int);
            assert(s as int * FX_PI <= stacks as int * (FX_PI as int)) by (nonlinear_arith)
                requires
                    0 <= s as int <= stacks as int,
            ;
            lemma_multiply_divide_le(s as int * FX_PI, stacks as int, FX_PI as int);
        }
        let phi: i64 = ((s as i64) * FX_PI) / (stacks as i64);
        let sp = sin_fx(phi);
        let cp = cos_fx(phi);
        let mut row: Vec<Vec3> = Vec::new();
        let mut t: u32 = 0;
        while t < slices
            invariant
                0 <= radius <= FX_WORLD,
                1 <= stacks <= 1000,
                1 <= slices <= 1000,
                0 <= s <= stacks,
                0 <= t <= slices,
                sp == sin_s(grid_phi_s(s as int, stacks as int)),
                cp == cos_s(grid_phi_s(s as int, stacks as int)),
                -crate::fixed::FX_ONE <= sp <= crate::fixed::FX_ONE,
                -crate::fixed::FX_ONE <= cp <= crate::fixed::FX_ONE,
                row@.len() == t,
                forall|u: int|
                    0 <= u < t ==> (#[trigger] row@[u])@ == sphere_point_s(
                        radius as int,
                        grid_phi_s(s as int, stacks as int),
                        ring_angle_s(u, slices as int),
                    ),
            decreases slices - t,
        {
            proof {
                lemma_ring_angle_in_turn(t as int, slices as int);
            }
            let theta: i64 = ((t as i64) * FX_TAU) / (slices as i64);
            let ct = cos_fx(theta);
            let st = sin_fx(theta);
            proof {
                crate::fixed::lemma_fx_mul_bound(sp as int, ct as int, crate::fixed::FX_ONE as int);
                crate::fixed::lemma_fx_mul_bound(sp as int, st as int, crate::fixed::FX_ONE as int);
            }
            let x = fx_mul(fx_mul(sp, ct), radius);
            let y = fx_mul(cp, radius);
            let z = fx_mul(fx_mul(sp, st), radius);
            row.push(Vec3::new(x, y, z));
            t = t + 1;
        }
        out.push(row);
        s = s + 1;
    }
    out
}

} // verus!
