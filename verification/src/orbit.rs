//! Circular, possibly inclined orbits.
//!
//! `OrbitParams` maps a phase angle to a world-space offset: a circle of
//! the given radius in the XZ plane, tilted about the X axis by the
//! inclination. A zero radius and speed describe a body that stays at
//! its parent's origin, which is how the star is parameterized.

use vstd::prelude::*;

verus! {

use crate::fixed::{fx_mul, fx_mul_s, FX_SPEED_MAX, FX_TAU, FX_WORLD};
use crate::trig::{cos_fx, cos_s, lemma_cos_bound, lemma_sin_bound, lemma_sin_zero, sin_fx, sin_s};
use crate::vec3::{v3_in, Vec3};
use crate::fixed::lemma_fx_mul_bound;

/// The shape and motion of one circular orbit. Immutable after
/// construction.
#[derive(Clone, Copy, PartialEq, Eq, Structural, Debug)]
pub struct OrbitParams {
    /// Distance from the parent, measured in the untilted plane.
    pub radius: i64,
    /// Angular rate, fixed-point radians per second.
    pub speed: i64,
    /// Tilt of the orbital plane about the X axis.
    pub inclination: i64,
    /// Phase offset at creation.
    pub initial_angle: i64,
}

impl OrbitParams {
    /// Well-formed orbit parameters: a world-sized non-negative radius,
    /// a bounded rate in either direction, and normalized angles.
    pub open spec fn wf(self) -> bool {
        &&& 0 <= self.radius <= FX_WORLD
        &&& -FX_SPEED_MAX <= self.speed <= FX_SPEED_MAX
        &&& 0 <= self.inclination < FX_TAU
        &&& 0 <= self.initial_angle < FX_TAU
    }

    /// A flat orbit of the given radius and angular rate.
    pub fn new(radius: i64, speed: i64) -> (r: OrbitParams)
        requires
            0 <= radius <= FX_WORLD,
            -FX_SPEED_MAX <= speed <= FX_SPEED_MAX,
        ensures
            r == (OrbitParams { radius, speed, inclination: 0, initial_angle: 0 }),
            r.wf(),
    {
        OrbitParams { radius, speed, inclination: 0, initial_angle: 0 }
    }

    /// The same orbit, tilted by `inclination`.
    pub fn with_inclination(self, inclination: i64) -> (r: OrbitParams)
        requires
            self.wf(),
            0 <= inclination < FX_TAU,
        ensures
            r == (OrbitParams { inclination, ..self }),
            r.wf(),
    {
        OrbitParams { inclination, ..self }
    }

    /// The same orbit, started at the given phase.
    pub fn with_initial_angle(self, angle: i64) -> (r: OrbitParams)
        requires
            self.wf(),
            0 <= angle < FX_TAU,
        ensures
            r == (OrbitParams { initial_angle: angle, ..self }),
            r.wf(),
    {
        OrbitParams { initial_angle: angle, ..self }
    }

    /// The position on the orbit at a phase angle, exactly as
    /// `orbit_pos_s`.
    pub fn calculate_position(&self, angle: i64) -> (r: Vec3)
        requires
            self.wf(),
            0 <= angle < FX_TAU,
        ensures
            r@ == orbit_pos_s(*self, angle as int),
            v3_in(r@, self.radius as int),
            v3_in(r@, FX_WORLD as int),
    {
        proof {
            lemma_orbit_pos_in_radius(*self, angle as int);
        }
        let c = cos_fx(angle);
        let s = sin_fx(angle);
        let x = fx_mul(c, self.radius);
        let raw_z = fx_mul(s, self.radius);
        proof {
            assert(fx_mul_s(s as int, self.radius as int) == fx_mul_s(
                self.radius as int,
                s as int,
            ));
            lemma_fx_mul_bound(self.radius as int, s as int, self.radius as int);
        }
        let si = sin_fx(self.inclination);
        let ci = cos_fx(self.inclination);
        let y = fx_mul(raw_z, si);
        let z = fx_mul(raw_z, ci);
        Vec3 { x, y, z }
    }
}

impl Default for OrbitParams {
    /// The orbit of a fixed body: zero radius, zero rate.
    fn default() -> (r: OrbitParams)
        ensures
            r == (OrbitParams { radius: 0, speed: 0, inclination: 0, initial_angle: 0 }),
            r.wf(),
    {
        OrbitParams { radius: 0, speed: 0, inclination: 0, initial_angle: 0 }
    }
}

/// Where an orbit places a body at a phase angle: a circle of the
/// orbit's radius, tilted about the X axis by the inclination.
pub open spec fn orbit_pos_s(o: OrbitParams, angle: int) -> (int, int, int) {
    let raw_z = fx_mul_s(sin_s(angle), o.radius as int);
    (
        fx_mul_s(cos_s(angle), o.radius as int),
        fx_mul_s(raw_z, sin_s(o.inclination as int)),
        fx_mul_s(raw_z, cos_s(o.inclination as int)),
    )
}

/// Every component of an orbit position is bounded by the orbit's
/// radius.
pub proof fn lemma_orbit_pos_in_radius(o: OrbitParams, angle: int)
    requires
        o.wf(),
    ensures
        v3_in(orbit_pos_s(o, angle), o.radius as int),
        v3_in(orbit_pos_s(o, angle), FX_WORLD as int),
{
    let r = o.radius as int;
    lemma_sin_bound(angle);
    lemma_cos_bound(angle);
    lemma_sin_bound(o.inclination as int);
    lemma_cos_bound(o.inclination as int);
    assert(fx_mul_s(cos_s(angle), r) == fx_mul_s(r, cos_s(angle)));
    assert(fx_mul_s(sin_s(angle), r) == fx_mul_s(r, sin_s(angle)));
    lemma_fx_mul_bound(r, cos_s(angle), r);
    lemma_fx_mul_bound(r, sin_s(angle), r);
    let raw_z = fx_mul_s(sin_s(angle), r);
    lemma_fx_mul_bound(raw_z, sin_s(o.inclination as int), r);
    lemma_fx_mul_bound(raw_z, cos_s(o.inclination as int), r);
}

/// A flat orbit stays in the XZ plane: with zero inclination the Y
/// component of the orbit position is exactly zero, at every phase
/// angle.
pub proof fn lemma_flat_orbit_in_plane(o: OrbitParams, angle: int)
    requires
        o.wf(),
        o.inclination == 0,
    ensures
        orbit_pos_s(o, angle).1 == 0,
{
    lemma_sin_zero();
    let raw_z = fx_mul_s(sin_s(angle), o.radius as int);
    assert(raw_z * 0 == 0);
    assert(fx_mul_s(raw_z, 0) == 0);
}

} // verus!
