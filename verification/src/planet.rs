//! Orbiting bodies.
//!
//! A `Planet` spins about its own Y axis and runs along its orbit; it
//! exclusively owns its satellites, which orbit the parent's current
//! position. One tick advances the phase angle and the spin, recomputes
//! the world position, and recurses into the satellites; the whole
//! effect is the relation `tick_rel`, whose position clause is the
//! satellite invariant: a body's world position is its orbit-local
//! position plus its parent's current world position.

use vstd::prelude::*;

verus! {

use crate::fixed::{
    fx_mul, fx_mul_s, lemma_fx_mul_abs_mono, wrap_angle, wrap_angle_s, FX_SPEED_MAX, FX_TAU,
    FX_WORLD,
};
use vstd::std_specs::vec::group_vec_axioms;

broadcast use group_vec_axioms;
use crate::orbit::{orbit_pos_s, OrbitParams};
use crate::vec3::{v3_add, v3_in, Vec3};

/// The deepest satellite nesting the tick supports; world positions of
/// nested bodies stay bounded because each level adds at most one
/// world-sized offset.
pub const MAX_NESTING: u32 = 16;

/// A body with self-rotation and an orbital phase, owning its
/// satellites.
pub struct Planet {
    /// Display name; satellite lookup is by exact match on it.
    pub name: String,
    /// Opaque material tag for the rendering collaborator.
    pub shader_type: String,
    /// Uniform scale, positive.
    pub scale: i64,
    /// Euler rotation; the Y component spins each tick.
    pub rotation: Vec3,
    /// Spin rate about the Y axis, fixed-point radians per second.
    pub rotation_speed: i64,
    /// The orbit this body runs along.
    pub orbit: OrbitParams,
    /// Current phase angle, kept in [0, FX_TAU).
    pub orbit_angle: i64,
    /// Derived world position: the orbit position at the current phase,
    /// plus the parent's position for a satellite.
    pub position: Vec3,
    /// Exclusively owned child bodies.
    pub satellites: Vec<Planet>,
}

impl Planet {
    /// The satellite tree is at most `k` levels deep.
    pub open spec fn depth_le(self, k: int) -> bool
        decreases self,
    {
        k >= 1 && forall|i: int|
            0 <= i < self.satellites@.len() ==> (#[trigger] self.satellites@[i]).depth_le(k - 1)
    }

    /// A well-formed body: well-formed orbit, positive world-sized
    /// scale, a bounded spin rate, normalized phase, bounded rotation,
    /// well-formed satellites, and nesting within `MAX_NESTING`.
    pub open spec fn wf(self) -> bool
        decreases self,
    {
        &&& self.orbit.wf()
        &&& 0 < self.scale <= FX_WORLD
        &&& -FX_SPEED_MAX <= self.rotation_speed <= FX_SPEED_MAX
        &&& 0 <= self.orbit_angle < FX_TAU
        &&& v3_in(self.rotation@, FX_WORLD as int)
        &&& self.depth_le(MAX_NESTING as int)
        &&& forall|i: int| 0 <= i < self.satellites@.len() ==> (#[trigger] self.satellites@[i]).wf()
    }

    /// A body at the start of its orbit: the phase is the orbit's
    /// initial angle and the position is the orbit position there.
    pub fn new(
        name: &str,
        shader_type: &str,
        scale: i64,
        orbit: OrbitParams,
        rotation_speed: i64,
    ) -> (r: Planet)
        requires
            orbit.wf(),
            0 < scale <= FX_WORLD,
            -FX_SPEED_MAX <= rotation_speed <= FX_SPEED_MAX,
        ensures
            r.name@ == name@,
            r.shader_type@ == shader_type@,
            r.scale == scale,
            r.rotation@ == (0int, 0int, 0int),
            r.rotation_speed == rotation_speed,
            r.orbit == orbit,
            r.orbit_angle == orbit.initial_angle,
            r.position@ == orbit_pos_s(orbit, orbit.initial_angle as int),
            r.satellites@.len() == 0,
            r.wf(),
    {
        let initial_position = orbit.calculate_position(orbit.initial_angle);
        Planet {
            name: name.to_owned(),
            shader_type: shader_type.to_owned(),
            scale,
            rotation: Vec3::zeros(),
            rotation_speed,
            orbit,
            orbit_angle: orbit.initial_angle,
            position: initial_position,
            satellites: Vec::new(),
        }
    }

    /// The same body with one more satellite appended.
    pub fn with_satellite(self, satellite: Planet) -> (r: Planet)
        requires
            self.wf(),
            satellite.wf(),
            satellite.depth_le(MAX_NESTING as int - 1),
        ensures
            r.satellites@ == self.satellites@.push(satellite),
            r.name == self.name,
            r.shader_type == self.shader_type,
            r.scale == self.scale,
            r.rotation == self.rotation,
            r.rotation_speed == self.rotation_speed,
            r.orbit == self.orbit,
            r.orbit_angle == self.orbit_angle,
            r.position == self.position,
            r.wf(),
    {
        let mut r = self;
        r.satellites.push(satellite);
        r
    }

    /// Advances the body and its satellites by one tick, exactly as
    /// `tick_rel` with no parent offset.
    pub fn update(&mut self, delta_time: i64)
        requires
            old(self).wf(),
            0 <= delta_time <= FX_WORLD,
        ensures
            tick_rel(*old(self), *final(self), delta_time as int, (0int, 0int, 0int)),
            final(self).wf(),
    {
        let mut taken = placeholder();
        core::mem::swap(self, &mut taken);
        let done = tick_planet(taken, delta_time, Vec3::zeros(), Ghost(MAX_NESTING as int));
        *self = done;
    }
}

/// How one tick relates a body's state before and after, given the
/// parent's freshly computed world position: the phase advances by the
/// orbit's rate and wraps, the position is the orbit position at the
/// new phase plus the parent position, the spin advances and wraps, all
/// else is unchanged, and every satellite relates to its old self the
/// same way under this body's new position.
pub open spec fn tick_rel(pre: Planet, post: Planet, dt: int, parent_pos: (int, int, int)) -> bool
    decreases pre,
{
    &&& post.name == pre.name
    &&& post.shader_type == pre.shader_type
    &&& post.scale == pre.scale
    &&& post.rotation_speed == pre.rotation_speed
    &&& post.orbit == pre.orbit
    &&& post.orbit_angle == wrap_angle_s(pre.orbit_angle + fx_mul_s(
        pre.orbit.speed as int,
        dt,
    ))
    &&& post.position@ == v3_add(orbit_pos_s(pre.orbit, post.orbit_angle as int), parent_pos)
    &&& post.rotation@ == (
        pre.rotation@.0,
        wrap_angle_s(pre.rotation@.1 + fx_mul_s(pre.rotation_speed as int, dt)),
        pre.rotation@.2,
    )
    &&& post.satellites@.len() == pre.satellites@.len()
    &&& forall|i: int|
        0 <= i < pre.satellites@.len() ==> tick_rel(
            #[trigger] pre.satellites@[i],
            post.satellites@[i],
            dt,
            post.position@,
        )
}

/// An inert body used only to take a value out of a `&mut` slot.
fn placeholder() -> (r: Planet)
{
    Planet {
        name: String::new(),
        shader_type: String::new(),
        scale: 1,
        rotation: Vec3::zeros(),
        rotation_speed: 0,
        orbit: OrbitParams::default(),
        orbit_angle: 0,
        position: Vec3::zeros(),
        satellites: Vec::new(),
    }
}

/// One tick of a body under a parent offset, recursing into the
/// satellites with this body's new position as their offset.
#[verifier::loop_isolation(false)]
fn tick_planet(p: Planet, dt: i64, parent_pos: Vec3, Ghost(k): Ghost<int>) -> (r: Planet)
    requires
        p.wf(),
        p.depth_le(k),
        1 <= k <= MAX_NESTING as int,
        0 <= dt <= FX_WORLD,
        v3_in(parent_pos@, (1 + MAX_NESTING as int - k) * FX_WORLD as int),
    ensures
        tick_rel(p, r, dt as int, parent_pos@),
        r.wf(),
    decreases p,
{
    let ghost pre = p;
    let Planet {
        name,
        shader_type,
        scale,
        rotation,
        rotation_speed,
        orbit,
        orbit_angle,
        position: _,
        satellites,
    } = p;
    proof {
        lemma_fx_mul_abs_mono(orbit.speed as int, dt as int, FX_SPEED_MAX as int, FX_WORLD as int);
        lemma_fx_mul_abs_mono(
            rotation_speed as int,
            dt as int,
            FX_SPEED_MAX as int,
            FX_WORLD as int,
        );
    }
    let new_angle = wrap_angle(orbit_angle + fx_mul(orbit.speed, dt));
    let new_position = orbit.calculate_position(new_angle).add(&parent_pos);
    let new_rot_y = wrap_angle(rotation.y + fx_mul(rotation_speed, dt));
    let new_rotation = Vec3::new(rotation.x, new_rot_y, rotation.z);
    let mut sats = satellites;
    let mut done: Vec<Planet> = Vec::new();
    proof {
        assert(v3_in(new_position@, (2 + MAX_NESTING as int - k) * FX_WORLD as int));
    }
    while sats.len() > 0
        invariant
            pre.wf(),
            pre.depth_le(k),
            1 <= k <= MAX_NESTING as int,
            0 <= dt <= FX_WORLD,
            v3_in(new_position@, (2 + MAX_NESTING as int - k) * FX_WORLD as int),
            done@.len() + sats@.len() == pre.satellites@.len(),
            forall|j: int| 0 <= j < sats@.len() ==> sats@[j] == pre.satellites@[done@.len() + j],
            forall|j: int|
                0 <= j < done@.len() ==> tick_rel(
                    #[trigger] pre.satellites@[j],
                    done@[j],
                    dt as int,
                    new_position@,
                ) && done@[j].wf(),
        decreases sats@.len(),
    {
        let s = sats.remove(0);
        proof {
            assert(s == pre.satellites@[done@.len() as int]);
            assert(s.wf());
            assert(s.depth_le(k - 1));
            assert(k - 1 >= 1);
            assert(decreases_to!(pre => pre.satellites));
            assert(decreases_to!(pre.satellites => s)) by {
                assert(decreases_to!(pre.satellites => pre.satellites[done@.len() as int]));
            }
            assert(decreases_to!(pre => s));
        }
        let s2 = tick_planet(s, dt, new_position, Ghost(k - 1));
        done.push(s2);
    }
    let r = Planet {
        name,
        shader_type,
        scale,
        rotation: new_rotation,
        rotation_speed,
        orbit,
        orbit_angle: new_angle,
        position: new_position,
        satellites: done,
    };
    proof {
        assert(forall|i: int|
            0 <= i < pre.satellites@.len() ==> tick_rel(
                #[trigger] pre.satellites@[i],
                r.satellites@[i],
                dt as int,
                r.position@,
            ));
        assert(r.orbit.wf());
        assert(0 < r.scale <= FX_WORLD);
        assert(-FX_SPEED_MAX <= r.rotation_speed <= FX_SPEED_MAX);
        assert(0 <= r.orbit_angle < FX_TAU);
        assert(v3_in(r.rotation@, FX_WORLD as int));
        assert forall|i: int| 0 <= i < r.satellites@.len() implies (#[trigger] r.satellites@[i])
            .wf() by {
            assert(tick_rel(pre.satellites@[i], done@[i], dt as int, new_position@)
                && done@[i].wf());
        }
        assert(r.depth_le(k)) by {
            assert(forall|i: int|
                0 <= i < r.satellites@.len() ==> (#[trigger] r.satellites@[i]).depth_le(k - 1))
                by {
                assert forall|i: int| 0 <= i < r.satellites@.len() implies (
                #[trigger] r.satellites@[i]).depth_le(k - 1) by {
                    lemma_tick_rel_depth(pre.satellites@[i], r.satellites@[i], dt as int,
                    r.position@, k - 1);
                }
            }
        }
        lemma_depth_le_mono(r, k);
    }
    r
}

/// One tick preserves the shape of the satellite tree, so it preserves
/// any depth bound.
proof fn lemma_tick_rel_depth(pre: Planet, post: Planet, dt: int, pp: (int, int, int), k: int)
    requires
        tick_rel(pre, post, dt, pp),
        pre.depth_le(k),
    ensures
        post.depth_le(k),
    decreases pre,
{
    assert forall|i: int| 0 <= i < post.satellites@.len() implies (#[trigger] post.satellites@[i])
        .depth_le(k - 1) by {
        lemma_tick_rel_depth(pre.satellites@[i], post.satellites@[i], dt, post.position@, k - 1);
    }
}

/// A satellite's world position always equals its own orbit-local
/// position plus its parent's current world position: after any tick,
/// each satellite sits at its orbit position for its new phase, offset
/// by the parent's freshly computed position.
pub proof fn lemma_satellite_positions(
    pre: Planet,
    post: Planet,
    dt: int,
    parent_pos: (int, int, int),
)
    requires
        tick_rel(pre, post, dt, parent_pos),
    ensures
        forall|i: int|
            0 <= i < pre.satellites@.len() ==> (#[trigger] post.satellites@[i]).position@
                == v3_add(
                orbit_pos_s(pre.satellites@[i].orbit, post.satellites@[i].orbit_angle as int),
                post.position@,
            ),
{
    assert forall|i: int| 0 <= i < pre.satellites@.len() implies (
    #[trigger] post.satellites@[i]).position@ == v3_add(
        orbit_pos_s(pre.satellites@[i].orbit, post.satellites@[i].orbit_angle as int),
        post.position@,
    ) by {
        assert(tick_rel(pre.satellites@[i], post.satellites@[i], dt, post.position@));
    }
}

/// Repeated advances keep every phase angle within one turn: after any
/// tick, of any length, the new orbit phase lies in `[0, FX_TAU)`.
pub proof fn lemma_tick_keeps_angle_normalized(
    pre: Planet,
    post: Planet,
    dt: int,
    parent_pos: (int, int, int),
)
    requires
        tick_rel(pre, post, dt, parent_pos),
    ensures
        0 <= post.orbit_angle < FX_TAU,
{
    crate::fixed::lemma_wrap_angle_s_bounds(
        pre.orbit_angle + fx_mul_s(pre.orbit.speed as int, dt),
    );
}

/// A shallower bound on the satellite tree is also a deeper one.
proof fn lemma_depth_le_mono(p: Planet, k: int)
    requires
        p.depth_le(k),
        k <= MAX_NESTING as int,
    ensures
        p.depth_le(MAX_NESTING as int),
    decreases p,
{
    assert forall|i: int| 0 <= i < p.satellites@.len() implies (#[trigger] p.satellites@[i])
        .depth_le(MAX_NESTING as int - 1) by {
        lemma_depth_le_mono_gen(p.satellites@[i], k - 1, MAX_NESTING as int - 1);
    }
}

/// Depth bounds are monotone.
proof fn lemma_depth_le_mono_gen(p: Planet, k1: int, k2: int)
    requires
        p.depth_le(k1),
        k1 <= k2,
    ensures
        p.depth_le(k2),
    decreases p,
{
    assert forall|i: int| 0 <= i < p.satellites@.len() implies (#[trigger] p.satellites@[i])
        .depth_le(k2 - 1) by {
        lemma_depth_le_mono_gen(p.satellites@[i], k1 - 1, k2 - 1);
    }
}

} // verus!
