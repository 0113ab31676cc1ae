//! The cockpit-mounted spacecraft.
//!
//! The ship rides at a fixed camera-local offset, so its world
//! transform is a pure function of the camera: its position is the eye
//! plus the offset expressed in the camera's frame, and its rotation
//! points it along the view direction. The triangle model it is drawn
//! with belongs to the rendering collaborator.

use vstd::prelude::*;

verus! {

use crate::camera::{cam_forward_s, cam_right_s, Camera};
use crate::fixed::{fx_mul_s, isqrt, sqrt_floor, FX_ONE, FX_WORLD};
use crate::trig::{atan2_fx, atan2_s};
use crate::vec3::{v3_add, v3_cross, v3_in, v3_scale, v3_sub, v3_unit, Vec3};

/// The ship's state: a camera-relative offset, a draw scale, and a
/// spare rotation for future animation.
pub struct Spaceship {
    /// Where the ship sits relative to the camera, in its frame.
    pub offset: Vec3,
    /// Uniform draw scale.
    pub scale: i64,
    /// Extra rotation; currently inert.
    pub rotation: Vec3,
}

/// The ship's world position: the eye plus the camera-frame offset,
/// with the derived up renormalized.
pub open spec fn ship_position_s(
    eye: (int, int, int),
    center: (int, int, int),
    up: (int, int, int),
    offset: (int, int, int),
) -> (int, int, int) {
    let f = cam_forward_s(eye, center);
    let r = cam_right_s(eye, center, up);
    let u2 = v3_unit(v3_cross(r, f));
    v3_add(
        v3_add(v3_add(eye, v3_scale(r, offset.0)), v3_scale(u2, offset.1)),
        v3_scale(f, -offset.2),
    )
}

/// The arcsine of a fixed-point ratio, through the arctangent of the
/// ratio against its complement's root.
pub open spec fn asin_s(t: int) -> int {
    atan2_s(t, sqrt_floor(FX_ONE * FX_ONE - t * t))
}

/// The ship's rotation: pitch down by the arcsine of the view
/// direction's height, yaw to the view direction's XZ heading.
pub open spec fn ship_rotation_s(eye: (int, int, int), center: (int, int, int)) -> (int, int, int) {
    let f = cam_forward_s(eye, center);
    (-asin_s(f.1), atan2_s(f.0, f.2), 0)
}

impl Spaceship {
    /// A ship mounted below and ahead of the camera.
    pub fn new() -> (r: Spaceship)
        ensures
            r.offset@ == (0int, -52429int, -163840int),
            r.scale == 5243,
            r.rotation@ == (0int, 0int, 0int),
    {
        Spaceship { offset: Vec3::new(0, -52429, -163840), scale: 5243, rotation: Vec3::zeros() }
    }

    /// The ship's world position for this frame, exactly as
    /// `ship_position_s` over the camera's state.
    pub fn get_position(&self, camera: &Camera) -> (r: Vec3)
        requires
            v3_in(camera.eye@, 4 * FX_WORLD as int),
            v3_in(camera.center@, 4 * FX_WORLD as int),
            v3_in(camera.up@, FX_ONE as int),
            v3_in(self.offset@, FX_WORLD as int),
            camera.center@ != camera.eye@,
            v3_cross(cam_forward_s(camera.eye@, camera.center@), camera.up@) != (0int, 0int, 0int),
            v3_cross(
                cam_right_s(camera.eye@, camera.center@, camera.up@),
                cam_forward_s(camera.eye@, camera.center@),
            ) != (0int, 0int, 0int),
        ensures
            r@ == ship_position_s(camera.eye@, camera.center@, camera.up@, self.offset@),
            v3_in(v3_sub(r@, camera.eye@), 3 * FX_WORLD as int),
    {
        let forward = camera.center.sub(&camera.eye).unit();
        proof {
            crate::vec3::lemma_cross_in(forward@, camera.up@, FX_ONE as int, FX_ONE as int);
        }
        let right = forward.cross(&camera.up).unit();
        proof {
            crate::vec3::lemma_cross_in(right@, forward@, FX_ONE as int, FX_ONE as int);
        }
        let up2 = right.cross(&forward).unit();
        proof {
            lemma_offset_scaled(right@, self.offset@.0);
            lemma_offset_scaled(up2@, self.offset@.1);
            lemma_offset_scaled(forward@, -self.offset@.2);
        }
        camera.eye.add(&right.scale(self.offset.x)).add(&up2.scale(self.offset.y)).add(
            &forward.scale(-self.offset.z),
        )
    }

    /// The ship's rotation for this frame, exactly as
    /// `ship_rotation_s` over the camera's state.
    pub fn get_rotation(&self, camera: &Camera) -> (r: Vec3)
        requires
            v3_in(camera.eye@, 4 * FX_WORLD as int),
            v3_in(camera.center@, 4 * FX_WORLD as int),
            camera.center@ != camera.eye@,
        ensures
            r@ == ship_rotation_s(camera.eye@, camera.center@),
    {
        let forward = camera.center.sub(&camera.eye).unit();
        let yaw = atan2_fx(forward.x, forward.z);
        let t = forward.y;
        proof {
            assert((t as int) * (t as int) <= FX_ONE * FX_ONE) by (nonlinear_arith)
                requires
                    -FX_ONE <= t as int <= FX_ONE as int,
            ;
            assert((t as int) * (t as int) >= 0) by (nonlinear_arith);
        }
        let comp = FX_ONE * FX_ONE - t * t;
        let root = isqrt(comp as u128);
        proof {
            if root > 0x1_0000u64 {
                assert((root as int) * (root as int) > 0x1_0000_0000) by (nonlinear_arith)
                    requires
                        root > 0x1_0000u64,
                ;
            }
        }
        let pitch = atan2_fx(t, root as i64);
        Vec3::new(-pitch, yaw, 0)
    }

    /// Advances the ship; it currently has no motion of its own.
    pub fn update(&mut self, _delta_time: i64)
        ensures
            *final(self) == *old(self),
    {
    }
}

/// Scaling a unit direction by a world-sized offset component stays
/// world-sized.
proof fn lemma_offset_scaled(u: (int, int, int), t: int)
    requires
        v3_in(u, FX_ONE as int),
        -FX_WORLD <= t <= FX_WORLD,
    ensures
        v3_in(v3_scale(u, t), FX_WORLD as int),
{
    crate::fixed::lemma_fx_mul_bound(t, u.0, FX_WORLD as int);
    crate::fixed::lemma_fx_mul_bound(t, u.1, FX_WORLD as int);
    crate::fixed::lemma_fx_mul_bound(t, u.2, FX_WORLD as int);
    assert(fx_mul_s(u.0, t) == fx_mul_s(t, u.0));
    assert(fx_mul_s(u.1, t) == fx_mul_s(t, u.1));
    assert(fx_mul_s(u.2, t) == fx_mul_s(t, u.2));
}

} // verus!
