//! The free-flying look-at camera.
//!
//! The camera holds an eye point, a look-at center and an up reference.
//! Every navigation operation's whole effect on that state is stated by
//! a spec mirror over the fixed-point vector algebra: rigid fly-through
//! moves, yaw and pitch looks with a gimbal guard, spherical orbiting
//! with a hard pitch clamp, zooming, re-targeting, and one tick of
//! smooth follow.
//!
//! The view and projection matrices the renderer consumes are
//! floating-point and are assembled outside this crate from the three
//! vectors held here.

use vstd::prelude::*;

verus! {

use crate::fixed::{
    clamp_s, fx_clamp, fx_mul, fx_mul_s, iabs, lemma_fx_mul_abs_mono, lemma_fx_mul_bound,
    sqrt_floor, wrap_angle, wrap_angle_s, FX_ONE, FX_WORLD,
};
use crate::trig::{atan2_fx, atan2_s, cos_fx, cos_s, sin_fx, sin_s};
use crate::vec3::{
    v3_add, v3_cross, v3_in, v3_lerp, v3_neg, v3_norm, v3_norm_sq, v3_scale, v3_sub, v3_unit, Vec3,
};

/// The pitch clamp of the orbit operation: pi/2 minus a tenth of a
/// radian, in fixed point.
pub const PITCH_LIMIT: i64 = 96390;

/// The gimbal guard of the pitch look: an update is rejected when the
/// new normalized forward direction is more vertical than this
/// (0.99 in fixed point).
pub const GIMBAL_LIMIT: i64 = 64881;

/// Fraction of the warp distance added as height above the target
/// (0.3 in fixed point).
pub const WARP_RISE: i64 = 19661;

/// The view state: where the camera stands, what it looks at, and
/// which way is up.
pub struct Camera {
    /// Where the camera stands.
    pub eye: Vec3,
    /// The look-at target.
    pub center: Vec3,
    /// Orientation reference, roughly unit length; re-orthogonalized
    /// whenever a basis is derived.
    pub up: Vec3,
    /// Set by every mutating operation; downstream caches may clear it.
    pub has_changed: bool,
}

/// The camera's normalized view direction.
pub open spec fn cam_forward_s(eye: (int, int, int), center: (int, int, int)) -> (int, int, int) {
    v3_unit(v3_sub(center, eye))
}

/// The camera's right direction: the normalized cross product of the
/// forward direction with the up reference.
pub open spec fn cam_right_s(
    eye: (int, int, int),
    center: (int, int, int),
    up: (int, int, int),
) -> (int, int, int) {
    v3_unit(v3_cross(cam_forward_s(eye, center), up))
}

/// A camera-local offset re-expressed in world coordinates:
/// `right * x + derived_up * y + (-forward) * z`, renormalized.
pub open spec fn basis_change_s(
    eye: (int, int, int),
    center: (int, int, int),
    up: (int, int, int),
    v: (int, int, int),
) -> (int, int, int) {
    let f = cam_forward_s(eye, center);
    let r = cam_right_s(eye, center, up);
    let u2 = v3_cross(r, f);
    v3_unit(v3_add(v3_add(v3_scale(r, v.0), v3_scale(u2, v.1)), v3_scale(v3_neg(f), v.2)))
}

/// The pitch of the offset from the center to the eye: the angle of
/// the negated height against the radial distance in the XZ plane.
pub open spec fn orbit_pitch_s(eye: (int, int, int), center: (int, int, int)) -> int {
    let rv = v3_sub(eye, center);
    atan2_s(-rv.1, sqrt_floor(rv.0 * rv.0 + rv.2 * rv.2))
}

/// The yaw of the offset from the center to the eye in the XZ plane.
pub open spec fn orbit_yaw_s(eye: (int, int, int), center: (int, int, int)) -> int {
    let rv = v3_sub(eye, center);
    atan2_s(rv.2, rv.0)
}

/// Where orbiting moves the eye: the spherical offset of the same
/// radius, at the yaw shifted by `dy` and the pitch shifted by `dp`
/// and clamped away from the poles.
pub open spec fn orbit_eye_s(
    eye: (int, int, int),
    center: (int, int, int),
    dy: int,
    dp: int,
) -> (int, int, int) {
    let rv = v3_sub(eye, center);
    let radius = v3_norm(rv);
    let ny = wrap_angle_s(orbit_yaw_s(eye, center) + dy);
    let np = wrap_angle_s(clamp_s(orbit_pitch_s(eye, center) + dp, -PITCH_LIMIT as int,
    PITCH_LIMIT as int));
    let rc = fx_mul_s(radius, cos_s(np));
    (
        center.0 + fx_mul_s(rc, cos_s(ny)),
        center.1 - fx_mul_s(radius, sin_s(np)),
        center.2 + fx_mul_s(rc, sin_s(ny)),
    )
}

/// The forward vector rotated about the world Y axis by `angle`.
pub open spec fn yaw_rotated_s(f: (int, int, int), angle: int) -> (int, int, int) {
    let wa = wrap_angle_s(angle);
    (
        fx_mul_s(f.0, cos_s(wa)) - fx_mul_s(f.2, sin_s(wa)),
        f.1,
        fx_mul_s(f.0, sin_s(wa)) + fx_mul_s(f.2, cos_s(wa)),
    )
}

/// The forward vector blended toward the up reference by `angle`: the
/// forward scaled by the cosine, plus the up scaled by the sine times
/// the forward's length.
pub open spec fn pitch_blended_s(
    eye: (int, int, int),
    center: (int, int, int),
    up: (int, int, int),
    angle: int,
) -> (int, int, int) {
    let f = v3_sub(center, eye);
    let wa = wrap_angle_s(angle);
    v3_add(v3_scale(f, cos_s(wa)), v3_scale(up, fx_mul_s(sin_s(wa), v3_norm(f))))
}

/// Whether the pitch look accepts the blended forward vector: its
/// normalized Y component stays below the gimbal guard.
pub open spec fn pitch_allowed_s(
    eye: (int, int, int),
    center: (int, int, int),
    up: (int, int, int),
    angle: int,
) -> bool {
    iabs(v3_unit(pitch_blended_s(eye, center, up, angle)).1) < GIMBAL_LIMIT
}

impl Camera {
    /// A camera standing at `eye`, looking at `center`, with `up` as
    /// its orientation reference.
    pub fn new(eye: Vec3, center: Vec3, up: Vec3) -> (r: Camera)
        ensures
            r.eye == eye,
            r.center == center,
            r.up == up,
            r.has_changed,
    {
        Camera { eye, center, up, has_changed: true }
    }

    /// Re-expresses a camera-local offset in world coordinates,
    /// exactly as `basis_change_s`.
    pub fn basis_change(&self, vector: &Vec3) -> (r: Vec3)
        requires
            v3_in(self.eye@, 4 * FX_WORLD as int),
            v3_in(self.center@, 4 * FX_WORLD as int),
            v3_in(self.up@, FX_ONE as int),
            v3_in(vector@, 4 * FX_WORLD as int),
            self.center@ != self.eye@,
            v3_cross(cam_forward_s(self.eye@, self.center@), self.up@) != (0int, 0int, 0int),
            ({
                let f = cam_forward_s(self.eye@, self.center@);
                let r = cam_right_s(self.eye@, self.center@, self.up@);
                let u2 = v3_cross(r, f);
                v3_add(
                    v3_add(v3_scale(r, vector@.0), v3_scale(u2, vector@.1)),
                    v3_scale(v3_neg(f), vector@.2),
                ) != (0int, 0int, 0int)
            }),
        ensures
            r@ == basis_change_s(self.eye@, self.center@, self.up@, vector@),
            v3_in(r@, FX_ONE as int),
    {
        let forward = self.center.sub(&self.eye).unit();
        proof {
            crate::vec3::lemma_cross_in(forward@, self.up@, FX_ONE as int, FX_ONE as int);
        }
        let right = forward.cross(&self.up).unit();
        let up2 = right.cross(&forward);
        proof {
            crate::vec3::lemma_cross_in(right@, forward@, FX_ONE as int, FX_ONE as int);
            lemma_scaled_in(right@, vector@.0, FX_ONE as int, 4 * FX_WORLD as int);
            lemma_scaled_in(up2@, vector@.1, 2 * FX_ONE as int, 4 * FX_WORLD as int);
            lemma_scaled_in(v3_neg(forward@), vector@.2, FX_ONE as int, 4 * FX_WORLD as int);
        }
        let rotated = right.scale(vector.x).add(&up2.scale(vector.y)).add(
            &forward.neg().scale(vector.z),
        );
        rotated.unit()
    }

    /// Whether the strafing operations are defined: true iff the
    /// forward direction crossed with the up reference is non-zero,
    /// exactly the condition `move_right` and `move_left` require.
    pub fn has_right_axis(&self) -> (r: bool)
        requires
            v3_in(self.eye@, 4 * FX_WORLD as int),
            v3_in(self.center@, 4 * FX_WORLD as int),
            v3_in(self.up@, FX_ONE as int),
            self.center@ != self.eye@,
        ensures
            r == (v3_cross(cam_forward_s(self.eye@, self.center@), self.up@) != (
                0int,
                0int,
                0int,
            )),
    {
        let forward = self.center.sub(&self.eye).unit();
        let c = forward.cross(&self.up);
        !(c.x == 0 && c.y == 0 && c.z == 0)
    }

    /// Whether the whole camera frame is non-degenerate: the right
    /// axis exists and the derived up (right crossed back with
    /// forward) is non-zero too — the conditions the camera-frame
    /// placements require.
    pub fn has_full_frame(&self) -> (r: bool)
        requires
            v3_in(self.eye@, 4 * FX_WORLD as int),
            v3_in(self.center@, 4 * FX_WORLD as int),
            v3_in(self.up@, FX_ONE as int),
            self.center@ != self.eye@,
        ensures
            r == (v3_cross(cam_forward_s(self.eye@, self.center@), self.up@) != (0int, 0int, 0int)
                && v3_cross(
                cam_right_s(self.eye@, self.center@, self.up@),
                cam_forward_s(self.eye@, self.center@),
            ) != (0int, 0int, 0int)),
    {
        let forward = self.center.sub(&self.eye).unit();
        proof {
            crate::vec3::lemma_cross_in(forward@, self.up@, FX_ONE as int, FX_ONE as int);
        }
        let c1 = forward.cross(&self.up);
        if c1.x == 0 && c1.y == 0 && c1.z == 0 {
            return false;
        }
        let right = c1.unit();
        let c2 = right.cross(&forward);
        !(c2.x == 0 && c2.y == 0 && c2.z == 0)
    }

    /// Whether turning about the world Y axis by `angle` is defined:
    /// true iff the rotated forward vector is non-zero, exactly the
    /// condition `rotate_yaw` requires.
    pub fn can_rotate_yaw(&self, angle: i64) -> (r: bool)
        requires
            v3_in(self.eye@, 4 * FX_WORLD as int),
            v3_in(self.center@, 4 * FX_WORLD as int),
            -FX_WORLD <= angle <= FX_WORLD,
        ensures
            r == (yaw_rotated_s(v3_sub(self.center@, self.eye@), angle as int) != (
                0int,
                0int,
                0int,
            )),
    {
        let forward = self.center.sub(&self.eye);
        let wa = wrap_angle(angle);
        let c = cos_fx(wa);
        let s = sin_fx(wa);
        proof {
            lemma_fx_mul_bound(forward@.0, c as int, 8 * FX_WORLD as int);
            lemma_fx_mul_bound(forward@.0, s as int, 8 * FX_WORLD as int);
            lemma_fx_mul_bound(forward@.2, c as int, 8 * FX_WORLD as int);
            lemma_fx_mul_bound(forward@.2, s as int, 8 * FX_WORLD as int);
        }
        let nx = fx_mul(forward.x, c) - fx_mul(forward.z, s);
        let nz = fx_mul(forward.x, s) + fx_mul(forward.z, c);
        !(nx == 0 && forward.y == 0 && nz == 0)
    }

    /// Whether tilting toward the up reference by `angle` is defined:
    /// true iff the blended forward vector is non-zero, exactly the
    /// condition `rotate_pitch` requires.
    pub fn can_rotate_pitch(&self, angle: i64) -> (r: bool)
        requires
            v3_in(self.eye@, 4 * FX_WORLD as int),
            v3_in(self.center@, 4 * FX_WORLD as int),
            v3_in(self.up@, FX_ONE as int),
            -FX_WORLD <= angle <= FX_WORLD,
        ensures
            r == (pitch_blended_s(self.eye@, self.center@, self.up@, angle as int) != (
                0int,
                0int,
                0int,
            )),
    {
        let forward = self.center.sub(&self.eye);
        let distance = forward.norm();
        let wa = wrap_angle(angle);
        let c = cos_fx(wa);
        let s = sin_fx(wa);
        let sd = fx_mul(s, distance);
        proof {
            assert(fx_mul_s(s as int, distance as int) == fx_mul_s(distance as int, s as int));
            lemma_fx_mul_bound(distance as int, s as int, 16 * FX_WORLD as int);
            lemma_fx_mul_bound(forward@.0, c as int, 8 * FX_WORLD as int);
            lemma_fx_mul_bound(forward@.1, c as int, 8 * FX_WORLD as int);
            lemma_fx_mul_bound(forward@.2, c as int, 8 * FX_WORLD as int);
            lemma_fx_mul_abs_mono(self.up@.0, sd as int, FX_ONE as int, 16 * FX_WORLD as int);
            lemma_fx_mul_abs_mono(self.up@.1, sd as int, FX_ONE as int, 16 * FX_WORLD as int);
            lemma_fx_mul_abs_mono(self.up@.2, sd as int, FX_ONE as int, 16 * FX_WORLD as int);
        }
        let nf = forward.scale(c).add(&self.up.scale(sd));
        !(nf.x == 0 && nf.y == 0 && nf.z == 0)
    }

    /// Orbits the eye around the center, exactly as `orbit_eye_s`: the
    /// yaw is shifted by `delta_yaw`, the pitch by `delta_pitch` and
    /// then clamped away from the poles; the center does not move.
    pub fn orbit(&mut self, delta_yaw: i64, delta_pitch: i64)
        requires
            v3_in(old(self).eye@, 4 * FX_WORLD as int),
            v3_in(old(self).center@, 4 * FX_WORLD as int),
            -FX_WORLD <= delta_yaw <= FX_WORLD,
            -FX_WORLD <= delta_pitch <= FX_WORLD,
        ensures
            final(self).eye@ == orbit_eye_s(
                old(self).eye@,
                old(self).center@,
                delta_yaw as int,
                delta_pitch as int,
            ),
            final(self).center == old(self).center,
            final(self).up == old(self).up,
            final(self).has_changed,
    {
        let rv = self.eye.sub(&self.center);
        let radius = rv.norm();
        let current_yaw = atan2_fx(rv.z, rv.x);
        let flat = Vec3::new(rv.x, 0, rv.z);
        proof {
            assert(flat@ == (rv@.0, 0int, rv@.2));
            assert(v3_norm_sq(flat@) == rv@.0 * rv@.0 + 0 * 0 + rv@.2 * rv@.2);
        }
        let radius_xz = flat.norm();
        let current_pitch = atan2_fx(-rv.y, radius_xz);
        let new_yaw = wrap_angle(current_yaw + delta_yaw);
        let new_pitch = wrap_angle(fx_clamp(current_pitch + delta_pitch, -PITCH_LIMIT, PITCH_LIMIT));
        let cp = cos_fx(new_pitch);
        let sp = sin_fx(new_pitch);
        let cy = cos_fx(new_yaw);
        let sy = sin_fx(new_yaw);
        let rc = fx_mul(radius, cp);
        proof {
            lemma_fx_mul_bound(radius as int, cp as int, 16 * FX_WORLD as int);
            lemma_fx_mul_bound(rc as int, cy as int, 16 * FX_WORLD as int);
            lemma_fx_mul_bound(rc as int, sy as int, 16 * FX_WORLD as int);
            lemma_fx_mul_bound(radius as int, sp as int, 16 * FX_WORLD as int);
        }
        self.eye = Vec3::new(
            self.center.x + fx_mul(rc, cy),
            self.center.y - fx_mul(radius, sp),
            self.center.z + fx_mul(rc, sy),
        );
        self.has_changed = true;
    }

    /// Moves the eye along the view direction by `delta` (positive
    /// toward the center), leaving the center in place.
    pub fn zoom(&mut self, delta: i64)
        requires
            v3_in(old(self).eye@, 4 * FX_WORLD as int),
            v3_in(old(self).center@, 4 * FX_WORLD as int),
            -FX_WORLD <= delta <= FX_WORLD,
            old(self).center@ != old(self).eye@,
        ensures
            final(self).eye@ == v3_add(
                old(self).eye@,
                v3_scale(cam_forward_s(old(self).eye@, old(self).center@), delta as int),
            ),
            v3_in(v3_sub(final(self).eye@, old(self).eye@), FX_WORLD as int),
            final(self).center == old(self).center,
            final(self).up == old(self).up,
            final(self).has_changed,
    {
        let direction = self.center.sub(&self.eye).unit();
        proof {
            lemma_scaled_in(direction@, delta as int, FX_ONE as int, FX_WORLD as int);
        }
        self.eye = self.eye.add(&direction.scale(delta));
        self.has_changed = true;
    }

    /// Re-centers on a new target, carrying the eye along so that the
    /// offset from the center to the eye is preserved.
    pub fn set_target(&mut self, target: Vec3)
        requires
            v3_in(old(self).eye@, 4 * FX_WORLD as int),
            v3_in(old(self).center@, 4 * FX_WORLD as int),
            v3_in(target@, 4 * FX_WORLD as int),
        ensures
            final(self).center@ == target@,
            final(self).eye@ == v3_add(target@, v3_sub(old(self).eye@, old(self).center@)),
            v3_sub(final(self).eye@, final(self).center@) == v3_sub(
                old(self).eye@,
                old(self).center@,
            ),
            final(self).up == old(self).up,
            final(self).has_changed,
    {
        let offset = self.eye.sub(&self.center);
        self.center = target;
        self.eye = target.add(&offset);
        self.has_changed = true;
    }

    /// One tick of exponential smoothing: blends the center toward the
    /// target by the factor, clamped into [0, 1]; the eye stays.
    pub fn smooth_follow(&mut self, target: Vec3, lerp_factor: i64)
        requires
            v3_in(old(self).center@, 4 * FX_WORLD as int),
            v3_in(target@, 4 * FX_WORLD as int),
        ensures
            final(self).center@ == v3_lerp(
                old(self).center@,
                target@,
                clamp_s(lerp_factor as int, 0, FX_ONE as int),
            ),
            v3_in(final(self).center@, 4 * FX_WORLD as int),
            final(self).eye == old(self).eye,
            final(self).up == old(self).up,
            final(self).has_changed,
    {
        let f = fx_clamp(lerp_factor, 0, FX_ONE);
        proof {
            lemma_fx_mul_bound(old(self).center@.0, FX_ONE - f as int, 4 * FX_WORLD as int);
            lemma_fx_mul_bound(old(self).center@.1, FX_ONE - f as int, 4 * FX_WORLD as int);
            lemma_fx_mul_bound(old(self).center@.2, FX_ONE - f as int, 4 * FX_WORLD as int);
            lemma_fx_mul_bound(target@.0, f as int, 4 * FX_WORLD as int);
            lemma_fx_mul_bound(target@.1, f as int, 4 * FX_WORLD as int);
            lemma_fx_mul_bound(target@.2, f as int, 4 * FX_WORLD as int);
            crate::fixed::lemma_fx_blend_bound(
                old(self).center@.0,
                target@.0,
                f as int,
                4 * FX_WORLD as int,
            );
            crate::fixed::lemma_fx_blend_bound(
                old(self).center@.1,
                target@.1,
                f as int,
                4 * FX_WORLD as int,
            );
            crate::fixed::lemma_fx_blend_bound(
                old(self).center@.2,
                target@.2,
                f as int,
                4 * FX_WORLD as int,
            );
        }
        self.center = self.center.scale(FX_ONE - f).add(&target.scale(f));
        self.has_changed = true;
    }

    /// Flies forward: translates both the eye and the center along the
    /// view direction, preserving their offset.
    pub fn move_forward(&mut self, amount: i64)
        requires
            v3_in(old(self).eye@, 4 * FX_WORLD as int),
            v3_in(old(self).center@, 4 * FX_WORLD as int),
            -FX_WORLD <= amount <= FX_WORLD,
            old(self).center@ != old(self).eye@,
        ensures
            final(self).eye@ == v3_add(
                old(self).eye@,
                v3_scale(cam_forward_s(old(self).eye@, old(self).center@), amount as int),
            ),
            final(self).center@ == v3_add(
                old(self).center@,
                v3_scale(cam_forward_s(old(self).eye@, old(self).center@), amount as int),
            ),
            v3_sub(final(self).center@, final(self).eye@) == v3_sub(
                old(self).center@,
                old(self).eye@,
            ),
            v3_in(v3_sub(final(self).eye@, old(self).eye@), FX_WORLD as int),
            final(self).up == old(self).up,
            final(self).has_changed,
    {
        let forward = self.center.sub(&self.eye).unit();
        proof {
            lemma_scaled_in(forward@, amount as int, FX_ONE as int, FX_WORLD as int);
        }
        let d = forward.scale(amount);
        self.eye = self.eye.add(&d);
        self.center = self.center.add(&d);
        self.has_changed = true;
    }

    /// Flies backward: the forward fly-through with the amount
    /// negated.
    pub fn move_backward(&mut self, amount: i64)
        requires
            v3_in(old(self).eye@, 4 * FX_WORLD as int),
            v3_in(old(self).center@, 4 * FX_WORLD as int),
            -FX_WORLD <= amount <= FX_WORLD,
            old(self).center@ != old(self).eye@,
        ensures
            final(self).eye@ == v3_add(
                old(self).eye@,
                v3_scale(cam_forward_s(old(self).eye@, old(self).center@), -(amount as int)),
            ),
            final(self).center@ == v3_add(
                old(self).center@,
                v3_scale(cam_forward_s(old(self).eye@, old(self).center@), -(amount as int)),
            ),
            v3_sub(final(self).center@, final(self).eye@) == v3_sub(
                old(self).center@,
                old(self).eye@,
            ),
            v3_in(v3_sub(final(self).eye@, old(self).eye@), FX_WORLD as int),
            final(self).up == old(self).up,
            final(self).has_changed,
    {
        self.move_forward(-amount);
    }

    /// Strafes right: translates both the eye and the center along the
    /// right direction, preserving their offset.
    pub fn move_right(&mut self, amount: i64)
        requires
            v3_in(old(self).eye@, 4 * FX_WORLD as int),
            v3_in(old(self).center@, 4 * FX_WORLD as int),
            v3_in(old(self).up@, FX_ONE as int),
            -FX_WORLD <= amount <= FX_WORLD,
            old(self).center@ != old(self).eye@,
            v3_cross(cam_forward_s(old(self).eye@, old(self).center@), old(self).up@) != (
                0int,
                0int,
                0int,
            ),
        ensures
            final(self).eye@ == v3_add(
                old(self).eye@,
                v3_scale(
                    cam_right_s(old(self).eye@, old(self).center@, old(self).up@),
                    amount as int,
                ),
            ),
            final(self).center@ == v3_add(
                old(self).center@,
                v3_scale(
                    cam_right_s(old(self).eye@, old(self).center@, old(self).up@),
                    amount as int,
                ),
            ),
            v3_sub(final(self).center@, final(self).eye@) == v3_sub(
                old(self).center@,
                old(self).eye@,
            ),
            v3_in(v3_sub(final(self).eye@, old(self).eye@), FX_WORLD as int),
            final(self).up == old(self).up,
            final(self).has_changed,
    {
        let forward = self.center.sub(&self.eye).unit();
        proof {
            crate::vec3::lemma_cross_in(forward@, self.up@, FX_ONE as int, FX_ONE as int);
        }
        let right = forward.cross(&self.up).unit();
        proof {
            lemma_scaled_in(right@, amount as int, FX_ONE as int, FX_WORLD as int);
        }
        let d = right.scale(amount);
        self.eye = self.eye.add(&d);
        self.center = self.center.add(&d);
        self.has_changed = true;
    }

    /// Strafes left: the rightward strafe with the amount negated.
    pub fn move_left(&mut self, amount: i64)
        requires
            v3_in(old(self).eye@, 4 * FX_WORLD as int),
            v3_in(old(self).center@, 4 * FX_WORLD as int),
            v3_in(old(self).up@, FX_ONE as int),
            -FX_WORLD <= amount <= FX_WORLD,
            old(self).center@ != old(self).eye@,
            v3_cross(cam_forward_s(old(self).eye@, old(self).center@), old(self).up@) != (
                0int,
                0int,
                0int,
            ),
        ensures
            final(self).eye@ == v3_add(
                old(self).eye@,
                v3_scale(
                    cam_right_s(old(self).eye@, old(self).center@, old(self).up@),
                    -(amount as int),
                ),
            ),
            final(self).center@ == v3_add(
                old(self).center@,
                v3_scale(
                    cam_right_s(old(self).eye@, old(self).center@, old(self).up@),
                    -(amount as int),
                ),
            ),
            v3_sub(final(self).center@, final(self).eye@) == v3_sub(
                old(self).center@,
                old(self).eye@,
            ),
            v3_in(v3_sub(final(self).eye@, old(self).eye@), FX_WORLD as int),
            final(self).up == old(self).up,
            final(self).has_changed,
    {
        self.move_right(-amount);
    }

    /// Rises: translates both the eye and the center along the up
    /// reference, preserving their offset.
    pub fn move_up(&mut self, amount: i64)
        requires
            v3_in(old(self).eye@, 4 * FX_WORLD as int),
            v3_in(old(self).center@, 4 * FX_WORLD as int),
            v3_in(old(self).up@, FX_ONE as int),
            -FX_WORLD <= amount <= FX_WORLD,
        ensures
            final(self).eye@ == v3_add(old(self).eye@, v3_scale(old(self).up@, amount as int)),
            final(self).center@ == v3_add(
                old(self).center@,
                v3_scale(old(self).up@, amount as int),
            ),
            v3_sub(final(self).center@, final(self).eye@) == v3_sub(
                old(self).center@,
                old(self).eye@,
            ),
            v3_in(v3_sub(final(self).eye@, old(self).eye@), FX_WORLD as int),
            final(self).up == old(self).up,
            final(self).has_changed,
    {
        proof {
            lemma_scaled_in(old(self).up@, amount as int, FX_ONE as int, FX_WORLD as int);
        }
        let d = self.up.scale(amount);
        self.eye = self.eye.add(&d);
        self.center = self.center.add(&d);
        self.has_changed = true;
    }

    /// Sinks: the rise with the amount negated.
    pub fn move_down(&mut self, amount: i64)
        requires
            v3_in(old(self).eye@, 4 * FX_WORLD as int),
            v3_in(old(self).center@, 4 * FX_WORLD as int),
            v3_in(old(self).up@, FX_ONE as int),
            -FX_WORLD <= amount <= FX_WORLD,
        ensures
            final(self).eye@ == v3_add(old(self).eye@, v3_scale(old(self).up@, -(amount as int))),
            final(self).center@ == v3_add(
                old(self).center@,
                v3_scale(old(self).up@, -(amount as int)),
            ),
            v3_sub(final(self).center@, final(self).eye@) == v3_sub(
                old(self).center@,
                old(self).eye@,
            ),
            v3_in(v3_sub(final(self).eye@, old(self).eye@), FX_WORLD as int),
            final(self).up == old(self).up,
            final(self).has_changed,
    {
        self.move_up(-amount);
    }

    /// Turns the view about the world Y axis: the forward vector is
    /// rotated in the XZ plane by `angle`, renormalized, and stretched
    /// back to the original distance; the eye stays.
    pub fn rotate_yaw(&mut self, angle: i64)
        requires
            v3_in(old(self).eye@, 4 * FX_WORLD as int),
            v3_in(old(self).center@, 4 * FX_WORLD as int),
            -FX_WORLD <= angle <= FX_WORLD,
            old(self).center@ != old(self).eye@,
            yaw_rotated_s(v3_sub(old(self).center@, old(self).eye@), angle as int) != (
                0int,
                0int,
                0int,
            ),
        ensures
            final(self).center@ == v3_add(
                old(self).eye@,
                v3_scale(
                    v3_unit(yaw_rotated_s(v3_sub(old(self).center@, old(self).eye@), angle as int)),
                    v3_norm(v3_sub(old(self).center@, old(self).eye@)),
                ),
            ),
            v3_in(v3_sub(final(self).center@, final(self).eye@), 16 * FX_WORLD as int),
            final(self).eye == old(self).eye,
            final(self).up == old(self).up,
            final(self).has_changed,
    {
        let forward = self.center.sub(&self.eye);
        let distance = forward.norm();
        let wa = wrap_angle(angle);
        let c = cos_fx(wa);
        let s = sin_fx(wa);
        proof {
            lemma_fx_mul_bound(forward@.0, c as int, 8 * FX_WORLD as int);
            lemma_fx_mul_bound(forward@.0, s as int, 8 * FX_WORLD as int);
            lemma_fx_mul_bound(forward@.2, c as int, 8 * FX_WORLD as int);
            lemma_fx_mul_bound(forward@.2, s as int, 8 * FX_WORLD as int);
        }
        let new_forward = Vec3::new(
            fx_mul(forward.x, c) - fx_mul(forward.z, s),
            forward.y,
            fx_mul(forward.x, s) + fx_mul(forward.z, c),
        );
        let u = new_forward.unit();
        proof {
            lemma_scaled_in(u@, distance as int, FX_ONE as int, 16 * FX_WORLD as int);
        }
        self.center = self.eye.add(&u.scale(distance));
        self.has_changed = true;
    }

    /// Tilts the view toward the up reference by `angle`, unless the
    /// new direction would be too vertical: when the normalized blended
    /// forward vector passes the gimbal guard the center becomes the
    /// eye plus the blended vector, otherwise nothing changes.
    pub fn rotate_pitch(&mut self, angle: i64)
        requires
            v3_in(old(self).eye@, 4 * FX_WORLD as int),
            v3_in(old(self).center@, 4 * FX_WORLD as int),
            v3_in(old(self).up@, FX_ONE as int),
            -FX_WORLD <= angle <= FX_WORLD,
            old(self).center@ != old(self).eye@,
            pitch_blended_s(old(self).eye@, old(self).center@, old(self).up@, angle as int) != (
                0int,
                0int,
                0int,
            ),
        ensures
            pitch_allowed_s(old(self).eye@, old(self).center@, old(self).up@, angle as int)
                ==> final(self).center@ == v3_add(
                old(self).eye@,
                pitch_blended_s(old(self).eye@, old(self).center@, old(self).up@, angle as int),
            ) && final(self).has_changed,
            !pitch_allowed_s(old(self).eye@, old(self).center@, old(self).up@, angle as int)
                ==> *final(self) == *old(self),
            final(self).eye == old(self).eye,
            final(self).up == old(self).up,
    {
        let forward = self.center.sub(&self.eye);
        let distance = forward.norm();
        let wa = wrap_angle(angle);
        let c = cos_fx(wa);
        let s = sin_fx(wa);
        let sd = fx_mul(s, distance);
        proof {
            assert(fx_mul_s(s as int, distance as int) == fx_mul_s(distance as int, s as int));
            lemma_fx_mul_bound(distance as int, s as int, 16 * FX_WORLD as int);
            lemma_fx_mul_bound(forward@.0, c as int, 8 * FX_WORLD as int);
            lemma_fx_mul_bound(forward@.1, c as int, 8 * FX_WORLD as int);
            lemma_fx_mul_bound(forward@.2, c as int, 8 * FX_WORLD as int);
            lemma_fx_mul_abs_mono(old(self).up@.0, sd as int, FX_ONE as int, 16 * FX_WORLD as int);
            lemma_fx_mul_abs_mono(old(self).up@.1, sd as int, FX_ONE as int, 16 * FX_WORLD as int);
            lemma_fx_mul_abs_mono(old(self).up@.2, sd as int, FX_ONE as int, 16 * FX_WORLD as int);
        }
        let new_forward = forward.scale(c).add(&self.up.scale(sd));
        let normalized = new_forward.unit();
        let ny = crate::fixed::fx_abs(normalized.y);
        if ny < GIMBAL_LIMIT {
            self.center = self.eye.add(&new_forward);
            self.has_changed = true;
        }
    }

    /// Teleports instantly: the eye is placed above and behind the
    /// target by the warp distance, and the center is the target.
    pub fn warp_to(&mut self, target: Vec3, distance: i64)
        requires
            v3_in(target@, 4 * FX_WORLD as int),
            -FX_WORLD <= distance <= FX_WORLD,
        ensures
            final(self).eye@ == v3_add(
                target@,
                (0int, fx_mul_s(distance as int, WARP_RISE as int), distance as int),
            ),
            v3_in(v3_sub(final(self).eye@, target@), FX_WORLD as int),
            final(self).center@ == target@,
            final(self).up == old(self).up,
            final(self).has_changed,
    {
        proof {
            lemma_fx_mul_bound(distance as int, WARP_RISE as int, FX_WORLD as int);
        }
        let offset = Vec3::new(0, fx_mul(distance, WARP_RISE), distance);
        self.eye = target.add(&offset);
        self.center = target;
        self.has_changed = true;
    }
}

/// Scaling a `mb`-bounded vector by an `mv`-bounded factor keeps every
/// component within the product of the bounds.
proof fn lemma_scaled_in(a: (int, int, int), t: int, mb: int, mv: int)
    requires
        v3_in(a, mb),
        iabs(t) <= mv,
        0 <= mb,
        0 <= mv,
    ensures
        v3_in(v3_scale(a, t), fx_mul_s(mb, mv)),
{
    lemma_fx_mul_abs_mono(a.0, t, mb, mv);
    lemma_fx_mul_abs_mono(a.1, t, mb, mv);
    lemma_fx_mul_abs_mono(a.2, t, mb, mv);
}

/// The pitch used by the orbit operation stays strictly inside the
/// pole guard: whatever pitch change is asked for, the spherical
/// recompute runs at a pitch clamped into
/// `[-PITCH_LIMIT, PITCH_LIMIT]`.
pub proof fn lemma_orbit_pitch_capped(eye: (int, int, int), center: (int, int, int), dp: int)
    ensures
        -PITCH_LIMIT <= clamp_s(
            orbit_pitch_s(eye, center) + dp,
            -PITCH_LIMIT as int,
            PITCH_LIMIT as int,
        ) <= PITCH_LIMIT,
{
}

} // verus!
