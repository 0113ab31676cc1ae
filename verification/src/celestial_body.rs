//! The shared contract of simulated bodies.
//!
//! Anything that advances over time and exposes a transform and a
//! material tag to the rendering collaborator implements this trait;
//! the orbiting `Planet` is its one concrete variant.

use vstd::prelude::*;

verus! {

use crate::fixed::FX_WORLD;
use crate::planet::{tick_rel, Planet};
use crate::vec3::Vec3;

/// A body the tick driver advances and the renderer reads.
pub trait CelestialBody: Sized {
    /// When the body's state is usable.
    spec fn cb_wf(&self) -> bool;

    /// The body's current world position.
    spec fn cb_position(&self) -> Vec3;

    /// The body's current Euler rotation.
    spec fn cb_rotation(&self) -> Vec3;

    /// The body's uniform scale.
    spec fn cb_scale(&self) -> i64;

    /// The body's material tag.
    spec fn cb_shader(&self) -> Seq<char>;

    /// The body's display name.
    spec fn cb_name(&self) -> Seq<char>;

    /// How one tick relates the body's state before and after.
    spec fn cb_ticked(pre: Self, post: Self, dt: int) -> bool;

    /// Advances the body by one tick, as the implementor's own tick
    /// relation describes.
    fn update(&mut self, delta_time: i64)
        requires
            old(self).cb_wf(),
            0 <= delta_time <= FX_WORLD,
        ensures
            final(self).cb_wf(),
            Self::cb_ticked(*old(self), *final(self), delta_time as int),
    ;

    /// The current world position.
    fn get_position(&self) -> (r: Vec3)
        ensures
            r == self.cb_position(),
    ;

    /// The current Euler rotation.
    fn get_rotation(&self) -> (r: Vec3)
        ensures
            r == self.cb_rotation(),
    ;

    /// The uniform scale.
    fn get_scale(&self) -> (r: i64)
        ensures
            r == self.cb_scale(),
    ;

    /// The material tag.
    fn get_shader(&self) -> (r: &str)
        ensures
            r@ == self.cb_shader(),
    ;

    /// The display name.
    fn get_name(&self) -> (r: &str)
        ensures
            r@ == self.cb_name(),
    ;
}

impl CelestialBody for Planet {
    open spec fn cb_wf(&self) -> bool {
        self.wf()
    }

    open spec fn cb_position(&self) -> Vec3 {
        self.position
    }

    open spec fn cb_rotation(&self) -> Vec3 {
        self.rotation
    }

    open spec fn cb_scale(&self) -> i64 {
        self.scale
    }

    open spec fn cb_shader(&self) -> Seq<char> {
        self.shader_type@
    }

    open spec fn cb_name(&self) -> Seq<char> {
        self.name@
    }

    /// A planet's tick is the orbital tick relation with no parent
    /// offset.
    open spec fn cb_ticked(pre: Planet, post: Planet, dt: int) -> bool {
        tick_rel(pre, post, dt, (0int, 0int, 0int))
    }

    fn update(&mut self, delta_time: i64) {
        Planet::update(self, delta_time);
    }

    fn get_position(&self) -> (r: Vec3) {
        self.position
    }

    fn get_rotation(&self) -> (r: Vec3) {
        self.rotation
    }

    fn get_scale(&self) -> (r: i64) {
        self.scale
    }

    fn get_shader(&self) -> (r: &str) {
        self.shader_type.as_str()
    }

    fn get_name(&self) -> (r: &str) {
        self.name.as_str()
    }
}

} // verus!
