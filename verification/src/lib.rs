//! A navigable 3D solar-system simulation core.
//!
//! All simulation state is kept in fixed-point arithmetic (signed 16.16),
//! so that orbital mechanics, camera navigation, the warp transition
//! machine and the hazard monitor can be specified and verified exactly.
//! The floating-point rendering layer around this crate converts at the
//! boundary.

pub mod camera;
pub mod celestial_body;
pub mod collision;
pub mod effects;
pub mod fixed;
pub mod orbit;
pub mod planet;
pub mod render;
pub mod safe_zone;
pub mod ship;
pub mod solar_system;
pub mod trig;
pub mod vec3;
pub mod warp;
