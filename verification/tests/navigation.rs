//! Camera navigation, the warp machine, collision resolution and the
//! hazard monitor, exercised on concrete fixed-point values.

use solarsim::camera::Camera;
use solarsim::collision::{check_sphere_collision, resolve_sphere_collision};
use solarsim::fixed::{fx_div, fx_mul, isqrt, wrap_angle, FX_HALF, FX_HALF_PI, FX_ONE, FX_PI, FX_TAU};
use solarsim::safe_zone::SafeZone;
use solarsim::ship::Spaceship;
use solarsim::vec3::Vec3;
use solarsim::warp::{WarpEffect, WarpState};

const ONE: i64 = FX_ONE;

fn looking_at_origin() -> Camera {
    Camera::new(Vec3::new(0, 0, 10 * ONE), Vec3::zeros(), Vec3::new(0, ONE, 0))
}

#[test]
fn fixed_point_products_and_quotients_are_exact() {
    assert_eq!(fx_mul(3 * ONE, 2 * ONE), 6 * ONE);
    assert_eq!(fx_mul(-3 * ONE, 2 * ONE), -6 * ONE);
    assert_eq!(fx_div(ONE, 2 * ONE), FX_HALF);
    assert_eq!(isqrt(144), 12);
    assert_eq!(isqrt(145), 12);
}

#[test]
fn angles_wrap_into_one_turn() {
    assert_eq!(wrap_angle(FX_TAU + 5), 5);
    assert_eq!(wrap_angle(-5), FX_TAU - 5);
    assert_eq!(wrap_angle(3 * FX_TAU), 0);
}

#[test]
fn zoom_moves_along_the_view_direction() {
    let mut cam = looking_at_origin();
    cam.zoom(2 * ONE);
    assert_eq!(cam.eye, Vec3::new(0, 0, 8 * ONE));
    assert_eq!(cam.center, Vec3::zeros());
}

#[test]
fn fly_through_preserves_the_view_offset() {
    let mut cam = looking_at_origin();
    cam.move_forward(19661);
    assert_eq!(cam.eye, Vec3::new(0, 0, 10 * ONE - 19661));
    assert_eq!(cam.center, Vec3::new(0, 0, -19661));
    cam.move_up(ONE);
    cam.move_right(ONE);
    let offset = cam.center.sub(&cam.eye);
    assert_eq!(offset, Vec3::new(0, 0, -(10 * ONE)));
}

#[test]
fn set_target_recenters_at_the_same_offset() {
    let mut cam = looking_at_origin();
    cam.set_target(Vec3::new(ONE, ONE, 0));
    assert_eq!(cam.center, Vec3::new(ONE, ONE, 0));
    assert_eq!(cam.eye, Vec3::new(ONE, ONE, 10 * ONE));
}

#[test]
fn smooth_follow_blends_halfway() {
    let mut cam = looking_at_origin();
    cam.smooth_follow(Vec3::new(10 * ONE, 0, 0), FX_HALF);
    assert_eq!(cam.center, Vec3::new(5 * ONE, 0, 0));
    // The factor is clamped into [0, 1].
    let mut cam2 = looking_at_origin();
    cam2.smooth_follow(Vec3::new(10 * ONE, 0, 0), 5 * ONE);
    assert_eq!(cam2.center, Vec3::new(10 * ONE, 0, 0));
}

#[test]
fn warp_to_places_the_eye_above_and_behind() {
    let mut cam = looking_at_origin();
    cam.warp_to(Vec3::new(ONE, 0, 0), 5 * ONE);
    assert_eq!(cam.center, Vec3::new(ONE, 0, 0));
    assert_eq!(cam.eye, Vec3::new(ONE, 98305, 5 * ONE));
}

#[test]
fn orbit_pitch_is_clamped_away_from_the_pole() {
    let mut cam = looking_at_origin();
    cam.orbit(0, 2 * ONE);
    assert_eq!(cam.center, Vec3::zeros());
    let x = cam.eye.x as f64 / 65536.0;
    let y = cam.eye.y as f64 / 65536.0;
    let z = cam.eye.z as f64 / 65536.0;
    let pitch = (-y).atan2((x * x + z * z).sqrt());
    assert!(pitch.abs() <= std::f64::consts::FRAC_PI_2 - 0.09);
}

#[test]
fn rotate_pitch_rejects_near_vertical_views() {
    let mut cam = looking_at_origin();
    let before = cam.center;
    // Almost a quarter turn up would leave the view nearly vertical.
    cam.rotate_pitch(96000);
    assert_eq!(cam.center, before);
    // A small tilt is accepted.
    cam.rotate_pitch(1966);
    assert!(cam.center != before);
}

#[test]
fn rotate_yaw_keeps_the_eye_and_the_distance() {
    let mut cam = looking_at_origin();
    cam.rotate_yaw(FX_HALF_PI);
    assert_eq!(cam.eye, Vec3::new(0, 0, 10 * ONE));
    let d = cam.center.sub(&cam.eye);
    let dist2 = (d.x as i128) * (d.x as i128) + (d.y as i128) * (d.y as i128) + (d.z as i128) * (d.z
        as i128);
    let ten = (10 * ONE) as i128;
    let err = dist2 - ten * ten;
    assert!(err.abs() <= (ten * ten) / 100);
}

#[test]
fn basis_change_maps_local_x_to_world_right() {
    let cam = looking_at_origin();
    let r = cam.basis_change(&Vec3::new(ONE, 0, 0));
    assert_eq!(r, Vec3::new(ONE, 0, 0));
}

#[test]
fn ship_rides_at_its_camera_offset() {
    let cam = looking_at_origin();
    let ship = Spaceship::new();
    assert_eq!(ship.get_position(&cam), Vec3::new(0, -52429, 10 * ONE - 163840));
    let rot = ship.get_rotation(&cam);
    assert_eq!(rot, Vec3::new(0, FX_PI, 0));
}

#[test]
fn warp_travel_arrives_exactly_on_target() {
    let mut warp = WarpEffect::new();
    assert!(!warp.is_active());
    let a = Vec3::zeros();
    let b = Vec3::new(10 * ONE, 0, 0);
    warp.start_warp(a, b);
    assert!(warp.is_active());
    assert_eq!(warp.state, WarpState::Warping);
    let dt = ONE / 60;
    let mut last = None;
    for _ in 0..61 {
        last = warp.update(dt);
    }
    // The time steps sum past the one-second travel time.
    assert_eq!(warp.state, WarpState::Arriving);
    assert_eq!(last, Some(b));
    for _ in 0..19 {
        last = warp.update(dt);
        assert_eq!(last, Some(b));
    }
    // Another 0.3 s and the hold is over.
    assert_eq!(warp.state, WarpState::Idle);
    assert!(!warp.is_active());
    assert!(warp.update(dt).is_none());
}

#[test]
fn warp_restarts_while_active() {
    let mut warp = WarpEffect::new();
    warp.start_warp(Vec3::zeros(), Vec3::new(ONE, 0, 0));
    warp.update(ONE / 2);
    warp.start_warp(Vec3::new(ONE, 0, 0), Vec3::new(0, ONE, 0));
    assert_eq!(warp.state, WarpState::Warping);
    assert_eq!(warp.progress, 0);
    assert_eq!(warp.current_time, 0);
}

#[test]
fn warp_travel_position_starts_at_the_start() {
    let mut warp = WarpEffect::new();
    let a = Vec3::new(ONE, 0, 0);
    let b = Vec3::new(9 * ONE, 0, 0);
    warp.start_warp(a, b);
    let p = warp.update(0).unwrap();
    assert_eq!(p, a);
}

#[test]
fn distortion_peaks_at_half_progress() {
    let mut warp = WarpEffect::new();
    assert_eq!(warp.get_distortion_factor(), 0);
    warp.state = WarpState::Warping;
    warp.progress = FX_HALF;
    assert_eq!(warp.get_distortion_factor(), ONE);
    warp.progress = 0;
    assert_eq!(warp.get_distortion_factor(), 0);
}

#[test]
fn distortion_decays_through_the_arrival_hold() {
    let mut warp = WarpEffect::new();
    warp.start_warp(Vec3::zeros(), Vec3::new(ONE, 0, 0));
    warp.update(2 * ONE);
    assert_eq!(warp.state, WarpState::Arriving);
    let mut previous = warp.get_distortion_factor();
    for _ in 0..20 {
        warp.update(ONE / 60);
        let d = warp.get_distortion_factor();
        assert!(d <= previous);
        previous = d;
    }
    assert_eq!(warp.state, WarpState::Idle);
    assert_eq!(warp.get_distortion_factor(), 0);
}

#[test]
fn sphere_overlap_is_strict() {
    let at = |x: i64| Vec3::new(x, 0, 0);
    assert!(!check_sphere_collision(at(3 * ONE), ONE, at(0), 2 * ONE));
    assert!(check_sphere_collision(at(3 * ONE), ONE, at(0), 2 * ONE + 1));
    assert!(check_sphere_collision(at(0), ONE, at(0), ONE));
}

#[test]
fn resolution_pushes_to_the_combined_radius() {
    let resolved = resolve_sphere_collision(Vec3::new(2 * ONE, 0, 0), FX_HALF, Vec3::zeros(), 9
        * ONE / 2);
    assert_eq!(resolved, Vec3::new(5 * ONE, 0, 0));
    let other_side = resolve_sphere_collision(Vec3::new(-2 * ONE, 0, 0), FX_HALF, Vec3::zeros(), 9
        * ONE / 2);
    assert_eq!(other_side, Vec3::new(-5 * ONE, 0, 0));
}

#[test]
fn fourth_consecutive_hazard_relocates() {
    let mut monitor = SafeZone::new(Vec3::new(0, 10 * ONE, 0));
    let planets = vec![(Vec3::zeros(), ONE)];
    let orbits: Vec<i64> = vec![];
    let danger = Vec3::new(ONE, 0, 0);
    for _ in 0..3 {
        assert!(monitor.check_and_correct(danger, &planets, &orbits).is_none());
    }
    let relocated = monitor.check_and_correct(danger, &planets, &orbits);
    assert_eq!(relocated, Some(Vec3::new(ONE, 5 * ONE, 0)));
    assert_eq!(monitor.danger_counter, 0);
    // The counter restarted: the next hazardous frame does not relocate.
    assert!(monitor.check_and_correct(danger, &planets, &orbits).is_none());
}

#[test]
fn safe_frames_reset_the_hazard_counter() {
    let mut monitor = SafeZone::new(Vec3::new(0, 10 * ONE, 0));
    let planets = vec![(Vec3::zeros(), ONE)];
    let orbits: Vec<i64> = vec![];
    let danger = Vec3::new(ONE, 0, 0);
    let safe = Vec3::new(10 * ONE, 10 * ONE, 0);
    monitor.check_and_correct(danger, &planets, &orbits);
    monitor.check_and_correct(danger, &planets, &orbits);
    monitor.check_and_correct(safe, &planets, &orbits);
    assert_eq!(monitor.danger_counter, 0);
    assert_eq!(monitor.last_safe_position, safe);
}

#[test]
fn grazing_an_orbital_ring_is_hazardous() {
    let monitor = SafeZone::new(Vec3::new(0, 10 * ONE, 0));
    let planets: Vec<(Vec3, i64)> = vec![];
    let orbits = vec![10 * ONE];
    assert!(monitor.is_in_danger_zone(Vec3::new(10 * ONE, 0, 0), &planets, &orbits));
    // Too high above the ecliptic plane.
    assert!(!monitor.is_in_danger_zone(Vec3::new(10 * ONE, 2 * ONE, 0), &planets, &orbits));
    // Radially clear of the ring.
    assert!(!monitor.is_in_danger_zone(Vec3::new(12 * ONE, 0, 0), &planets, &orbits));
}

#[test]
fn no_bodies_means_no_hazards() {
    let mut monitor = SafeZone::new(Vec3::zeros());
    let planets: Vec<(Vec3, i64)> = vec![];
    let orbits: Vec<i64> = vec![];
    for _ in 0..10 {
        assert!(monitor.check_and_correct(Vec3::zeros(), &planets, &orbits).is_none());
    }
    assert_eq!(monitor.danger_counter, 0);
}
