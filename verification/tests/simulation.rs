//! Orbital mechanics, the solar-system catalog, geometry helpers and
//! the frame export, exercised on concrete fixed-point values.

use solarsim::effects::{create_orbit_lines, create_skybox_sphere};
use solarsim::fixed::{FX_HALF_PI, FX_ONE, FX_PI, FX_TAU, FX_WORLD};
use solarsim::orbit::OrbitParams;
use solarsim::planet::Planet;
use solarsim::render::render;
use solarsim::solar_system::SolarSystem;
use solarsim::vec3::Vec3;

const ONE: i64 = FX_ONE;

#[test]
fn flat_orbit_quarter_turn_lands_on_z_axis() {
    // radius 10.0, speed 0.5, inclination 0, at angle pi/2.
    let orbit = OrbitParams::new(10 * ONE, ONE / 2);
    let p = orbit.calculate_position(FX_HALF_PI);
    assert_eq!(p, Vec3::new(0, 0, 655340));
    // Within 0.001 units of the ideal (0, 0, 10).
    assert!((p.z - 10 * ONE).abs() <= 64);
}

#[test]
fn flat_orbit_stays_in_xz_plane() {
    let orbit = OrbitParams::new(7 * ONE, ONE);
    let mut angle: i64 = 0;
    while angle < FX_TAU {
        assert_eq!(orbit.calculate_position(angle).y, 0);
        angle += FX_TAU / 37;
    }
}

#[test]
fn inclined_orbit_leaves_the_plane() {
    let orbit = OrbitParams::new(10 * ONE, ONE).with_inclination(6554);
    let p = orbit.calculate_position(FX_HALF_PI);
    assert!(p.y != 0);
}

#[test]
fn orbit_angle_stays_normalized_under_large_steps() {
    let mut p = Planet::new("probe", "rocky_mars", ONE, OrbitParams::new(3 * ONE, 3 * ONE), ONE);
    for _ in 0..50 {
        p.update(FX_WORLD);
        assert!(0 <= p.orbit_angle && p.orbit_angle < FX_TAU);
        assert!(0 <= p.rotation.y && p.rotation.y < FX_TAU);
    }
}

#[test]
fn planet_position_follows_its_orbit() {
    let mut p = Planet::new("probe", "rocky_mars", ONE, OrbitParams::new(5 * ONE, ONE / 4), 0);
    for _ in 0..10 {
        p.update(ONE / 60);
        assert_eq!(p.position, p.orbit.calculate_position(p.orbit_angle));
    }
}

#[test]
fn satellite_rides_on_its_parent() {
    let mut system = SolarSystem::new();
    for _ in 0..30 {
        system.update(ONE / 60);
    }
    let earth = system.get_planet(2).expect("catalog has a third planet");
    assert_eq!(earth.name, "Tierra");
    assert_eq!(earth.satellites.len(), 1);
    let moon = &earth.satellites[0];
    assert_eq!(moon.name, "Luna");
    let local = moon.orbit.calculate_position(moon.orbit_angle);
    assert_eq!(moon.position, local.add(&earth.position));
    // The parent really moves, so the satellite offset is exercised.
    assert!(earth.position != Vec3::zeros());
}

#[test]
fn catalog_has_eight_named_planets() {
    let system = SolarSystem::new();
    assert_eq!(system.planet_count(), 8);
    assert_eq!(system.sun.name, "Sol");
    assert_eq!(system.get_planet(0).unwrap().name, "Mercurio");
    assert_eq!(system.get_planet(7).unwrap().name, "Neptuno");
    assert!(system.get_planet(8).is_none());
}

#[test]
fn find_planet_by_name_returns_first_match() {
    let system = SolarSystem::new();
    let (i, p) = system.find_planet_by_name("Tierra").expect("Tierra is in the catalog");
    assert_eq!(i, 2);
    assert_eq!(p.name, "Tierra");
    let (j, jp) = system.find_planet_by_name("J\u{fa}piter").expect("the fifth planet is there");
    assert_eq!(j, 4);
    assert_eq!(jp.shader_type, "gas_jupiter");
    assert!(system.find_planet_by_name("Vulcano").is_none());
    assert!(system.find_planet_by_name("tierra").is_none());
}

#[test]
fn star_spins_but_does_not_move() {
    let mut system = SolarSystem::new();
    let before = system.sun.rotation.y;
    system.update(ONE / 60);
    assert!(system.sun.rotation.y != before);
    assert_eq!(system.sun.position, Vec3::zeros());
}

#[test]
fn position_and_orbit_lists_match_the_catalog() {
    let system = SolarSystem::new();
    let positions = system.get_all_planet_positions();
    let orbits = system.get_all_orbits();
    assert_eq!(positions.len(), 8);
    assert_eq!(orbits.len(), 8);
    for i in 0..8 {
        let p = system.get_planet(i).unwrap();
        assert_eq!(positions[i], p.position);
        assert_eq!(orbits[i], (p.orbit.radius, p.orbit.inclination));
    }
    assert_eq!(orbits[0].0, 3 * ONE);
    assert_eq!(orbits[6].1, 6554);
}

#[test]
fn orbit_lines_sample_the_circle() {
    let ring = create_orbit_lines(10 * ONE, 80, 0);
    assert_eq!(ring.len(), 80);
    assert_eq!(ring[0], Vec3::new(655350, 0, 0));
    for v in &ring {
        assert_eq!(v.y, 0);
    }
}

#[test]
fn orbit_lines_thin_out_for_distant_rings() {
    assert_eq!(create_orbit_lines(15 * ONE, 120, 0).len(), 60);
    assert_eq!(create_orbit_lines(21 * ONE, 90, 0).len(), 30);
    assert_eq!(create_orbit_lines(26 * ONE, 60, 0).len(), 30);
    assert_eq!(create_orbit_lines(5 * ONE, 300, 0).len(), 100);
}

#[test]
fn skybox_grid_has_full_rows_and_poles() {
    let grid = create_skybox_sphere(10 * ONE, 4, 8);
    assert_eq!(grid.len(), 5);
    for row in &grid {
        assert_eq!(row.len(), 8);
    }
    // The north pole row sits on the Y axis.
    assert_eq!(grid[0][0], Vec3::new(0, 655350, 0));
}

#[test]
fn render_culls_by_distance() {
    let system = SolarSystem::new();
    let far_eye = Vec3::new(0, 40 * ONE, 0);
    let frame = render(&system, far_eye);
    assert!(frame.sun.is_some());
    assert_eq!(frame.planets.len(), 8);
    for slot in &frame.planets {
        assert!(slot.is_some());
    }
    assert_eq!(frame.satellites.len(), 8);
    assert_eq!(frame.satellites[2].len(), 1);
    assert!(frame.satellites[2][0].is_some());

    // Standing at the star's center hides the star.
    let near_frame = render(&system, Vec3::zeros());
    assert!(near_frame.sun.is_none());
}

#[test]
fn render_items_carry_the_body_transform() {
    let system = SolarSystem::new();
    let frame = render(&system, Vec3::new(0, 40 * ONE, 0));
    let sun_item = frame.sun.as_ref().unwrap();
    assert_eq!(sun_item.shader, "sun");
    assert_eq!(sun_item.position, Vec3::zeros());
    assert_eq!(sun_item.scale, 2 * ONE);
    let mercury = frame.planets[0].as_ref().unwrap();
    assert_eq!(mercury.shader, "rocky_mars");
    assert_eq!(mercury.position, system.get_planet(0).unwrap().position);
}

#[test]
fn zero_radius_orbit_stays_at_the_origin() {
    let orbit = OrbitParams::new(0, 0);
    assert_eq!(orbit.calculate_position(0), Vec3::zeros());
    assert_eq!(orbit.calculate_position(FX_HALF_PI), Vec3::zeros());
    assert_eq!(orbit.calculate_position(FX_TAU - 1), Vec3::zeros());
}

#[test]
fn planet_lookup_by_index_is_mutable_in_range() {
    let mut system = SolarSystem::new();
    assert!(system.get_planet_mut(8).is_none());
    let mercury = system.get_planet_mut(0).expect("index 0 is in the catalog");
    mercury.scale = 2 * ONE;
    assert_eq!(system.get_planet(0).unwrap().scale, 2 * ONE);
}

#[test]
fn retrograde_orbit_runs_backward_and_stays_normalized() {
    let mut p = Planet::new("probe", "rocky_mars", ONE, OrbitParams::new(3 * ONE, -(2 * ONE)), -ONE);
    for _ in 0..40 {
        p.update(ONE / 60);
        assert!(0 <= p.orbit_angle && p.orbit_angle < FX_TAU);
        assert_eq!(p.position, p.orbit.calculate_position(p.orbit_angle));
    }
    // A backward rate really moves the phase the other way on the first step.
    let mut q = Planet::new("probe2", "rocky_mars", ONE, OrbitParams::new(3 * ONE, -(2 * ONE)), 0);
    q.update(ONE / 60);
    assert!(q.orbit_angle > FX_PI);
}
