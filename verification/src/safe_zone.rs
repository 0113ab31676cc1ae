//! The proximity-hazard monitor.
//!
//! Every frame the monitor is fed the camera position and the current
//! planet spheres and orbit radii. A hazardous position near a planet
//! or grazing an orbital ring increments a counter of consecutive
//! dangerous frames; on the fourth such frame the monitor proposes a
//! relocation and resets. A safe frame resets the counter and records
//! the position as the last known safe one.

use vstd::prelude::*;

verus! {

use crate::fixed::{iabs, sqrt_floor, FX_HALF, FX_ONE, FX_WORLD};
use crate::vec3::{v3_add, v3_in, v3_norm_sq, v3_sub, Vec3};

/// The vertical hop tried first when relocating, in fixed-point units
/// (five world units up).
pub const RELOCATE_RISE: i64 = 327680;

/// The monitor's mathematical state.
pub struct MonitorModel {
    pub last_safe: (int, int, int),
    pub counter: int,
}

/// The hazard monitor.
pub struct SafeZone {
    /// The most recent position known to be safe.
    pub last_safe_position: Vec3,
    /// Consecutive hazardous frames seen so far.
    pub danger_counter: u32,
}

impl View for SafeZone {
    type V = MonitorModel;

    open spec fn view(&self) -> MonitorModel {
        MonitorModel { last_safe: self.last_safe_position@, counter: self.danger_counter as int }
    }
}

/// A well-formed monitor: the counter below its relocation threshold,
/// the recorded position world-sized.
pub open spec fn monitor_wf(m: MonitorModel) -> bool {
    &&& 0 <= m.counter <= 3
    &&& v3_in(m.last_safe, 2 * FX_WORLD as int)
}

/// Whether a position is within twice the radius of the given planet
/// sphere.
pub open spec fn near_planet_s(pos: (int, int, int), planet: ((int, int, int), int)) -> bool {
    v3_norm_sq(v3_sub(pos, planet.0)) < (2 * planet.1) * (2 * planet.1)
}

/// Whether a position grazes the ring of the given orbit radius: close
/// to the ecliptic plane, and with its radial distance from the world
/// origin within half a unit of the radius.
pub open spec fn near_orbit_s(pos: (int, int, int), orbit_radius: int) -> bool {
    let radial = sqrt_floor(pos.0 * pos.0 + pos.2 * pos.2);
    iabs(pos.1) < FX_ONE && iabs(radial - orbit_radius) < FX_HALF
}

/// A hazardous position: too near some planet sphere, or grazing some
/// orbital ring near the ecliptic.
pub open spec fn danger_zone_s(
    pos: (int, int, int),
    planets: Seq<(Vec3, i64)>,
    orbits: Seq<i64>,
) -> bool {
    (exists|i: int|
        0 <= i < planets.len() && near_planet_s(
            pos,
            (#[trigger] planets[i].0@, planets[i].1 as int),
        )) || (exists|j: int| 0 <= j < orbits.len() && near_orbit_s(pos, #[trigger] orbits[j] as int))
}

/// Whether the vertical hop from `pos` clears every planet by three
/// radii.
pub open spec fn elevated_clear_s(pos: (int, int, int), planets: Seq<(Vec3, i64)>) -> bool {
    forall|i: int|
        0 <= i < planets.len() ==> v3_norm_sq(
            v3_sub(v3_add(pos, (0int, RELOCATE_RISE as int, 0int)), #[trigger] planets[i].0@),
        ) >= (3 * planets[i].1 as int) * (3 * planets[i].1 as int)
}

/// The relocation the monitor proposes: the vertical hop if it clears
/// every planet, else the last known safe position.
pub open spec fn safe_position_s(
    m: MonitorModel,
    pos: (int, int, int),
    planets: Seq<(Vec3, i64)>,
) -> (int, int, int) {
    if elevated_clear_s(pos, planets) {
        v3_add(pos, (0int, RELOCATE_RISE as int, 0int))
    } else {
        m.last_safe
    }
}

/// One frame of the monitor: the next state, and the relocation
/// proposed this frame if any.
pub open spec fn monitor_step_s(
    m: MonitorModel,
    pos: (int, int, int),
    planets: Seq<(Vec3, i64)>,
    orbits: Seq<i64>,
) -> (MonitorModel, Option<(int, int, int)>) {
    if danger_zone_s(pos, planets, orbits) {
        if m.counter >= 3 {
            let relocated = safe_position_s(m, pos, planets);
            (MonitorModel { last_safe: relocated, counter: 0 }, Some(relocated))
        } else {
            (MonitorModel { last_safe: m.last_safe, counter: m.counter + 1 }, None)
        }
    } else {
        (MonitorModel { last_safe: pos, counter: 0 }, None)
    }
}

impl SafeZone {
    /// A fresh monitor, trusting the given position as safe.
    pub fn new(initial_position: Vec3) -> (r: SafeZone)
        requires
            v3_in(initial_position@, 2 * FX_WORLD as int),
        ensures
            r@ == (MonitorModel { last_safe: initial_position@, counter: 0 }),
            monitor_wf(r@),
    {
        SafeZone { last_safe_position: initial_position, danger_counter: 0 }
    }

    /// Feeds one frame to the monitor, exactly as `monitor_step_s`:
    /// hazardous frames count up, the fourth consecutive one yields a
    /// relocation and resets, a safe frame resets and records the
    /// position.
    pub fn check_and_correct(
        &mut self,
        camera_position: Vec3,
        planet_positions: &Vec<(Vec3, i64)>,
        orbit_radii: &Vec<i64>,
    ) -> (r: Option<Vec3>)
        requires
            monitor_wf(old(self)@),
            v3_in(camera_position@, FX_WORLD as int),
            forall|i: int|
                0 <= i < planet_positions@.len() ==> v3_in(
                    (#[trigger] planet_positions@[i].0)@,
                    FX_WORLD as int,
                ) && 0 <= planet_positions@[i].1 <= FX_WORLD,
            forall|j: int| 0 <= j < orbit_radii@.len() ==> 0 <= #[trigger] orbit_radii@[j] <= FX_WORLD,
        ensures
            final(self)@ == monitor_step_s(
                old(self)@,
                camera_position@,
                planet_positions@,
                orbit_radii@,
            ).0,
            monitor_wf(final(self)@),
            match r {
                Some(p) => monitor_step_s(
                    old(self)@,
                    camera_position@,
                    planet_positions@,
                    orbit_radii@,
                ).1 == Some(p@),
                None => monitor_step_s(
                    old(self)@,
                    camera_position@,
                    planet_positions@,
                    orbit_radii@,
                ).1 is None,
            },
    {
        let is_dangerous = self.is_in_danger_zone(camera_position, planet_positions, orbit_radii);
        if is_dangerous {
            if self.danger_counter >= 3 {
                let safe_pos = self.calculate_safe_position(camera_position, planet_positions);
                self.last_safe_position = safe_pos;
                self.danger_counter = 0;
                Some(safe_pos)
            } else {
                self.danger_counter = self.danger_counter + 1;
                None
            }
        } else {
            self.danger_counter = 0;
            self.last_safe_position = camera_position;
            None
        }
    }

    /// True iff the position is hazardous, exactly as `danger_zone_s`.
    pub fn is_in_danger_zone(
        &self,
        position: Vec3,
        planet_positions: &Vec<(Vec3, i64)>,
        orbit_radii: &Vec<i64>,
    ) -> (r: bool)
        requires
            v3_in(position@, FX_WORLD as int),
            forall|i: int|
                0 <= i < planet_positions@.len() ==> v3_in(
                    (#[trigger] planet_positions@[i].0)@,
                    FX_WORLD as int,
                ) && 0 <= planet_positions@[i].1 <= FX_WORLD,
            forall|j: int| 0 <= j < orbit_radii@.len() ==> 0 <= #[trigger] orbit_radii@[j] <= FX_WORLD,
        ensures
            r == danger_zone_s(position@, planet_positions@, orbit_radii@),
    {
        let n = planet_positions.len();
        let mut i: usize = 0;
        while i < n
            invariant
                0 <= i <= n,
                n == planet_positions@.len(),
                v3_in(position@, FX_WORLD as int),
                forall|k: int|
                    0 <= k < planet_positions@.len() ==> v3_in(
                        (#[trigger] planet_positions@[k].0)@,
                        FX_WORLD as int,
                    ) && 0 <= planet_positions@[k].1 <= FX_WORLD,
                forall|k: int|
                    0 <= k < i ==> !near_planet_s(
                        position@,
                        ((#[trigger] planet_positions@[k].0)@, planet_positions@[k].1 as int),
                    ),
            decreases n - i,
        {
            let (planet_pos, planet_radius) = planet_positions[i];
            if crate::collision::check_sphere_collision(position, planet_radius, planet_pos,
                planet_radius) {
                return true;
            }
            i = i + 1;
        }
        let radial = radial_distance(&position);
        let height = crate::fixed::fx_abs(position.y);
        let m = orbit_radii.len();
        let mut j: usize = 0;
        while j < m
            invariant
                0 <= j <= m,
                m == orbit_radii@.len(),
                height == iabs(position@.1),
                radial as int == sqrt_floor(position@.0 * position@.0 + position@.2 * position@.2),
                0 <= radial <= 0x100_0000_0000,
                forall|k: int| 0 <= k < orbit_radii@.len() ==> 0 <= #[trigger] orbit_radii@[k] <= FX_WORLD,
                forall|k: int| 0 <= k < j ==> !near_orbit_s(position@, #[trigger] orbit_radii@[k] as int),
            decreases m - j,
        {
            let orbit_radius = orbit_radii[j];
            let gap = if radial >= orbit_radius {
                radial - orbit_radius
            } else {
                orbit_radius - radial
            };
            if height < FX_ONE && gap < FX_HALF {
                return true;
            }
            j = j + 1;
        }
        false
    }

    /// The relocation the monitor would propose from `position`,
    /// exactly as `safe_position_s`: five units straight up if that
    /// clears every planet by three radii, else the last known safe
    /// position.
    pub fn calculate_safe_position(
        &self,
        current_position: Vec3,
        planet_positions: &Vec<(Vec3, i64)>,
    ) -> (r: Vec3)
        requires
            monitor_wf(self@),
            v3_in(current_position@, FX_WORLD as int),
            forall|i: int|
                0 <= i < planet_positions@.len() ==> v3_in(
                    (#[trigger] planet_positions@[i].0)@,
                    FX_WORLD as int,
                ) && 0 <= planet_positions@[i].1 <= FX_WORLD,
        ensures
            r@ == safe_position_s(self@, current_position@, planet_positions@),
            v3_in(r@, 2 * FX_WORLD as int),
    {
        let elevated = current_position.add(&Vec3::new(0, RELOCATE_RISE, 0));
        let n = planet_positions.len();
        let mut i: usize = 0;
        let mut is_safe = true;
        while i < n
            invariant
                0 <= i <= n,
                n == planet_positions@.len(),
                elevated@ == v3_add(current_position@, (0int, RELOCATE_RISE as int, 0int)),
                v3_in(current_position@, FX_WORLD as int),
                forall|k: int|
                    0 <= k < planet_positions@.len() ==> v3_in(
                        (#[trigger] planet_positions@[k].0)@,
                        FX_WORLD as int,
                    ) && 0 <= planet_positions@[k].1 <= FX_WORLD,
                is_safe <==> (forall|k: int|
                    0 <= k < i ==> v3_norm_sq(v3_sub(elevated@, (#[trigger] planet_positions@[k].0)@))
                        >= (3 * planet_positions@[k].1 as int) * (3 * planet_positions@[k].1 as int)),
            decreases n - i,
        {
            let (planet_pos, planet_radius) = planet_positions[i];
            let d = elevated.sub(&planet_pos);
            let dsq = d.norm_sq();
            let limit = 3 * planet_radius;
            proof {
                assert((limit as int) * (limit as int) <= 9 * (FX_WORLD as int) * (
                FX_WORLD as int)) by (nonlinear_arith)
                    requires
                        0 <= limit <= 3 * (FX_WORLD as int),
                ;
            }
            let limit_sq = (limit as u128) * (limit as u128);
            if dsq < limit_sq {
                is_safe = false;
            }
            i = i + 1;
        }
        if is_safe {
            elevated
        } else {
            self.last_safe_position
        }
    }
}

/// The radial (XZ-plane) distance of a position from the world origin,
/// as the floor of the real distance.
fn radial_distance(position: &Vec3) -> (r: i64)
    requires
        v3_in(position@, FX_WORLD as int),
    ensures
        r as int == sqrt_floor(position@.0 * position@.0 + position@.2 * position@.2),
        0 <= r <= 0x100_0000_0000,
{
    let flat = Vec3::new(position.x, 0, position.z);
    proof {
        assert(v3_norm_sq(flat@) == position@.0 * position@.0 + position@.2 * position@.2);
    }
    flat.norm()
}

/// Three consecutive hazardous frames yield no relocation; the fourth
/// yields one and resets the counter to zero. Stated over the monitor's
/// frame transition, for any four hazardous positions.
pub proof fn lemma_fourth_hazard_relocates(
    m0: MonitorModel,
    p1: (int, int, int),
    p2: (int, int, int),
    p3: (int, int, int),
    p4: (int, int, int),
    planets: Seq<(Vec3, i64)>,
    orbits: Seq<i64>,
)
    requires
        m0.counter == 0,
        danger_zone_s(p1, planets, orbits),
        danger_zone_s(p2, planets, orbits),
        danger_zone_s(p3, planets, orbits),
        danger_zone_s(p4, planets, orbits),
    ensures
        ({
            let (m1, r1) = monitor_step_s(m0, p1, planets, orbits);
            let (m2, r2) = monitor_step_s(m1, p2, planets, orbits);
            let (m3, r3) = monitor_step_s(m2, p3, planets, orbits);
            let (m4, r4) = monitor_step_s(m3, p4, planets, orbits);
            r1 is None && r2 is None && r3 is None && r4 is Some && m4.counter == 0
        }),
{
}

} // verus!
