//! The solar system model.
//!
//! One star fixed at the origin plus an ordered catalog of eight
//! planets, one of which owns a satellite. `update` advances the star's
//! spin and ticks every planet; the queries expose bodies by index and
//! by name, and the per-frame position and orbit lists the hazard
//! monitor consumes.

use vstd::prelude::*;

verus! {

use crate::fixed::{
    fx_mul, fx_mul_s, lemma_fx_mul_abs_mono, wrap_angle, wrap_angle_s, FX_SPEED_MAX, FX_WORLD,
};
use crate::orbit::OrbitParams;
use crate::planet::{tick_rel, Planet};
use crate::vec3::Vec3;

/// The star's spin rate (a tenth of a radian per second, fixed point).
pub const SUN_SPIN: i64 = 6554;

/// The whole simulated system: the star and the planet catalog.
pub struct SolarSystem {
    /// The star: fixed at the origin, spinning.
    pub sun: Planet,
    /// The planets, in catalog order; each may own satellites.
    pub planets: Vec<Planet>,
}

/// One catalog entry has the given identity, size and motion.
pub open spec fn entry_ok(
    p: Planet,
    name: Seq<char>,
    shader: Seq<char>,
    scale: int,
    radius: int,
    speed: int,
    inclination: int,
    initial_angle: int,
    rotation_speed: int,
) -> bool {
    &&& p.name@ == name
    &&& p.shader_type@ == shader
    &&& p.scale == scale
    &&& p.orbit == (OrbitParams {
        radius: radius as i64,
        speed: speed as i64,
        inclination: inclination as i64,
        initial_angle: initial_angle as i64,
    })
    &&& p.orbit_angle == initial_angle
    &&& p.rotation_speed == rotation_speed
}

/// The fixed catalog: eight planets from Mercury out to Neptune, in
/// order, with the moon as the third planet's one satellite.
pub open spec fn catalog_ok(ps: Seq<Planet>) -> bool {
    &&& ps.len() == 8
    &&& entry_ok(ps[0], "Mercurio"@, "rocky_mars"@, 24904, 196608, 65536, 0, 0, 131072)
    &&& entry_ok(ps[1], "Venus"@, "rocky_earth"@, 62259, 327680, 45875, 0, 61766, 98304)
    &&& entry_ok(ps[2], "Tierra"@, "rocky_earth"@, 65536, 491520, 32768, 0, 144121, 65536)
    &&& ps[2].satellites@.len() == 1
    &&& entry_ok(ps[2].satellites@[0], "Luna"@, "moon"@, 17695, 98304, 196608, 0, 0, 32768)
    &&& entry_ok(ps[3], "Marte"@, "rocky_mars"@, 34734, 655360, 22938, 0, 226476, 62259)
    &&& entry_ok(ps[4], "J\u{fa}piter"@, "gas_jupiter"@, 117965, 917504, 9830, 0, 308831, 163840)
    &&& entry_ok(ps[5], "Saturno"@, "gas_saturn"@, 98304, 1179648, 6554, 0, 370597, 150733)
    &&& entry_ok(ps[6], "Urano"@, "ice_neptune"@, 65536, 1441792, 5243, 6554, 41177, 117965)
    &&& entry_ok(ps[7], "Neptuno"@, "ice_neptune"@, 62259, 1703936, 3277, 3277, 185298, 111411)
    &&& ps[0].satellites@.len() == 0
    &&& ps[1].satellites@.len() == 0
    &&& ps[3].satellites@.len() == 0
    &&& ps[4].satellites@.len() == 0
    &&& ps[5].satellites@.len() == 0
    &&& ps[6].satellites@.len() == 0
    &&& ps[7].satellites@.len() == 0
}

impl SolarSystem {
    /// A well-formed system: the star sits on the zero orbit and every
    /// body is well-formed.
    pub open spec fn wf(self) -> bool {
        &&& self.sun.wf()
        &&& self.sun.orbit.radius == 0
        &&& forall|i: int| 0 <= i < self.planets@.len() ==> (#[trigger] self.planets@[i]).wf()
    }

    /// The system at its start: the star and the eight-planet catalog.
    pub fn new() -> (r: SolarSystem)
        ensures
            r.wf(),
            catalog_ok(r.planets@),
            r.sun.name@ == "Sol"@,
            r.sun.shader_type@ == "sun"@,
            r.sun.scale == 131072,
            r.sun.position@ == (0int, 0int, 0int),
            r.sun.rotation@ == (0int, 0int, 0int),
            r.sun.rotation_speed == 0,
            r.sun.orbit_angle == 0,
            r.sun.satellites@.len() == 0,
            r.sun.orbit == (OrbitParams { radius: 0, speed: 0, inclination: 0, initial_angle: 0 }),
    {
        let sun = Planet::new("Sol", "sun", 131072, OrbitParams::default(), 0);
        proof {
            crate::fixed::lemma_fx_mul_zero(crate::trig::cos_s(0));
            crate::fixed::lemma_fx_mul_zero(crate::trig::sin_s(0));
            assert(fx_mul_s(crate::trig::cos_s(0), 0) == fx_mul_s(0, crate::trig::cos_s(0)));
            assert(fx_mul_s(crate::trig::sin_s(0), 0) == fx_mul_s(0, crate::trig::sin_s(0)));
            assert(fx_mul_s(0, crate::trig::sin_s(0)) == 0) by {
                assert(0int * crate::trig::sin_s(0) == 0);
            }
            assert(fx_mul_s(0, crate::trig::cos_s(0)) == 0) by {
                assert(0int * crate::trig::cos_s(0) == 0);
            }
        }
        let planets = Self::create_planets();
        SolarSystem { sun, planets }
    }

    /// The fixed catalog: eight named planets from Mercury out to
    /// Neptune, with the moon on the third.
    fn create_planets() -> (r: Vec<Planet>)
        ensures
            catalog_ok(r@),
            forall|i: int| 0 <= i < r@.len() ==> (#[trigger] r@[i]).wf(),
    {
        let mut planets: Vec<Planet> = Vec::new();

        planets.push(Planet::new("Mercurio", "rocky_mars", 24904,
            OrbitParams::new(196608, 65536).with_initial_angle(0), 131072));

        planets.push(Planet::new("Venus", "rocky_earth", 62259,
            OrbitParams::new(327680, 45875).with_initial_angle(61766), 98304));

        planets.push(Planet::new("Tierra", "rocky_earth", 65536,
            OrbitParams::new(491520, 32768).with_initial_angle(144121), 65536)
            .with_satellite(Planet::new("Luna", "moon", 17695,
                OrbitParams::new(98304, 196608), 32768)));

        planets.push(Planet::new("Marte", "rocky_mars", 34734,
            OrbitParams::new(655360, 22938).with_initial_angle(226476), 62259));

        planets.push(Planet::new("J\u{fa}piter", "gas_jupiter", 117965,
            OrbitParams::new(917504, 9830).with_initial_angle(308831), 163840));

        planets.push(Planet::new("Saturno", "gas_saturn", 98304,
            OrbitParams::new(1179648, 6554).with_initial_angle(370597), 150733));

        planets.push(Planet::new("Urano", "ice_neptune", 65536,
            OrbitParams::new(1441792, 5243).with_initial_angle(41177).with_inclination(6554),
            117965));

        planets.push(Planet::new("Neptuno", "ice_neptune", 62259,
            OrbitParams::new(1703936, 3277).with_initial_angle(185298).with_inclination(3277),
            111411));

        planets
    }

    /// Advances the whole system by one tick: the star's spin moves at
    /// its fixed rate and wraps, and every planet (with its satellites)
    /// ticks as `tick_rel` describes.
    pub fn update(&mut self, delta_time: i64)
        requires
            old(self).wf(),
            0 <= delta_time <= FX_WORLD,
        ensures
            final(self).wf(),
            final(self).sun.rotation@ == (
                old(self).sun.rotation@.0,
                wrap_angle_s(
                    old(self).sun.rotation@.1 + fx_mul_s(SUN_SPIN as int, delta_time as int),
                ),
                old(self).sun.rotation@.2,
            ),
            final(self).sun.position == old(self).sun.position,
            final(self).sun.orbit == old(self).sun.orbit,
            final(self).sun.orbit_angle == old(self).sun.orbit_angle,
            final(self).sun.name == old(self).sun.name,
            final(self).sun.shader_type == old(self).sun.shader_type,
            final(self).sun.rotation_speed == old(self).sun.rotation_speed,
            final(self).sun.scale == old(self).sun.scale,
            final(self).sun.satellites == old(self).sun.satellites,
            final(self).planets@.len() == old(self).planets@.len(),
            forall|i: int|
                0 <= i < old(self).planets@.len() ==> tick_rel(
                    #[trigger] old(self).planets@[i],
                    final(self).planets@[i],
                    delta_time as int,
                    (0int, 0int, 0int),
                ),
    {
        proof {
            lemma_fx_mul_abs_mono(
                SUN_SPIN as int,
                delta_time as int,
                FX_SPEED_MAX as int,
                FX_WORLD as int,
            );
        }
        let spun = wrap_angle(self.sun.rotation.y + fx_mul(SUN_SPIN, delta_time));
        self.sun.rotation = Vec3::new(self.sun.rotation.x, spun, self.sun.rotation.z);
        let ghost pre_planets = self.planets@;
        let mut pending: Vec<Planet> = Vec::new();
        core::mem::swap(&mut self.planets, &mut pending);
        let mut done: Vec<Planet> = Vec::new();
        while pending.len() > 0
            invariant
                0 <= delta_time <= FX_WORLD,
                done@.len() + pending@.len() == pre_planets.len(),
                forall|j: int| 0 <= j < pending@.len() ==> pending@[j] == pre_planets[done@.len() + j],
                forall|j: int| 0 <= j < pre_planets.len() ==> (#[trigger] pre_planets[j]).wf(),
                forall|j: int|
                    0 <= j < done@.len() ==> tick_rel(
                        #[trigger] pre_planets[j],
                        done@[j],
                        delta_time as int,
                        (0int, 0int, 0int),
                    ) && done@[j].wf(),
            decreases pending@.len(),
        {
            let mut p = pending.remove(0);
            proof {
                assert(p == pre_planets[done@.len() as int]);
                assert(p.wf());
            }
            p.update(delta_time);
            done.push(p);
        }
        self.planets = done;
        proof {
            assert forall|i: int| 0 <= i < self.planets@.len() implies (
            #[trigger] self.planets@[i]).wf() by {
                assert(tick_rel(pre_planets[i], done@[i], delta_time as int, (0int, 0int, 0int))
                    && done@[i].wf());
            }
        }
    }

    /// The planet at `index`, if the index is within the catalog.
    pub fn get_planet(&self, index: usize) -> (r: Option<&Planet>)
        ensures
            index < self.planets@.len() ==> (match r {
                Some(p) => *p == self.planets@[index as int],
                None => false,
            }),
            index >= self.planets@.len() ==> r is None,
    {
        if index < self.planets.len() {
            Some(&self.planets[index])
        } else {
            None
        }
    }

    /// The planet at `index`, mutably, if the index is within the
    /// catalog; absence means exactly that the index is out of range.
    pub fn get_planet_mut(&mut self, index: usize) -> (r: Option<&mut Planet>)
        ensures
            index < old(self).planets@.len() <==> r is Some,
    {
        if index < self.planets.len() {
            Some(&mut self.planets[index])
        } else {
            None
        }
    }

    /// How many planets the catalog holds.
    pub fn planet_count(&self) -> (r: usize)
        ensures
            r == self.planets@.len(),
    {
        self.planets.len()
    }

    /// The first planet whose name matches exactly, with its index;
    /// absent when no name matches.
    pub fn find_planet_by_name(&self, name: &str) -> (r: Option<(usize, &Planet)>)
        ensures
            match r {
                Some((i, p)) => {
                    &&& i < self.planets@.len()
                    &&& self.planets@[i as int].name@ == name@
                    &&& *p == self.planets@[i as int]
                    &&& forall|j: int| 0 <= j < i ==> (#[trigger] self.planets@[j]).name@ != name@
                },
                None => forall|j: int|
                    0 <= j < self.planets@.len() ==> (#[trigger] self.planets@[j]).name@ != name@,
            },
    {
        let wanted = name.to_owned();
        let n = self.planets.len();
        let mut i: usize = 0;
        while i < n
            invariant
                0 <= i <= n,
                n == self.planets@.len(),
                wanted@ == name@,
                forall|j: int| 0 <= j < i ==> (#[trigger] self.planets@[j]).name@ != name@,
            decreases n - i,
        {
            if self.planets[i].name == wanted {
                return Some((i, &self.planets[i]));
            }
            i = i + 1;
        }
        None
    }

    /// The current world position of every planet, in catalog order.
    pub fn get_all_planet_positions(&self) -> (r: Vec<Vec3>)
        ensures
            r@.len() == self.planets@.len(),
            forall|i: int|
                0 <= i < r@.len() ==> r@[i] == (#[trigger] self.planets@[i]).position,
    {
        let n = self.planets.len();
        let mut out: Vec<Vec3> = Vec::new();
        let mut i: usize = 0;
        while i < n
            invariant
                0 <= i <= n,
                n == self.planets@.len(),
                out@.len() == i,
                forall|j: int| 0 <= j < i ==> out@[j] == (#[trigger] self.planets@[j]).position,
            decreases n - i,
        {
            out.push(self.planets[i].position);
            i = i + 1;
        }
        out
    }

    /// The orbit radius and inclination of every planet, in catalog
    /// order; the hazard monitor reads the radii.
    pub fn get_all_orbits(&self) -> (r: Vec<(i64, i64)>)
        ensures
            r@.len() == self.planets@.len(),
            forall|i: int|
                0 <= i < r@.len() ==> r@[i] == ((#[trigger] self.planets@[i]).orbit.radius,
                self.planets@[i].orbit.inclination),
    {
        let n = self.planets.len();
        let mut out: Vec<(i64, i64)> = Vec::new();
        let mut i: usize = 0;
        while i < n
            invariant
                0 <= i <= n,
                n == self.planets@.len(),
                out@.len() == i,
                forall|j: int|
                    0 <= j < i ==> out@[j] == ((#[trigger] self.planets@[j]).orbit.radius,
                    self.planets@[j].orbit.inclination),
            decreases n - i,
        {
            out.push((self.planets[i].orbit.radius, self.planets[i].orbit.inclination));
            i = i + 1;
        }
        out
    }
}

impl Default for SolarSystem {
    /// Same as `new`: the catalog at its start.
    fn default() -> (r: SolarSystem)
        ensures
            r.wf(),
            catalog_ok(r.planets@),
            r.sun.name@ == "Sol"@,
            r.sun.shader_type@ == "sun"@,
            r.sun.scale == 131072,
            r.sun.position@ == (0int, 0int, 0int),
            r.sun.rotation@ == (0int, 0int, 0int),
            r.sun.rotation_speed == 0,
            r.sun.orbit_angle == 0,
            r.sun.satellites@.len() == 0,
            r.sun.orbit == (OrbitParams { radius: 0, speed: 0, inclination: 0, initial_angle: 0 }),
    {
        SolarSystem::new()
    }
}

} // verus!
