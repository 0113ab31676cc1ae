//! The per-frame render export.
//!
//! After a tick settles, the renderer needs, per visible body, its
//! world position, Euler rotation, uniform scale and material tag.
//! `render` assembles that export with the distance culling the frame
//! loop applies: the star is drawn only from outside three times its
//! scale, a planet from outside two and a half, a satellite (only when
//! its parent is drawn) from outside one and a half. Every distance
//! test compares squared lengths, so it is exact.

use vstd::prelude::*;

verus! {

use crate::planet::Planet;
use crate::solar_system::SolarSystem;
use crate::vec3::{v3_in, v3_norm_sq, v3_sub, Vec3};
use crate::fixed::FX_WORLD;

/// What the renderer needs to draw one body.
pub struct RenderItem {
    /// Opaque material tag.
    pub shader: String,
    /// World position.
    pub position: Vec3,
    /// Euler rotation.
    pub rotation: Vec3,
    /// Uniform scale.
    pub scale: i64,
}

/// The export for one frame: the star if drawn, and one slot per
/// catalog planet, each with one slot per satellite.
pub struct RenderFrame {
    /// The star's item, absent when the eye is too close.
    pub sun: Option<RenderItem>,
    /// One slot per planet, in catalog order; absent when culled.
    pub planets: Vec<Option<RenderItem>>,
    /// One row per planet, one slot per satellite; all absent when the
    /// parent planet is culled.
    pub satellites: Vec<Vec<Option<RenderItem>>>,
}

/// Whether the star is drawn: the eye is farther from it than three
/// times its scale.
pub open spec fn sun_visible_s(eye: (int, int, int), sun: Planet) -> bool {
    v3_norm_sq(v3_sub(eye, sun.position@)) > (3 * sun.scale) * (3 * sun.scale)
}

/// Whether a planet is drawn: the eye is farther from it than two and
/// a half times its scale.
pub open spec fn planet_visible_s(eye: (int, int, int), p: Planet) -> bool {
    4 * v3_norm_sq(v3_sub(eye, p.position@)) > (5 * p.scale) * (5 * p.scale)
}

/// Whether a satellite is drawn (given a drawn parent): the eye is
/// farther from it than one and a half times its scale.
pub open spec fn satellite_visible_s(eye: (int, int, int), p: Planet) -> bool {
    4 * v3_norm_sq(v3_sub(eye, p.position@)) > (3 * p.scale) * (3 * p.scale)
}

/// The item a body exports: its tag, transform and scale.
pub open spec fn item_of_s(it: RenderItem, p: Planet) -> bool {
    &&& it.shader@ == p.shader_type@
    &&& it.position == p.position
    &&& it.rotation == p.rotation
    &&& it.scale == p.scale
}

/// All body positions of the system lie within `m` per component.
pub open spec fn positions_in_s(system: SolarSystem, m: int) -> bool {
    &&& v3_in(system.sun.position@, m)
    &&& forall|i: int|
        0 <= i < system.planets@.len() ==> v3_in((#[trigger] system.planets@[i]).position@, m)
    &&& forall|i: int, j: int|
        #![trigger system.planets@[i].satellites@[j]]
        0 <= i < system.planets@.len() && 0 <= j < system.planets@[i].satellites@.len() ==> v3_in(
            system.planets@[i].satellites@[j].position@,
            m,
        )
}

/// True iff every component of the position lies within the frame
/// export's coordinate bound.
fn position_bounded(v: &Vec3) -> (r: bool)
    ensures
        r == v3_in(v@, 4 * FX_WORLD as int),
{
    let lim: i64 = 4 * FX_WORLD;
    !(v.x < -lim || v.x > lim || v.y < -lim || v.y > lim || v.z < -lim || v.z > lim)
}

/// True iff every body position of the system lies within the bound
/// the frame export requires — exactly the condition `render` asks of
/// its callers.
pub fn positions_bounded(system: &SolarSystem) -> (r: bool)
    ensures
        r == positions_in_s(*system, 4 * FX_WORLD as int),
{
    if !position_bounded(&system.sun.position) {
        return false;
    }
    let n = system.planets.len();
    let mut i: usize = 0;
    while i < n
        invariant
            n == system.planets@.len(),
            0 <= i <= n,
            v3_in(system.sun.position@, 4 * FX_WORLD as int),
            forall|a: int|
                0 <= a < i ==> v3_in((#[trigger] system.planets@[a]).position@, 4 * FX_WORLD as int),
            forall|a: int, b: int|
                #![trigger system.planets@[a].satellites@[b]]
                0 <= a < i && 0 <= b < system.planets@[a].satellites@.len() ==> v3_in(
                    system.planets@[a].satellites@[b].position@,
                    4 * FX_WORLD as int,
                ),
        decreases n - i,
    {
        let p = &system.planets[i];
        if !position_bounded(&p.position) {
            return false;
        }
        let m = p.satellites.len();
        let mut j: usize = 0;
        while j < m
            invariant
                n == system.planets@.len(),
                0 <= i < n,
                p == &system.planets@[i as int],
                m == p.satellites@.len(),
                0 <= j <= m,
                forall|b: int|
                    0 <= b < j ==> v3_in(
                        (#[trigger] system.planets@[i as int].satellites@[b]).position@,
                        4 * FX_WORLD as int,
                    ),
            decreases m - j,
        {
            let sat = &p.satellites[j];
            if !position_bounded(&sat.position) {
                proof {
                    assert(*sat == system.planets@[i as int].satellites@[j as int]);
                }
                return false;
            }
            j = j + 1;
        }
        i = i + 1;
    }
    true
}

/// Builds one body's export item.
fn item_for(p: &Planet) -> (it: RenderItem)
    ensures
        item_of_s(it, *p),
{
    RenderItem {
        shader: p.shader_type.clone(),
        position: p.position,
        rotation: p.rotation,
        scale: p.scale,
    }
}

/// Whether the eye at `eye` draws a body of scale `scale` at
/// `position`, testing `num/den` times the scale against the distance,
/// exactly: true iff `den^2 * |eye - position|^2 > (num * scale)^2`.
fn further_than(eye: &Vec3, position: &Vec3, scale: i64, num: i64, den: i64) -> (r: bool)
    requires
        v3_in(eye@, 4 * FX_WORLD as int),
        v3_in(position@, 4 * FX_WORLD as int),
        0 < scale <= FX_WORLD,
        1 <= num <= 8,
        1 <= den <= 2,
    ensures
        r == ((den * den) * v3_norm_sq(v3_sub(eye@, position@)) > (num * scale) * (num * scale)),
{
    let d = eye.sub(position);
    let dsq = d.norm_sq();
    proof {
        assert(0 <= num * scale <= 8 * (FX_WORLD as int)) by (nonlinear_arith)
            requires
                0 < scale <= FX_WORLD as int,
                1 <= num <= 8,
        ;
        assert(1 <= den * den <= 4) by (nonlinear_arith)
            requires
                1 <= den <= 2,
        ;
    }
    let ns = num * scale;
    proof {
        assert((ns as int) * (ns as int) <= 64 * (FX_WORLD as int) * (FX_WORLD as int))
            by (nonlinear_arith)
            requires
                0 <= ns <= 8 * (FX_WORLD as int),
        ;
    }
    let ns2 = (ns as u128) * (ns as u128);
    let dd = (den * den) as u128;
    proof {
        assert((dd as int) * (dsq as int) < 0x400_0000_0000_0000_0000_0000) by (nonlinear_arith)
            requires
                0 <= dd <= 4,
                dsq < 0x1_0000_0000_0000_0000_0000u128,
        ;
    }
    dd * dsq > ns2
}

/// The frame's render export: exactly the star, planets and satellites
/// the culling rules draw, each carrying its current transform, scale
/// and tag.
pub fn render(system: &SolarSystem, eye: Vec3) -> (r: RenderFrame)
    requires
        system.wf(),
        v3_in(eye@, 4 * FX_WORLD as int),
        positions_in_s(*system, 4 * FX_WORLD as int),
    ensures
        match r.sun {
            Some(it) => sun_visible_s(eye@, system.sun) && item_of_s(it, system.sun),
            None => !sun_visible_s(eye@, system.sun),
        },
        r.planets@.len() == system.planets@.len(),
        forall|i: int|
            0 <= i < system.planets@.len() ==> (match #[trigger] r.planets@[i] {
                Some(it) => planet_visible_s(eye@, system.planets@[i]) && item_of_s(
                    it,
                    system.planets@[i],
                ),
                None => !planet_visible_s(eye@, system.planets@[i]),
            }),
        r.satellites@.len() == system.planets@.len(),
        forall|i: int|
            0 <= i < system.planets@.len() ==> (#[trigger] r.satellites@[i])@.len()
                == system.planets@[i].satellites@.len(),
        forall|i: int, j: int|
            #![trigger r.satellites@[i]@[j]]
            0 <= i < system.planets@.len() && 0 <= j < system.planets@[i].satellites@.len()
                ==> (match r.satellites@[i]@[j] {
                Some(it) => planet_visible_s(eye@, system.planets@[i]) && satellite_visible_s(
                    eye@,
                    system.planets@[i].satellites@[j],
                ) && item_of_s(it, system.planets@[i].satellites@[j]),
                None => !(planet_visible_s(eye@, system.planets@[i]) && satellite_visible_s(
                    eye@,
                    system.planets@[i].satellites@[j],
                )),
            }),
{
    let sun = if further_than(&eye, &system.sun.position, system.sun.scale, 3, 1) {
        Some(item_for(&system.sun))
    } else {
        None
    };
    let n = system.planets.len();
    let mut planets: Vec<Option<RenderItem>> = Vec::new();
    let mut satellites: Vec<Vec<Option<RenderItem>>> = Vec::new();
    let mut i: usize = 0;
    while i < n
        invariant
            system.wf(),
            v3_in(eye@, 4 * FX_WORLD as int),
            positions_in_s(*system, 4 * FX_WORLD as int),
            n == system.planets@.len(),
            0 <= i <= n,
            planets@.len() == i,
            satellites@.len() == i,
            forall|a: int|
                0 <= a < i ==> (match #[trigger] planets@[a] {
                    Some(it) => planet_visible_s(eye@, system.planets@[a]) && item_of_s(
                        it,
                        system.planets@[a],
                    ),
                    None => !planet_visible_s(eye@, system.planets@[a]),
                }),
            forall|a: int|
                0 <= a < i ==> (#[trigger] satellites@[a])@.len()
                    == system.planets@[a].satellites@.len(),
            forall|a: int, b: int|
                #![trigger satellites@[a]@[b]]
                0 <= a < i && 0 <= b < system.planets@[a].satellites@.len()
                    ==> (match satellites@[a]@[b] {
                    Some(it) => planet_visible_s(eye@, system.planets@[a]) && satellite_visible_s(
                        eye@,
                        system.planets@[a].satellites@[b],
                    ) && item_of_s(it, system.planets@[a].satellites@[b]),
                    None => !(planet_visible_s(eye@, system.planets@[a]) && satellite_visible_s(
                        eye@,
                        system.planets@[a].satellites@[b],
                    )),
                }),
        decreases n - i,
    {
        let p = &system.planets[i];
        let p_visible = further_than(&eye, &p.position, p.scale, 5, 2);
        if p_visible {
            planets.push(Some(item_for(p)));
        } else {
            planets.push(None);
        }
        let m = p.satellites.len();
        let mut row: Vec<Option<RenderItem>> = Vec::new();
        let mut j: usize = 0;
        while j < m
            invariant
                system.wf(),
                v3_in(eye@, 4 * FX_WORLD as int),
                positions_in_s(*system, 4 * FX_WORLD as int),
                n == system.planets@.len(),
                0 <= i < n,
                p == &system.planets@[i as int],
                p_visible == planet_visible_s(eye@, system.planets@[i as int]),
                m == p.satellites@.len(),
                0 <= j <= m,
                row@.len() == j,
                forall|b: int|
                    0 <= b < j ==> (match #[trigger] row@[b] {
                        Some(it) => planet_visible_s(eye@, system.planets@[i as int])
                            && satellite_visible_s(
                            eye@,
                            system.planets@[i as int].satellites@[b],
                        ) && item_of_s(it, system.planets@[i as int].satellites@[b]),
                        None => !(planet_visible_s(eye@, system.planets@[i as int])
                            && satellite_visible_s(
                            eye@,
                            system.planets@[i as int].satellites@[b],
                        )),
                    }),
            decreases m - j,
        {
            let sat = &p.satellites[j];
            proof {
                assert(*sat == system.planets@[i as int].satellites@[j as int]);
                assert(v3_in(sat.position@, 4 * FX_WORLD as int));
                assert(system.planets@[i as int].wf());
                assert(sat.wf());
            }
            if p_visible && further_than(&eye, &sat.position, sat.scale, 3, 2) {
                row.push(Some(item_for(sat)));
            } else {
                row.push(None);
            }
            j = j + 1;
        }
        satellites.push(row);
        i = i + 1;
    }
    RenderFrame { sun, planets, satellites }
}

} // verus!
