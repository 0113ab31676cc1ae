//! Sphere overlap tests and push-out resolution.
//!
//! The overlap test compares squared distances, so it is exact: it
//! holds precisely when the real distance between the centers is below
//! the sum of the radii.

use vstd::prelude::*;

verus! {

use crate::fixed::{fx_mul_s, iabs, lemma_fx_mul_bound, tdiv, FX_ONE, FX_WORLD};
use crate::vec3::{v3_add, v3_in, v3_norm, v3_norm_sq, v3_scale, v3_sub, v3_unit, Vec3};

/// Whether two spheres overlap: the squared distance between the
/// centers is below the square of the summed radii.
pub open spec fn sphere_overlap_s(a: (int, int, int), ra: int, b: (int, int, int), rb: int) -> bool {
    v3_norm_sq(v3_sub(a, b)) < (ra + rb) * (ra + rb)
}

/// Where resolution pushes the first sphere: out from the second
/// center, along the unit separating direction, by the summed radii.
pub open spec fn resolve_s(a: (int, int, int), ra: int, b: (int, int, int), rb: int) -> (
    int,
    int,
    int,
) {
    v3_add(b, v3_scale(v3_unit(v3_sub(a, b)), ra + rb))
}

/// True iff the spheres overlap, exactly as `sphere_overlap_s`.
pub fn check_sphere_collision(pos1: Vec3, radius1: i64, pos2: Vec3, radius2: i64) -> (r: bool)
    requires
        v3_in(pos1@, FX_WORLD as int),
        v3_in(pos2@, FX_WORLD as int),
        0 <= radius1 <= FX_WORLD,
        0 <= radius2 <= FX_WORLD,
    ensures
        r == sphere_overlap_s(pos1@, radius1 as int, pos2@, radius2 as int),
{
    let d = pos1.sub(&pos2);
    let nsq = d.norm_sq();
    let rr = radius1 + radius2;
    proof {
        assert((rr as int) * (rr as int) <= 4 * (FX_WORLD as int) * (FX_WORLD as int))
            by (nonlinear_arith)
            requires
                0 <= rr <= 2 * (FX_WORLD as int),
        ;
    }
    let rr2 = (rr as u128) * (rr as u128);
    nsq < rr2
}

/// Pushes the first sphere out of the second: the result sits out from
/// `pos2` along the unit direction toward `pos1`, at the summed radii,
/// exactly as `resolve_s`. The centers must be separated.
pub fn resolve_sphere_collision(pos1: Vec3, radius1: i64, pos2: Vec3, radius2: i64) -> (r: Vec3)
    requires
        v3_in(pos1@, FX_WORLD as int),
        v3_in(pos2@, FX_WORLD as int),
        0 <= radius1 <= FX_WORLD,
        0 <= radius2 <= FX_WORLD,
        pos1@ != pos2@,
    ensures
        r@ == resolve_s(pos1@, radius1 as int, pos2@, radius2 as int),
{
    let d = pos1.sub(&pos2);
    let u = d.unit();
    let rr = radius1 + radius2;
    let offset = u.scale(rr);
    proof {
        assert(fx_mul_s(u@.0, rr as int) == fx_mul_s(rr as int, u@.0));
        assert(fx_mul_s(u@.1, rr as int) == fx_mul_s(rr as int, u@.1));
        assert(fx_mul_s(u@.2, rr as int) == fx_mul_s(rr as int, u@.2));
        lemma_fx_mul_bound(rr as int, u@.0, 2 * FX_WORLD as int);
        lemma_fx_mul_bound(rr as int, u@.1, 2 * FX_WORLD as int);
        lemma_fx_mul_bound(rr as int, u@.2, 2 * FX_WORLD as int);
    }
    pos2.add(&offset)
}

/// Along an axis the resolution is exact: when the two centers differ
/// only in their X coordinate, the resolved position sits at distance
/// exactly the summed radii from the second center, on the side the
/// first center was on.
pub proof fn lemma_resolve_axis_exact(a: (int, int, int), ra: int, b: (int, int, int), rb: int)
    requires
        a.1 == b.1,
        a.2 == b.2,
        a.0 != b.0,
        0 <= ra,
        0 <= rb,
    ensures
        a.0 > b.0 ==> resolve_s(a, ra, b, rb) == (b.0 + ra + rb, b.1, b.2),
        a.0 < b.0 ==> resolve_s(a, ra, b, rb) == (b.0 - (ra + rb), b.1, b.2),
        v3_norm_sq(v3_sub(resolve_s(a, ra, b, rb), b)) == (ra + rb) * (ra + rb),
{
    let d = v3_sub(a, b);
    let dx = d.0;
    assert(v3_norm_sq(d) == dx * dx);
    assert(iabs(dx) * iabs(dx) <= dx * dx < (iabs(dx) + 1) * (iabs(dx) + 1)) by (nonlinear_arith)
        requires
            dx != 0,
    ;
    crate::fixed::lemma_sqrt_floor_unique(dx * dx, iabs(dx));
    assert(v3_norm(d) == iabs(dx));
    vstd::arithmetic::div_mod::lemma_div_multiples_vanish(FX_ONE as int, iabs(dx));
    assert(iabs(dx) * FX_ONE == FX_ONE * iabs(dx));
    if dx > 0 {
        assert(v3_unit(d) == (FX_ONE as int, 0int, 0int)) by {
            assert(tdiv(dx * FX_ONE, iabs(dx)) == FX_ONE);
            vstd::arithmetic::div_mod::lemma_div_of0(iabs(dx));
            assert(tdiv(0 * FX_ONE, iabs(dx)) == 0);
        }
        crate::fixed::lemma_fx_mul_one(ra + rb);
        assert(fx_mul_s(FX_ONE as int, ra + rb) == fx_mul_s(ra + rb, FX_ONE as int));
        crate::fixed::lemma_fx_mul_zero(ra + rb);
        assert(fx_mul_s(0, ra + rb) == fx_mul_s(ra + rb, 0));
    } else {
        assert(v3_unit(d) == (-FX_ONE as int, 0int, 0int)) by {
            assert(tdiv(dx * FX_ONE, iabs(dx)) == -FX_ONE) by {
                assert(dx * FX_ONE == -((-dx) * FX_ONE));
            }
            vstd::arithmetic::div_mod::lemma_div_of0(iabs(dx));
            assert(tdiv(0 * FX_ONE, iabs(dx)) == 0);
        }
        crate::fixed::lemma_fx_mul_one(ra + rb);
        assert(fx_mul_s(-FX_ONE as int, ra + rb) == -(ra + rb)) by {
            assert((-FX_ONE as int) * (ra + rb) == -((ra + rb) * FX_ONE));
            vstd::arithmetic::div_mod::lemma_div_multiples_vanish(ra + rb, FX_ONE as int);
        }
        crate::fixed::lemma_fx_mul_zero(ra + rb);
        assert(fx_mul_s(0, ra + rb) == fx_mul_s(ra + rb, 0));
    }
    let res = resolve_s(a, ra, b, rb);
    let rx = res.0 - b.0;
    assert(rx == ra + rb || rx == -(ra + rb));
    assert(res.1 - b.1 == 0 && res.2 - b.2 == 0);
    assert(v3_norm_sq(v3_sub(res, b)) == rx * rx);
    assert(rx * rx == (ra + rb) * (ra + rb)) by (nonlinear_arith)
        requires
            rx == ra + rb || rx == -(ra + rb),
    ;
}

} // verus!
