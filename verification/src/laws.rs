//! The laws the renderer obeys, stated and proved over the same
//! specifications that the executable functions are verified against.

use vstd::prelude::*;
use crate::camera::{spec_ray_color, spec_background, spec_black, spec_min_hit, spec_rows_match};
use crate::rng::{spec_hemisphere_from, spec_advance, spec_mix, spec_component_bits};
use crate::color::Color;
use crate::fixed::{
    Fx, FX_ONE, fxv, fx_add, fx_sub, fx_mul, fx_div, fx_sqrt, fx_neg, sat64, iabs, tdiv,
    lemma_fx_sqrt_props, lemma_fx_div_mono, lemma_fx_mul_unit, lemma_floor_sqrt_zero,
    lemma_fx_sqrt_one,
};
use crate::interval::Interval;
use crate::materials::{LambertianMaterial, MetalMaterial, DielectricMaterial, ScatterSample};
use crate::ray::Ray;
use crate::shapes::{Sphere, Group, HitRecord, Hittable, scan_hits};
use crate::vector::{Vec3, spec_neg_v, spec_fx_min};

verus! {

/// Bounce-budget exhaustion is a hard terminal: with no bounces left the
/// integrator returns black, whatever the scene, the ray and the generator
/// state.
pub proof fn lemma_depth_exhaustion_black<T: Hittable>(
    ray: Ray<Fx>,
    world: T,
    depth: int,
    state: u64,
)
    requires
        depth <= 0,
    ensures
        spec_ray_color(ray, world, depth, state).0 == spec_black(),
{
}

/// A ray that hits nothing in the scene resolves to the background
/// gradient, whatever the bounce budget and the generator state.
pub proof fn lemma_miss_gives_background<T: Hittable>(
    ray: Ray<Fx>,
    world: T,
    depth: int,
    state: u64,
)
    requires
        depth > 0,
        world.hit_spec(
            ray,
            Interval { min: fxv(spec_min_hit()), max: fxv(i64::MAX as int) },
        ) is None,
    ensures
        spec_ray_color(ray, world, depth, state).0 == spec_background(ray.spec_direction()),
{
}

/// Lambertian energy conservation: the material always scatters, and the
/// attenuation it returns is exactly its albedo, for every input.
pub proof fn lemma_lambertian_energy_conservation(
    m: LambertianMaterial,
    ray: Ray<Fx>,
    rec: HitRecord,
    s: ScatterSample,
)
    ensures
        m.scatter_model(ray, rec, s) is Some,
        m.scatter_model(ray, rec, s) matches Some(pair) ==> pair.1 == m.albedo,
{
}

/// The metal mirror law: the scattered direction is exactly the mirror
/// image `d - 2 (d . n) n` of the incoming direction about the normal, and
/// does not depend on the albedo: two metals scatter any ray identically.
pub proof fn lemma_metal_mirror_law(
    m1: MetalMaterial,
    m2: MetalMaterial,
    ray: Ray<Fx>,
    rec: HitRecord,
    s: ScatterSample,
)
    ensures
        m1.scatter_model(ray, rec, s) is Some,
        m1.scatter_model(ray, rec, s) matches Some(pair) ==> pair.0.spec_direction()
            == ray.spec_direction().spec_reflect(rec.normal),
        (m1.scatter_model(ray, rec, s)->0).0 == (m2.scatter_model(ray, rec, s)->0).0,
{
}

/// Rendering is a function of the camera, the scene and the seed alone:
/// two pixel grids produced by the same seeded configuration agree row for
/// row, byte for byte.
pub proof fn lemma_render_deterministic<T: Hittable>(
    cam: crate::camera::Camera,
    world: T,
    seed: u64,
    r1: Seq<Vec<Color>>,
    r2: Seq<Vec<Color>>,
)
    requires
        spec_rows_match(cam, world, seed, r1),
        spec_rows_match(cam, world, seed, r2),
    ensures
        forall|j: int| 0 <= j < cam.image_height ==> (#[trigger] r1[j])@ == r2[j]@,
{
}

/// Narrowing the upper bound of the search window keeps an accepted
/// parameter below the new bound, and rejects everything else; it never
/// invents a hit.
pub proof fn lemma_sphere_hit_narrow(s: Sphere, ray: Ray<Fx>, lo: Fx, hi: Fx, hi2: Fx)
    requires
        hi2@ <= hi@,
    ensures
        s.sp_chosen_t(ray, Interval { min: lo, max: hi }) is None ==> s.sp_chosen_t(
            ray,
            Interval { min: lo, max: hi2 },
        ) is None,
        s.sp_chosen_t(ray, Interval { min: lo, max: hi }) matches Some(t) ==> if t < hi2@ {
            s.sp_chosen_t(ray, Interval { min: lo, max: hi2 }) == Some(t)
        } else {
            s.sp_chosen_t(ray, Interval { min: lo, max: hi2 }) is None
        },
{
    if s.sp_disc(ray) >= 0 && s.sp_a(ray) != 0 {
        ray.spec_direction().lemma_mag_sq_nonneg();
        lemma_fx_sqrt_props(s.sp_disc(ray));
        assert(fx_sqrt(s.sp_disc(ray)) >= 0);
        assert(fx_sub(s.sp_h(ray), fx_sqrt(s.sp_disc(ray))) <= fx_add(
            s.sp_h(ray),
            fx_sqrt(s.sp_disc(ray)),
        ));
        lemma_fx_div_mono(
            fx_sub(s.sp_h(ray), fx_sqrt(s.sp_disc(ray))),
            fx_add(s.sp_h(ray), fx_sqrt(s.sp_disc(ray))),
            s.sp_a(ray),
        );
        assert(s.sp_near(ray) <= s.sp_far(ray));
    }
}

/// The scene's nearest-hit invariant, for two spheres: whichever order they
/// are inserted in, the search returns the intersection with the smaller
/// accepted parameter; where only one intersects, its record is returned.
pub proof fn lemma_nearest_hit_of_two(s1: Sphere, s2: Sphere, ray: Ray<Fx>, itv: Interval)
    ensures
        ({
            let a = s1.sp_chosen_t(ray, itv);
            let b = s2.sp_chosen_t(ray, itv);
            let r12 = scan_hits(seq![s1, s2], ray, itv.min, itv.max, None);
            let r21 = scan_hits(seq![s2, s1], ray, itv.min, itv.max, None);
            &&& (a is None && b is None) ==> r12 is None && r21 is None
            &&& (a is Some && b is None) ==> r12 == Some(s1.sp_record(ray, a->0)) && r21
                == Some(s1.sp_record(ray, a->0))
            &&& (a is None && b is Some) ==> r12 == Some(s2.sp_record(ray, b->0)) && r21
                == Some(s2.sp_record(ray, b->0))
            &&& (a is Some && b is Some) ==> r12 is Some && r21 is Some && (r12->0).t@
                == spec_fx_min(a->0, b->0) && (r21->0).t@ == spec_fx_min(a->0, b->0)
        }),
{
    let a = s1.sp_chosen_t(ray, itv);
    let b = s2.sp_chosen_t(ray, itv);
    let lo = itv.min;
    let whole = Interval { min: itv.min, max: itv.max };
    assert(whole == itv);
    let empty = Seq::<Sphere>::empty();
    assert(seq![s1, s2].drop_first() =~= seq![s2]);
    assert(seq![s2, s1].drop_first() =~= seq![s1]);
    assert(seq![s2].drop_first() =~= empty);
    assert(seq![s1].drop_first() =~= empty);
    match a {
        Some(ta) => {
            assert(itv.min@ < ta < itv.max@);
            let rec1 = s1.sp_record(ray, ta);
            assert(rec1.t == fxv(ta) && rec1.t@ == ta);
            assert(s1.hit_spec(ray, whole) == Some(rec1));
            let narrow1 = Interval { min: lo, max: fxv(ta) };
            assert(scan_hits(seq![s1, s2], ray, itv.min, itv.max, None) == scan_hits(
                seq![s2],
                ray,
                lo,
                fxv(ta),
                Some(rec1),
            ));
            match b {
                Some(tb) => {
                    assert(itv.min@ < tb < itv.max@);
                    let rec2 = s2.sp_record(ray, tb);
                    assert(rec2.t == fxv(tb) && rec2.t@ == tb);
                    assert(s2.hit_spec(ray, whole) == Some(rec2));
                    let narrow2 = Interval { min: lo, max: fxv(tb) };
                    assert(scan_hits(seq![s2, s1], ray, itv.min, itv.max, None) == scan_hits(
                        seq![s1],
                        ray,
                        lo,
                        fxv(tb),
                        Some(rec2),
                    ));
                    lemma_sphere_hit_narrow(s2, ray, lo, itv.max, fxv(ta));
                    lemma_sphere_hit_narrow(s1, ray, lo, itv.max, fxv(tb));
                    if tb < ta {
                        assert(s2.sp_chosen_t(ray, narrow1) == Some(tb));
                        assert(s2.hit_spec(ray, narrow1) == Some(rec2));
                        assert(scan_hits(seq![s2], ray, lo, fxv(ta), Some(rec1)) == scan_hits(
                            empty,
                            ray,
                            lo,
                            fxv(tb),
                            Some(rec2),
                        ));
                        assert(scan_hits(empty, ray, lo, fxv(tb), Some(rec2)) == Some(rec2));
                        assert(s1.sp_chosen_t(ray, narrow2) is None);
                        assert(s1.hit_spec(ray, narrow2) is None);
                        assert(scan_hits(seq![s1], ray, lo, fxv(tb), Some(rec2)) == scan_hits(
                            empty,
                            ray,
                            lo,
                            fxv(tb),
                            Some(rec2),
                        ));
                    } else {
                        assert(s2.sp_chosen_t(ray, narrow1) is None);
                        assert(s2.hit_spec(ray, narrow1) is None);
                        assert(scan_hits(seq![s2], ray, lo, fxv(ta), Some(rec1)) == scan_hits(
                            empty,
                            ray,
                            lo,
                            fxv(ta),
                            Some(rec1),
                        ));
                        assert(scan_hits(empty, ray, lo, fxv(ta), Some(rec1)) == Some(rec1));
                        if ta < tb {
                            assert(s1.sp_chosen_t(ray, narrow2) == Some(ta));
                            assert(s1.hit_spec(ray, narrow2) == Some(rec1));
                            assert(scan_hits(seq![s1], ray, lo, fxv(tb), Some(rec2))
                                == scan_hits(empty, ray, lo, fxv(ta), Some(rec1)));
                        } else {
                            assert(ta == tb);
                            assert(s1.sp_chosen_t(ray, narrow2) is None);
                            assert(s1.hit_spec(ray, narrow2) is None);
                            assert(scan_hits(seq![s1], ray, lo, fxv(tb), Some(rec2))
                                == scan_hits(empty, ray, lo, fxv(tb), Some(rec2)));
                        }
                    }
                },
                None => {
                    lemma_sphere_hit_narrow(s2, ray, lo, itv.max, fxv(ta));
                    assert(s2.sp_chosen_t(ray, narrow1) is None);
                    assert(s2.hit_spec(ray, narrow1) is None);
                    assert(scan_hits(seq![s2], ray, lo, fxv(ta), Some(rec1)) == scan_hits(
                        empty,
                        ray,
                        lo,
                        fxv(ta),
                        Some(rec1),
                    ));
                    assert(s2.hit_spec(ray, whole) is None);
                    assert(scan_hits(seq![s2, s1], ray, itv.min, itv.max, None) == scan_hits(
                        seq![s1],
                        ray,
                        lo,
                        itv.max,
                        None,
                    ));
                    assert(s1.hit_spec(ray, whole) == Some(rec1));
                    assert(scan_hits(seq![s1], ray, lo, itv.max, None) == scan_hits(
                        empty,
                        ray,
                        lo,
                        fxv(ta),
                        Some(rec1),
                    ));
                },
            }
        },
        None => {
            assert(s1.hit_spec(ray, whole) is None);
            assert(scan_hits(seq![s1, s2], ray, itv.min, itv.max, None) == scan_hits(
                seq![s2],
                ray,
                lo,
                itv.max,
                None,
            ));
            match b {
                Some(tb) => {
                    assert(itv.min@ < tb < itv.max@);
                    let rec2 = s2.sp_record(ray, tb);
                    assert(rec2.t == fxv(tb) && rec2.t@ == tb);
                    let narrow2 = Interval { min: lo, max: fxv(tb) };
                    assert(s2.hit_spec(ray, whole) == Some(rec2));
                    assert(scan_hits(seq![s2], ray, lo, itv.max, None) == scan_hits(
                        empty,
                        ray,
                        lo,
                        fxv(tb),
                        Some(rec2),
                    ));
                    assert(scan_hits(seq![s2, s1], ray, itv.min, itv.max, None) == scan_hits(
                        seq![s1],
                        ray,
                        lo,
                        fxv(tb),
                        Some(rec2),
                    ));
                    lemma_sphere_hit_narrow(s1, ray, lo, itv.max, fxv(tb));
                    assert(s1.sp_chosen_t(ray, narrow2) is None);
                    assert(s1.hit_spec(ray, narrow2) is None);
                    assert(scan_hits(seq![s1], ray, lo, fxv(tb), Some(rec2)) == scan_hits(
                        empty,
                        ray,
                        lo,
                        fxv(tb),
                        Some(rec2),
                    ));
                },
                None => {
                    assert(s2.hit_spec(ray, whole) is None);
                    assert(scan_hits(seq![s2], ray, lo, itv.max, None) == scan_hits(
                        empty,
                        ray,
                        lo,
                        itv.max,
                        None,
                    ));
                    assert(scan_hits(seq![s2, s1], ray, itv.min, itv.max, None) == scan_hits(
                        seq![s1],
                        ray,
                        lo,
                        itv.max,
                        None,
                    ));
                    assert(scan_hits(seq![s1], ray, lo, itv.max, None) == scan_hits(
                        empty,
                        ray,
                        lo,
                        itv.max,
                        None,
                    ));
                },
            }
        },
    }
}

/// Division facts about zero that several steps below lean on.
proof fn proof_ground_zero()
    ensures
        tdiv(0, FX_ONE as int) == 0,
        fx_mul(0, 0) == 0,
        fx_mul(0, FX_ONE as int) == 0,
        fx_div(0, 2 * FX_ONE as int) == 0,
{
    assert(0int / 65536 == 0) by (nonlinear_arith);
    assert(0int / 131072 == 0) by (nonlinear_arith);
    assert(tdiv(0, FX_ONE as int) == 0);
    assert(tdiv(0, 2 * FX_ONE as int) == 0);
}

/// Dielectric normal-incidence identity: with a refraction index of exactly
/// one and the incoming direction normal to the surface, the scattered
/// direction equals the incoming unit direction exactly - the interface
/// bends nothing.
pub proof fn lemma_dielectric_normal_incidence(
    m: DielectricMaterial,
    ray: Ray<Fx>,
    rec: HitRecord,
    s: ScatterSample,
)
    requires
        m.refraction_index@ == FX_ONE as int,
        rec.front_face,
        rec.normal.mag_sq_int() == FX_ONE as int,
        iabs(rec.normal.x@) <= FX_ONE as int,
        iabs(rec.normal.y@) <= FX_ONE as int,
        iabs(rec.normal.z@) <= FX_ONE as int,
        ray.direction.magnitude_int() != 0,
        ray.direction.spec_normalized() == spec_neg_v(rec.normal),
        0 <= s.uniform@,
    ensures
        m.scatter_model(ray, rec, s) is Some,
        m.scatter_model(ray, rec, s) matches Some(pair) ==> pair.0.spec_direction()
            == ray.direction.spec_normalized(),
{
    let n = rec.normal;
    let unit = ray.direction.spec_normalized();

    // The relative index is one on the front face.
    lemma_fx_mul_unit(FX_ONE as int);
    assert(tdiv(FX_ONE as int * FX_ONE as int, FX_ONE as int) == FX_ONE as int);
    assert(m.sp_ri(true) == FX_ONE as int);

    // The components survive double negation, so -unit is the normal again.
    assert(spec_neg_v(unit) == n);

    // cos(theta) is exactly one.
    assert(spec_neg_v(unit).dot_int(n) == n.mag_sq_int());
    let cos_theta = FX_ONE as int;

    proof_ground_zero();

    // sin(theta) is exactly zero.
    assert(fx_mul(cos_theta, cos_theta) == FX_ONE as int) by {
        lemma_fx_mul_unit(FX_ONE as int);
    }
    assert(fx_sub(FX_ONE as int, fx_mul(cos_theta, cos_theta)) == 0);
    lemma_floor_sqrt_zero();
    assert(fx_sqrt(0) == 0);

    // Nothing forces reflection: no total internal reflection, and the
    // Schlick reflectance at normal incidence with matched indices is zero.
    assert(fx_mul(FX_ONE as int, 0) == 0);
    assert(crate::materials::spec_reflectance(cos_theta, FX_ONE as int) == 0) by {
        assert(fx_sub(FX_ONE as int, FX_ONE as int) == 0);
        assert(fx_add(FX_ONE as int, FX_ONE as int) == 2 * FX_ONE as int);
        assert(tdiv(0, 2 * FX_ONE as int) == 0);
        assert(fx_div(0, 2 * FX_ONE as int) == 0);
        assert(fx_mul(0, 0) == 0);
    }

    // Refraction at index one returns the unit direction unchanged.
    assert(unit.spec_refract(n, fxv(FX_ONE as int)) == unit) by {
        assert(spec_neg_v(unit).dot_int(n) == FX_ONE as int);
        assert(spec_fx_min(FX_ONE as int, FX_ONE as int) == FX_ONE as int);
        lemma_fx_mul_unit(n.x@);
        lemma_fx_mul_unit(n.y@);
        lemma_fx_mul_unit(n.z@);
        assert(fx_add(unit.x@, n.x@) == 0 && fx_add(unit.y@, n.y@) == 0 && fx_add(
            unit.z@,
            n.z@,
        ) == 0);
        lemma_fx_mul_unit(0);
        assert(fx_sub(FX_ONE as int, 0) == FX_ONE as int);
        lemma_fx_sqrt_one();
        assert(fx_sqrt(sat64(iabs(fx_sub(FX_ONE as int, 0)))) == FX_ONE as int);
        assert(fx_sub(0, fx_mul(n.x@, FX_ONE as int)) == fx_neg(n.x@));
    }
}

/// Widening the upper bound of the search window keeps an accepted
/// parameter: what a narrower window accepts, the wider one accepts too.
pub proof fn lemma_sphere_hit_extend(s: Sphere, ray: Ray<Fx>, lo: Fx, hi: Fx, hi2: Fx)
    requires
        hi2@ <= hi@,
    ensures
        s.sp_chosen_t(ray, Interval { min: lo, max: hi2 }) matches Some(t) ==> s.sp_chosen_t(
            ray,
            Interval { min: lo, max: hi },
        ) == Some(t),
{
    if s.sp_disc(ray) >= 0 && s.sp_a(ray) != 0 {
        ray.spec_direction().lemma_mag_sq_nonneg();
        lemma_fx_sqrt_props(s.sp_disc(ray));
        lemma_fx_div_mono(
            fx_sub(s.sp_h(ray), fx_sqrt(s.sp_disc(ray))),
            fx_add(s.sp_h(ray), fx_sqrt(s.sp_disc(ray))),
            s.sp_a(ray),
        );
        assert(s.sp_near(ray) <= s.sp_far(ray));
    }
}

/// The progressive narrowing search is a minimum search: whatever the
/// members after the current position accept inside the original window and
/// below the current bound, the search's answer is at most that; and its
/// answer is the record kept so far or a genuine member record.
pub proof fn lemma_scan_nearest(
    objs: Seq<Sphere>,
    ray: Ray<Fx>,
    itv: Interval,
    closest: Fx,
    acc: Option<HitRecord>,
)
    requires
        closest@ <= itv.max@,
        acc matches Some(rec) ==> rec.t@ == closest@,
    ensures
        ({
            let r = scan_hits(objs, ray, itv.min, closest, acc);
            &&& acc is Some ==> r is Some
            &&& r is None ==> acc is None
            &&& (acc is None && r is Some) ==> (r->0).t@ < closest@
            &&& forall|i: int|
                0 <= i < objs.len() ==> ((#[trigger] objs[i].sp_chosen_t(ray, itv))
                    matches Some(t) ==> (t < closest@ ==> r is Some && (r->0).t@ <= t))
            &&& r is Some ==> r == acc || (exists|i: int|
                0 <= i < objs.len() && (#[trigger] objs[i].sp_chosen_t(ray, itv)) == Some(
                    (r->0).t@,
                ) && r == Some(objs[i].sp_record(ray, (r->0).t@)) && itv.min@ < (r->0).t@
                    < closest@)
        }),
    decreases objs.len(),
{
    let r = scan_hits(objs, ray, itv.min, closest, acc);
    if objs.len() == 0 {
        assert(r == acc);
    } else {
        let s0 = objs[0];
        let rest = objs.drop_first();
        let narrowed = Interval { min: itv.min, max: closest };
        assert(forall|i: int| 0 <= i < rest.len() ==> rest[i] == objs[i + 1]);
        lemma_sphere_hit_narrow(s0, ray, itv.min, itv.max, closest);
        lemma_sphere_hit_extend(s0, ray, itv.min, itv.max, closest);
        if s0.sp_chosen_t(ray, narrowed) is Some {
            let t0 = s0.sp_chosen_t(ray, narrowed)->0;
            assert(itv.min@ < t0 < closest@);
            let rec0 = s0.sp_record(ray, t0);
            assert(rec0.t == fxv(t0) && rec0.t@ == t0);
            assert(s0.hit_spec(ray, narrowed) == Some(rec0));
            assert(s0.sp_chosen_t(ray, itv) == Some(t0));
            assert(r == scan_hits(rest, ray, itv.min, fxv(t0), Some(rec0)));
            lemma_scan_nearest(rest, ray, itv, fxv(t0), Some(rec0));
            let r2 = scan_hits(rest, ray, itv.min, fxv(t0), Some(rec0));
            assert(r2 is Some);
            assert((r2->0).t@ <= t0) by {
                if r2 != Some(rec0) {
                    assert((r2->0).t@ < t0);
                }
            }
            assert forall|i: int|
                0 <= i < objs.len() && (#[trigger] objs[i].sp_chosen_t(ray, itv)) is Some
                    && objs[i].sp_chosen_t(ray, itv)->0 < closest@ implies r is Some && (r->0).t@
                <= objs[i].sp_chosen_t(ray, itv)->0 by {
                let t = objs[i].sp_chosen_t(ray, itv)->0;
                if i == 0 {
                    assert((r->0).t@ <= t0);
                } else {
                    assert(rest[i - 1] == objs[i]);
                    if t < t0 {
                    } else {
                        assert((r->0).t@ <= t0 <= t);
                    }
                }
            }
            if r == Some(rec0) {
                assert(exists|i: int|
                    0 <= i < objs.len() && (#[trigger] objs[i].sp_chosen_t(ray, itv)) == Some(
                        (r->0).t@,
                    ) && r == Some(objs[i].sp_record(ray, (r->0).t@)) && itv.min@ < (r->0).t@
                        < closest@) by {
                    assert(objs[0].sp_chosen_t(ray, itv) == Some((r->0).t@) && r == Some(
                        objs[0].sp_record(ray, (r->0).t@),
                    ) && itv.min@ < (r->0).t@ < closest@);
                }
            } else {
                let wi = choose|i: int|
                    0 <= i < rest.len() && (#[trigger] rest[i].sp_chosen_t(ray, itv)) == Some(
                        (r->0).t@,
                    ) && r == Some(rest[i].sp_record(ray, (r->0).t@)) && itv.min@ < (r->0).t@
                        < fxv(t0)@;
                assert(objs[wi + 1].sp_chosen_t(ray, itv) == Some((r->0).t@) && r == Some(
                    objs[wi + 1].sp_record(ray, (r->0).t@),
                ) && itv.min@ < (r->0).t@ < closest@);
            }
        } else {
            assert(s0.hit_spec(ray, narrowed) is None);
            assert(r == scan_hits(rest, ray, itv.min, closest, acc));
            lemma_scan_nearest(rest, ray, itv, closest, acc);
            assert forall|i: int|
                0 <= i < objs.len() && (#[trigger] objs[i].sp_chosen_t(ray, itv)) is Some
                    && objs[i].sp_chosen_t(ray, itv)->0 < closest@ implies r is Some && (r->0).t@
                <= objs[i].sp_chosen_t(ray, itv)->0 by {
                let t = objs[i].sp_chosen_t(ray, itv)->0;
                if i == 0 {
                    assert(s0.sp_chosen_t(ray, narrowed) == Some(t));
                    assert(false);
                } else {
                    assert(rest[i - 1] == objs[i]);
                }
            }
            if r is Some && r != acc {
                let wi = choose|i: int|
                    0 <= i < rest.len() && (#[trigger] rest[i].sp_chosen_t(ray, itv)) == Some(
                        (r->0).t@,
                    ) && r == Some(rest[i].sp_record(ray, (r->0).t@)) && itv.min@ < (r->0).t@
                        < closest@;
                assert(objs[wi + 1].sp_chosen_t(ray, itv) == Some((r->0).t@) && r == Some(
                    objs[wi + 1].sp_record(ray, (r->0).t@),
                ) && itv.min@ < (r->0).t@ < closest@);
            }
        }
    }
}

/// The scene's nearest-hit invariant, in general: over any list of spheres,
/// the search returns a record only for a parameter some member accepts,
/// and no member accepts a smaller one.
pub proof fn lemma_group_hit_is_nearest(g: Group<Sphere>, ray: Ray<Fx>, itv: Interval)
    ensures
        forall|i: int|
            0 <= i < g.objects@.len() ==> ((#[trigger] g.objects@[i].sp_chosen_t(ray, itv))
                matches Some(t) ==> g.hit_spec(ray, itv) is Some && (g.hit_spec(ray, itv)->0).t@
                <= t),
        g.hit_spec(ray, itv) matches Some(rec) ==> exists|i: int|
            0 <= i < g.objects@.len() && (#[trigger] g.objects@[i].sp_chosen_t(ray, itv)) == Some(
                rec.t@,
            ) && rec == g.objects@[i].sp_record(ray, rec.t@),
{
    lemma_scan_nearest(g.objects@, ray, itv, itv.max, None);
}

/// A unit-bounded numerator over a denominator of at least 256 steps gives
/// a quotient of at most 256.
proof fn lemma_unit_over_mag_bound(c: int, m: int)
    requires
        iabs(c) <= FX_ONE as int,
        m >= 256,
    ensures
        iabs(fx_div(c, m)) <= 0x1000000,
{
    crate::fixed::lemma_tdiv_abs(c * FX_ONE as int, m);
    assert(iabs(c * FX_ONE as int) <= FX_ONE as int * FX_ONE as int) by (nonlinear_arith)
        requires
            iabs(c) <= FX_ONE as int,
    ;
    vstd::arithmetic::div_mod::lemma_div_is_ordered(
        iabs(c * FX_ONE as int),
        FX_ONE as int * FX_ONE as int,
        m,
    );
    vstd::arithmetic::div_mod::lemma_div_is_ordered_by_denominator(
        FX_ONE as int * FX_ONE as int,
        256,
        m,
    );
    assert(4294967296int / 256 == 16777216) by (nonlinear_arith);
}

/// For vectors too small to saturate anything, negating one side negates
/// the dot product.
proof fn lemma_dot_of_negated(u: Vec3<Fx>, n: Vec3<Fx>)
    requires
        iabs(u.x@) <= 0x1000000,
        iabs(u.y@) <= 0x1000000,
        iabs(u.z@) <= 0x1000000,
        iabs(n.x@) <= FX_ONE as int,
        iabs(n.y@) <= FX_ONE as int,
        iabs(n.z@) <= FX_ONE as int,
    ensures
        spec_neg_v(u).dot_int(n) == -u.dot_int(n),
{
    lemma_mul_term_negates(u.x@, n.x@);
    lemma_mul_term_negates(u.y@, n.y@);
    lemma_mul_term_negates(u.z@, n.z@);
}

/// One dot-product term of bounded factors negates cleanly and stays small.
proof fn lemma_mul_term_negates(a: int, b: int)
    requires
        iabs(a) <= 0x1000000,
        iabs(b) <= FX_ONE as int,
    ensures
        fx_mul(fx_neg(a), b) == -fx_mul(a, b),
        iabs(fx_mul(a, b)) <= 0x1000000,
{
    crate::fixed::lemma_tdiv_neg(a * b, FX_ONE as int);
    assert((-a) * b == -(a * b)) by (nonlinear_arith);
    crate::fixed::lemma_tdiv_abs(a * b, FX_ONE as int);
    assert(iabs(a * b) <= 0x1000000 * FX_ONE as int) by (nonlinear_arith)
        requires
            iabs(a) <= 0x1000000,
            iabs(b) <= FX_ONE as int,
    ;
    vstd::arithmetic::div_mod::lemma_div_is_ordered(
        iabs(a * b),
        0x1000000 * FX_ONE as int,
        FX_ONE as int,
    );
    vstd::arithmetic::div_mod::lemma_div_multiples_vanish(0x1000000, FX_ONE as int);
}

/// The hemisphere sampler never points against the normal it was handed:
/// for a unit-bounded normal, the sampled vector's dot product with the
/// normal is nonnegative, whatever the generator state and however many
/// attempts remain.
pub proof fn lemma_hemisphere_sample_same_side(state: u64, normal: Vec3<Fx>, attempts: nat)
    requires
        iabs(normal.x@) <= FX_ONE as int,
        iabs(normal.y@) <= FX_ONE as int,
        iabs(normal.z@) <= FX_ONE as int,
    ensures
        spec_hemisphere_from(state, normal, attempts).0.dot_int(normal) >= 0,
    decreases attempts,
{
    if attempts == 0 {
        normal.lemma_mag_sq_nonneg();
    } else {
        let s1 = spec_advance(state);
        let s2 = spec_advance(s1);
        let s3 = spec_advance(s2);
        let p = Vec3 {
            x: fxv(spec_component_bits(spec_mix(s1))),
            y: fxv(spec_component_bits(spec_mix(s2))),
            z: fxv(spec_component_bits(spec_mix(s3))),
        };
        let ms = p.mag_sq_int();
        if 0 < ms <= FX_ONE as int {
            let u = p.spec_normalized();
            crate::rng::lemma_mag_at_least_one(p);
            let m = p.magnitude_int();
            lemma_unit_over_mag_bound(p.x@, m);
            lemma_unit_over_mag_bound(p.y@, m);
            lemma_unit_over_mag_bound(p.z@, m);
            if u.dot_int(normal) < 0 {
                lemma_dot_of_negated(u, normal);
            }
        } else {
            lemma_hemisphere_sample_same_side(s3, normal, (attempts - 1) as nat);
        }
    }
}

} // verus!
