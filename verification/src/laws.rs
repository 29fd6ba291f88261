//! The library's stated optical and geometric laws, proved once and for all
//! against the exact fixed-point semantics of the rendering routines.

use vstd::prelude::*;

use crate::camera::{s_camera, s_get_ray};
use crate::fx::{lemma_mul_one, lemma_mul_zero, lemma_sqrt_at_most, lemma_sqrt_of_square,
    lemma_tdiv_cancel, s_add, s_div, s_mul, s_sqrt, s_sub, FX_HALF, FX_MAX, FX_ONE};
use crate::hittable::HitRecord;
use crate::hittable_list::{s_list_hit, s_object_hit, Hittable};
use crate::mesh::s_mesh_hit;
use crate::ray::Ray;
use crate::render::s_background;
use crate::sphere::{s_sphere_hit, Sphere};
use crate::triangle::{s_triangle_hit, Triangle};
use crate::vec3::{s_dot, sv_bounded, sv_cross, sv_mul, sv_neg, sv_norm, sv_sub, Vec3};

verus! {

/// A ray parallel to a triangle's plane misses it, whatever its origin: a
/// vanishing determinant (the triple product of the two edges and the ray
/// direction, as the intersection routine computes it) means no hit.
pub proof fn lemma_parallel_ray_misses_triangle(tr: Triangle, r: Ray, t_min: int, t_max: int)
    requires
        s_dot(sv_sub(tr.vertex1, tr.vertex0), sv_cross(r.dir, sv_sub(tr.vertex2, tr.vertex0)))
            == 0,
    ensures
        s_triangle_hit(tr, r, t_min, t_max) is None,
{
    reveal(s_triangle_hit);
}

/// The background gradient takes its pure zenith color on the straight-up
/// direction and its pure horizon color on the straight-down direction.
pub proof fn lemma_background_poles()
    ensures
        s_background((Vec3 { x: 0, y: FX_ONE, z: 0 })) == (Vec3 { x: 524288, y: 734003, z: 1048576
        }),
        s_background((Vec3 { x: 0, y: -1048576i64, z: 0 })) == (Vec3 { x: 838861, y: 838861, z: 1048576
        }),
{
    lemma_mul_zero(0);
    lemma_sqrt_of_square(FX_ONE as int);
    lemma_mul_one(FX_ONE as int);
    let up = Vec3 { x: 0, y: FX_ONE, z: 0 };
    assert(crate::vec3::s_len_sq(up) == FX_ONE);
    assert(crate::vec3::s_len(up) == FX_ONE);
    lemma_tdiv_cancel(FX_ONE as int, FX_ONE as int);
    assert(s_div(FX_ONE as int, FX_ONE as int) == FX_ONE);
    assert(s_div(0, FX_ONE as int) == 0) by {
        assert(0 * FX_ONE == 0) by (nonlinear_arith);
    }
    assert(sv_norm(up) == up);
    let t_up = s_mul(FX_HALF as int, s_add(FX_ONE as int, FX_ONE as int));
    assert(t_up == FX_ONE) by {
        assert(FX_HALF * (2 * FX_ONE) == FX_ONE * FX_ONE) by (nonlinear_arith)
            requires
                FX_HALF == 524288 && FX_ONE == 1048576,
        ;
        lemma_tdiv_cancel(FX_ONE as int, FX_ONE as int);
    }
    lemma_mul_one(838861);
    lemma_mul_one(524288);
    lemma_mul_one(734003);
    lemma_mul_one(1048576);
    lemma_mul_zero(838861);
    lemma_mul_zero(524288);
    lemma_mul_zero(734003);
    lemma_mul_zero(1048576);
    let down = Vec3 { x: 0, y: -1048576i64, z: 0 };
    assert(crate::vec3::s_len_sq(down) == FX_ONE) by {
        crate::fx::lemma_mul_neg(-FX_ONE as int, FX_ONE as int);
        crate::fx::lemma_mul_neg(FX_ONE as int, FX_ONE as int);
        lemma_mul_one(FX_ONE as int);
    }
    assert(crate::vec3::s_len(down) == FX_ONE);
    assert(s_div(-FX_ONE as int, FX_ONE as int) == -FX_ONE) by {
        lemma_tdiv_cancel(-FX_ONE as int, FX_ONE as int);
    }
    assert(sv_norm(down) == down);
    let t_down = s_mul(FX_HALF as int, s_add(-FX_ONE as int, FX_ONE as int));
    assert(t_down == 0) by {
        lemma_mul_zero(FX_HALF as int);
    }
}

/// With the lens closed (aperture zero), the ray through the center of the
/// image plane leaves the camera origin straight along the viewing axis: its
/// direction is the focus distance back along `w`, however the viewport was
/// sized. The bounds keep the saturating sums exact.
#[verifier::rlimit(100)]
#[verifier::spinoff_prover]
pub proof fn lemma_camera_center_ray(
    lookfrom: Vec3,
    lookat: Vec3,
    vup: Vec3,
    vfov: int,
    aspect_ratio: int,
    focus_dist: int,
)
    requires
        sv_bounded(lookfrom, 0x40000000000),
        sv_bounded(
            sv_mul(s_camera(lookfrom, lookat, vup, vfov, aspect_ratio, 0, focus_dist).horiz,
            FX_HALF as int),
            0x40000000000,
        ),
        sv_bounded(
            sv_mul(s_camera(lookfrom, lookat, vup, vfov, aspect_ratio, 0, focus_dist).vert,
            FX_HALF as int),
            0x40000000000,
        ),
        sv_bounded(
            sv_mul(s_camera(lookfrom, lookat, vup, vfov, aspect_ratio, 0, focus_dist).w,
            focus_dist),
            0x40000000000,
        ),
    ensures
        ({
            let c = s_camera(lookfrom, lookat, vup, vfov, aspect_ratio, 0, focus_dist);
            let ray = s_get_ray(c, FX_HALF as int, FX_HALF as int, (Vec3 { x: 0, y: 0, z: 0 }));
            ray.orig == c.origin && ray.dir == sv_neg(sv_mul(c.w, focus_dist))
        }),
{
    let c = s_camera(lookfrom, lookat, vup, vfov, aspect_ratio, 0, focus_dist);
    lemma_mul_zero(FX_HALF as int);
    assert(c.lens_radius == 0);
    lemma_mul_zero(0);
    lemma_mul_zero(c.u.x as int);
    lemma_mul_zero(c.u.y as int);
    lemma_mul_zero(c.u.z as int);
    lemma_mul_zero(c.v.x as int);
    lemma_mul_zero(c.v.y as int);
    lemma_mul_zero(c.v.z as int);
}

/// A dielectric with unit index never reaches the total-internal-reflection
/// branch: with a refraction ratio of one, the scaled sine cannot exceed one.
pub proof fn lemma_unit_ratio_refracts(cos: int)
    ensures
        s_mul(FX_ONE as int, s_sqrt(s_sub(FX_ONE as int, s_mul(cos, cos)))) <= FX_ONE,
{
    let m2 = s_mul(cos, cos);
    assert(cos * cos >= 0) by (nonlinear_arith);
    crate::fx::lemma_tdiv_bound(cos * cos, FX_ONE as int);
    assert(m2 >= 0);
    let k = s_sub(FX_ONE as int, m2);
    assert(k <= FX_ONE);
    let sin = s_sqrt(k);
    if k <= 0 {
        assert(sin == 0);
    } else {
        crate::fx::lemma_sqrt_at_least(k, 0);
        assert(k * FX_ONE <= FX_ONE * FX_ONE) by (nonlinear_arith)
            requires
                0 < k <= FX_ONE && FX_ONE == 0x100000,
        ;
        lemma_sqrt_at_most(k, FX_ONE as int);
    }
    lemma_mul_one(sin);
}

/// A unit-index dielectric does not bend a head-on ray: refracting a
/// direction with ratio one at a normal that exactly opposes it hands the
/// direction back unchanged.
pub proof fn lemma_head_on_unit_ratio_passthrough(su: Vec3)
    requires
        crate::vec3::sv_in_range(su),
        s_dot(sv_neg(su), sv_neg(su)) >= FX_ONE,
    ensures
        crate::vec3::sv_refract(su, sv_neg(su), FX_ONE as int) == su,
{
    let n = sv_neg(su);
    lemma_mul_one(n.x as int);
    lemma_mul_one(n.y as int);
    lemma_mul_one(n.z as int);
    assert(crate::vec3::sv_mul(n, FX_ONE as int) == n);
    let rp = crate::vec3::sv_mul(crate::vec3::sv_add(su, n), FX_ONE as int);
    lemma_mul_zero(FX_ONE as int);
    assert(rp == (Vec3 { x: 0, y: 0, z: 0 }));
    lemma_mul_zero(0);
    assert(crate::vec3::s_len_sq(rp) == 0);
    lemma_sqrt_of_square(FX_ONE as int);
    assert(s_sqrt(crate::fx::s_abs(s_sub(FX_ONE as int, 0))) == FX_ONE);
    crate::fx::lemma_mul_neg(n.x as int, FX_ONE as int);
    crate::fx::lemma_mul_neg(n.y as int, FX_ONE as int);
    crate::fx::lemma_mul_neg(n.z as int, FX_ONE as int);
}

/// A unit-index dielectric passes a head-on ray straight through, by the
/// scatter contract alone: when the hit faces the front, the stored normal
/// exactly opposes the normalized incoming direction, and their dot product
/// reaches one, then every scatter outcome keeps that direction. (With the
/// clamped cosine at one, Schlick reflectance is zero, so no draw can choose
/// reflection, and the ratio-one refraction is the identity.)
pub proof fn lemma_unit_index_head_on_scatter(
    d: crate::material::Dielectric,
    r_in: Ray,
    rec: HitRecord,
    out: Option<crate::material::ScatterRecord>,
)
    requires
        d.ir == FX_ONE,
        rec.front_face,
        rec.normal == sv_neg(sv_norm(r_in.dir)),
        s_dot(sv_neg(sv_norm(r_in.dir)), rec.normal) >= FX_ONE,
        crate::material::s_scatter_outcome(crate::material::Material::Dielectric(d), r_in, rec,
            out),
    ensures
        out is Some,
        out->0.scattered.dir == sv_norm(r_in.dir),
{
    let su = sv_norm(r_in.dir);
    let x = choose|x: int|
        0 <= x < FX_ONE && out->0.scattered.dir == crate::material::s_dielectric_dir(d, r_in, rec,
        x);
    lemma_tdiv_cancel(FX_ONE as int, FX_ONE as int);
    assert(crate::material::s_dielectric_ratio(d, rec) == FX_ONE);
    assert(crate::material::s_dielectric_cos(su, rec.normal) == FX_ONE);
    lemma_mul_one(FX_ONE as int);
    assert(crate::material::s_dielectric_sin(FX_ONE as int) == 0);
    lemma_mul_zero(FX_ONE as int);
    assert(s_mul(FX_ONE as int, 0) == 0);
    assert(crate::material::s_reflectance(FX_ONE as int, FX_ONE as int) == 0) by {
        assert(s_sub(FX_ONE as int, FX_ONE as int) == 0);
        assert(s_add(FX_ONE as int, FX_ONE as int) == 2 * FX_ONE);
        assert(s_div(0, 2 * FX_ONE) == 0) by {
            assert(0 * FX_ONE == 0) by (nonlinear_arith);
        }
        lemma_mul_zero(0);
        assert(s_mul(FX_ONE as int, 0) == 0);
        lemma_mul_zero(FX_ONE as int);
    }
    assert(out->0.scattered.dir == crate::vec3::sv_refract(su, rec.normal, FX_ONE as int));
    assert(crate::vec3::sv_in_range(su));
    lemma_head_on_unit_ratio_passthrough(su);
}

/// The canonical hit of one object: its nearest intersection past `t_min`,
/// with no upper bound (the saturation bound, which no parameter exceeds).
pub open spec fn s_first_hit(o: Hittable, r: Ray, t_min: int) -> Option<HitRecord> {
    s_object_hit(o, r, t_min, FX_MAX as int)
}

/// The canonical hit filtered by an upper bound.
pub open spec fn s_bounded_hit(h: Option<HitRecord>, b: int) -> Option<HitRecord> {
    match h {
        Some(rec) => if rec.t <= b {
            Some(rec)
        } else {
            None
        },
        None => None,
    }
}

/// Whether an object intersects the ray at all past `t_min`.
pub open spec fn s_hits(o: Hittable, r: Ray, t_min: int) -> bool {
    s_first_hit(o, r, t_min) is Some
}

/// No picture quads in the list: their first-triangle-then-second fallback is
/// not a nearest-hit query, so they are left out of the ordering law.
pub open spec fn photo_free(os: Seq<Hittable>) -> bool {
    forall|i: int| 0 <= i < os.len() ==> !((#[trigger] os[i]) is Photo)
}

/// A triangle hit's parameter lies in the queried interval.
pub proof fn lemma_triangle_hit_valid(tr: Triangle, r: Ray, t_min: int, t_max: int)
    ensures
        s_triangle_hit(tr, r, t_min, t_max) is Some ==> t_min < s_triangle_hit(tr, r, t_min,
        t_max)->0.t <= t_max,
{
    reveal(s_triangle_hit);
}

/// A sphere hit's parameter lies in the queried interval.
pub proof fn lemma_sphere_hit_valid(s: Sphere, r: Ray, t_min: int, t_max: int)
    ensures
        s_sphere_hit(s, r, t_min, t_max) is Some ==> t_min < s_sphere_hit(s, r, t_min, t_max)->0.t
            <= t_max,
{
    reveal(s_sphere_hit);
}

/// A mesh hit's parameter lies in the queried interval.
pub proof fn lemma_mesh_hit_valid(ts: Seq<Triangle>, r: Ray, t_min: int, t_max: int)
    ensures
        s_mesh_hit(ts, r, t_min, t_max) is Some ==> t_min < s_mesh_hit(ts, r, t_min, t_max)->0.t
            <= t_max,
    decreases ts.len(),
{
    if ts.len() > 0 {
        lemma_mesh_hit_valid(ts.drop_last(), r, t_min, t_max);
        let prev = s_mesh_hit(ts.drop_last(), r, t_min, t_max);
        let bound = if prev is Some {
            prev->0.t as int
        } else {
            t_max
        };
        lemma_triangle_hit_valid(ts.last(), r, t_min, bound);
    }
}

/// Any object hit's parameter lies in the queried interval.
pub proof fn lemma_object_hit_valid(o: Hittable, r: Ray, t_min: int, t_max: int)
    ensures
        s_object_hit(o, r, t_min, t_max) is Some ==> t_min < s_object_hit(o, r, t_min, t_max)->0.t
            <= t_max,
{
    match o {
        Hittable::Sphere(s) => lemma_sphere_hit_valid(s, r, t_min, t_max),
        Hittable::Triangle(t) => lemma_triangle_hit_valid(t, r, t_min, t_max),
        Hittable::Mesh(m) => lemma_mesh_hit_valid(m.objects@, r, t_min, t_max),
        Hittable::Photo(p) => {
            reveal(crate::photo::s_photo_hit);
            lemma_triangle_hit_valid(p.rect0, r, t_min, t_max);
            lemma_triangle_hit_valid(p.rect1, r, t_min, t_max);
        },
    }
}

/// Shrinking a triangle query's upper bound only filters its canonical hit.
pub proof fn lemma_triangle_hit_bounded(tr: Triangle, r: Ray, t_min: int, b: int)
    requires
        b <= FX_MAX,
    ensures
        s_triangle_hit(tr, r, t_min, b) == s_bounded_hit(s_triangle_hit(tr, r, t_min,
        FX_MAX as int), b),
{
    reveal(s_triangle_hit);
}

/// Shrinking a sphere query's upper bound only filters its canonical hit: the
/// nearer root is tried first, and the farther root can never slip under a
/// bound the nearer one exceeded.
pub proof fn lemma_sphere_hit_bounded(s: Sphere, r: Ray, t_min: int, b: int)
    requires
        b <= FX_MAX,
    ensures
        s_sphere_hit(s, r, t_min, b) == s_bounded_hit(s_sphere_hit(s, r, t_min, FX_MAX as int), b),
{
    reveal(s_sphere_hit);
    let oc = sv_sub(r.orig, s.center);
    let a = crate::vec3::s_len_sq(r.dir);
    let half_b = s_dot(oc, r.dir);
    let c = s_sub(crate::vec3::s_len_sq(oc), s_mul(s.radius as int, s.radius as int));
    let disc = half_b * half_b - a * c;
    crate::vec3::lemma_len_sq_nonneg(r.dir);
    if disc >= 0 {
        crate::fx::lemma_isqrt_exists(disc);
        let sq = crate::fx::s_isqrt(disc);
        crate::fx::lemma_div_mono(-half_b - sq, -half_b + sq, a);
    }
}

/// Shrinking a mesh query's upper bound only filters its canonical hit.
pub proof fn lemma_mesh_hit_bounded(ts: Seq<Triangle>, r: Ray, t_min: int, b: int)
    requires
        b <= FX_MAX,
    ensures
        s_mesh_hit(ts, r, t_min, b) == s_bounded_hit(s_mesh_hit(ts, r, t_min, FX_MAX as int), b),
    decreases ts.len(),
{
    if ts.len() > 0 {
        let last = ts.last();
        let rest = ts.drop_last();
        lemma_mesh_hit_bounded(rest, r, t_min, b);
        let cp = s_mesh_hit(rest, r, t_min, FX_MAX as int);
        lemma_mesh_hit_valid(rest, r, t_min, FX_MAX as int);
        lemma_triangle_hit_valid(last, r, t_min, FX_MAX as int);
        lemma_triangle_hit_bounded(last, r, t_min, b);
        if cp is Some {
            lemma_triangle_hit_bounded(last, r, t_min, cp->0.t as int);
        }
    }
}

/// Shrinking any (photo-less) object query's upper bound only filters its
/// canonical hit.
pub proof fn lemma_object_hit_bounded(o: Hittable, r: Ray, t_min: int, b: int)
    requires
        b <= FX_MAX,
        !(o is Photo),
    ensures
        s_object_hit(o, r, t_min, b) == s_bounded_hit(s_first_hit(o, r, t_min), b),
{
    match o {
        Hittable::Sphere(s) => lemma_sphere_hit_bounded(s, r, t_min, b),
        Hittable::Triangle(t) => lemma_triangle_hit_bounded(t, r, t_min, b),
        Hittable::Mesh(m) => lemma_mesh_hit_bounded(m.objects@, r, t_min, b),
        Hittable::Photo(p) => {},
    }
}

/// `res` is a nearest hit over the objects' canonical hits: none when nothing
/// hits; otherwise some object's canonical hit, no farther than any other.
pub open spec fn is_nearest_hit(os: Seq<Hittable>, r: Ray, t_min: int, res: Option<
    HitRecord,
>) -> bool {
    match res {
        None => forall|i: int| 0 <= i < os.len() ==> !s_hits(#[trigger] os[i], r, t_min),
        Some(rec) => (exists|i: int|
            0 <= i < os.len() && s_first_hit(#[trigger] os[i], r, t_min) == Some(rec)) && (
        forall|i: int|
            0 <= i < os.len() && s_hits(#[trigger] os[i], r, t_min) ==> rec.t as int <= s_first_hit(
            os[i], r, t_min)->0.t as int),
    }
}

/// The aggregate scan over the full interval returns a nearest hit.
#[verifier::rlimit(100)]
#[verifier::spinoff_prover]
pub proof fn lemma_list_hit_is_nearest(os: Seq<Hittable>, r: Ray, t_min: int)
    requires
        photo_free(os),
    ensures
        is_nearest_hit(os, r, t_min, s_list_hit(os, r, t_min, FX_MAX as int)),
    decreases os.len(),
{
    if os.len() > 0 {
        let last = os.last();
        let rest = os.drop_last();
        assert(photo_free(rest)) by {
            assert(forall|i: int| 0 <= i < rest.len() ==> rest[i] == os[i]);
        }
        lemma_list_hit_is_nearest(rest, r, t_min);
        let cp = s_list_hit(rest, r, t_min, FX_MAX as int);
        lemma_object_hit_valid(last, r, t_min, FX_MAX as int);
        assert(!(last is Photo)) by {
            assert(os[os.len() - 1] == last);
        }
        if cp is Some {
            lemma_list_hit_valid_all(rest, r, t_min);
            lemma_object_hit_bounded(last, r, t_min, cp->0.t as int);
        }
        let res = s_list_hit(os, r, t_min, FX_MAX as int);
        assert forall|i: int| 0 <= i < rest.len() implies rest[i] == os[i] by {}
        match res {
            None => {
                assert forall|i: int| 0 <= i < os.len() implies !s_hits(os[i], r, t_min) by {
                    if i < os.len() - 1 {
                        assert(!s_hits(rest[i], r, t_min));
                    }
                }
            },
            Some(rec) => {
                if cp is Some && s_object_hit(last, r, t_min, cp->0.t as int) is None {
                    let prev_rec = cp->0;
                    assert(exists|i: int|
                        0 <= i < rest.len() && s_first_hit(#[trigger] rest[i], r, t_min) == Some(
                        prev_rec));
                    let wi = choose|i: int|
                        0 <= i < rest.len() && s_first_hit(#[trigger] rest[i], r, t_min) == Some(
                        prev_rec);
                    assert(s_first_hit(os[wi], r, t_min) == Some(rec));
                } else {
                    assert(s_first_hit(os[os.len() - 1], r, t_min) == Some(rec));
                }
                assert forall|i: int|
                    0 <= i < os.len() && s_hits(os[i], r, t_min) implies rec.t as int
                    <= s_first_hit(os[i], r, t_min)->0.t as int by {
                    if i < os.len() - 1 {
                        assert(s_hits(rest[i], r, t_min));
                    }
                }
            },
        }
    }
}

/// Every canonical hit of the scan stays within the full interval.
proof fn lemma_list_hit_valid_all(os: Seq<Hittable>, r: Ray, t_min: int)
    ensures
        s_list_hit(os, r, t_min, FX_MAX as int) is Some ==> t_min < s_list_hit(os, r, t_min,
        FX_MAX as int)->0.t <= FX_MAX,
    decreases os.len(),
{
    if os.len() > 0 {
        lemma_list_hit_valid_all(os.drop_last(), r, t_min);
        let prev = s_list_hit(os.drop_last(), r, t_min, FX_MAX as int);
        let bound = if prev is Some {
            prev->0.t as int
        } else {
            FX_MAX as int
        };
        lemma_object_hit_valid(os.last(), r, t_min, bound);
    }
}

/// Aggregate hit-testing is order-independent: two scenes holding the same
/// objects (as a multiset, no picture quads) return the same record for a
/// ray, provided no two distinct objects hit it at the same parameter — the
/// nearest object always wins, whatever the insertion order.
#[verifier::rlimit(100)]
#[verifier::spinoff_prover]
pub proof fn lemma_scene_hit_order_independent(
    os1: Seq<Hittable>,
    os2: Seq<Hittable>,
    r: Ray,
    t_min: int,
)
    requires
        photo_free(os1),
        os1.to_multiset() == os2.to_multiset(),
        forall|o1: Hittable, o2: Hittable|
            os1.contains(o1) && os1.contains(o2) && o1 != o2 && #[trigger] s_hits(o1, r, t_min)
                && #[trigger] s_hits(o2, r, t_min) ==> s_first_hit(o1, r, t_min)->0.t
                != s_first_hit(o2, r, t_min)->0.t,
    ensures
        s_list_hit(os1, r, t_min, FX_MAX as int) == s_list_hit(os2, r, t_min, FX_MAX as int),
{
    os1.to_multiset_ensures();
    os2.to_multiset_ensures();
    assert forall|o: Hittable| os1.contains(o) <==> os2.contains(o) by {
        assert(os1.contains(o) <==> os1.to_multiset().count(o) > 0);
        assert(os2.contains(o) <==> os2.to_multiset().count(o) > 0);
    }
    assert(photo_free(os2)) by {
        assert forall|i: int| 0 <= i < os2.len() implies !((#[trigger] os2[i]) is Photo) by {
            assert(os2.contains(os2[i]));
            let j = choose|j: int| 0 <= j < os1.len() && os1[j] == os2[i];
            assert(!(os1[j] is Photo));
        }
    }
    lemma_list_hit_is_nearest(os1, r, t_min);
    lemma_list_hit_is_nearest(os2, r, t_min);
    let res1 = s_list_hit(os1, r, t_min, FX_MAX as int);
    let res2 = s_list_hit(os2, r, t_min, FX_MAX as int);
    match res1 {
        None => {
            if res2 is Some {
                let i2 = choose|i: int|
                    0 <= i < os2.len() && s_first_hit(#[trigger] os2[i], r, t_min) == Some(
                    res2->0);
                assert(os2.contains(os2[i2]));
                let j = choose|j: int| 0 <= j < os1.len() && os1[j] == os2[i2];
                assert(!s_hits(os1[j], r, t_min));
                assert(false);
            }
        },
        Some(rec1) => {
            let i1 = choose|i: int|
                0 <= i < os1.len() && s_first_hit(#[trigger] os1[i], r, t_min) == Some(rec1);
            let o1 = os1[i1];
            assert(os1.contains(o1));
            let j1 = choose|j: int| 0 <= j < os2.len() && os2[j] == o1;
            assert(s_hits(os2[j1], r, t_min));
            match res2 {
                None => {
                    assert(false);
                },
                Some(rec2) => {
                    let i2 = choose|i: int|
                        0 <= i < os2.len() && s_first_hit(#[trigger] os2[i], r, t_min) == Some(
                        rec2);
                    let o2 = os2[i2];
                    assert(os2.contains(o2));
                    let j2 = choose|j: int| 0 <= j < os1.len() && os1[j] == o2;
                    assert(rec1.t as int <= s_first_hit(os1[j2], r, t_min)->0.t as int);
                    assert(rec2.t as int <= s_first_hit(os2[j1], r, t_min)->0.t as int);
                    assert(rec1.t == rec2.t);
                    if o1 != o2 {
                        assert(os1.contains(o2));
                        assert(s_hits(o1, r, t_min) && s_hits(o2, r, t_min));
                        assert(false);
                    }
                    assert(Some(rec1) == Some(rec2));
                },
            }
        },
    }
}

} // verus!
