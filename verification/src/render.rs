//! The integrator: recursive color resolution, the background gradient, and
//! per-pixel sampling.

use vstd::prelude::*;

use crate::camera::{s_camera, s_get_ray, Camera};
use crate::color::Color;
use crate::common::{rand_double, INFINITY};
use crate::config::ASPECT_RATIO;
use crate::fx::{fx_add, fx_div, fx_from_int, s_add, s_div, s_mul, s_sat, s_sub, FX_HALF, FX_ONE};
use crate::hittable_list::{s_list_hit, Hittable, HittableList};
use crate::material::{s_scatter_outcome, ScatterRecord};
use crate::ray::Ray;
use crate::vec3::{in_disk, sv_add, sv_mul, sv_mul_vec, sv_norm, Vec3};

verus! {

/// The default viewpoint: from (45, 3, 9) toward the origin, up +y, a 20
/// degree vertical field of view at the configured aspect ratio, a lens
/// aperture of one tenth, and the focus plane 30 units out.
pub fn create_camera() -> (r: Camera)
    ensures
        r == s_camera(
            (Vec3 { x: 47185920, y: 3145728, z: 9437184 }),
            (Vec3 { x: 0, y: 0, z: 0 }),
            (Vec3 { x: 0, y: FX_ONE, z: 0 }),
            20 * FX_ONE,
            ASPECT_RATIO as int,
            104858,
            30 * FX_ONE,
        ),
{
    let lookfrom = Vec3 { x: 45 * FX_ONE, y: 3 * FX_ONE, z: 9 * FX_ONE };
    proof {
        assert(lookfrom == (Vec3 { x: 47185920, y: 3145728, z: 9437184 }));
    }
    let lookat = Vec3 { x: 0, y: 0, z: 0 };
    let vup = Vec3 { x: 0, y: FX_ONE, z: 0 };
    let dist_to_focus: i64 = 30 * FX_ONE;
    let aperture: i64 = 104858;

    Camera::new(lookfrom, lookat, vup, 20 * FX_ONE, ASPECT_RATIO, aperture, dist_to_focus)
}

/// The lower ray-parameter bound used for every scene query (about 0.001):
/// rays bouncing off a surface must not immediately re-hit it.
pub const RAY_T_MIN: i64 = 1049;

/// The background gradient: interpolate between the horizon color and the
/// zenith color by the height of the normalized ray direction.
pub open spec fn s_background(d: Vec3) -> Vec3 {
    let unit = sv_norm(d);
    let t = s_mul(FX_HALF as int, s_add(unit.y as int, FX_ONE as int));
    sv_add(
        sv_mul(Vec3 { x: 838861, y: 838861, z: 1048576 }, s_sub(FX_ONE as int, t)),
        sv_mul(Vec3 { x: 524288, y: 734003, z: 1048576 }, t),
    )
}

/// The color of a ray that escaped to the background.
pub fn background(r: &Ray) -> (c: Color)
    ensures
        c == s_background(r.dir),
{
    let unit = crate::vec3::norm(r.dir());
    let t: i64 = crate::fx::fx_mul(FX_HALF, fx_add(unit.y, FX_ONE));
    let horizon = Vec3 { x: 838861, y: 838861, z: 1048576 };
    let zenith = Vec3 { x: 524288, y: 734003, z: 1048576 };
    horizon.mul(crate::fx::fx_sub(FX_ONE, t)).add(zenith.mul(t))
}

/// The color a bounce path resolves to: the base (terminal) color, attenuated
/// by every scatter record along the path, outermost first.
pub open spec fn s_path_color(base: Vec3, path: Seq<ScatterRecord>) -> Vec3
    decreases path.len(),
{
    if path.len() == 0 {
        base
    } else {
        sv_mul_vec(path.first().attenuation, s_path_color(base, path.drop_first()))
    }
}

/// The bounce path is one the scene and its materials can produce for this
/// ray and budget, ending in the base color: each step is a nearest hit
/// followed by some scatter outcome of the hit material; the path ends with
/// black on budget exhaustion or absorption, and with the background gradient
/// on escape.
pub open spec fn s_valid_path(
    r: Ray,
    os: Seq<Hittable>,
    depth: int,
    path: Seq<ScatterRecord>,
    base: Vec3,
) -> bool
    decreases path.len(),
{
    if path.len() == 0 {
        if depth <= 0 {
            base == (Vec3 { x: 0, y: 0, z: 0 })
        } else {
            match s_list_hit(os, r, RAY_T_MIN as int, INFINITY as int) {
                Some(rec) => s_scatter_outcome(rec.mat, r, rec, Option::<ScatterRecord>::None)
                    && base == (Vec3 { x: 0, y: 0, z: 0 }),
                None => base == s_background(r.dir),
            }
        }
    } else {
        depth > 0 && match s_list_hit(os, r, RAY_T_MIN as int, INFINITY as int) {
            Some(rec) => s_scatter_outcome(rec.mat, r, rec, Some(path.first())) && s_valid_path(
                path.first().scattered,
                os,
                depth - 1,
                path.drop_first(),
                base,
            ),
            None => false,
        }
    }
}

/// The colors a ray can resolve to, with every random input bound inside the
/// path: some valid bounce path's attenuated terminal color.
pub open spec fn s_possible_color(r: Ray, os: Seq<Hittable>, depth: int, c: Vec3) -> bool {
    exists|path: Seq<ScatterRecord>, base: Vec3|
        #[trigger] s_valid_path(r, os, depth, path, base) && c == s_path_color(base, path)
}

/// Resolve a ray's color: black once the bounce budget is exhausted; the
/// background when the ray escapes the scene; otherwise scatter at the
/// nearest hit and recurse, attenuating the result (black if absorbed). The
/// result is always a color possible for this ray, scene and budget.
pub fn ray_color(r: &Ray, world: &HittableList, depth: i32) -> (c: Color)
    ensures
        s_possible_color(*r, world.objects@, depth as int, c),
        depth <= 0 ==> c == (Vec3 { x: 0, y: 0, z: 0 }),
        (depth > 0 && s_list_hit(world.objects@, *r, RAY_T_MIN as int, INFINITY as int) is None)
            ==> c == s_background(r.dir),
    decreases depth,
{
    let ghost os = world.objects@;
    if depth <= 0 {
        let c = Vec3 { x: 0, y: 0, z: 0 };
        proof {
            let path = Seq::<ScatterRecord>::empty();
            assert(s_valid_path(*r, os, depth as int, path, c) && c == s_path_color(c, path));
        }
        return c;
    }
    match world.hit(r, RAY_T_MIN, INFINITY) {
        Some(hit_rec) => {
            match hit_rec.mat.scatter(r, &hit_rec) {
                Some(scatter_rec) => {
                    let rest = ray_color(&scatter_rec.scattered, world, depth - 1);
                    let c = scatter_rec.attenuation.mul_vec(rest);
                    proof {
                        let (subpath, base) = choose|path: Seq<ScatterRecord>, base: Vec3|
                            #[trigger] s_valid_path(scatter_rec.scattered, os, depth - 1, path,
                            base) && rest == s_path_color(base, path);
                        let path = seq![scatter_rec] + subpath;
                        assert(path.first() == scatter_rec && path.drop_first() =~= subpath);
                        assert(s_valid_path(*r, os, depth as int, path, base));
                        assert(c == s_path_color(base, path));
                    }
                    c
                },
                None => {
                    let c = Vec3 { x: 0, y: 0, z: 0 };
                    proof {
                        let path = Seq::<ScatterRecord>::empty();
                        assert(s_scatter_outcome(hit_rec.mat, *r, hit_rec, Option::<
                            ScatterRecord,
                        >::None));
                        assert(s_valid_path(*r, os, depth as int, path, c) && c == s_path_color(c,
                        path));
                    }
                    c
                },
            }
        },
        None => {
            let c = background(r);
            proof {
                let path = Seq::<ScatterRecord>::empty();
                assert(s_valid_path(*r, os, depth as int, path, c) && c == s_path_color(c, path));
            }
            c
        },
    }
}

/// A normalized, jittered image-plane coordinate: `(k + jitter) / (n - 1)`.
pub open spec fn s_jitter_coord(k: int, n: int, jitter: int) -> int {
    s_div(s_add(s_sat(k * FX_ONE), jitter), s_sat((n - 1) * FX_ONE))
}

/// One normalized, jittered image-plane coordinate.
pub fn sample_coord(k: i32, n: i32, jitter: i64) -> (r: i64)
    ensures
        r as int == s_jitter_coord(k as int, n as int, jitter as int),
{
    fx_div(fx_add(fx_from_int(k as i64), jitter), fx_from_int((n as i64) - 1))
}

/// The colors one jittered sample of pixel `(x, y)` can contribute: for some
/// jitter pair in `[0, 1)` and some lens draw, a color possible for the exact
/// camera ray at those coordinates.
pub open spec fn s_sample_color(
    cam: Camera,
    os: Seq<Hittable>,
    x: int,
    y: int,
    w: int,
    h: int,
    depth: int,
    c: Vec3,
) -> bool {
    exists|jx: int, jy: int, d: Vec3|
        0 <= jx < FX_ONE && 0 <= jy < FX_ONE && in_disk(d) && #[trigger] s_possible_color(
            s_get_ray(cam, s_jitter_coord(x, w, jx), s_jitter_coord(y, h, jy), d),
            os,
            depth,
            c,
        )
}

/// The saturating sum of a sequence of colors.
pub open spec fn sv_color_sum(cs: Seq<Vec3>) -> Vec3
    decreases cs.len(),
{
    if cs.len() == 0 {
        Vec3 { x: 0, y: 0, z: 0 }
    } else {
        sv_add(sv_color_sum(cs.drop_last()), cs.last())
    }
}

/// The colors an accumulation of `n` samples of pixel `(x, y)` can reach: the
/// saturating sum of `n` per-sample possible colors (zero when `n <= 0`).
pub open spec fn s_sample_sum(
    cam: Camera,
    os: Seq<Hittable>,
    x: int,
    y: int,
    w: int,
    h: int,
    depth: int,
    n: int,
    c: Vec3,
) -> bool {
    exists|cs: Seq<Vec3>|
        cs.len() == (if n >= 0 {
            n
        } else {
            0
        }) && (forall|i: int|
            0 <= i < cs.len() ==> s_sample_color(cam, os, x, y, w, h, depth, #[trigger] cs[i]))
            && c == #[trigger] sv_color_sum(cs)
}

/// Accumulate `samples` jittered rays through pixel `(x, y)`; the caller
/// normalizes and gamma-corrects the sum (`color_to_array`). The result is
/// always a saturating sum of `samples` per-sample possible colors.
pub fn pixel_color(
    cam: &Camera,
    world: &HittableList,
    x: i32,
    y: i32,
    image_width: i32,
    image_height: i32,
    samples: i32,
    depth: i32,
) -> (c: Color)
    ensures
        s_sample_sum(*cam, world.objects@, x as int, y as int, image_width as int,
            image_height as int, depth as int, samples as int, c),
        samples <= 0 ==> c == (Vec3 { x: 0, y: 0, z: 0 }),
{
    let ghost os = world.objects@;
    let mut acc = Vec3 { x: 0, y: 0, z: 0 };
    let mut s: i32 = 0;
    let ghost mut cs = Seq::<Vec3>::empty();
    while s < samples
        invariant
            0 <= s,
            samples > 0 ==> s <= samples,
            samples <= 0 ==> s == 0,
            os == world.objects@,
            cs.len() == s as int,
            forall|i: int|
                0 <= i < cs.len() ==> s_sample_color(*cam, os, x as int, y as int,
                image_width as int, image_height as int, depth as int, #[trigger] cs[i]),
            acc == sv_color_sum(cs),
        decreases samples - s,
    {
        let jx: i64 = rand_double();
        let jy: i64 = rand_double();
        let u: i64 = sample_coord(x, image_width, jx);
        let v: i64 = sample_coord(y, image_height, jy);
        let ray = cam.get_ray(u, v);
        let one = ray_color(&ray, world, depth);
        proof {
            let d = choose|d: Vec3| in_disk(d) && ray == s_get_ray(*cam, u as int, v as int, d);
            assert(in_disk(d) && ray == s_get_ray(*cam, u as int, v as int, d));
            assert(s_sample_color(*cam, os, x as int, y as int, image_width as int,
                image_height as int, depth as int, one)) by {
                assert(0 <= (jx as int) && (jx as int) < FX_ONE && 0 <= (jy as int) && (jy as int)
                    < FX_ONE && in_disk(d) && s_possible_color(
                    s_get_ray(*cam, s_jitter_coord(x as int, image_width as int, jx as int),
                    s_jitter_coord(y as int, image_height as int, jy as int), d),
                    os,
                    depth as int,
                    one,
                ));
            }
            let extended = cs.push(one);
            assert(extended.drop_last() =~= cs && extended.last() == one);
            assert(sv_color_sum(extended) == sv_add(sv_color_sum(cs), one));
            cs = extended;
        }
        acc = acc.add(one);
        s = s + 1;
    }
    proof {
        assert(cs.len() == (if samples as int >= 0 {
            samples as int
        } else {
            0
        }) && acc == sv_color_sum(cs));
    }
    acc
}

} // verus!
