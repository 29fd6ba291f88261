//! The camera: an orthonormal viewing basis and thin-lens ray generation.

use vstd::prelude::*;

use crate::common::{deg_to_rad, s_tan, tan_fx, FX_180, FX_PI};
use crate::fx::{fx_div, fx_mul, s_div, s_mul, FX_HALF, FX_ONE};
use crate::ray::Ray;
use crate::vec3::{cross, in_disk, norm, rand_in_unit_disk, sv_add, sv_cross, sv_div, sv_mul,
    sv_norm, sv_sub, Point3, Vec3};

verus! {

/// A viewpoint with its viewport plane and lens.
#[derive(Clone, Copy, PartialEq, Eq, Structural, Debug)]
pub struct Camera {
    pub origin: Point3,
    pub lower_left_corner: Point3,
    pub horiz: Vec3,
    pub vert: Vec3,
    pub u: Vec3,
    pub v: Vec3,
    pub w: Vec3,
    pub lens_radius: i64,
}

/// The exact camera derivation: radians from degrees, the viewport extents
/// from the tangent of the half field of view, the orthonormal basis from the
/// look direction and the up hint, and the focus-plane corner.
pub open spec fn s_camera(
    lookfrom: Point3,
    lookat: Point3,
    vup: Vec3,
    vfov: int,
    aspect_ratio: int,
    aperture: int,
    focus_dist: int,
) -> Camera {
    let theta = s_div(s_mul(vfov, FX_PI as int), FX_180 as int);
    let h = s_tan(s_div(theta, 2 * FX_ONE));
    let viewport_height = s_mul(2 * FX_ONE, h);
    let viewport_width = s_mul(aspect_ratio, viewport_height);
    let w = sv_norm(sv_sub(lookfrom, lookat));
    let u = sv_norm(sv_cross(vup, w));
    let v = sv_cross(w, u);
    let horiz = sv_mul(u, s_mul(viewport_width, focus_dist));
    let vert = sv_mul(v, s_mul(viewport_height, focus_dist));
    let lower_left_corner = sv_sub(sv_sub(sv_sub(lookfrom, sv_mul(horiz, FX_HALF as int)), sv_mul(
        vert, FX_HALF as int)), sv_mul(w, focus_dist));
    Camera {
        origin: lookfrom,
        lower_left_corner,
        horiz,
        vert,
        u,
        v,
        w,
        lens_radius: s_mul(aperture, FX_HALF as int) as i64,
    }
}

/// The exact ray for image-plane coordinates `(s, t)` and lens draw `d`: the
/// origin offset by the lens point, aimed at the matching point of the focus
/// plane. With a zero lens radius the offset vanishes and `d` is irrelevant.
pub open spec fn s_get_ray(c: Camera, s: int, t: int, d: Vec3) -> Ray {
    let rd = sv_mul(d, c.lens_radius as int);
    let offset = sv_add(sv_mul(c.u, rd.x as int), sv_mul(c.v, rd.y as int));
    Ray {
        orig: sv_add(c.origin, offset),
        dir: sv_sub(sv_sub(sv_add(sv_add(c.lower_left_corner, sv_mul(c.horiz, s)), sv_mul(c.vert,
        t)), c.origin), offset),
    }
}

impl Camera {
    /// Build a camera from the eye position, the look-at target, the up hint,
    /// the vertical field of view in degrees, the aspect ratio, the lens
    /// aperture, and the focus distance (all scalars fixed-point).
    pub fn new(
        lookfrom: Point3,
        lookat: Point3,
        vup: Vec3,
        vfov: i64,
        aspect_ratio: i64,
        aperture: i64,
        focus_dist: i64,
    ) -> (r: Camera)
        ensures
            r == s_camera(lookfrom, lookat, vup, vfov as int, aspect_ratio as int, aperture as int,
                focus_dist as int),
    {
        let theta: i64 = deg_to_rad(vfov);
        let h: i64 = tan_fx(fx_div(theta, 2097152));
        let viewport_height: i64 = fx_mul(2097152, h);
        let viewport_width: i64 = fx_mul(aspect_ratio, viewport_height);
        let w = norm(lookfrom.sub(lookat));
        let u = norm(cross(vup, w));
        let v = cross(w, u);
        let horiz = u.mul(fx_mul(viewport_width, focus_dist));
        let vert = v.mul(fx_mul(viewport_height, focus_dist));
        let lower_left_corner = lookfrom.sub(horiz.mul(FX_HALF)).sub(vert.mul(FX_HALF)).sub(w.mul(
            focus_dist));
        Camera {
            origin: lookfrom,
            lower_left_corner,
            horiz,
            vert,
            u,
            v,
            w,
            lens_radius: fx_mul(aperture, FX_HALF),
        }
    }

    /// The basis vector spanning the viewport's width.
    pub fn u(&self) -> (r: Vec3)
        ensures
            r == self.u,
    {
        self.u
    }

    /// The basis vector spanning the viewport's height.
    pub fn v(&self) -> (r: Vec3)
        ensures
            r == self.v,
    {
        self.v
    }

    /// The ray for normalized image-plane coordinates `(s, t)`, with a random
    /// thin-lens offset; a zero aperture gives the exact pinhole ray.
    pub fn get_ray(&self, s: i64, t: i64) -> (r: Ray)
        ensures
            exists|d: Vec3| in_disk(d) && r == s_get_ray(*self, s as int, t as int, d),
            self.lens_radius == 0 ==> r == s_get_ray(*self, s as int, t as int,
                (Vec3 { x: 0, y: 0, z: 0 })),
    {
        let d = rand_in_unit_disk();
        let rd = d.mul(self.lens_radius);
        let offset = self.u.mul(rd.x).add(self.v.mul(rd.y));
        let ray = Ray::new(
            self.origin.add(offset),
            self.lower_left_corner.add(self.horiz.mul(s)).add(self.vert.mul(t)).sub(
                self.origin).sub(offset),
        );
        proof {
            assert(in_disk(d) && ray == s_get_ray(*self, s as int, t as int, d));
            if self.lens_radius == 0 {
                crate::fx::lemma_mul_zero(d.x as int);
                crate::fx::lemma_mul_zero(d.y as int);
                crate::fx::lemma_mul_zero(0);
                crate::fx::lemma_mul_zero(self.u.x as int);
                crate::fx::lemma_mul_zero(self.u.y as int);
                crate::fx::lemma_mul_zero(self.u.z as int);
                crate::fx::lemma_mul_zero(self.v.x as int);
                crate::fx::lemma_mul_zero(self.v.y as int);
                crate::fx::lemma_mul_zero(self.v.z as int);
                assert(ray == s_get_ray(*self, s as int, t as int, (Vec3 { x: 0, y: 0, z: 0 })));
            }
        }
        ray
    }
}

} // verus!
