//! Spheres, and the quadratic ray-sphere intersection.

use vstd::prelude::*;

use crate::fx::{fx_div_wide, fx_isqrt_wide, fx_mul, fx_sub, s_div, s_isqrt, s_mul, s_sub, FX_MAX};
use crate::hittable::{s_face_normal, HitRecord};
use crate::material::Material;
use crate::ray::{sv_at, Ray};
use crate::vec3::{dot, lemma_dot_neg, s_dot, s_len_sq, sv_div, sv_in_range, sv_neg, sv_sub,
    Point3};

verus! {

/// An implicit quadric surface. A negative radius is allowed and flips the
/// outward normal, which models a hollow shell when nested inside a larger
/// sphere.
#[derive(Clone, Copy, PartialEq, Eq, Structural, Debug)]
pub struct Sphere {
    pub center: Point3,
    pub radius: i64,
    pub mat: Material,
}

/// The exact outcome of `Sphere::hit`: solve the half-b quadratic over the
/// fixed-point values, try the smaller root first, then the larger, and build
/// the record with the front-face rule. The discriminant and the root
/// numerators are held wide (double scale), so only the final quotient rounds.
#[verifier::opaque]
pub open spec fn s_sphere_hit(s: Sphere, r: Ray, t_min: int, t_max: int) -> Option<HitRecord> {
    let oc = sv_sub(r.orig, s.center);
    let a = s_len_sq(r.dir);
    let half_b = s_dot(oc, r.dir);
    let c = s_sub(s_len_sq(oc), s_mul(s.radius as int, s.radius as int));
    let disc = half_b * half_b - a * c;
    if disc < 0 {
        None
    } else {
        let sq = s_isqrt(disc);
        let root1 = s_div(-half_b - sq, a);
        let root = if root1 <= t_min || t_max < root1 {
            s_div(-half_b + sq, a)
        } else {
            root1
        };
        if root <= t_min || t_max < root {
            None
        } else {
            let p = sv_at(r, root);
            let outward = sv_div(sv_sub(p, s.center), s.radius as int);
            Some(HitRecord {
                p,
                normal: s_face_normal(r, outward).1,
                t: root as i64,
                front_face: s_face_normal(r, outward).0,
                mat: s.mat,
            })
        }
    }
}

impl Sphere {
    /// Build a sphere.
    pub fn new(center: Point3, radius: i64, mat: Material) -> (r: Sphere)
        ensures
            r == (Sphere { center, radius, mat }),
    {
        Sphere { center, radius, mat }
    }

    /// Intersect a ray with this sphere within `(t_min, t_max]`.
    pub fn hit(&self, ray: &Ray, t_min: i64, t_max: i64) -> (r: Option<HitRecord>)
        ensures
            r == s_sphere_hit(*self, *ray, t_min as int, t_max as int),
            r is Some ==> t_min < r->0.t <= t_max,
            r is Some ==> s_dot(ray.dir, r->0.normal) <= 0,
            r is Some ==> r->0.mat == self.mat,
    {
        proof {
            reveal(s_sphere_hit);
        }
        let oc = ray.orig().sub(self.center);
        let a: i64 = ray.dir().length_squared();
        let half_b: i64 = dot(oc, ray.dir());
        let c: i64 = fx_sub(oc.length_squared(), fx_mul(self.radius, self.radius));
        proof {
            assert(-0x100000000000000000000000 <= (half_b as int) * (half_b as int)
                <= 0x100000000000000000000000 && -0x100000000000000000000000 <= (a as int) * (
            c as int) <= 0x100000000000000000000000) by (nonlinear_arith)
                requires
                    -FX_MAX <= half_b <= FX_MAX && -FX_MAX <= a <= FX_MAX && -FX_MAX <= c <= FX_MAX
                        && FX_MAX == 0x3fffffffffff,
            ;
        }
        let discriminant: i128 = (half_b as i128) * (half_b as i128) - (a as i128) * (c as i128);
        if discriminant < 0 {
            return None;
        }
        let sqrt_d: i64 = fx_isqrt_wide(discriminant);
        let mut root: i64 = fx_div_wide(-(half_b as i128) - (sqrt_d as i128), a);
        if root <= t_min || t_max < root {
            root = fx_div_wide(-(half_b as i128) + (sqrt_d as i128), a);
            if root <= t_min || t_max < root {
                return None;
            }
        }
        let p = ray.at(root);
        let outward_normal = p.sub(self.center).div(self.radius);
        let mut rec = HitRecord::new(p, outward_normal, root, true, self.mat);
        rec.set_face_normal(ray, outward_normal);
        proof {
            lemma_dot_neg(ray.dir, outward_normal);
        }
        Some(rec)
    }
}

} // verus!
