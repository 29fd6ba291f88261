//! Hit records and the front-face rule shared by every surface.

use vstd::prelude::*;

use crate::material::Material;
use crate::ray::Ray;
use crate::vec3::{dot, s_dot, sv_neg, Point3, Vec3};

verus! {

/// The result of a successful intersection: the hit point, the unit normal
/// opposing the incident ray, the ray parameter, which side was struck, and
/// the material to scatter with.
#[derive(Clone, Copy, PartialEq, Eq, Structural, Debug)]
pub struct HitRecord {
    pub p: Point3,
    pub normal: Vec3,
    pub t: i64,
    pub front_face: bool,
    pub mat: Material,
}

/// The front-face rule: the ray hits the front when it runs against the
/// outward normal; the stored normal is the outward normal, flipped if needed
/// so that it always opposes the ray.
pub open spec fn s_face_normal(r: Ray, outward_normal: Vec3) -> (bool, Vec3) {
    if s_dot(r.dir, outward_normal) < 0 {
        (true, outward_normal)
    } else {
        (false, sv_neg(outward_normal))
    }
}

impl HitRecord {
    /// Build a record outright; every hit routine goes through
    /// `set_face_normal` afterwards to orient the normal.
    pub fn new(p: Point3, normal: Vec3, t: i64, front_face: bool, mat: Material) -> (r: HitRecord)
        ensures
            r == (HitRecord { p, normal, t, front_face, mat }),
    {
        HitRecord { p, normal, t, front_face, mat }
    }

    /// Apply the front-face rule: store whether the front was hit, and the
    /// normal oriented against the incident ray.
    pub fn set_face_normal(&mut self, r: &Ray, outward_normal: Vec3)
        ensures
            final(self).front_face == s_face_normal(*r, outward_normal).0,
            final(self).normal == s_face_normal(*r, outward_normal).1,
            final(self).p == old(self).p,
            final(self).t == old(self).t,
            final(self).mat == old(self).mat,
    {
        self.front_face = dot(r.dir, outward_normal) < 0;
        self.normal = if self.front_face {
            outward_normal
        } else {
            outward_normal.neg()
        };
    }
}

} // verus!
