//! Rays: an origin plus a direction, evaluated by a parameter.

use vstd::prelude::*;

use crate::vec3::{sv_add, sv_mul, Point3, Vec3};

verus! {

/// A parametrized line through `orig` along `dir`.
#[derive(Clone, Copy, PartialEq, Eq, Structural, Debug)]
pub struct Ray {
    pub orig: Point3,
    pub dir: Vec3,
}

/// The point a ray reaches at parameter `t`: `orig + t * dir`.
pub open spec fn sv_at(r: Ray, t: int) -> Vec3 {
    sv_add(r.orig, sv_mul(r.dir, t))
}

impl Ray {
    /// Build a ray from an origin and a direction.
    pub fn new(origin: Point3, direction: Vec3) -> (r: Ray)
        ensures
            r.orig == origin,
            r.dir == direction,
    {
        Ray { orig: origin, dir: direction }
    }

    /// The origin.
    pub fn orig(&self) -> (r: Point3)
        ensures
            r == self.orig,
    {
        self.orig
    }

    /// The direction; it need not be normalized.
    pub fn dir(&self) -> (r: Vec3)
        ensures
            r == self.dir,
    {
        self.dir
    }

    /// The point at parameter `t`.
    pub fn at(&self, t: i64) -> (r: Point3)
        ensures
            r == sv_at(*self, t as int),
    {
        self.orig.add(self.dir.mul(t))
    }
}

} // verus!
