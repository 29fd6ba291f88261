//! The scene: the closed set of surfaces, and the aggregate nearest-hit query.

use vstd::prelude::*;

use crate::hittable::HitRecord;
use crate::mesh::{s_mesh_hit, Mesh};
use crate::photo::{s_photo_hit, Photo};
use crate::ray::Ray;
use crate::sphere::{s_sphere_hit, Sphere};
use crate::triangle::{s_triangle_hit, Triangle};
use crate::vec3::s_dot;

verus! {

/// Anything a ray can intersect, as a closed tagged variant.
#[derive(Clone, Debug)]
pub enum Hittable {
    Sphere(Sphere),
    Triangle(Triangle),
    Mesh(Mesh),
    Photo(Photo),
}

/// The exact outcome of intersecting one object.
pub open spec fn s_object_hit(o: Hittable, r: Ray, t_min: int, t_max: int) -> Option<HitRecord> {
    match o {
        Hittable::Sphere(s) => s_sphere_hit(s, r, t_min, t_max),
        Hittable::Triangle(t) => s_triangle_hit(t, r, t_min, t_max),
        Hittable::Mesh(m) => s_mesh_hit(m.objects@, r, t_min, t_max),
        Hittable::Photo(p) => s_photo_hit(p, r, t_min, t_max),
    }
}

/// The exact outcome of scanning the objects in order, shrinking the upper
/// ray-parameter bound to the best hit found so far: the returned record is
/// the nearest hit across the whole scene, so a farther object can never
/// override a nearer one, whatever the insertion order.
pub open spec fn s_list_hit(os: Seq<Hittable>, r: Ray, t_min: int, t_max: int) -> Option<HitRecord>
    decreases os.len(),
{
    if os.len() == 0 {
        None
    } else {
        let prev = s_list_hit(os.drop_last(), r, t_min, t_max);
        let bound = if prev is Some {
            prev->0.t as int
        } else {
            t_max
        };
        let cur = s_object_hit(os.last(), r, t_min, bound);
        if cur is Some {
            cur
        } else {
            prev
        }
    }
}

impl Hittable {
    /// Intersect a ray with this object within `(t_min, t_max]`.
    pub fn hit(&self, ray: &Ray, t_min: i64, t_max: i64) -> (r: Option<HitRecord>)
        ensures
            r == s_object_hit(*self, *ray, t_min as int, t_max as int),
            r is Some ==> t_min < r->0.t <= t_max,
            r is Some ==> s_dot(ray.dir, r->0.normal) <= 0,
    {
        match self {
            Hittable::Sphere(s) => s.hit(ray, t_min, t_max),
            Hittable::Triangle(t) => t.hit(ray, t_min, t_max),
            Hittable::Mesh(m) => m.hit(ray, t_min, t_max),
            Hittable::Photo(p) => p.hit(ray, t_min, t_max),
        }
    }
}

/// The full collection of intersectable objects.
#[derive(Clone, Debug)]
pub struct HittableList {
    pub objects: Vec<Hittable>,
}

impl HittableList {
    /// An empty scene.
    pub fn new() -> (r: HittableList)
        ensures
            r.objects@.len() == 0,
    {
        HittableList { objects: Vec::new() }
    }

    /// Append an object.
    pub fn add(&mut self, obj: Hittable)
        ensures
            final(self).objects@ == old(self).objects@.push(obj),
    {
        self.objects.push(obj);
    }

    /// Intersect a ray with every object, returning the nearest hit in
    /// `(t_min, t_max]`: the upper bound shrinks to the best parameter found
    /// so far, which is what gives correct occlusion between overlapping
    /// objects.
    pub fn hit(&self, ray: &Ray, t_min: i64, t_max: i64) -> (r: Option<HitRecord>)
        ensures
            r == s_list_hit(self.objects@, *ray, t_min as int, t_max as int),
            r is Some ==> t_min < r->0.t <= t_max,
            r is Some ==> s_dot(ray.dir, r->0.normal) <= 0,
    {
        let n: usize = self.objects.len();
        let mut result: Option<HitRecord> = None;
        let mut closest: i64 = t_max;
        let mut i: usize = 0;
        while i < n
            invariant
                n == self.objects@.len(),
                i <= n,
                result == s_list_hit(self.objects@.take(i as int), *ray, t_min as int,
                t_max as int),
                closest == if result is Some {
                    result->0.t
                } else {
                    t_max
                },
                result is Some ==> t_min < result->0.t <= t_max,
                result is Some ==> s_dot(ray.dir, result->0.normal) <= 0,
            decreases n - i,
        {
            proof {
                assert(self.objects@.take(i + 1 as int).drop_last() =~= self.objects@.take(
                i as int));
                assert(self.objects@.take(i + 1 as int).last() == self.objects@[i as int]);
            }
            let obj = &self.objects[i];
            match obj.hit(ray, t_min, closest) {
                Some(rec) => {
                    closest = rec.t;
                    result = Some(rec);
                },
                None => {},
            }
            i = i + 1;
        }
        proof {
            assert(self.objects@.take(n as int) =~= self.objects@);
        }
        result
    }
}

} // verus!
