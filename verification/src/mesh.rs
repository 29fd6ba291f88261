//! Meshes: ordered groups of triangles with aggregate queries.

use vstd::prelude::*;

use crate::fx::{fx_add, fx_div, fx_from_count, s_add, s_div, s_sat, FX_ONE};
use crate::hittable::HitRecord;
use crate::ray::Ray;
use crate::triangle::{s_triangle_hit, Triangle};
use crate::vec3::{s_dot, s_len, sv_add, sv_apply, sv_div, Point3, Transform, Vec3};

verus! {

/// A named group of triangles, hit-tested as one object.
#[derive(Clone, Debug)]
pub struct Mesh {
    pub objects: Vec<Triangle>,
}

/// The centroid of one triangle.
pub open spec fn s_centroid(t: Triangle) -> Vec3 {
    sv_div(sv_add(sv_add(t.vertex0, t.vertex1), t.vertex2), 3 * FX_ONE)
}

/// The running (saturating) sum of the triangles' centroids.
pub open spec fn s_centroid_sum(ts: Seq<Triangle>) -> Vec3
    decreases ts.len(),
{
    if ts.len() == 0 {
        Vec3 { x: 0, y: 0, z: 0 }
    } else {
        sv_add(s_centroid_sum(ts.drop_last()), s_centroid(ts.last()))
    }
}

/// The mesh's center: the mean of its triangles' centroids.
pub open spec fn s_center(ts: Seq<Triangle>) -> Vec3 {
    sv_div(s_centroid_sum(ts), s_sat(ts.len() * FX_ONE))
}

/// The mean distance of one triangle's vertices from the origin.
pub open spec fn s_tri_radius(t: Triangle) -> int {
    s_div(s_add(s_add(s_len(t.vertex0), s_len(t.vertex1)), s_len(t.vertex2)), 3 * FX_ONE)
}

/// The running (saturating) sum of the triangles' mean vertex distances.
pub open spec fn s_radius_sum(ts: Seq<Triangle>) -> int
    decreases ts.len(),
{
    if ts.len() == 0 {
        0
    } else {
        s_add(s_radius_sum(ts.drop_last()), s_tri_radius(ts.last()))
    }
}

/// The mesh's radius: the mean over its triangles of the mean vertex distance
/// from the origin.
pub open spec fn s_radius(ts: Seq<Triangle>) -> int {
    s_div(s_radius_sum(ts), s_sat(ts.len() * FX_ONE))
}

/// One triangle mapped by an affine transform (material kept).
pub open spec fn s_tri_apply(tr: Transform, t: Triangle) -> Triangle {
    Triangle {
        vertex0: sv_apply(tr, t.vertex0),
        vertex1: sv_apply(tr, t.vertex1),
        vertex2: sv_apply(tr, t.vertex2),
        mat: t.mat,
    }
}

/// The exact outcome of scanning the triangles in order, shrinking the upper
/// ray-parameter bound to the best hit found so far: the returned record is
/// the nearest hit over the whole sequence.
pub open spec fn s_mesh_hit(ts: Seq<Triangle>, r: Ray, t_min: int, t_max: int) -> Option<HitRecord>
    decreases ts.len(),
{
    if ts.len() == 0 {
        None
    } else {
        let prev = s_mesh_hit(ts.drop_last(), r, t_min, t_max);
        let bound = if prev is Some {
            prev->0.t as int
        } else {
            t_max
        };
        let cur = s_triangle_hit(ts.last(), r, t_min, bound);
        if cur is Some {
            cur
        } else {
            prev
        }
    }
}

impl Mesh {
    /// Build a mesh from its triangles.
    pub fn new(objects: Vec<Triangle>) -> (r: Mesh)
        ensures
            r.objects@ == objects@,
    {
        Mesh { objects }
    }

    /// Map every vertex of every triangle by an affine transform.
    pub fn map(&mut self, tr: &Transform)
        ensures
            final(self).objects@.len() == old(self).objects@.len(),
            forall|i: int|
                0 <= i < old(self).objects@.len() ==> final(self).objects@[i] == s_tri_apply(*tr,
                #[trigger] old(self).objects@[i]),
    {
        let n: usize = self.objects.len();
        let mut out: Vec<Triangle> = Vec::new();
        let mut i: usize = 0;
        while i < n
            invariant
                n == old(self).objects@.len(),
                self.objects@ == old(self).objects@,
                i <= n,
                out@.len() == i as int,
                forall|j: int|
                    0 <= j < i as int ==> out@[j] == s_tri_apply(*tr, #[trigger] old(
                    self).objects@[j]),
            decreases n - i,
        {
            let t = self.objects[i];
            let mapped = Triangle {
                vertex0: tr.apply(t.vertex0),
                vertex1: tr.apply(t.vertex1),
                vertex2: tr.apply(t.vertex2),
                mat: t.mat,
            };
            out.push(mapped);
            i = i + 1;
        }
        self.objects = out;
    }

    /// The mean of the triangles' centroids.
    pub fn center(&self) -> (r: Point3)
        ensures
            r == s_center(self.objects@),
    {
        let n: usize = self.objects.len();
        let mut sum = Vec3 { x: 0, y: 0, z: 0 };
        let mut i: usize = 0;
        while i < n
            invariant
                n == self.objects@.len(),
                i <= n,
                sum == s_centroid_sum(self.objects@.take(i as int)),
            decreases n - i,
        {
            let t = self.objects[i];
            let centroid = t.vertex0.add(t.vertex1).add(t.vertex2).div(3145728);
            sum = sum.add(centroid);
            proof {
                assert(self.objects@.take(i + 1 as int).drop_last() =~= self.objects@.take(
                i as int));
                assert(self.objects@.take(i + 1 as int).last() == self.objects@[i as int]);
            }
            i = i + 1;
        }
        proof {
            assert(self.objects@.take(n as int) =~= self.objects@);
        }
        sum.div(fx_from_count(n))
    }

    /// The mean over the triangles of the mean vertex distance from the
    /// origin.
    pub fn radius(&self) -> (r: i64)
        ensures
            r as int == s_radius(self.objects@),
    {
        let n: usize = self.objects.len();
        let mut sum: i64 = 0;
        let mut i: usize = 0;
        while i < n
            invariant
                n == self.objects@.len(),
                i <= n,
                sum as int == s_radius_sum(self.objects@.take(i as int)),
            decreases n - i,
        {
            let t = self.objects[i];
            let tri_r: i64 = fx_div(fx_add(fx_add(t.vertex0.length(), t.vertex1.length()),
                t.vertex2.length()), 3145728);
            sum = fx_add(sum, tri_r);
            proof {
                assert(self.objects@.take(i + 1 as int).drop_last() =~= self.objects@.take(
                i as int));
                assert(self.objects@.take(i + 1 as int).last() == self.objects@[i as int]);
            }
            i = i + 1;
        }
        proof {
            assert(self.objects@.take(n as int) =~= self.objects@);
        }
        fx_div(sum, fx_from_count(n))
    }

    /// Intersect a ray with every triangle, returning the nearest hit in
    /// `(t_min, t_max]`: the upper bound shrinks to the best parameter found,
    /// so a farther triangle can never override a nearer one.
    pub fn hit(&self, ray: &Ray, t_min: i64, t_max: i64) -> (r: Option<HitRecord>)
        ensures
            r == s_mesh_hit(self.objects@, *ray, t_min as int, t_max as int),
            r is Some ==> t_min < r->0.t <= t_max,
            r is Some ==> s_dot(ray.dir, r->0.normal) <= 0,
    {
        let n: usize = self.objects.len();
        let mut result: Option<HitRecord> = None;
        let mut closest: i64 = t_max;
        let mut i: usize = 0;
        while i < n
            invariant
                n == self.objects@.len(),
                i <= n,
                result == s_mesh_hit(self.objects@.take(i as int), *ray, t_min as int,
                t_max as int),
                closest == if result is Some {
                    result->0.t
                } else {
                    t_max
                },
                result is Some ==> t_min < result->0.t <= t_max,
                result is Some ==> s_dot(ray.dir, result->0.normal) <= 0,
            decreases n - i,
        {
            proof {
                assert(self.objects@.take(i + 1 as int).drop_last() =~= self.objects@.take(
                i as int));
                assert(self.objects@.take(i + 1 as int).last() == self.objects@[i as int]);
            }
            let obj = &self.objects[i];
            match obj.hit(ray, t_min, closest) {
                Some(rec) => {
                    closest = rec.t;
                    result = Some(rec);
                },
                None => {},
            }
            i = i + 1;
        }
        proof {
            assert(self.objects@.take(n as int) =~= self.objects@);
        }
        result
    }
}

} // verus!
