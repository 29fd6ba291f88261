//! Triangles, and the Moeller-Trumbore ray-triangle intersection.

use vstd::prelude::*;

use crate::fx::{fx_div, s_div, FX_MAX};
use crate::hittable::{s_face_normal, HitRecord};
use crate::material::Material;
use crate::ray::{sv_at, Ray};
use crate::vec3::{cross, dot, lemma_dot_neg, norm, s_dot, sv_cross, sv_in_range, sv_neg, sv_norm,
    sv_sub, Point3, Vec3};

verus! {

/// A planar primitive given by three vertices; the material is shared
/// (read-only) across the many triangles of a mesh.
#[derive(Clone, Copy, PartialEq, Eq, Structural, Debug)]
pub struct Triangle {
    pub vertex0: Point3,
    pub vertex1: Point3,
    pub vertex2: Point3,
    pub mat: Material,
}

/// The geometric unit normal: the normalized cross product of the two edges
/// from the first vertex.
pub open spec fn s_tri_normal(tr: Triangle) -> Vec3 {
    sv_norm(sv_cross(sv_sub(tr.vertex1, tr.vertex0), sv_sub(tr.vertex2, tr.vertex0)))
}

/// `n / d` lies in `[0, 1]`.
pub open spec fn s_frac01(n: int, d: int) -> bool {
    if d >= 0 {
        0 <= n <= d
    } else {
        d <= n <= 0
    }
}

/// `n / d` is nonnegative.
pub open spec fn s_frac_nonneg(n: int, d: int) -> bool {
    if d >= 0 {
        n >= 0
    } else {
        n <= 0
    }
}

/// The exact outcome of `Triangle::hit`. A zero determinant (the fixed-point
/// counterpart of the epsilon test on it) means the ray is parallel to the
/// triangle's plane. The barycentric conditions are decided on the fractions
/// themselves, so no precision is lost to a reciprocal.
#[verifier::opaque]
pub open spec fn s_triangle_hit(tr: Triangle, r: Ray, t_min: int, t_max: int) -> Option<
    HitRecord,
> {
    let e1 = sv_sub(tr.vertex1, tr.vertex0);
    let e2 = sv_sub(tr.vertex2, tr.vertex0);
    let pv = sv_cross(r.dir, e2);
    let det = s_dot(e1, pv);
    if det == 0 {
        None
    } else {
        let tv = sv_sub(r.orig, tr.vertex0);
        let unum = s_dot(tv, pv);
        if !s_frac01(unum, det) {
            None
        } else {
            let qv = sv_cross(tv, e1);
            let vnum = s_dot(r.dir, qv);
            if !s_frac_nonneg(vnum, det) || !s_frac01(unum + vnum, det) {
                None
            } else {
                let t = s_div(s_dot(e2, qv), det);
                if t <= t_min || t_max < t {
                    None
                } else {
                    let outward = s_tri_normal(tr);
                    Some(HitRecord {
                        p: sv_at(r, t),
                        normal: s_face_normal(r, outward).1,
                        t: t as i64,
                        front_face: s_face_normal(r, outward).0,
                        mat: tr.mat,
                    })
                }
            }
        }
    }
}

impl Triangle {
    /// Build a triangle.
    pub fn new(vertex0: Point3, vertex1: Point3, vertex2: Point3, mat: Material) -> (r: Triangle)
        ensures
            r == (Triangle { vertex0, vertex1, vertex2, mat }),
    {
        Triangle { vertex0, vertex1, vertex2, mat }
    }

    /// The geometric unit normal.
    fn normal(&self) -> (r: Vec3)
        ensures
            r == s_tri_normal(*self),
    {
        norm(cross(self.vertex1.sub(self.vertex0), self.vertex2.sub(self.vertex0)))
    }

    /// Intersect a ray with this triangle within `(t_min, t_max]`, by the
    /// Moeller-Trumbore algorithm.
    #[verifier::rlimit(100)]
    #[verifier::spinoff_prover]
    pub fn hit(&self, ray: &Ray, t_min: i64, t_max: i64) -> (r: Option<HitRecord>)
        ensures
            r == s_triangle_hit(*self, *ray, t_min as int, t_max as int),
            r is Some ==> t_min < r->0.t <= t_max,
            r is Some ==> s_dot(ray.dir, r->0.normal) <= 0,
            r is Some ==> r->0.mat == self.mat,
    {
        proof {
            reveal(s_triangle_hit);
        }
        let edge_v0_v1 = self.vertex1.sub(self.vertex0);
        let edge_v0_v2 = self.vertex2.sub(self.vertex0);
        let pvec = cross(ray.dir(), edge_v0_v2);
        let determinant: i64 = dot(edge_v0_v1, pvec);
        if determinant == 0 {
            return None;
        }
        let tvec = ray.orig().sub(self.vertex0);
        let u_num: i64 = dot(tvec, pvec);
        let u_ok = if determinant > 0 {
            0 <= u_num && u_num <= determinant
        } else {
            determinant <= u_num && u_num <= 0
        };
        if !u_ok {
            return None;
        }
        let qvec = cross(tvec, edge_v0_v1);
        let v_num: i64 = dot(ray.dir(), qvec);
        let uv_num: i64 = u_num + v_num;
        let v_ok = if determinant > 0 {
            0 <= v_num && uv_num <= determinant
        } else {
            v_num <= 0 && determinant <= uv_num
        };
        if !v_ok {
            return None;
        }
        let ray_t: i64 = fx_div(dot(edge_v0_v2, qvec), determinant);
        if ray_t <= t_min || t_max < ray_t {
            return None;
        }
        let hit_point = ray.at(ray_t);
        let triangle_normal = self.normal();
        let mut rec = HitRecord::new(hit_point, triangle_normal, ray_t, false, self.mat);
        rec.set_face_normal(ray, triangle_normal);
        proof {
            lemma_dot_neg(ray.dir, triangle_normal);
        }
        Some(rec)
    }
}

} // verus!
