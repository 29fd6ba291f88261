//! Picture quads: a textured rectangle whose transparent pixels let rays pass.
//!
//! The image itself is decoded outside the library; a photo holds only the
//! decoded alpha mask as plain bytes, row-major.

use vstd::prelude::*;

use crate::fx::{fx_div, fx_from_int, fx_mul, fx_to_int, s_div, s_mul, s_sat, s_tdiv, FX_ONE};
use crate::hittable::HitRecord;
use crate::material::Material;
use crate::ray::Ray;
use crate::triangle::{s_triangle_hit, Triangle};
use crate::vec3::{dot, s_dot, sv_add, sv_mul, sv_neg, sv_sub, Point3, Vec3};

verus! {

/// A rectangle of two triangles, with an alpha mask mapped over it.
#[derive(Clone, Debug)]
pub struct Photo {
    pub top_left: Point3,
    pub width: i64,
    pub height: i64,
    pub image_width: u32,
    pub image_height: u32,
    pub u: Vec3,
    pub v: Vec3,
    pub rect0: Triangle,
    pub rect1: Triangle,
    pub alpha: Vec<u8>,
}

/// Clamp a computed pixel coordinate into `[0, n)`.
pub open spec fn s_clamp_idx(i: int, n: int) -> int {
    if i < 0 {
        0
    } else if i >= n {
        if n > 0 {
            n - 1
        } else {
            0
        }
    } else {
        i
    }
}

/// The exact outcome of `Photo::hit`: the first rectangle triangle that the
/// ray hits (the second is tried only if the first misses), dropped when the
/// alpha mask is zero at the struck pixel. An index outside the mask reads as
/// transparent.
#[verifier::opaque]
pub open spec fn s_photo_hit(ph: Photo, r: Ray, t_min: int, t_max: int) -> Option<HitRecord> {
    let first = s_triangle_hit(ph.rect0, r, t_min, t_max);
    let rec = if first is Some {
        first
    } else {
        s_triangle_hit(ph.rect1, r, t_min, t_max)
    };
    if rec is Some {
        let rel = sv_sub(rec->0.p, ph.top_left);
        let uu = s_div(s_dot(rel, ph.u), ph.width as int);
        let vv = s_div(s_dot(rel, ph.v), ph.height as int);
        let xi = s_clamp_idx(s_tdiv(s_mul(uu, s_sat(ph.image_width as int * FX_ONE)),
            FX_ONE as int), ph.image_width as int);
        let yi = s_clamp_idx(s_tdiv(s_mul(vv, s_sat(ph.image_height as int * FX_ONE)),
            FX_ONE as int), ph.image_height as int);
        let idx = yi * ph.image_width + xi;
        let a: u8 = if 0 <= idx < ph.alpha@.len() {
            ph.alpha@[idx]
        } else {
            0u8
        };
        if a == 0 {
            None
        } else {
            rec
        }
    } else {
        None
    }
}

fn clamp_idx(i: i64, n: u32) -> (r: u32)
    ensures
        r as int == s_clamp_idx(i as int, n as int),
        n > 0 ==> r < n,
{
    if i < 0 {
        0
    } else if i >= n as i64 {
        if n > 0 {
            n - 1
        } else {
            0
        }
    } else {
        i as u32
    }
}

impl Photo {
    /// Build a photo quad: the rectangle spans `width` along `u` and `height`
    /// down `-v` from the top-left corner; `image_width`, `image_height` and
    /// `alpha` describe the decoded image's row-major alpha mask.
    pub fn new(
        top_left: Point3,
        width: i64,
        height: i64,
        u: Vec3,
        v: Vec3,
        mat: Material,
        image_width: u32,
        image_height: u32,
        alpha: Vec<u8>,
    ) -> (r: Photo)
        ensures
            r.top_left == top_left,
            r.width == width,
            r.height == height,
            r.image_width == image_width,
            r.image_height == image_height,
            r.u == u,
            r.v == sv_neg(v),
            r.alpha@ == alpha@,
            ({
                let p0 = top_left;
                let p1 = sv_add(top_left, sv_mul(u, width as int));
                let p2 = sv_sub(top_left, sv_mul(v, height as int));
                let p3 = sv_sub(sv_add(top_left, sv_mul(u, width as int)), sv_mul(v,
                height as int));
                r.rect0 == (Triangle { vertex0: p0, vertex1: p1, vertex2: p2, mat }) && r.rect1
                    == (Triangle { vertex0: p2, vertex1: p1, vertex2: p3, mat })
            }),
    {
        let p0 = top_left;
        let p1 = top_left.add(u.mul(width));
        let p2 = top_left.sub(v.mul(height));
        let p3 = top_left.add(u.mul(width)).sub(v.mul(height));
        Photo {
            top_left,
            width,
            height,
            image_width,
            image_height,
            u,
            v: v.neg(),
            rect0: Triangle::new(p0, p1, p2, mat),
            rect1: Triangle::new(p2, p1, p3, mat),
            alpha,
        }
    }

    /// Intersect a ray with the quad in `(t_min, t_max]`; a hit on a
    /// transparent pixel of the mask counts as a miss.
    pub fn hit(&self, ray: &Ray, t_min: i64, t_max: i64) -> (r: Option<HitRecord>)
        ensures
            r == s_photo_hit(*self, *ray, t_min as int, t_max as int),
            r is Some ==> t_min < r->0.t <= t_max,
            r is Some ==> s_dot(ray.dir, r->0.normal) <= 0,
    {
        proof {
            reveal(s_photo_hit);
        }
        let record = match self.rect0.hit(ray, t_min, t_max) {
            Some(rec) => Some(rec),
            None => self.rect1.hit(ray, t_min, t_max),
        };
        match record {
            Some(rec) => {
                let rel = rec.p.sub(self.top_left);
                let uu: i64 = fx_div(dot(rel, self.u), self.width);
                let vv: i64 = fx_div(dot(rel, self.v), self.height);
                let x: u32 = clamp_idx(fx_to_int(fx_mul(uu, fx_from_int(self.image_width as i64))),
                    self.image_width);
                let y: u32 = clamp_idx(fx_to_int(fx_mul(vv, fx_from_int(
                    self.image_height as i64))), self.image_height);
                proof {
                    assert((y as int) * (self.image_width as int) + (x as int)
                        < 0x10000000000000000) by (nonlinear_arith)
                        requires
                            0 <= y < 0x100000000 && 0 <= self.image_width < 0x100000000 && 0 <= x
                                < 0x100000000,
                    ;
                }
                let idx: u64 = (y as u64) * (self.image_width as u64) + (x as u64);
                let a: u8 = if idx < self.alpha.len() as u64 {
                    self.alpha[idx as usize]
                } else {
                    0
                };
                if a == 0 {
                    None
                } else {
                    Some(rec)
                }
            },
            None => None,
        }
    }
}

} // verus!
