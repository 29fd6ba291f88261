//! Materials: how light scatters, attenuates, or is absorbed at a surface.

use vstd::prelude::*;

use crate::color::Color;
use crate::common::rand_double;
use crate::fx::{fx_add, fx_div, fx_min, fx_mul, fx_sqrt, fx_sub, s_add, s_div, s_mul, s_sqrt,
    s_sub, FX_ONE};
use crate::hittable::HitRecord;
use crate::ray::Ray;
use crate::vec3::{dot, norm, rand_unit_vector, reflect, refract, s_dot, sv_add, sv_mul, sv_neg,
    sv_norm, sv_reflect, sv_refract, unit_sample, Vec3};

verus! {

/// What a scattering material hands back: the energy attenuation and the
/// outgoing ray.
#[derive(Clone, Copy, PartialEq, Eq, Structural, Debug)]
pub struct ScatterRecord {
    pub attenuation: Color,
    pub scattered: Ray,
}

/// A diffuse surface.
#[derive(Clone, Copy, PartialEq, Eq, Structural, Debug)]
pub struct Lambertian {
    pub albedo: Color,
}

/// A specular surface with a roughness (`fuzz`) parameter.
#[derive(Clone, Copy, PartialEq, Eq, Structural, Debug)]
pub struct Metal {
    pub albedo: Color,
    pub fuzz: i64,
}

/// A clear refractive surface with an index of refraction.
#[derive(Clone, Copy, PartialEq, Eq, Structural, Debug)]
pub struct Dielectric {
    pub ir: i64,
}

/// The closed set of materials, dispatched by an exhaustive match.
#[derive(Clone, Copy, PartialEq, Eq, Structural, Debug)]
pub enum Material {
    Lambertian(Lambertian),
    Metal(Metal),
    Dielectric(Dielectric),
}

/// The diffuse scatter direction: the surface normal offset by a unit sample,
/// falling back to the bare normal if the two cancel.
pub open spec fn s_lambertian_dir(n: Vec3, u: Vec3) -> Vec3 {
    let d = sv_add(n, u);
    if d.x == 0 && d.y == 0 && d.z == 0 {
        n
    } else {
        d
    }
}

impl Lambertian {
    /// Build a diffuse material with the given base color.
    pub fn new(albedo: Color) -> (r: Lambertian)
        ensures
            r.albedo == albedo,
    {
        Lambertian { albedo }
    }

    /// Diffuse scattering: always scatters, attenuating by the albedo; the
    /// outgoing ray leaves the hit point along the normal plus a unit sample.
    pub fn scatter(&self, _r_in: &Ray, rec: &HitRecord) -> (r: Option<ScatterRecord>)
        ensures
            r is Some,
            r->0.attenuation == self.albedo,
            r->0.scattered.orig == rec.p,
            exists|u: Vec3| unit_sample(u) && r->0.scattered.dir == s_lambertian_dir(rec.normal, u),
    {
        let u = rand_unit_vector();
        let mut scatter_direction = rec.normal.add(u);
        if scatter_direction.near_zero() {
            scatter_direction = rec.normal;
        }
        let result = Some(ScatterRecord {
            attenuation: self.albedo,
            scattered: Ray::new(rec.p, scatter_direction),
        });
        proof {
            assert(unit_sample(u) && result->0.scattered.dir == s_lambertian_dir(rec.normal, u));
        }
        result
    }
}

impl Metal {
    /// Build a metal; roughness above 1.0 is clamped to 1.0.
    pub fn new(albedo: Color, fuzz: i64) -> (r: Metal)
        ensures
            r.albedo == albedo,
            r.fuzz == if fuzz < FX_ONE {
                fuzz
            } else {
                FX_ONE
            },
    {
        Metal { albedo, fuzz: if fuzz < FX_ONE { fuzz } else { FX_ONE } }
    }

    /// Specular scattering: reflect the normalized incoming direction about
    /// the normal and perturb it by `fuzz` times a unit sample; absorb the ray
    /// if the perturbed direction falls below the surface.
    pub fn scatter(&self, r_in: &Ray, rec: &HitRecord) -> (r: Option<ScatterRecord>)
        ensures
            r is Some ==> (r->0.attenuation == self.albedo && r->0.scattered.orig == rec.p && s_dot(
            r->0.scattered.dir, rec.normal) > 0),
            exists|u: Vec3|
                unit_sample(u) && ({
                    let d = sv_add(sv_reflect(sv_norm(r_in.dir), rec.normal), sv_mul(u,
                    self.fuzz as int));
                    if s_dot(d, rec.normal) > 0 {
                        r == Some(ScatterRecord {
                            attenuation: self.albedo,
                            scattered: Ray { orig: rec.p, dir: d },
                        })
                    } else {
                        r is None
                    }
                }),
            self.fuzz == 0 ==> ({
                let d = sv_reflect(sv_norm(r_in.dir), rec.normal);
                if s_dot(d, rec.normal) > 0 {
                    r == Some(ScatterRecord {
                        attenuation: self.albedo,
                        scattered: Ray { orig: rec.p, dir: d },
                    })
                } else {
                    r is None
                }
            }),
    {
        let reflected = reflect(norm(r_in.dir()), rec.normal);
        let u = rand_unit_vector();
        let scattered_dir = reflected.add(u.mul(self.fuzz));
        proof {
            if self.fuzz == 0 {
                crate::fx::lemma_mul_zero(u.x as int);
                crate::fx::lemma_mul_zero(u.y as int);
                crate::fx::lemma_mul_zero(u.z as int);
                assert(scattered_dir == reflected);
            }
        }
        let scattered = Ray::new(rec.p, scattered_dir);
        if dot(scattered.dir(), rec.normal) > 0 {
            let result = Some(ScatterRecord { attenuation: self.albedo, scattered });
            proof {
                assert(unit_sample(u) && s_dot(scattered_dir, rec.normal) > 0);
            }
            result
        } else {
            proof {
                assert(unit_sample(u) && !(s_dot(scattered_dir, rec.normal) > 0));
            }
            None
        }
    }
}

/// Schlick's reflectance approximation, in fixed point.
pub open spec fn s_reflectance(cosine: int, ref_idx: int) -> int {
    let r0 = s_div(s_sub(FX_ONE as int, ref_idx), s_add(FX_ONE as int, ref_idx));
    let r0sq = s_mul(r0, r0);
    let omc = s_sub(FX_ONE as int, cosine);
    let p2 = s_mul(omc, omc);
    let p4 = s_mul(p2, p2);
    let p5 = s_mul(p4, omc);
    s_add(r0sq, s_mul(s_sub(FX_ONE as int, r0sq), p5))
}

impl Dielectric {
    /// Build a refractive material with the given index of refraction.
    pub fn new(index_of_refraction: i64) -> (r: Dielectric)
        ensures
            r.ir == index_of_refraction,
    {
        Dielectric { ir: index_of_refraction }
    }

    /// Schlick's reflectance approximation.
    fn reflectance(cosine: i64, ref_idx: i64) -> (r: i64)
        ensures
            r as int == s_reflectance(cosine as int, ref_idx as int),
    {
        let r0: i64 = fx_div(fx_sub(FX_ONE, ref_idx), fx_add(FX_ONE, ref_idx));
        let r0sq: i64 = fx_mul(r0, r0);
        let omc: i64 = fx_sub(FX_ONE, cosine);
        let p2: i64 = fx_mul(omc, omc);
        let p4: i64 = fx_mul(p2, p2);
        let p5: i64 = fx_mul(p4, omc);
        fx_add(r0sq, fx_mul(fx_sub(FX_ONE, r0sq), p5))
    }

    /// Refractive scattering: never absorbs and never tints. The outgoing
    /// direction is the reflection of the normalized incoming direction when
    /// refraction is impossible (total internal reflection), and otherwise is
    /// its reflection or its refraction, chosen against Schlick reflectance:
    /// the direction is `s_dielectric_dir` at some uniform draw in `[0, 1)`.
    pub fn scatter(&self, r_in: &Ray, rec: &HitRecord) -> (r: Option<ScatterRecord>)
        ensures
            r is Some,
            r->0.attenuation == (Vec3 { x: FX_ONE, y: FX_ONE, z: FX_ONE }),
            r->0.scattered.orig == rec.p,
            exists|x: int|
                0 <= x < FX_ONE && r->0.scattered.dir == s_dielectric_dir(*self, *r_in, *rec, x),
            ({
                let ratio = s_dielectric_ratio(*self, *rec);
                let su = sv_norm(r_in.dir);
                r->0.scattered.dir == sv_reflect(su, rec.normal) || r->0.scattered.dir
                    == sv_refract(su, rec.normal, ratio)
            }),
            ({
                let ratio = s_dielectric_ratio(*self, *rec);
                let su = sv_norm(r_in.dir);
                let cos = s_dielectric_cos(su, rec.normal);
                s_mul(ratio, s_dielectric_sin(cos)) > FX_ONE ==> r->0.scattered.dir == sv_reflect(
                su, rec.normal)
            }),
            ({
                let ratio = s_dielectric_ratio(*self, *rec);
                let su = sv_norm(r_in.dir);
                let cos = s_dielectric_cos(su, rec.normal);
                (s_mul(ratio, s_dielectric_sin(cos)) <= FX_ONE && s_reflectance(cos, ratio) <= 0)
                    ==> r->0.scattered.dir == sv_refract(su, rec.normal, ratio)
            }),
            ({
                let ratio = s_dielectric_ratio(*self, *rec);
                let su = sv_norm(r_in.dir);
                let cos = s_dielectric_cos(su, rec.normal);
                s_reflectance(cos, ratio) >= FX_ONE ==> r->0.scattered.dir == sv_reflect(su,
                rec.normal)
            }),
    {
        let refraction_ratio: i64 = if rec.front_face {
            fx_div(FX_ONE, self.ir)
        } else {
            self.ir
        };
        let unit_direction = norm(r_in.dir());
        let cos_theta: i64 = fx_min(dot(unit_direction.neg(), rec.normal), FX_ONE);
        let sin_theta: i64 = fx_sqrt(fx_sub(FX_ONE, fx_mul(cos_theta, cos_theta)));
        let cannot_refract = fx_mul(refraction_ratio, sin_theta) > FX_ONE;
        let dir = if cannot_refract {
            let d = reflect(unit_direction, rec.normal);
            proof {
                assert(d == s_dielectric_dir(*self, *r_in, *rec, 0));
            }
            d
        } else {
            let draw: i64 = rand_double();
            let d = if Self::reflectance(cos_theta, refraction_ratio) > draw {
                reflect(unit_direction, rec.normal)
            } else {
                refract(unit_direction, rec.normal, refraction_ratio)
            };
            proof {
                assert(d == s_dielectric_dir(*self, *r_in, *rec, draw as int));
            }
            d
        };
        Some(ScatterRecord {
            attenuation: Vec3 { x: FX_ONE, y: FX_ONE, z: FX_ONE },
            scattered: Ray::new(rec.p, dir),
        })
    }
}

/// The dielectric's refraction ratio: the reciprocal index when entering the
/// medium, the index itself when leaving.
pub open spec fn s_dielectric_ratio(d: Dielectric, rec: HitRecord) -> int {
    if rec.front_face {
        s_div(FX_ONE as int, d.ir as int)
    } else {
        d.ir as int
    }
}

/// The clamped cosine between the reversed unit direction and the normal.
pub open spec fn s_dielectric_cos(su: Vec3, n: Vec3) -> int {
    let d = s_dot(sv_neg(su), n);
    if d <= FX_ONE {
        d
    } else {
        FX_ONE as int
    }
}

/// The sine from the clamped cosine.
pub open spec fn s_dielectric_sin(cos: int) -> int {
    s_sqrt(s_sub(FX_ONE as int, s_mul(cos, cos)))
}

/// The dielectric's outgoing direction for uniform draw `x`: reflect under
/// total internal reflection or when the Schlick reflectance exceeds the
/// draw, otherwise refract.
pub open spec fn s_dielectric_dir(d: Dielectric, r_in: Ray, rec: HitRecord, x: int) -> Vec3 {
    let ratio = s_dielectric_ratio(d, rec);
    let su = sv_norm(r_in.dir);
    let cos = s_dielectric_cos(su, rec.normal);
    if s_mul(ratio, s_dielectric_sin(cos)) > FX_ONE || s_reflectance(cos, ratio) > x {
        sv_reflect(su, rec.normal)
    } else {
        sv_refract(su, rec.normal, ratio)
    }
}

/// Everything a material's scatter call can hand back for a given incoming
/// ray and hit: the complete outcome set, with the random inputs (the unit
/// sample, the uniform draw) bound existentially.
pub open spec fn s_scatter_outcome(
    mat: Material,
    r_in: Ray,
    rec: HitRecord,
    out: Option<ScatterRecord>,
) -> bool {
    match mat {
        Material::Lambertian(m) => out is Some && out->0.attenuation == m.albedo
            && out->0.scattered.orig == rec.p && exists|u: Vec3|
            unit_sample(u) && out->0.scattered.dir == s_lambertian_dir(rec.normal, u),
        Material::Metal(m) => exists|u: Vec3|
            unit_sample(u) && ({
                let d = sv_add(sv_reflect(sv_norm(r_in.dir), rec.normal), sv_mul(u, m.fuzz as int));
                if s_dot(d, rec.normal) > 0 {
                    out == Some(ScatterRecord {
                        attenuation: m.albedo,
                        scattered: Ray { orig: rec.p, dir: d },
                    })
                } else {
                    out is None
                }
            }),
        Material::Dielectric(m) => out is Some && out->0.attenuation == (Vec3 {
            x: FX_ONE,
            y: FX_ONE,
            z: FX_ONE,
        }) && out->0.scattered.orig == rec.p && exists|x: int|
            0 <= x < FX_ONE && out->0.scattered.dir == s_dielectric_dir(m, r_in, rec, x),
    }
}

impl Material {
    /// Scatter an incoming ray at a hit, by the hit material's rule: the
    /// result is always one of the material's possible outcomes.
    pub fn scatter(&self, r_in: &Ray, rec: &HitRecord) -> (r: Option<ScatterRecord>)
        ensures
            s_scatter_outcome(*self, *r_in, *rec, r),
            r is Some ==> r->0.scattered.orig == rec.p,
            self is Lambertian ==> r is Some && r->0.attenuation == self->Lambertian_0.albedo,
            self is Dielectric ==> r is Some,
    {
        match self {
            Material::Lambertian(m) => m.scatter(r_in, rec),
            Material::Metal(m) => m.scatter(r_in, rec),
            Material::Dielectric(m) => m.scatter(r_in, rec),
        }
    }
}

} // verus!
