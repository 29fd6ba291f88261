//! Three-component fixed-point vectors: points, directions, and colors.

use vstd::prelude::*;

use crate::common::{rand_double, rand_range};
use crate::fx::{fx_abs, fx_add, fx_div, fx_min, fx_mul, fx_neg, fx_sqrt, fx_sub, s_abs, s_add,
    s_div, s_mul, s_neg, s_sqrt, s_sub, FX_MAX, FX_ONE};

verus! {

/// A vector of three fixed-point components.
#[derive(Clone, Copy, PartialEq, Eq, Structural, Debug)]
pub struct Vec3 {
    pub x: i64,
    pub y: i64,
    pub z: i64,
}

/// Points are vectors from the origin.
pub type Point3 = Vec3;

/// Componentwise saturating sum.
pub open spec fn sv_add(u: Vec3, v: Vec3) -> Vec3 {
    Vec3 {
        x: s_add(u.x as int, v.x as int) as i64,
        y: s_add(u.y as int, v.y as int) as i64,
        z: s_add(u.z as int, v.z as int) as i64,
    }
}

/// Componentwise saturating difference.
pub open spec fn sv_sub(u: Vec3, v: Vec3) -> Vec3 {
    Vec3 {
        x: s_sub(u.x as int, v.x as int) as i64,
        y: s_sub(u.y as int, v.y as int) as i64,
        z: s_sub(u.z as int, v.z as int) as i64,
    }
}

/// Componentwise saturating negation.
pub open spec fn sv_neg(v: Vec3) -> Vec3 {
    Vec3 { x: s_neg(v.x as int) as i64, y: s_neg(v.y as int) as i64, z: s_neg(v.z as int) as i64 }
}

/// Scale by a fixed-point scalar.
pub open spec fn sv_mul(v: Vec3, t: int) -> Vec3 {
    Vec3 {
        x: s_mul(v.x as int, t) as i64,
        y: s_mul(v.y as int, t) as i64,
        z: s_mul(v.z as int, t) as i64,
    }
}

/// Componentwise fixed-point product (used for color attenuation).
pub open spec fn sv_mul_vec(u: Vec3, v: Vec3) -> Vec3 {
    Vec3 {
        x: s_mul(u.x as int, v.x as int) as i64,
        y: s_mul(u.y as int, v.y as int) as i64,
        z: s_mul(u.z as int, v.z as int) as i64,
    }
}

/// Divide by a fixed-point scalar.
pub open spec fn sv_div(v: Vec3, t: int) -> Vec3 {
    Vec3 {
        x: s_div(v.x as int, t) as i64,
        y: s_div(v.y as int, t) as i64,
        z: s_div(v.z as int, t) as i64,
    }
}

/// The fixed-point dot product: three scaled products, summed left to right.
pub open spec fn s_dot(u: Vec3, v: Vec3) -> int {
    s_add(s_add(s_mul(u.x as int, v.x as int), s_mul(u.y as int, v.y as int)), s_mul(
        u.z as int, v.z as int))
}

/// The fixed-point cross product.
pub open spec fn sv_cross(u: Vec3, v: Vec3) -> Vec3 {
    Vec3 {
        x: s_sub(s_mul(u.y as int, v.z as int), s_mul(u.z as int, v.y as int)) as i64,
        y: s_sub(s_mul(u.z as int, v.x as int), s_mul(u.x as int, v.z as int)) as i64,
        z: s_sub(s_mul(u.x as int, v.y as int), s_mul(u.y as int, v.x as int)) as i64,
    }
}

/// Squared length.
pub open spec fn s_len_sq(v: Vec3) -> int {
    s_dot(v, v)
}

/// Length: the fixed-point square root of the squared length.
pub open spec fn s_len(v: Vec3) -> int {
    s_sqrt(s_len_sq(v))
}

/// The normalized vector: each component divided by the length. A zero-length
/// vector saturates, as all divisions by zero here do.
pub open spec fn sv_norm(v: Vec3) -> Vec3 {
    sv_div(v, s_len(v))
}

/// Mirror reflection about a normal: `v - 2 (v . n) n`.
pub open spec fn sv_reflect(v: Vec3, n: Vec3) -> Vec3 {
    sv_sub(v, sv_mul(n, s_add(s_dot(v, n), s_dot(v, n))))
}

/// Snell refraction of unit direction `uv` at normal `n` with index ratio
/// `eta`; the cosine clamp and the absolute value under the square root guard
/// the same degeneracies the real-valued formula must guard.
pub open spec fn sv_refract(uv: Vec3, n: Vec3, eta: int) -> Vec3 {
    let d = s_dot(sv_neg(uv), n);
    let cos = if d <= FX_ONE {
        d
    } else {
        FX_ONE as int
    };
    let rp = sv_mul(sv_add(uv, sv_mul(n, cos)), eta);
    let k = s_sub(FX_ONE as int, s_len_sq(rp));
    sv_add(rp, sv_mul(n, s_neg(s_sqrt(s_abs(k)))))
}

/// All components within `[-b, b]`.
pub open spec fn sv_bounded(v: Vec3, b: int) -> bool {
    -b <= v.x <= b && -b <= v.y <= b && -b <= v.z <= b
}

/// All components within the saturation range (true of every vector the
/// saturating operations produce).
pub open spec fn sv_in_range(v: Vec3) -> bool {
    sv_bounded(v, FX_MAX as int)
}

/// A vector's squared length is never negative.
pub proof fn lemma_len_sq_nonneg(v: Vec3)
    ensures
        0 <= s_len_sq(v) <= FX_MAX,
{
    assert((v.x as int) * (v.x as int) >= 0 && (v.y as int) * (v.y as int) >= 0 && (v.z as int) * (
    v.z as int) >= 0) by (nonlinear_arith);
    crate::fx::lemma_tdiv_bound((v.x as int) * (v.x as int), FX_ONE as int);
    crate::fx::lemma_tdiv_bound((v.y as int) * (v.y as int), FX_ONE as int);
    crate::fx::lemma_tdiv_bound((v.z as int) * (v.z as int), FX_ONE as int);
}

/// Dotting against a negated in-range vector negates the dot product.
pub proof fn lemma_dot_neg(d: Vec3, n: Vec3)
    requires
        sv_in_range(n),
    ensures
        s_dot(d, sv_neg(n)) == -s_dot(d, n),
{
    crate::fx::lemma_mul_neg(d.x as int, n.x as int);
    crate::fx::lemma_mul_neg(d.y as int, n.y as int);
    crate::fx::lemma_mul_neg(d.z as int, n.z as int);
}

/// A candidate scatter offset: bounded components, with a squared length
/// between one quarter and one (so normalizing it is well conditioned).
pub open spec fn in_shell(p: Vec3) -> bool {
    sv_bounded(p, FX_ONE as int) && 262144 <= s_len_sq(p) < FX_ONE
}

/// What `rand_unit_vector` can return: the normalization of some point of the
/// shell, with every component within 2.0.
pub open spec fn unit_sample(u: Vec3) -> bool {
    (exists|p: Vec3| in_shell(p) && u == sv_norm(p)) && sv_bounded(u, 2097152)
}

impl Vec3 {
    /// Build a vector from raw fixed-point components.
    pub fn new(x: i64, y: i64, z: i64) -> (r: Vec3)
        ensures
            r == (Vec3 { x, y, z }),
    {
        Vec3 { x, y, z }
    }

    /// The first component.
    pub fn x(&self) -> (r: i64)
        ensures
            r == self.x,
    {
        self.x
    }

    /// The second component.
    pub fn y(&self) -> (r: i64)
        ensures
            r == self.y,
    {
        self.y
    }

    /// The third component.
    pub fn z(&self) -> (r: i64)
        ensures
            r == self.z,
    {
        self.z
    }

    /// Componentwise saturating sum.
    pub fn add(self, v: Vec3) -> (r: Vec3)
        ensures
            r == sv_add(self, v),
    {
        Vec3 { x: fx_add(self.x, v.x), y: fx_add(self.y, v.y), z: fx_add(self.z, v.z) }
    }

    /// Componentwise saturating difference.
    pub fn sub(self, v: Vec3) -> (r: Vec3)
        ensures
            r == sv_sub(self, v),
    {
        Vec3 { x: fx_sub(self.x, v.x), y: fx_sub(self.y, v.y), z: fx_sub(self.z, v.z) }
    }

    /// Componentwise saturating negation.
    pub fn neg(self) -> (r: Vec3)
        ensures
            r == sv_neg(self),
    {
        Vec3 { x: fx_neg(self.x), y: fx_neg(self.y), z: fx_neg(self.z) }
    }

    /// Scale by a fixed-point scalar.
    pub fn mul(self, t: i64) -> (r: Vec3)
        ensures
            r == sv_mul(self, t as int),
    {
        Vec3 { x: fx_mul(self.x, t), y: fx_mul(self.y, t), z: fx_mul(self.z, t) }
    }

    /// Componentwise fixed-point product.
    pub fn mul_vec(self, v: Vec3) -> (r: Vec3)
        ensures
            r == sv_mul_vec(self, v),
    {
        Vec3 { x: fx_mul(self.x, v.x), y: fx_mul(self.y, v.y), z: fx_mul(self.z, v.z) }
    }

    /// Divide by a fixed-point scalar.
    pub fn div(self, t: i64) -> (r: Vec3)
        ensures
            r == sv_div(self, t as int),
    {
        Vec3 { x: fx_div(self.x, t), y: fx_div(self.y, t), z: fx_div(self.z, t) }
    }

    /// Squared length.
    pub fn length_squared(&self) -> (r: i64)
        ensures
            r as int == s_len_sq(*self),
    {
        dot(*self, *self)
    }

    /// Length.
    pub fn length(&self) -> (r: i64)
        ensures
            r as int == s_len(*self),
    {
        fx_sqrt(self.length_squared())
    }

    /// A random vector with each component in `[0, 1)`.
    pub fn rand() -> (r: Vec3)
        ensures
            0 <= r.x < FX_ONE && 0 <= r.y < FX_ONE && 0 <= r.z < FX_ONE,
    {
        let x: i64 = rand_double();
        let y: i64 = rand_double();
        let z: i64 = rand_double();
        Vec3 { x, y, z }
    }

    /// A random vector with each component in `[min, max)`.
    pub fn rand_range(min: i64, max: i64) -> (r: Vec3)
        ensures
            (-FX_MAX <= min <= max <= FX_MAX) ==> (min <= r.x <= max && min <= r.y <= max && min
                <= r.z <= max),
    {
        let x: i64 = rand_range(min, max);
        let y: i64 = rand_range(min, max);
        let z: i64 = rand_range(min, max);
        Vec3 { x, y, z }
    }

    /// Whether every component is zero at this resolution: the fixed-point
    /// counterpart of the machine-epsilon test on each component.
    pub fn near_zero(&self) -> (r: bool)
        ensures
            r == (self.x == 0 && self.y == 0 && self.z == 0),
    {
        self.x == 0 && self.y == 0 && self.z == 0
    }
}

/// An affine map on points: three row vectors and a translation. Scaling,
/// axis swaps, rotations with precomputed sine and cosine, centering and
/// placement are all of this form.
#[derive(Clone, Copy, PartialEq, Eq, Structural, Debug)]
pub struct Transform {
    pub rx: Vec3,
    pub ry: Vec3,
    pub rz: Vec3,
    pub offset: Vec3,
}

/// The affine image of a point: row dot products, then the translation.
pub open spec fn sv_apply(tr: Transform, p: Vec3) -> Vec3 {
    sv_add(
        Vec3 {
            x: s_dot(tr.rx, p) as i64,
            y: s_dot(tr.ry, p) as i64,
            z: s_dot(tr.rz, p) as i64,
        },
        tr.offset,
    )
}

impl Transform {
    /// Build an affine map from its rows and translation.
    pub fn new(rx: Vec3, ry: Vec3, rz: Vec3, offset: Vec3) -> (r: Transform)
        ensures
            r == (Transform { rx, ry, rz, offset }),
    {
        Transform { rx, ry, rz, offset }
    }

    /// A uniform scale followed by a translation.
    pub fn scale_then_move(scale: i64, offset: Vec3) -> (r: Transform)
        ensures
            r == (Transform {
                rx: Vec3 { x: scale, y: 0, z: 0 },
                ry: Vec3 { x: 0, y: scale, z: 0 },
                rz: Vec3 { x: 0, y: 0, z: scale },
                offset,
            }),
    {
        Transform {
            rx: Vec3 { x: scale, y: 0, z: 0 },
            ry: Vec3 { x: 0, y: scale, z: 0 },
            rz: Vec3 { x: 0, y: 0, z: scale },
            offset,
        }
    }

    /// Apply the map to a point.
    pub fn apply(&self, p: Vec3) -> (r: Vec3)
        ensures
            r == sv_apply(*self, p),
    {
        Vec3 { x: dot(self.rx, p), y: dot(self.ry, p), z: dot(self.rz, p) }.add(self.offset)
    }
}

/// The fixed-point dot product.
pub fn dot(u: Vec3, v: Vec3) -> (r: i64)
    ensures
        r as int == s_dot(u, v),
{
    fx_add(fx_add(fx_mul(u.x, v.x), fx_mul(u.y, v.y)), fx_mul(u.z, v.z))
}

/// The fixed-point cross product.
pub fn cross(u: Vec3, v: Vec3) -> (r: Vec3)
    ensures
        r == sv_cross(u, v),
{
    Vec3 {
        x: fx_sub(fx_mul(u.y, v.z), fx_mul(u.z, v.y)),
        y: fx_sub(fx_mul(u.z, v.x), fx_mul(u.x, v.z)),
        z: fx_sub(fx_mul(u.x, v.y), fx_mul(u.y, v.x)),
    }
}

/// Normalize a vector.
pub fn norm(v: Vec3) -> (r: Vec3)
    ensures
        r == sv_norm(v),
{
    v.div(v.length())
}

/// A random vector inside the unit ball, rejection-sampled from the enclosing
/// cube. Draws whose squared length is below one quarter are also rejected
/// (normalizing those would lose precision; the direction distribution is
/// unchanged), and after many failed draws a fixed in-shell fallback is used
/// so that the sampler provably terminates.
fn rand_in_unit_sphere() -> (r: Vec3)
    ensures
        in_shell(r),
{
    let mut i: u8 = 0;
    while i < 64
        invariant
            true,
        decreases 64 - i,
    {
        let p = Vec3::rand_range(-FX_ONE, FX_ONE);
        let ls: i64 = p.length_squared();
        if 262144 <= ls && ls < FX_ONE {
            return p;
        }
        i = i + 1;
    }
    let q = Vec3 { x: 0, y: 0, z: 786432 };
    proof {
        assert(s_len_sq(q) == 589824);
    }
    q
}

/// A random direction of roughly unit length: the normalization of a random
/// point in the unit ball. Used for Lambertian scattering offsets and metal
/// fuzz.
pub fn rand_unit_vector() -> (r: Vec3)
    ensures
        unit_sample(r),
{
    let p = rand_in_unit_sphere();
    let r = norm(p);
    proof {
        assert(in_shell(p) && r == sv_norm(p));
        lemma_norm_of_shell_bounded(p);
    }
    r
}

/// Normalizing an in-shell vector keeps every component within 2.0.
proof fn lemma_norm_of_shell_bounded(p: Vec3)
    requires
        in_shell(p),
    ensures
        sv_bounded(sv_norm(p), 2097152),
{
    let l = s_len(p);
    crate::fx::lemma_sqrt_at_least(s_len_sq(p), 524288);
    assert(524288 * 524288 <= s_len_sq(p) * FX_ONE) by (nonlinear_arith)
        requires
            262144 <= s_len_sq(p),
    ;
    crate::fx::lemma_div_bound(p.x as int, l, FX_ONE as int, 524288);
    crate::fx::lemma_div_bound(p.y as int, l, FX_ONE as int, 524288);
    crate::fx::lemma_div_bound(p.z as int, l, FX_ONE as int, 524288);
    assert(crate::fx::s_tdiv(FX_ONE as int * FX_ONE as int, 524288) == 2097152);
}

/// A candidate lens offset: in the plane, bounded, with a squared length
/// between one quarter and one.
pub open spec fn in_disk(p: Vec3) -> bool {
    sv_bounded(p, FX_ONE as int) && p.z == 0 && 262144 <= s_len_sq(p) < FX_ONE
}

/// A random point of the unit disk (in the xy-plane), rejection-sampled from
/// the enclosing square; used for the thin-lens aperture. As with the ball
/// sampler, very short draws are rejected and a fixed fallback bounds the
/// loop.
pub fn rand_in_unit_disk() -> (r: Vec3)
    ensures
        in_disk(r),
{
    let mut i: u8 = 0;
    while i < 64
        invariant
            true,
        decreases 64 - i,
    {
        let x: i64 = rand_range(-FX_ONE, FX_ONE);
        let y: i64 = rand_range(-FX_ONE, FX_ONE);
        let p = Vec3 { x, y, z: 0 };
        let ls: i64 = p.length_squared();
        if 262144 <= ls && ls < FX_ONE {
            return p;
        }
        i = i + 1;
    }
    let q = Vec3 { x: 786432, y: 0, z: 0 };
    proof {
        assert(s_len_sq(q) == 589824);
    }
    q
}

/// Mirror reflection of `v` about the normal `n`.
pub fn reflect(v: Vec3, n: Vec3) -> (r: Vec3)
    ensures
        r == sv_reflect(v, n),
{
    let d: i64 = dot(v, n);
    v.sub(n.mul(fx_add(d, d)))
}

/// Snell refraction of unit direction `uv` at normal `n` with index ratio
/// `eta`.
pub fn refract(uv: Vec3, n: Vec3, etai_over_etat: i64) -> (r: Vec3)
    ensures
        r == sv_refract(uv, n, etai_over_etat as int),
{
    let cos_theta: i64 = fx_min(dot(uv.neg(), n), FX_ONE);
    let r_out_perp = uv.add(n.mul(cos_theta)).mul(etai_over_etat);
    let k: i64 = fx_sub(FX_ONE, r_out_perp.length_squared());
    let r_out_parallel = n.mul(fx_neg(fx_sqrt(fx_abs(k))));
    r_out_perp.add(r_out_parallel)
}

} // verus!
