//! The stock models: each gives an imported triangle soup its material, its
//! scale, its orientation, and its place in the scene.
//!
//! The triangle lists come from mesh files read and decoded outside the
//! library; each function here is deterministic in them.

use vstd::prelude::*;

use crate::color::Color;
use crate::common::{cos_fx, deg_to_rad, s_cos, s_sin, sin_fx, FX_180, FX_PI};
use crate::fx::{fx_add, fx_neg, s_add, s_div, s_mul, s_neg, FX_HALF, FX_ONE};
use crate::material::{Lambertian, Material, Metal};
use crate::mesh::{s_tri_apply, Mesh};
use crate::stl_import::{import_stl, s_import_stl};
use crate::triangle::Triangle;
use crate::vec3::{Point3, Transform, Vec3};

verus! {

/// The transform placing a model whose file uses the same axes as the scene:
/// a uniform scale, then a move to `pos`.
pub open spec fn s_place(scale: int, pos: Point3) -> Transform {
    Transform {
        rx: Vec3 { x: scale as i64, y: 0, z: 0 },
        ry: Vec3 { x: 0, y: scale as i64, z: 0 },
        rz: Vec3 { x: 0, y: 0, z: scale as i64 },
        offset: pos,
    }
}

/// The transform placing a model whose file is z-up: scene x is file x, scene
/// y is file z, scene z is file -y; scaled uniformly and moved to `offset`.
pub open spec fn s_place_zup(scale: int, offset: Vec3) -> Transform {
    Transform {
        rx: Vec3 { x: scale as i64, y: 0, z: 0 },
        ry: Vec3 { x: 0, y: 0, z: scale as i64 },
        rz: Vec3 { x: 0, y: s_neg(scale) as i64, z: 0 },
        offset,
    }
}

/// The rotation about the x-axis by an angle in degrees, as an affine map.
pub open spec fn s_rotate_by(deg: int) -> Transform {
    let theta = s_div(s_mul(deg, FX_PI as int), FX_180 as int);
    let c = s_cos(theta);
    let s = s_sin(theta);
    Transform {
        rx: Vec3 { x: FX_ONE, y: 0, z: 0 },
        ry: Vec3 { x: 0, y: c as i64, z: s_neg(s) as i64 },
        rz: Vec3 { x: 0, y: s as i64, z: c as i64 },
        offset: Vec3 { x: 0, y: 0, z: 0 },
    }
}

/// The rotation about the x-axis by an angle in degrees.
pub fn rotate_by(deg: i64) -> (r: Transform)
    ensures
        r == s_rotate_by(deg as int),
{
    let theta: i64 = deg_to_rad(deg);
    let c: i64 = cos_fx(theta);
    let s: i64 = sin_fx(theta);
    Transform {
        rx: Vec3 { x: FX_ONE, y: 0, z: 0 },
        ry: Vec3 { x: 0, y: c, z: fx_neg(s) },
        rz: Vec3 { x: 0, y: s, z: c },
        offset: Vec3 { x: 0, y: 0, z: 0 },
    }
}

/// A low-poly tree: diffuse green, scaled by one tenth, centered, placed at
/// `pos`.
pub fn tree(pos: Point3, triangles: Vec<(Point3, Point3, Point3)>) -> (r: Mesh)
    ensures
        r.objects@ == s_import_stl(
            triangles@,
            Material::Lambertian(Lambertian { albedo: Vec3 { x: 209715, y: 838861, z: 104858 } }),
            s_place(104858, pos),
            true,
        ),
{
    let material = Material::Lambertian(Lambertian::new(Color { x: 209715, y: 838861, z: 104858 }));
    import_stl(triangles, material, &Transform::scale_then_move(104858, pos), true)
}

/// A grass tuft: diffuse green, z-up source, scaled by a thousandth, raised
/// by one half, placed at `pos`.
pub fn grass(pos: Point3, triangles: Vec<(Point3, Point3, Point3)>) -> (r: Mesh)
    ensures
        r.objects@ == s_import_stl(
            triangles@,
            Material::Lambertian(Lambertian { albedo: Vec3 { x: 209715, y: 838861, z: 104858 } }),
            s_place_zup(1049, (Vec3 { x: pos.x, y: s_add(pos.y as int, FX_HALF as int) as i64, z: pos.z })),
            true,
        ),
{
    let material = Material::Lambertian(Lambertian::new(Color { x: 209715, y: 838861, z: 104858 }));
    let offset = Vec3 { x: pos.x, y: fx_add(pos.y, FX_HALF), z: pos.z };
    let place = Transform {
        rx: Vec3 { x: 1049, y: 0, z: 0 },
        ry: Vec3 { x: 0, y: 0, z: 1049 },
        rz: Vec3 { x: 0, y: -1049, z: 0 },
        offset,
    };
    import_stl(triangles, material, &place, true)
}

/// A rock: diffuse gray, scaled down four-hundredfold, centered, placed at
/// `pos`.
pub fn rock(pos: Point3, triangles: Vec<(Point3, Point3, Point3)>) -> (r: Mesh)
    ensures
        r.objects@ == s_import_stl(
            triangles@,
            Material::Lambertian(Lambertian { albedo: Vec3 { x: 314573, y: 314573, z: 314573 } }),
            s_place(2621, pos),
            true,
        ),
{
    let material = Material::Lambertian(Lambertian::new(Color { x: 314573, y: 314573, z: 314573 }));
    import_stl(triangles, material, &Transform::scale_then_move(2621, pos), true)
}

/// The dragon: lightly fuzzed green metal, z-up source, scaled by a fortieth,
/// placed at `pos`.
pub fn dragon(pos: Point3, triangles: Vec<(Point3, Point3, Point3)>) -> (r: Mesh)
    ensures
        r.objects@ == s_import_stl(
            triangles@,
            Material::Metal(Metal { albedo: Vec3 { x: 209715, y: 838861, z: 104858 }, fuzz: 104858 }),
            s_place_zup(26214, pos),
            true,
        ),
{
    let material = Material::Metal(Metal::new(Color { x: 209715, y: 838861, z: 104858 }, 104858));
    let place = Transform {
        rx: Vec3 { x: 26214, y: 0, z: 0 },
        ry: Vec3 { x: 0, y: 0, z: 26214 },
        rz: Vec3 { x: 0, y: -26214, z: 0 },
        offset: pos,
    };
    import_stl(triangles, material, &place, true)
}

/// The course logo: diffuse orange, scaled by one tenth, centered, placed at
/// `pos`.
pub fn cs128(pos: Point3, triangles: Vec<(Point3, Point3, Point3)>) -> (r: Mesh)
    ensures
        r.objects@ == s_import_stl(
            triangles@,
            Material::Lambertian(Lambertian { albedo: Vec3 { x: 1048576, y: 524288, z: 104858 } }),
            s_place(104858, pos),
            true,
        ),
{
    let material = Material::Lambertian(Lambertian::new(
        Color { x: 1048576, y: 524288, z: 104858 },
    ));
    import_stl(triangles, material, &Transform::scale_then_move(104858, pos), true)
}

/// The whale: diffuse blue, rotated eighty degrees about the x-axis, then
/// scaled by one half and placed at `pos`.
pub fn whale(pos: Point3, triangles: Vec<(Point3, Point3, Point3)>) -> (r: Mesh)
    ensures
        r.objects@ == s_import_stl(
            triangles@,
            Material::Lambertian(Lambertian { albedo: Vec3 { x: 230687, y: 440402, z: 786432 } }),
            s_rotate_by(80 * FX_ONE),
            true,
        ).map_values(|t: Triangle| s_tri_apply(s_place(FX_HALF as int, pos), t)),
{
    let material = Material::Lambertian(Lambertian::new(Color { x: 230687, y: 440402, z: 786432 }));
    let mut mesh = import_stl(triangles, material, &rotate_by(83886080), true);
    let ghost rotated = mesh.objects@;
    mesh.map(&Transform::scale_then_move(FX_HALF, pos));
    proof {
        assert(mesh.objects@ =~= rotated.map_values(
            |t: Triangle| s_tri_apply(s_place(FX_HALF as int, pos), t),
        ));
    }
    mesh
}

} // verus!
