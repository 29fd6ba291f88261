//! Axis-aligned cuboids as twelve triangles, and the coordinate-axes markers.

use vstd::prelude::*;

use crate::color::Color;
use crate::fx::{fx_add, fx_mul, fx_neg, s_add, s_mul, s_neg, FX_HALF};
use crate::hittable_list::{Hittable, HittableList};
use crate::material::{Lambertian, Material};
use crate::mesh::Mesh;
use crate::triangle::Triangle;
use crate::vec3::{Point3, Vec3};

verus! {

/// The twelve triangles of the cuboid with minimum corner `(x, y, z)` and
/// extents `(w, h, d)`, two per face, all sharing one material.
pub open spec fn s_cuboid_triangles(
    x: int,
    y: int,
    z: int,
    w: int,
    h: int,
    d: int,
    mat: Material,
) -> Seq<Triangle> {
    let xw = s_add(x, w) as i64;
    let yh = s_add(y, h) as i64;
    let zd = s_add(z, d) as i64;
    let v0 = Vec3 { x: x as i64, y: y as i64, z: z as i64 };
    let v1 = Vec3 { x: xw, y: y as i64, z: z as i64 };
    let v2 = Vec3 { x: xw, y: yh, z: z as i64 };
    let v3 = Vec3 { x: x as i64, y: yh, z: z as i64 };
    let v4 = Vec3 { x: x as i64, y: y as i64, z: zd };
    let v5 = Vec3 { x: xw, y: y as i64, z: zd };
    let v6 = Vec3 { x: xw, y: yh, z: zd };
    let v7 = Vec3 { x: x as i64, y: yh, z: zd };
    seq![
        Triangle { vertex0: v0, vertex1: v1, vertex2: v2, mat },
        Triangle { vertex0: v0, vertex1: v2, vertex2: v3, mat },
        Triangle { vertex0: v5, vertex1: v4, vertex2: v7, mat },
        Triangle { vertex0: v5, vertex1: v7, vertex2: v6, mat },
        Triangle { vertex0: v4, vertex1: v0, vertex2: v3, mat },
        Triangle { vertex0: v4, vertex1: v3, vertex2: v7, mat },
        Triangle { vertex0: v1, vertex1: v5, vertex2: v6, mat },
        Triangle { vertex0: v1, vertex1: v6, vertex2: v2, mat },
        Triangle { vertex0: v3, vertex1: v2, vertex2: v6, mat },
        Triangle { vertex0: v3, vertex1: v6, vertex2: v7, mat },
        Triangle { vertex0: v0, vertex1: v4, vertex2: v5, mat },
        Triangle { vertex0: v0, vertex1: v5, vertex2: v1, mat },
    ]
}

/// Build the cuboid with minimum corner `(x, y, z)` and extents `(w, h, d)`
/// as a mesh of twelve triangles.
pub fn new_cuboid(x: i64, y: i64, z: i64, w: i64, h: i64, d: i64, mat: Material) -> (r: Mesh)
    ensures
        r.objects@ == s_cuboid_triangles(x as int, y as int, z as int, w as int, h as int,
            d as int, mat),
{
    let xw: i64 = fx_add(x, w);
    let yh: i64 = fx_add(y, h);
    let zd: i64 = fx_add(z, d);
    let v0 = Point3 { x, y, z };
    let v1 = Point3 { x: xw, y, z };
    let v2 = Point3 { x: xw, y: yh, z };
    let v3 = Point3 { x, y: yh, z };
    let v4 = Point3 { x, y, z: zd };
    let v5 = Point3 { x: xw, y, z: zd };
    let v6 = Point3 { x: xw, y: yh, z: zd };
    let v7 = Point3 { x, y: yh, z: zd };
    let objects: Vec<Triangle> = vec![
        Triangle::new(v0, v1, v2, mat),
        Triangle::new(v0, v2, v3, mat),
        Triangle::new(v5, v4, v7, mat),
        Triangle::new(v5, v7, v6, mat),
        Triangle::new(v4, v0, v3, mat),
        Triangle::new(v4, v3, v7, mat),
        Triangle::new(v1, v5, v6, mat),
        Triangle::new(v1, v6, v2, mat),
        Triangle::new(v3, v2, v6, mat),
        Triangle::new(v3, v6, v7, mat),
        Triangle::new(v0, v4, v5, mat),
        Triangle::new(v0, v5, v1, mat),
    ];
    proof {
        assert(objects@ =~= s_cuboid_triangles(x as int, y as int, z as int, w as int, h as int,
        d as int, mat));
    }
    Mesh::new(objects)
}

/// `o` is a mesh holding exactly these triangles.
pub open spec fn is_mesh_of(o: Hittable, ts: Seq<Triangle>) -> bool {
    match o {
        Hittable::Mesh(m) => m.objects@ == ts,
        _ => false,
    }
}

/// The six cuboids of the axes markers (a shaft and a head per axis), as the
/// triangles each must hold; diffuse red along x, green along y, blue along z.
pub open spec fn s_axes_cuboid(k: int, thickness: int, length: int) -> Seq<Triangle> {
    let half = s_mul(thickness, FX_HALF as int);
    let l9 = s_mul(length, 943718);
    let l1 = s_mul(length, 104858);
    let th2 = s_add(thickness, thickness);
    let xmat = Material::Lambertian(Lambertian { albedo: Vec3 { x: 838861, y: 0, z: 0 } });
    let ymat = Material::Lambertian(Lambertian { albedo: Vec3 { x: 0, y: 838861, z: 0 } });
    let zmat = Material::Lambertian(Lambertian { albedo: Vec3 { x: 0, y: 0, z: 838861 } });
    if k == 0 {
        s_cuboid_triangles(0, s_neg(half), s_neg(half), l9, thickness, thickness, xmat)
    } else if k == 1 {
        s_cuboid_triangles(l9, s_neg(thickness), s_neg(thickness), l1, th2, th2, xmat)
    } else if k == 2 {
        s_cuboid_triangles(s_neg(half), 0, s_neg(half), thickness, l9, thickness, ymat)
    } else if k == 3 {
        s_cuboid_triangles(s_neg(thickness), l9, s_neg(thickness), th2, l1, th2, ymat)
    } else if k == 4 {
        s_cuboid_triangles(s_neg(half), s_neg(half), 0, thickness, thickness, l9, zmat)
    } else {
        s_cuboid_triangles(s_neg(thickness), s_neg(thickness), l9, th2, th2, l1, zmat)
    }
}

/// Add the coordinate-axes markers to the scene: for each axis a long thin
/// shaft cuboid and a wider head cuboid near its far end.
pub fn add_axes(hittable_list: &mut HittableList, thickness: i64, length: i64)
    ensures
        final(hittable_list).objects@.len() == old(hittable_list).objects@.len() + 6,
        forall|i: int|
            0 <= i < old(hittable_list).objects@.len() ==> final(hittable_list).objects@[i] == old(
            hittable_list).objects@[i],
        forall|k: int|
            0 <= k < 6 ==> is_mesh_of(
                #[trigger] final(hittable_list).objects@[old(hittable_list).objects@.len() + k],
                s_axes_cuboid(k, thickness as int, length as int),
            ),
{
    let xmat = Material::Lambertian(Lambertian::new(Color { x: 838861, y: 0, z: 0 }));
    let ymat = Material::Lambertian(Lambertian::new(Color { x: 0, y: 838861, z: 0 }));
    let zmat = Material::Lambertian(Lambertian::new(Color { x: 0, y: 0, z: 838861 }));
    let half: i64 = fx_mul(thickness, FX_HALF);
    let neg_half: i64 = fx_neg(half);
    let neg_th: i64 = fx_neg(thickness);
    let l9: i64 = fx_mul(length, 943718);
    let l1: i64 = fx_mul(length, 104858);
    let th2: i64 = fx_add(thickness, thickness);
    hittable_list.add(Hittable::Mesh(new_cuboid(0, neg_half, neg_half, l9, thickness, thickness,
        xmat)));
    hittable_list.add(Hittable::Mesh(new_cuboid(l9, neg_th, neg_th, l1, th2, th2, xmat)));
    hittable_list.add(Hittable::Mesh(new_cuboid(neg_half, 0, neg_half, thickness, l9, thickness,
        ymat)));
    hittable_list.add(Hittable::Mesh(new_cuboid(neg_th, l9, neg_th, th2, l1, th2, ymat)));
    hittable_list.add(Hittable::Mesh(new_cuboid(neg_half, neg_half, 0, thickness, thickness, l9,
        zmat)));
    hittable_list.add(Hittable::Mesh(new_cuboid(neg_th, neg_th, l9, th2, th2, l1, zmat)));
}

} // verus!
