//! Turning imported triangle soups into meshes.
//!
//! Reading and decoding a mesh file happens outside the library; what arrives
//! here is a flat list of vertex triples. This module builds the mesh,
//! optionally centers it on its centroid, and applies a placement transform.

use vstd::prelude::*;

use crate::fx::FX_ONE;
use crate::material::Material;
use crate::mesh::{s_center, s_tri_apply, Mesh};
use crate::triangle::Triangle;
use crate::vec3::{sv_neg, Point3, Transform, Vec3};

verus! {

/// The triangles of a raw vertex-triple list, all with one material.
pub open spec fn s_raw_triangles(ts: Seq<(Point3, Point3, Point3)>, mat: Material) -> Seq<
    Triangle,
> {
    ts.map_values(
        |t: (Point3, Point3, Point3)|
            Triangle { vertex0: t.0, vertex1: t.1, vertex2: t.2, mat },
    )
}

/// The transform that recenters a mesh: identity rows, centroid negated.
pub open spec fn s_centering(c: Vec3) -> Transform {
    Transform {
        rx: Vec3 { x: FX_ONE, y: 0, z: 0 },
        ry: Vec3 { x: 0, y: FX_ONE, z: 0 },
        rz: Vec3 { x: 0, y: 0, z: FX_ONE },
        offset: sv_neg(c),
    }
}

/// The exact triangles of an import: build them from the triples, center on
/// the mesh centroid when asked, then apply the placement transform.
pub open spec fn s_import_stl(
    ts: Seq<(Point3, Point3, Point3)>,
    mat: Material,
    tr: Transform,
    should_center: bool,
) -> Seq<Triangle> {
    let base = s_raw_triangles(ts, mat);
    let centered = if should_center {
        base.map_values(|t: Triangle| s_tri_apply(s_centering(s_center(base)), t))
    } else {
        base
    };
    centered.map_values(|t: Triangle| s_tri_apply(tr, t))
}

/// Build a mesh from a flat triangle list: share the material, center the
/// mesh on its centroid when asked, and place it with the given transform.
pub fn import_stl(
    triangles: Vec<(Point3, Point3, Point3)>,
    mat: Material,
    map: &Transform,
    should_center: bool,
) -> (r: Mesh)
    ensures
        r.objects@ == s_import_stl(triangles@, mat, *map, should_center),
{
    let n: usize = triangles.len();
    let mut out: Vec<Triangle> = Vec::new();
    let mut i: usize = 0;
    while i < n
        invariant
            n == triangles@.len(),
            i <= n,
            out@.len() == i as int,
            forall|j: int|
                0 <= j < i as int ==> out@[j] == (Triangle {
                    vertex0: (#[trigger] triangles@[j]).0,
                    vertex1: triangles@[j].1,
                    vertex2: triangles@[j].2,
                    mat,
                }),
        decreases n - i,
    {
        let (v0, v1, v2) = triangles[i];
        out.push(Triangle::new(v0, v1, v2, mat));
        i = i + 1;
    }
    proof {
        assert(out@ =~= s_raw_triangles(triangles@, mat));
    }
    let mut mesh = Mesh::new(out);
    let ghost base = mesh.objects@;
    if should_center {
        let center = mesh.center();
        let recenter = Transform::scale_then_move(FX_ONE, center.neg());
        mesh.map(&recenter);
        proof {
            assert(mesh.objects@ =~= base.map_values(
                |t: Triangle| s_tri_apply(s_centering(s_center(base)), t),
            ));
        }
    }
    let ghost centered = mesh.objects@;
    mesh.map(map);
    proof {
        assert(mesh.objects@ =~= centered.map_values(|t: Triangle| s_tri_apply(*map, t)));
    }
    mesh
}

} // verus!
