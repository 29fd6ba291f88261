//! Geometry checks: vectors, rays, intersections, meshes, and the scene scan.

use ray_tracer::cuboid::{add_axes, new_cuboid};
use ray_tracer::fx::{FX_HALF, FX_MAX, FX_ONE};
use ray_tracer::hittable_list::{Hittable, HittableList};
use ray_tracer::material::{Lambertian, Material};
use ray_tracer::mesh::Mesh;
use ray_tracer::models::{dragon, tree, whale};
use ray_tracer::photo::Photo;
use ray_tracer::ray::Ray;
use ray_tracer::sphere::Sphere;
use ray_tracer::stl_import::import_stl;
use ray_tracer::triangle::Triangle;
use ray_tracer::vec3::{cross, dot, norm, rand_unit_vector, reflect, refract, Transform, Vec3};

fn gray() -> Material {
    Material::Lambertian(Lambertian::new(Vec3 { x: FX_HALF, y: FX_HALF, z: FX_HALF }))
}

fn v(x: i64, y: i64, z: i64) -> Vec3 {
    Vec3 { x: x * FX_ONE, y: y * FX_ONE, z: z * FX_ONE }
}

#[test]
fn vector_algebra_exact() {
    let a = v(1, 2, 3);
    let b = v(4, 5, 6);
    assert_eq!(a.add(b), v(5, 7, 9));
    assert_eq!(a.sub(b), v(-3, -3, -3));
    assert_eq!(a.neg(), v(-1, -2, -3));
    assert_eq!(a.mul(2 * FX_ONE), v(2, 4, 6));
    assert_eq!(a.mul_vec(b), v(4, 10, 18));
    assert_eq!(b.div(2 * FX_ONE), Vec3 { x: 2 * FX_ONE, y: 2 * FX_ONE + FX_HALF, z: 3 * FX_ONE });
    assert_eq!(dot(a, b), 32 * FX_ONE);
    assert_eq!(cross(v(1, 0, 0), v(0, 1, 0)), v(0, 0, 1));
    assert_eq!(a.length_squared(), 14 * FX_ONE);
    assert_eq!(v(3, 4, 0).length(), 5 * FX_ONE);
    assert_eq!(norm(v(0, 0, 5)), v(0, 0, 1));
}

#[test]
fn near_zero_only_on_zero() {
    assert!(Vec3 { x: 0, y: 0, z: 0 }.near_zero());
    assert!(!Vec3 { x: 1, y: 0, z: 0 }.near_zero());
}

#[test]
fn reflect_exact() {
    // v pointing down into the floor reflects up
    assert_eq!(reflect(v(1, -1, 0), v(0, 1, 0)), v(1, 1, 0));
}

#[test]
fn refract_head_on_identity() {
    // head-on refraction with ratio one hands the direction back unchanged
    let uv = v(0, 0, -1);
    let n = v(0, 0, 1);
    assert_eq!(refract(uv, n, FX_ONE), uv);
}

#[test]
fn unit_samples_are_bounded() {
    for _ in 0..50 {
        let u = rand_unit_vector();
        assert!(u.x.abs() <= 2 * FX_ONE && u.y.abs() <= 2 * FX_ONE && u.z.abs() <= 2 * FX_ONE);
        // roughly unit length: squared length within 2% of one
        let ls = u.length_squared();
        assert!((ls - FX_ONE).abs() <= FX_ONE / 50, "ls = {ls}");
    }
}

#[test]
fn ray_evaluates_points() {
    let r = Ray::new(v(1, 0, 0), v(0, 2, 0));
    assert_eq!(r.at(2 * FX_ONE), v(1, 4, 0));
    assert_eq!(r.orig(), v(1, 0, 0));
    assert_eq!(r.dir(), v(0, 2, 0));
}

#[test]
fn sphere_head_on_hit() {
    // sphere at origin radius 1, ray from (0,0,5) toward -z:
    // hit at distance 4, normal +z, front face
    let s = Sphere::new(v(0, 0, 0), FX_ONE, gray());
    let r = Ray::new(v(0, 0, 5), v(0, 0, -1));
    let rec = s.hit(&r, 1049, FX_MAX).expect("must hit");
    assert_eq!(rec.t, 4 * FX_ONE);
    assert_eq!(rec.p, v(0, 0, 1));
    assert_eq!(rec.normal, v(0, 0, 1));
    assert!(rec.front_face);
}

#[test]
fn sphere_head_on_distance_minus_radius() {
    // another head-on case: t equals distance minus radius
    let s = Sphere::new(v(0, 0, -9), 2 * FX_ONE, gray());
    let r = Ray::new(v(0, 0, 0), v(0, 0, -1));
    let rec = s.hit(&r, 1049, FX_MAX).expect("must hit");
    assert_eq!(rec.t, 7 * FX_ONE);
    assert_eq!(rec.normal, v(0, 0, 1));
    assert!(rec.front_face);
}

#[test]
fn sphere_negative_radius_flips_normal() {
    let s = Sphere::new(v(0, 0, 0), -FX_ONE, gray());
    let r = Ray::new(v(0, 0, 5), v(0, 0, -1));
    let rec = s.hit(&r, 1049, FX_MAX).expect("must hit");
    assert_eq!(rec.t, 4 * FX_ONE);
    assert!(!rec.front_face);
    assert_eq!(rec.normal, v(0, 0, 1));
}

#[test]
fn sphere_miss_returns_none() {
    let s = Sphere::new(v(0, 0, 0), FX_ONE, gray());
    let r = Ray::new(v(0, 0, 5), v(0, 1, 0));
    assert!(s.hit(&r, 1049, FX_MAX).is_none());
}

#[test]
fn sphere_inside_hit_is_back_face() {
    let s = Sphere::new(v(0, 0, 0), 2 * FX_ONE, gray());
    let r = Ray::new(v(0, 0, 0), v(0, 0, -1));
    let rec = s.hit(&r, 1049, FX_MAX).expect("must hit");
    assert_eq!(rec.t, 2 * FX_ONE);
    assert!(!rec.front_face);
    // stored normal opposes the ray
    assert!(dot(r.dir(), rec.normal) <= 0);
}

#[test]
fn triangle_straight_hit() {
    let tri = Triangle::new(v(-1, -1, -2), v(1, -1, -2), v(0, 1, -2), gray());
    let r = Ray::new(v(0, 0, 0), v(0, 0, -1));
    let rec = tri.hit(&r, 1049, FX_MAX).expect("must hit");
    assert_eq!(rec.t, 2 * FX_ONE);
    assert!(rec.front_face);
    assert!(dot(r.dir(), rec.normal) <= 0);
}

#[test]
fn triangle_parallel_ray_misses() {
    // ray parallel to the triangle's plane misses, wherever it starts
    let tri = Triangle::new(v(-1, -1, -2), v(1, -1, -2), v(0, 1, -2), gray());
    for origin in [v(0, 0, 0), v(5, 3, -1), v(-7, 2, 9)] {
        let r = Ray::new(origin, v(1, 0, 0));
        assert!(tri.hit(&r, 1049, FX_MAX).is_none());
    }
}

#[test]
fn triangle_outside_barycentric_misses() {
    let tri = Triangle::new(v(-1, -1, -2), v(1, -1, -2), v(0, 1, -2), gray());
    let r = Ray::new(v(5, 5, 0), v(0, 0, -1));
    assert!(tri.hit(&r, 1049, FX_MAX).is_none());
}

#[test]
fn hit_normals_are_unit_and_oppose_ray() {
    let s = Sphere::new(v(0, 1, -4), 2 * FX_ONE, gray());
    let tri = Triangle::new(v(-3, -1, -3), v(3, -1, -3), v(0, 4, -5), gray());
    let rays = [
        Ray::new(v(0, 0, 0), v(0, 0, -1)),
        Ray::new(v(1, 1, 2), Vec3 { x: -FX_HALF, y: 0, z: -FX_ONE }),
        Ray::new(v(-1, 2, 1), Vec3 { x: FX_HALF / 2, y: -FX_HALF, z: -FX_ONE }),
    ];
    for r in rays {
        for rec in [s.hit(&r, 1049, FX_MAX), tri.hit(&r, 1049, FX_MAX)].into_iter().flatten() {
            let ls = rec.normal.length_squared();
            assert!((ls - FX_ONE).abs() <= FX_ONE / 100, "|n|^2 = {ls}");
            assert!(dot(r.dir(), rec.normal) <= 0);
        }
    }
}

#[test]
fn nearest_object_wins_regardless_of_order() {
    let near = Hittable::Sphere(Sphere::new(v(0, 0, -3), FX_ONE, gray()));
    let far = Hittable::Sphere(Sphere::new(v(0, 0, -9), FX_ONE, gray()));
    let r = Ray::new(v(0, 0, 0), v(0, 0, -1));

    let mut a = HittableList::new();
    a.add(near.clone());
    a.add(far.clone());
    let mut b = HittableList::new();
    b.add(far);
    b.add(near);

    let ra = a.hit(&r, 1049, FX_MAX).expect("must hit");
    let rb = b.hit(&r, 1049, FX_MAX).expect("must hit");
    assert_eq!(ra.t, 2 * FX_ONE);
    assert_eq!(ra.t, rb.t);
    assert_eq!(ra.p, rb.p);
    assert_eq!(ra.normal, rb.normal);
    assert_eq!(ra.front_face, rb.front_face);
}

#[test]
fn empty_scene_never_hits() {
    let list = HittableList::new();
    let r = Ray::new(v(0, 0, 0), v(0, 0, -1));
    assert!(list.hit(&r, 1049, FX_MAX).is_none());
}

#[test]
fn cuboid_has_twelve_triangles() {
    let m = new_cuboid(0, 0, 0, FX_ONE, FX_ONE, FX_ONE, gray());
    assert_eq!(m.objects.len(), 12);
    assert_eq!(m.objects[0].vertex0, v(0, 0, 0));
    assert_eq!(m.objects[0].vertex1, v(1, 0, 0));
    assert_eq!(m.objects[0].vertex2, v(1, 1, 0));
}

#[test]
fn cuboid_blocks_a_ray() {
    let m = new_cuboid(-FX_ONE, -FX_ONE, -3 * FX_ONE, 2 * FX_ONE, 2 * FX_ONE, 2 * FX_ONE, gray());
    let r = Ray::new(v(0, 0, 5), v(0, 0, -1));
    let rec = m.hit(&r, 1049, FX_MAX).expect("must hit");
    assert_eq!(rec.t, 6 * FX_ONE);
}

#[test]
fn axes_add_six_meshes() {
    let mut list = HittableList::new();
    add_axes(&mut list, FX_ONE / 5, 5 * FX_ONE);
    assert_eq!(list.objects.len(), 6);
    for o in &list.objects {
        match o {
            Hittable::Mesh(m) => assert_eq!(m.objects.len(), 12),
            _ => panic!("axes must be meshes"),
        }
    }
}

#[test]
fn mesh_center_and_radius() {
    let tri = Triangle::new(v(0, 0, 0), v(3, 0, 0), v(0, 3, 0), gray());
    let m = Mesh::new(vec![tri]);
    assert_eq!(m.center(), v(1, 1, 0));
    let tri2 = Triangle::new(v(3, 0, 0), v(0, 3, 0), v(0, 0, 3), gray());
    let m2 = Mesh::new(vec![tri2]);
    assert_eq!(m2.radius(), 3 * FX_ONE);
}

#[test]
fn mesh_map_transforms_vertices() {
    let tri = Triangle::new(v(1, 0, 0), v(0, 1, 0), v(0, 0, 1), gray());
    let mut m = Mesh::new(vec![tri]);
    m.map(&Transform::scale_then_move(2 * FX_ONE, v(10, 0, 0)));
    assert_eq!(m.objects[0].vertex0, v(12, 0, 0));
    assert_eq!(m.objects[0].vertex1, v(10, 2, 0));
    assert_eq!(m.objects[0].vertex2, v(10, 0, 2));
}

#[test]
fn import_centers_and_places() {
    // a triangle with centroid (1,1,0), centered then moved to (5,5,5)
    let raw = vec![(v(0, 0, 0), v(3, 0, 0), v(0, 3, 0))];
    let m = import_stl(raw, gray(), &Transform::scale_then_move(FX_ONE, v(5, 5, 5)), true);
    assert_eq!(m.objects.len(), 1);
    assert_eq!(m.objects[0].vertex0, v(4, 4, 5));
    assert_eq!(m.objects[0].vertex1, v(7, 4, 5));
    assert_eq!(m.objects[0].vertex2, v(4, 7, 5));
}

#[test]
fn import_without_centering() {
    let raw = vec![(v(0, 0, 0), v(3, 0, 0), v(0, 3, 0))];
    let m = import_stl(raw, gray(), &Transform::scale_then_move(FX_ONE, v(0, 0, 0)), false);
    assert_eq!(m.objects[0].vertex1, v(3, 0, 0));
}

#[test]
fn models_build_meshes() {
    let raw = vec![(v(0, 0, 0), v(10, 0, 0), v(0, 10, 0))];
    let t = tree(v(1, 0, 0), raw.clone());
    assert_eq!(t.objects.len(), 1);
    match t.objects[0].mat {
        Material::Lambertian(l) => assert_eq!(l.albedo, Vec3 { x: 209715, y: 838861, z: 104858 }),
        _ => panic!("tree must be diffuse"),
    }
    let d = dragon(v(0, 0, 0), raw.clone());
    match d.objects[0].mat {
        Material::Metal(m) => assert_eq!(m.fuzz, 104858),
        _ => panic!("dragon must be metal"),
    }
    let w = whale(v(0, 0, 0), raw);
    assert_eq!(w.objects.len(), 1);
}

#[test]
fn photo_alpha_masks_hits() {
    // a 1x1 quad facing +z with a single opaque pixel, then a transparent one
    let mat = gray();
    let opaque = Photo::new(v(-1, 1, -2), 2 * FX_ONE, 2 * FX_ONE, v(1, 0, 0), v(0, 1, 0), mat,
        1, 1, vec![255]);
    let r = Ray::new(v(0, 0, 0), v(0, 0, -1));
    assert!(opaque.hit(&r, 1049, FX_MAX).is_some());
    let clear = Photo::new(v(-1, 1, -2), 2 * FX_ONE, 2 * FX_ONE, v(1, 0, 0), v(0, 1, 0), mat,
        1, 1, vec![0]);
    assert!(clear.hit(&r, 1049, FX_MAX).is_none());
}
