//! Materials, camera, and integrator checks.

use ray_tracer::camera::Camera;
use ray_tracer::fx::{FX_HALF, FX_MAX, FX_ONE};
use ray_tracer::hittable::HitRecord;
use ray_tracer::hittable_list::{Hittable, HittableList};
use ray_tracer::material::{Dielectric, Lambertian, Material, Metal};
use ray_tracer::ray::Ray;
use ray_tracer::render::{background, pixel_color, ray_color};
use ray_tracer::sphere::Sphere;
use ray_tracer::vec3::{dot, norm, reflect, Vec3};

fn v(x: i64, y: i64, z: i64) -> Vec3 {
    Vec3 { x: x * FX_ONE, y: y * FX_ONE, z: z * FX_ONE }
}

fn head_on_record(mat: Material) -> (Ray, HitRecord) {
    let s = Sphere::new(v(0, 0, 0), FX_ONE, mat);
    let r = Ray::new(v(0, 0, 5), v(0, 0, -1));
    let rec = s.hit(&r, 1049, FX_MAX).expect("must hit");
    (r, rec)
}

#[test]
fn lambertian_always_scatters_with_albedo() {
    let albedo = Vec3 { x: FX_HALF, y: FX_HALF, z: FX_HALF };
    let mat = Material::Lambertian(Lambertian::new(albedo));
    let (r, rec) = head_on_record(mat);
    for _ in 0..50 {
        let sc = match &rec.mat {
            Material::Lambertian(l) => l.scatter(&r, &rec),
            _ => unreachable!(),
        };
        let sc = sc.expect("lambertian never absorbs");
        assert_eq!(sc.attenuation, albedo);
        assert_eq!(sc.scattered.orig, rec.p);
    }
}

#[test]
fn metal_zero_fuzz_reflects_deterministically() {
    let albedo = Vec3 { x: 838861, y: 838861, z: 838861 };
    let metal = Metal::new(albedo, 0);
    let mat = Material::Metal(metal);
    let (r, rec) = head_on_record(mat);
    let expected = reflect(norm(r.dir()), rec.normal);
    for _ in 0..20 {
        let sc = metal.scatter(&r, &rec).expect("head-on reflection leaves the surface");
        assert_eq!(sc.scattered.dir, expected);
        assert_eq!(sc.attenuation, albedo);
    }
}

#[test]
fn metal_clamps_fuzz() {
    let m = Metal::new(v(1, 1, 1), 3 * FX_ONE);
    assert_eq!(m.fuzz, FX_ONE);
    let m2 = Metal::new(v(1, 1, 1), FX_HALF);
    assert_eq!(m2.fuzz, FX_HALF);
}

#[test]
fn metal_absorbs_below_surface() {
    // a grazing setup where the reflection goes along the surface: fuzz 0 and
    // a direction parallel to the normal's plane gives dot == 0 -> absorbed
    let metal = Metal::new(v(1, 1, 1), 0);
    let rec = HitRecord {
        p: v(0, 0, 0),
        normal: v(0, 1, 0),
        t: FX_ONE,
        front_face: true,
        mat: Material::Metal(metal),
    };
    let r = Ray::new(v(-1, 0, 0), v(1, 0, 0));
    assert!(metal.scatter(&r, &rec).is_none());
}

#[test]
fn dielectric_unit_index_head_on_passes_straight() {
    let d = Dielectric::new(FX_ONE);
    let mat = Material::Dielectric(d);
    let (r, rec) = head_on_record(mat);
    for _ in 0..20 {
        let sc = d.scatter(&r, &rec).expect("dielectric never absorbs");
        // head-on with index 1: Schlick reflectance is zero, so the ray
        // always refracts, and the direction is exactly preserved
        assert_eq!(sc.scattered.dir, norm(r.dir()));
        assert_eq!(sc.attenuation, Vec3 { x: FX_ONE, y: FX_ONE, z: FX_ONE });
    }
}

#[test]
fn background_poles_give_pure_colors() {
    let zenith = background(&Ray::new(v(0, 0, 0), v(0, 1, 0)));
    assert_eq!(zenith, Vec3 { x: 524288, y: 734003, z: 1048576 });
    let horizon = background(&Ray::new(v(0, 0, 0), v(0, -1, 0)));
    assert_eq!(horizon, Vec3 { x: 838861, y: 838861, z: 1048576 });
}

#[test]
fn depth_zero_is_black_whatever_the_scene() {
    let mut world = HittableList::new();
    world.add(Hittable::Sphere(Sphere::new(v(0, 0, -3), FX_ONE,
        Material::Lambertian(Lambertian::new(v(1, 1, 1))))));
    let rays = [
        Ray::new(v(0, 0, 0), v(0, 0, -1)),
        Ray::new(v(1, 2, 3), v(0, 1, 0)),
    ];
    for r in rays {
        assert_eq!(ray_color(&r, &world, 0), Vec3 { x: 0, y: 0, z: 0 });
        assert_eq!(ray_color(&r, &world, -5), Vec3 { x: 0, y: 0, z: 0 });
    }
}

#[test]
fn escaping_ray_sees_background() {
    let world = HittableList::new();
    let r = Ray::new(v(0, 0, 0), v(0, 1, 0));
    assert_eq!(ray_color(&r, &world, 10), Vec3 { x: 524288, y: 734003, z: 1048576 });
}

#[test]
fn camera_center_ray_points_down_axis() {
    // 90 degree vertical fov, aspect 1, aperture 0, at the origin looking
    // down -z with up +y: the center ray is parallel to -z
    let cam = Camera::new(v(0, 0, 0), v(0, 0, -1), v(0, 1, 0), 90 * FX_ONE, FX_ONE, 0, FX_ONE);
    let r = cam.get_ray(FX_HALF, FX_HALF);
    assert_eq!(r.orig(), v(0, 0, 0));
    assert_eq!(r.dir().x, 0);
    assert_eq!(r.dir().y, 0);
    assert!(r.dir().z < 0);
}

#[test]
fn camera_corner_rays_spread() {
    let cam = Camera::new(v(0, 0, 0), v(0, 0, -1), v(0, 1, 0), 90 * FX_ONE, FX_ONE, 0, FX_ONE);
    let top = cam.get_ray(FX_HALF, FX_ONE);
    let bottom = cam.get_ray(FX_HALF, 0);
    assert!(top.dir().y > 0);
    assert!(bottom.dir().y < 0);
    // 90 degrees of vertical fov: the top ray rises about as fast as it advances
    let ratio = (top.dir().y.abs() * 1000) / top.dir().z.abs();
    assert!((ratio - 1000i64).abs() <= 10, "ratio = {ratio}");
}

#[test]
fn pixel_color_accumulates_background() {
    // an empty scene: every sample sees the background, so four samples of
    // the zenith-ish direction stack up to at most four units per channel
    let cam = Camera::new(v(0, 0, 0), v(0, 0, -1), v(0, 1, 0), 90 * FX_ONE, FX_ONE, 0, FX_ONE);
    let world = HittableList::new();
    let c = pixel_color(&cam, &world, 5, 5, 10, 10, 4, 8);
    assert!(c.x > 0 && c.y > 0 && c.z > 0);
    assert!(c.x <= 4 * FX_ONE && c.y <= 4 * FX_ONE && c.z <= 4 * FX_ONE);
    let none = pixel_color(&cam, &world, 5, 5, 10, 10, 0, 8);
    assert_eq!(none, Vec3 { x: 0, y: 0, z: 0 });
}

#[test]
fn scattered_rays_leave_the_hit_point() {
    let mat = Material::Lambertian(Lambertian::new(v(1, 1, 1)));
    let (r, rec) = head_on_record(mat);
    let sc = rec.mat.scatter(&r, &rec).expect("lambertian scatters");
    assert_eq!(sc.scattered.orig, rec.p);
    // the scatter direction stays on the outward side for a diffuse bounce
    assert!(dot(sc.scattered.dir, rec.normal) >= -FX_ONE / 100);
}
