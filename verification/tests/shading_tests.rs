use raytracer::camera::Camera;
use raytracer::fixed::{add_fx, div_fx, mul_fx, neg_fx, sqrt_fx, sub_fx, LIM, SCALE};
use raytracer::light::Light;
use raytracer::shading::{blend, intersect, nearest_hit, render_pixel, shade_direct, trace_direct};
use raytracer::sphere::Sphere;
use raytracer::vec3::Vec3;

fn unit_sphere_at_origin(reflectivity: i64) -> Sphere {
    Sphere {
        center: Vec3 { x: 0, y: 0, z: 0 },
        radius: SCALE, // 1.0
        color: Vec3 { x: SCALE, y: 0, z: 0 }, // pure red
        reflectivity,
    }
}

fn light_above() -> Light {
    // far above the sphere (up is -y in this scene), slightly toward the
    // camera so the front face is lit; intensity 1.0
    Light { position: Vec3 { x: 0, y: -10_000_000, z: 50_000 }, intensity: SCALE }
}

fn eye_camera() -> Camera {
    // square viewport, eye at (0, 0, 5) looking down -z
    Camera { width: 100, height: 100, position: Vec3 { x: 0, y: 0, z: 50_000 } }
}

#[test]
fn fixed_point_operations_exact_values() {
    assert_eq!(mul_fx(30_000, 20_000), 60_000); // 3 * 2 == 6
    assert_eq!(mul_fx(-30_000, 20_000), -60_000);
    assert_eq!(div_fx(60_000, 20_000), 30_000); // 6 / 2 == 3
    assert_eq!(div_fx(-10_000, 30_000), -3_333); // -1/3, truncated toward zero
    assert_eq!(add_fx(1, 2), 3);
    assert_eq!(sub_fx(1, 2), -1);
    assert_eq!(neg_fx(7), -7);
    assert_eq!(sqrt_fx(40_000), 20_000); // sqrt 4 == 2
    assert_eq!(sqrt_fx(20_000), 14_142); // sqrt 2, truncated
    assert_eq!(sqrt_fx(0), 0);
    assert_eq!(sqrt_fx(-5), 0);
}

#[test]
fn fixed_point_operations_saturate() {
    assert_eq!(mul_fx(LIM, LIM), LIM);
    assert_eq!(mul_fx(-LIM, LIM), -LIM);
    assert_eq!(add_fx(LIM, LIM), LIM);
    assert_eq!(sub_fx(-LIM, LIM), -LIM);
    assert_eq!(div_fx(LIM, 1), LIM);
}

#[test]
fn head_on_hit_distance_is_exact() {
    // ray from (0,0,5) straight at a unit sphere at the origin:
    // the hit parameter is |origin - center| - radius == 4.0, exactly
    let s = unit_sphere_at_origin(0);
    let o = Vec3 { x: 0, y: 0, z: 50_000 };
    let d = Vec3 { x: 0, y: 0, z: -SCALE };
    assert_eq!(intersect(&s, o, d), Some(40_000));
}

#[test]
fn head_on_hit_distance_off_axis_center() {
    // same law with the sphere pushed down the axis: |origin-center| == 7
    let s = Sphere {
        center: Vec3 { x: 0, y: 0, z: -20_000 },
        ..unit_sphere_at_origin(0)
    };
    let o = Vec3 { x: 0, y: 0, z: 50_000 };
    let d = Vec3 { x: 0, y: 0, z: -SCALE };
    assert_eq!(intersect(&s, o, d), Some(60_000));
}

#[test]
fn ray_that_misses_hits_nothing() {
    let s = unit_sphere_at_origin(0);
    let o = Vec3 { x: 0, y: 0, z: 50_000 };
    // steep diagonal ray: passes far from the unit sphere
    let d = Vec3 { x: 9_000, y: 9_000, z: -SCALE };
    assert_eq!(intersect(&s, o, d), None);
    // a sphere behind the ray origin is rejected too
    let behind = Sphere { center: Vec3 { x: 0, y: 0, z: 100_000 }, ..s };
    assert_eq!(intersect(&behind, o, Vec3 { x: 0, y: 0, z: -SCALE }), None);
}

#[test]
fn nearest_hit_picks_smallest_parameter_regardless_of_order() {
    let near = Sphere { center: Vec3 { x: 0, y: 0, z: 10_000 }, ..unit_sphere_at_origin(0) };
    let far = unit_sphere_at_origin(0); // center at z == 0, hit farther away
    let o = Vec3 { x: 0, y: 0, z: 50_000 };
    let d = Vec3 { x: 0, y: 0, z: -SCALE };
    let forward: Vec<Sphere> = vec![near, far];
    let backward: Vec<Sphere> = vec![far, near];
    let a = nearest_hit(&forward, o, d).unwrap();
    let b = nearest_hit(&backward, o, d).unwrap();
    assert_eq!(a.1, 30_000); // |5 - 1| - 1 == 3
    assert_eq!(b.1, 30_000); // same distance whichever order the list has
    assert_eq!(forward[a.0], backward[b.0]); // and the same sphere
}

#[test]
fn central_pixel_renders_nonzero_red() {
    // single red diffuse unit sphere at the origin, light far above,
    // camera at (0,0,5): the central pixel is a shade of red
    let spheres: Vec<Sphere> = vec![unit_sphere_at_origin(0)];
    let c = render_pixel(&eye_camera(), &spheres, &light_above(), 0, 0);
    assert_eq!(c, Vec3 { x: 39, y: 0, z: 0 });
    assert!(c.x > 0 && c.y == 0 && c.z == 0);
}

#[test]
fn pixel_outside_projection_renders_background() {
    let spheres: Vec<Sphere> = vec![unit_sphere_at_origin(0)];
    let c = render_pixel(&eye_camera(), &spheres, &light_above(), 9_000, 9_000);
    assert_eq!(c, Vec3 { x: 0, y: 0, z: 0 });
}

#[test]
fn zero_reflectivity_renders_direct_term_exactly() {
    let spheres: Vec<Sphere> = vec![unit_sphere_at_origin(0)];
    let light = light_above();
    let rendered = render_pixel(&eye_camera(), &spheres, &light, 0, 0);
    // the hit point of the central ray is (0, 0, 1), on the sphere surface
    let hit_point = Vec3 { x: 0, y: 0, z: SCALE };
    let direct = shade_direct(&spheres[0], hit_point, &light);
    assert_eq!(rendered, direct);
}

#[test]
fn full_reflectivity_renders_reflected_term_exactly() {
    // a perfect mirror: the central ray reflects straight back toward the
    // camera and escapes, so the pixel shows the reflected (background)
    // term with no trace of the sphere's own red
    let spheres: Vec<Sphere> = vec![unit_sphere_at_origin(SCALE)];
    let light = light_above();
    let rendered = render_pixel(&eye_camera(), &spheres, &light, 0, 0);
    // reflected ray: origin just off the surface, direction +z
    let reflected = trace_direct(
        &spheres,
        Vec3 { x: 0, y: 0, z: SCALE + 10 },
        Vec3 { x: 0, y: 0, z: SCALE },
        &light,
    );
    assert_eq!(rendered, reflected);
    assert_eq!(rendered, Vec3 { x: 0, y: 0, z: 0 });
}

#[test]
fn blend_weights_mix_linearly() {
    let a = Vec3 { x: 8_000, y: 0, z: 2_000 };
    let b = Vec3 { x: 0, y: 4_000, z: 2_000 };
    assert_eq!(blend(a, b, 0), a);
    assert_eq!(blend(a, b, SCALE), b);
    let half = blend(a, b, 5_000);
    assert_eq!(half, Vec3 { x: 4_000, y: 2_000, z: 2_000 });
}

#[test]
fn default_scene_renders_deterministically() {
    // the same inputs give byte-identical colors, frame after frame
    let scene = raytracer::scene::Scene::new();
    let cam = Camera::new(800, 600).unwrap();
    let light = scene.light_snapshot(1_500_000, 0);
    let first = render_pixel(&cam, &scene.spheres, &light, 0, 2_500);
    let second = render_pixel(&cam, &scene.spheres, &light, 0, 2_500);
    assert_eq!(first, second);
}
