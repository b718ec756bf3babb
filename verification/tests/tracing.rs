use minirt::rt::{is_shadow, shade_hit, trace, RayTracer};
use minirt::utils::comp::Comp;
use minirt::utils::fx::Fx;
use minirt::utils::material::IMaterial;
use minirt::utils::matrix::Mat;
use minirt::utils::ray::Ray;
use minirt::utils::vec3::Vec3;
use minirt::world::camera::Camera;
use minirt::world::light::Light;
use minirt::world::shape::Shape;
use minirt::world::sphere::Sphere;
use minirt::world::transform::Transformable;
use minirt::world::w::World;

fn fx(v: f64) -> Fx {
    Fx::from_raw((v * 1e6).round() as i64)
}

fn v3(x: f64, y: f64, z: f64) -> Vec3 {
    Vec3::new(fx(x), fx(y), fx(z))
}

fn camera() -> Camera {
    Camera::new(10, 10, fx(1.0), Mat::identity(4))
}

/// A matte unit sphere at the origin, lit from (0, 0, -10).
fn lit_world() -> (World, Light) {
    let light = Light::new(v3(0.0, 0.0, -10.0), v3(1.0, 1.0, 1.0));
    let w = World::new(
        camera(),
        vec![light],
        vec![Shape::Sphere(Sphere::default())],
    );
    (w, light)
}

#[test]
fn test_shade_lit_exceeds_ambient() {
    let (w, light) = lit_world();
    let ray = Ray::new(v3(0.0, 0.0, -5.0), v3(0.0, 0.0, 1.0));
    let comp = Comp::prepare_comp(&ray, &w.shapes[0], 0, fx(4.0));

    let color = shade_hit(&w, &comp, &light);

    // ambient + diffuse + specular = 0.1 + 0.9 + 0.9 per channel
    assert!(color.x.raw > fx(0.1).raw);
    assert_eq!(color, v3(1.9, 1.9, 1.9));
}

#[test]
fn test_shade_occluded_is_ambient_only() {
    let light = Light::new(v3(0.0, 0.0, -10.0), v3(1.0, 1.0, 1.0));
    let occluder = Sphere::default()
        .scaling(fx(0.5), fx(0.5), fx(0.5))
        .translation(fx(0.0), fx(0.0), fx(-3.0));
    let w = World::new(
        camera(),
        vec![light],
        vec![
            Shape::Sphere(Sphere::default()),
            Shape::Sphere(occluder),
        ],
    );
    let ray = Ray::new(v3(0.0, 0.0, -5.0), v3(0.0, 0.0, 1.0));
    let comp = Comp::prepare_comp(&ray, &w.shapes[0], 0, fx(4.0));

    let color = shade_hit(&w, &comp, &light);

    assert_eq!(color, v3(0.1, 0.1, 0.1));
}

#[test]
fn test_is_shadow_detects_occluder() {
    let light = Light::new(v3(0.0, 0.0, -10.0), v3(1.0, 1.0, 1.0));
    let occluder = Sphere::default()
        .scaling(fx(0.5), fx(0.5), fx(0.5))
        .translation(fx(0.0), fx(0.0), fx(-3.0));
    let w = World::new(
        camera(),
        vec![light],
        vec![
            Shape::Sphere(Sphere::default()),
            Shape::Sphere(occluder),
        ],
    );
    let point = v3(0.0, 0.0, -1.0001);
    let shadow_ray = light.ray_at(&point);
    let dist = point.sub(&light.position).mag();
    assert!(is_shadow(&w, &shadow_ray, dist, 0));

    let (w_clear, light2) = lit_world();
    let shadow_ray2 = light2.ray_at(&point);
    assert!(!is_shadow(&w_clear, &shadow_ray2, dist, 0));
}

#[test]
fn test_trace_miss_is_background() {
    let (w, _) = lit_world();
    let ray = Ray::new(v3(0.0, 5.0, -5.0), v3(0.0, 1.0, 0.0));
    let color = trace(&w, &ray, 0);
    assert_eq!(color, v3(0.0, 0.0, 0.0));
}

#[test]
fn test_trace_hit_is_shaded() {
    let (w, _) = lit_world();
    let ray = Ray::new(v3(0.0, 0.0, -5.0), v3(0.0, 0.0, 1.0));
    let color = trace(&w, &ray, 0);
    assert_eq!(color, v3(1.9, 1.9, 1.9));
}

#[test]
fn test_trace_depth_cutoff_is_background() {
    let (w, _) = lit_world();
    let ray = Ray::new(v3(0.0, 0.0, -5.0), v3(0.0, 0.0, 1.0));
    let color = trace(&w, &ray, 11);
    assert_eq!(color, v3(0.0, 0.0, 0.0));
}

#[test]
fn test_trace_mirror_enclosure_terminates() {
    // A fully reflective sphere enclosing the ray origin: the recursion
    // still returns, bounded by the depth cutoff.
    let light = Light::new(v3(0.0, 0.0, 0.0), v3(1.0, 1.0, 1.0));
    let mirror = Sphere::default().reflective(fx(1.0));
    let w = World::new(camera(), vec![light], vec![Shape::Sphere(mirror)]);
    let ray = Ray::new(v3(0.0, 0.0, 0.0), v3(0.0, 0.0, 1.0));

    let color = trace(&w, &ray, 0);
    let again = trace(&w, &ray, 0);
    assert_eq!(color.x.raw, again.x.raw);
    assert_eq!(color.y.raw, again.y.raw);
    assert_eq!(color.z.raw, again.z.raw);
}

#[test]
fn test_trace_idempotent() {
    let w = World::default();
    let ray = Ray::new(v3(0.1, -0.2, -5.0), v3(0.0, 0.05, 1.0).norm());
    let first = trace(&w, &ray, 0);
    let second = trace(&w, &ray, 0);
    assert_eq!(first.x.raw, second.x.raw);
    assert_eq!(first.y.raw, second.y.raw);
    assert_eq!(first.z.raw, second.z.raw);
}

#[test]
fn test_reflection_brightens_floor() {
    // A mirror floor bounces the camera ray up into a lit ball; with the
    // reflective coefficient zeroed the same hit stays darker.
    let light = Light::new(v3(0.0, 1.0, -5.0), v3(1.0, 1.0, 1.0));
    let ball = || Sphere::default().translation(fx(0.0), fx(2.0), fx(2.0));
    let mirror_floor = minirt::world::plane::Plane::default().reflective(fx(0.9));
    let matte_floor = minirt::world::plane::Plane::default();
    let w = World::new(
        camera(),
        vec![light],
        vec![Shape::Plane(mirror_floor), Shape::Sphere(ball())],
    );
    let no_mirror = World::new(
        camera(),
        vec![light],
        vec![Shape::Plane(matte_floor), Shape::Sphere(ball())],
    );
    let ray = Ray::new(v3(0.0, 1.0, -1.0), v3(0.0, -1.0, 1.0).norm());
    let with_reflection = trace(&w, &ray, 0);
    let without_reflection = trace(&no_mirror, &ray, 0);
    assert!(with_reflection.x.raw > without_reflection.x.raw);
}

#[test]
fn test_ray_tracer_wraps_world() {
    let mut rt = RayTracer::new(World::default());
    rt.update_size(20, 40);
    assert_eq!(rt.world().camera.width, 20);
    assert_eq!(rt.world().camera.height, 40);
    rt.mut_world().camera.update_size(30, 30);
    assert_eq!(rt.world().camera.width, 30);

    let ray = rt.world().camera.get_ray(15, 15);
    let c1 = rt.trace(&ray, 0);
    let c2 = trace(rt.world(), &ray, 0);
    assert_eq!(c1.x.raw, c2.x.raw);
}
