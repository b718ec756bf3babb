use minirt::utils::fx::Fx;
use minirt::utils::ray::Ray;
use minirt::utils::vec3::Vec3;
use minirt::world::cylinder::Cylinder;
use minirt::world::plane::Plane;
use minirt::world::sphere::Sphere;
use minirt::utils::material::IMaterial;
use minirt::world::transform::Transformable;
use std::f64::consts::PI;

fn fx(v: f64) -> Fx {
    Fx::from_raw((v * 1e6).round() as i64)
}

fn v3(x: f64, y: f64, z: f64) -> Vec3 {
    Vec3::new(fx(x), fx(y), fx(z))
}

#[test]
fn sphere_test_normal_at_1() {
    let f = std::f64::consts::FRAC_1_SQRT_2;
    let sp = Sphere::default().translation(fx(-0.0), fx(1.0), fx(-0.0));
    let v = sp.normal_at(&v3(0.0, 1.70711, -f));
    assert_eq!(v, v3(0.0, f, -f));
}

#[test]
fn sphere_test_normal_at_2() {
    let f = 2.0_f64.sqrt() / 2.0;
    let angle = PI / 5.0;
    let sp = Sphere::default()
        .scaling(fx(1.0), fx(0.5), fx(1.0))
        .rotation_z(fx(angle.sin()), fx(angle.cos()));
    let v = sp.normal_at(&v3(0.0, f, -f));
    assert_eq!(v, v3(0.0, 0.97014, -0.24254));
}

#[test]
fn cylinder_test_normal_at_1() {
    let f = std::f64::consts::FRAC_1_SQRT_2;
    let sp = Cylinder::default().translation(fx(-0.0), fx(1.0), fx(-0.0));
    let v = sp.normal_at(&v3(0.0, 1.70711, -f));
    assert_eq!(v, v3(0.0, f, -f));
}

#[test]
fn cylinder_test_normal_at_2() {
    let f = 2.0_f64.sqrt() / 2.0;
    let angle = PI / 5.0;
    let sp = Cylinder::default()
        .scaling(fx(1.0), fx(0.5), fx(1.0))
        .rotation_z(fx(angle.sin()), fx(angle.cos()));
    let v = sp.normal_at(&v3(0.0, f, -f));
    assert_eq!(v, v3(0.0, 0.97014, -0.24254));
}

#[test]
fn sphere_test_intersect_hits() {
    let sp = Sphere::default();
    let ray = Ray::new(v3(0.0, 0.0, -5.0), v3(0.0, 0.0, 1.0));
    let (t0, t1) = sp.intersect(&ray).unwrap();
    assert_eq!(t0, fx(4.0));
    assert_eq!(t1, fx(6.0));
}

#[test]
fn sphere_test_intersect_miss() {
    let sp = Sphere::default();
    let ray = Ray::new(v3(0.0, 2.0, -5.0), v3(0.0, 0.0, 1.0));
    assert!(sp.intersect(&ray).is_none());
}

#[test]
fn plane_test_intersect_hit() {
    let p = Plane::default();
    let ray = Ray::new(v3(0.0, 1.0, 0.0), v3(0.0, -1.0, 0.0));
    let t = p.intersect(&ray).unwrap();
    assert_eq!(t, fx(1.0));
}

#[test]
fn plane_test_intersect_parallel_misses() {
    let p = Plane::default();
    let ray = Ray::new(v3(0.0, 1.0, 0.0), v3(1.0, 0.0, 0.0));
    assert!(p.intersect(&ray).is_none());
}

#[test]
fn plane_test_intersect_behind_misses() {
    let p = Plane::default();
    let ray = Ray::new(v3(0.0, 1.0, 0.0), v3(0.0, 1.0, 0.0));
    assert!(p.intersect(&ray).is_none());
}

#[test]
fn plane_test_normal_tilted() {
    let angle = PI / 2.0;
    let p = Plane::default().rotation_x(fx(angle.sin()), fx(angle.cos()));
    let n = p.normal_at(&v3(0.0, 0.0, 0.0));
    assert_eq!(n, v3(0.0, 0.0, 1.0));
}

#[test]
fn cylinder_test_intersect_hits() {
    let c = Cylinder::default();
    let ray = Ray::new(v3(0.0, 0.0, -5.0), v3(0.0, 0.0, 1.0));
    let (t0, t1) = c.intersect(&ray).unwrap();
    assert_eq!(t0, fx(4.0));
    assert_eq!(t1, fx(6.0));
}

#[test]
fn cylinder_test_intersect_above_height_misses() {
    let c = Cylinder::default();
    let ray = Ray::new(v3(0.0, 5.0, -5.0), v3(0.0, 0.0, 1.0));
    assert!(c.intersect(&ray).is_none());
}

#[test]
fn sphere_test_scaled_intersect() {
    let mut sp = Sphere::default();
    let t = minirt::utils::matrix::Mat::identity(4).scaling(fx(0.5), fx(0.5), fx(0.5));
    sp.set_transform(t);
    let ray = Ray::new(v3(0.0, 0.0, -5.0), v3(0.0, 0.0, 1.0));
    let (t0, t1) = sp.intersect(&ray).unwrap();
    assert_eq!(t0, fx(4.5));
    assert_eq!(t1, fx(5.5));
}

#[test]
fn sphere_test_builder_material() {
    let sp = Sphere::default()
        .color(fx(0.8), fx(1.0), fx(0.6))
        .diffuse(fx(0.7))
        .specular(fx(0.5))
        .ambient(fx(0.2))
        .reflective(fx(0.3))
        .shininess(fx(100.0));
    let m = sp.material();
    assert_eq!(m.diffuse, fx(0.7));
    assert_eq!(m.specular, fx(0.5));
    assert_eq!(m.ambient, fx(0.2));
    assert_eq!(m.reflective, fx(0.3));
    assert_eq!(m.shininess, fx(100.0));
}

#[test]
fn sphere_test_identity_normal_is_unit() {
    let f = 2.0_f64.sqrt() / 2.0;
    let sp = Sphere::default();
    let n = sp.normal_at(&v3(0.0, f, -f));
    let m = n.mag();
    assert!((m.raw - 1_000_000).abs() < 100);
}
