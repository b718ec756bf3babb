use minirt::utils::fx::Fx;
use minirt::utils::matrix::Mat;
use minirt::utils::ray::Ray;
use minirt::utils::vec3::Vec3;
use minirt::world::transform::Transformable;

fn fx(v: f64) -> Fx {
    Fx::from_raw((v * 1e6).round() as i64)
}

fn v3(x: f64, y: f64, z: f64) -> Vec3 {
    Vec3::new(fx(x), fx(y), fx(z))
}

#[test]
fn test_new() {
    let org = v3(2.0, 3.0, 4.0);
    let dir = v3(1.0, 0.0, 0.0);
    let ray = Ray::new(org, dir);

    assert_eq!(ray.org, org);
    assert_eq!(ray.dir, dir);
}

#[test]
fn test_position() {
    let org = v3(2.0, 3.0, 4.0);
    let dir = v3(1.0, 0.0, 0.0);
    let ray = Ray::new(org, dir);

    assert_eq!(ray.position(fx(0.0)), v3(2.0, 3.0, 4.0));
    assert_eq!(ray.position(fx(1.0)), v3(3.0, 3.0, 4.0));
    assert_eq!(ray.position(fx(-1.0)), v3(1.0, 3.0, 4.0));
    assert_eq!(ray.position(fx(2.5)), v3(4.5, 3.0, 4.0));
}

#[test]
fn test_transform_1() {
    let r1 = Ray::new(v3(1.0, 2.0, 3.0), v3(0.0, 1.0, 0.0));
    let r2 = Ray::new(v3(4.0, 6.0, 8.0), v3(0.0, 1.0, 0.0));
    let t = Mat::identity(4).translation(fx(3.0), fx(4.0), fx(5.0));
    let r1 = r1.transform(&t);

    assert_eq!(r1, r2);
}

#[test]
fn test_transform_2() {
    let r1 = Ray::new(v3(1.0, 2.0, 3.0), v3(0.0, 1.0, 0.0));
    let r2 = Ray::new(v3(2.0, 6.0, 12.0), v3(0.0, 3.0, 0.0));
    let t = Mat::identity(4).scaling(fx(2.0), fx(3.0), fx(4.0));
    let r1 = r1.transform(&t);

    assert_eq!(r1, r2);
}

#[test]
fn test_translate_then_position() {
    let r = Ray::new(v3(1.0, -2.0, 0.5), v3(0.25, 1.0, -0.75));
    let t = Mat::identity(4).translation(fx(3.0), fx(-4.0), fx(5.0));
    let s = fx(2.5);

    let moved_then_pos = r.transform(&t).position(s);
    let pos_then_moved = r.position(s).add(&v3(3.0, -4.0, 5.0));

    assert_eq!(moved_then_pos.x.raw, pos_then_moved.x.raw);
    assert_eq!(moved_then_pos.y.raw, pos_then_moved.y.raw);
    assert_eq!(moved_then_pos.z.raw, pos_then_moved.z.raw);
}
