use minirt::utils::fx::Fx;
use minirt::utils::matrix::Mat;
use minirt::utils::vec3::Vec3;
use minirt::world::transform::Transformable;
use std::f64::consts::PI;

fn fx(v: f64) -> Fx {
    Fx::from_raw((v * 1e6).round() as i64)
}

fn v3(x: f64, y: f64, z: f64) -> Vec3 {
    Vec3::new(fx(x), fx(y), fx(z))
}

fn rot(angle: f64) -> (Fx, Fx) {
    (fx(angle.sin()), fx(angle.cos()))
}

#[test]
fn test_translation() {
    let t = Mat::identity(4).translation(fx(5.0), fx(-3.0), fx(2.0));
    let p = v3(-3.0, 4.0, 5.0);

    assert_eq!(t.mul_point(&p), v3(2.0, 1.0, 7.0));
}

#[test]
fn test_scaling() {
    let t = Mat::identity(4).scaling(fx(2.0), fx(3.0), fx(4.0));
    let p = v3(-4.0, 6.0, 8.0);

    assert_eq!(t.mul_point(&p), v3(-8.0, 18.0, 32.0));
}

#[test]
fn test_scaling_matrix_x_point() {
    let transform = Mat::identity(4).scaling(fx(2.0), fx(3.0), fx(4.0));
    let p = v3(-4.0, 6.0, 8.0);
    let expected = v3(-8.0, 18.0, 32.0);

    let res = transform.mul_point(&p);
    assert_eq!(res, expected);
}

#[test]
fn test_scaling_matrix_x_vec3() {
    let transform = Mat::identity(4).scaling(fx(2.0), fx(3.0), fx(4.0));
    let v = v3(-4.0, 6.0, 8.0);
    let expected = v3(-8.0, 18.0, 32.0);

    let res = transform.mul_point(&v);
    assert_eq!(res, expected);
}

#[test]
fn test_inverse_scaling_matrix_x_vec3() {
    let transform = Mat::identity(4).scaling(fx(2.0), fx(3.0), fx(4.0));
    let inverse_transform = transform.inverse();
    let v = v3(-4.0, 6.0, 8.0);
    let expected = v3(-2.0, 2.0, 2.0);

    let res = inverse_transform.mul_point(&v);
    assert_eq!(res, expected);
}

#[test]
fn test_reflection_using_scaling_matrix() {
    let transform = Mat::identity(4).scaling(fx(-1.0), fx(1.0), fx(1.0));
    let p = v3(2.0, 3.0, 4.0);
    let expected = v3(-2.0, 3.0, 4.0);

    let res = transform.mul_point(&p);
    assert_eq!(res, expected);
}

#[test]
fn test_rotation_x() {
    let (sq, cq) = rot(PI / 4.0);
    let (sh, ch) = rot(PI / 2.0);
    let t_quarter = Mat::identity(4).rotation_x(sq, cq);
    let t_half = Mat::identity(4).rotation_x(sh, ch);
    let p = v3(0.0, 1.0, 0.0);

    assert_eq!(t_half.mul_point(&p), v3(0.0, 0.0, 1.0));
    assert_eq!(
        t_quarter.mul_point(&p),
        v3(0.0, 2.0_f64.sqrt() / 2.0, 2.0_f64.sqrt() / 2.0)
    );
}

#[test]
fn test_rotation_y() {
    let (sq, cq) = rot(PI / 4.0);
    let (sh, ch) = rot(PI / 2.0);
    let t_quarter = Mat::identity(4).rotation_y(sq, cq);
    let t_half = Mat::identity(4).rotation_y(sh, ch);
    let p = v3(0.0, 0.0, 1.0);

    assert_eq!(t_half.mul_point(&p), v3(1.0, 0.0, 0.0));
    assert_eq!(
        t_quarter.mul_point(&p),
        v3(2.0_f64.sqrt() / 2.0, 0.0, 2.0_f64.sqrt() / 2.0)
    );
}

#[test]
fn test_rotation_z() {
    let (sq, cq) = rot(PI / 4.0);
    let (sh, ch) = rot(PI / 2.0);
    let t_quarter = Mat::identity(4).rotation_z(sq, cq);
    let t_half = Mat::identity(4).rotation_z(sh, ch);
    let p = v3(0.0, 1.0, 0.0);

    assert_eq!(t_half.mul_point(&p), v3(-1.0, 0.0, 0.0));
    assert_eq!(
        t_quarter.mul_point(&p),
        v3(2.0_f64.sqrt() / -2.0, 2.0_f64.sqrt() / 2.0, 0.0)
    );
}

#[test]
fn test_shearing_xy() {
    let t = Mat::identity(4).shearing(fx(1.0), fx(0.0), fx(0.0), fx(0.0), fx(0.0), fx(0.0));
    let p = v3(2.0, 3.0, 4.0);

    assert_eq!(t.mul_point(&p), v3(5.0, 3.0, 4.0));
}

#[test]
fn test_shearing_xz() {
    let t = Mat::identity(4).shearing(fx(0.0), fx(1.0), fx(0.0), fx(0.0), fx(0.0), fx(0.0));
    let p = v3(2.0, 3.0, 4.0);

    assert_eq!(t.mul_point(&p), v3(6.0, 3.0, 4.0));
}

#[test]
fn test_shearing_yx() {
    let t = Mat::identity(4).shearing(fx(0.0), fx(0.0), fx(1.0), fx(0.0), fx(0.0), fx(0.0));
    let p = v3(2.0, 3.0, 4.0);

    assert_eq!(t.mul_point(&p), v3(2.0, 5.0, 4.0));
}

#[test]
fn test_shearing_yz() {
    let t = Mat::identity(4).shearing(fx(0.0), fx(0.0), fx(0.0), fx(1.0), fx(0.0), fx(0.0));
    let p = v3(2.0, 3.0, 4.0);

    assert_eq!(t.mul_point(&p), v3(2.0, 7.0, 4.0));
}

#[test]
fn test_shearing_zx() {
    let t = Mat::identity(4).shearing(fx(0.0), fx(0.0), fx(0.0), fx(0.0), fx(1.0), fx(0.0));
    let p = v3(2.0, 3.0, 4.0);

    assert_eq!(t.mul_point(&p), v3(2.0, 3.0, 6.0));
}

#[test]
fn test_shearing_zy() {
    let t = Mat::identity(4).shearing(fx(0.0), fx(0.0), fx(0.0), fx(0.0), fx(0.0), fx(1.0));
    let p = v3(2.0, 3.0, 4.0);

    assert_eq!(t.mul_point(&p), v3(2.0, 3.0, 7.0));
}

#[test]
fn test_chain() {
    let p = v3(1.0, 0.0, 1.0);
    let (s, c) = rot(PI / 2.0);
    let r = Mat::identity(4).rotation_x(s, c);
    let sc = Mat::identity(4).scaling(fx(5.0), fx(5.0), fx(5.0));
    let t = Mat::identity(4).translation(fx(10.0), fx(5.0), fx(7.0));

    let exp = Mat::identity(4)
        .translation(fx(10.0), fx(5.0), fx(7.0))
        .scaling(fx(5.0), fx(5.0), fx(5.0))
        .rotation_x(s, c);

    assert_eq!(exp.mul_point(&p), v3(15.0, 0.0, 7.0));
    assert_eq!(t.mul(&sc).mul(&r).mul_point(&p), v3(15.0, 0.0, 7.0));
}
