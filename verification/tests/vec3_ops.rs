use minirt::utils::fx::Fx;
use minirt::utils::vec3::Vec3;

fn fx(v: f64) -> Fx {
    Fx::from_raw((v * 1e6).round() as i64)
}

fn v3(x: f64, y: f64, z: f64) -> Vec3 {
    Vec3::new(fx(x), fx(y), fx(z))
}

#[test]
fn test_add_vec3_vec3() {
    let v1 = v3(1.0, 2.0, 5.0);
    let v2 = v3(0.0, 3.0, 4.0);

    let v = v1.add(&v2);

    assert_eq!(v, v3(1.0, 5.0, 9.0));
}

#[test]
fn test_add_vec3_float() {
    let v1 = v3(1.0, 1.0, 1.0);

    let v = v1.add_s(fx(1.0));

    assert_eq!(v, v3(2.0, 2.0, 2.0));
}

#[test]
fn test_sub_vec3_float() {
    let v1 = v3(3.0, 3.0, 3.0);

    let v = v1.sub_s(fx(1.0));

    assert_eq!(v, v3(2.0, 2.0, 2.0));
}

#[test]
fn test_sub_vec3_vec3() {
    let v1 = v3(3.0, 3.0, 3.0);
    let v2 = v3(1.0, 1.0, 1.0);

    let v = v1.sub(&v2);

    assert_eq!(v, v3(2.0, 2.0, 2.0));
}

#[test]
fn test_mul_vec3_float() {
    let v1 = v3(3.0, 3.0, 3.0);

    let v = v1.mul_s(fx(2.0));

    assert_eq!(v, v3(6.0, 6.0, 6.0));
}

#[test]
fn test_mul_vec3_vec3() {
    let v1 = v3(3.0, 3.0, 3.0);
    let v2 = v3(2.0, 2.0, 2.0);

    let v = v1.mul(&v2);
    assert_eq!(v, v3(6.0, 6.0, 6.0));
}

#[test]
fn test_div_vec3_float() {
    let v1 = v3(6.0, 6.0, 6.0);

    let v = v1.div_s(fx(2.0));

    assert_eq!(v, v3(3.0, 3.0, 3.0));
}

#[test]
fn test_div_vec3_vec3() {
    let v1 = v3(6.0, 6.0, 6.0);
    let v2 = v3(2.0, 2.0, 2.0);

    let v = v1.div(&v2);
    assert_eq!(v, v3(3.0, 3.0, 3.0));
}

#[test]
fn test_dot_vec3_vec3() {
    let v1 = v3(6.0, 7.0, 4.0);
    let v2 = v3(2.0, 3.0, 2.0);

    let res = v1.dot(&v2);
    assert_eq!(res, fx(12.0 + 21.0 + 8.0));
}

#[test]
fn test_dot_vec3_vec3_1() {
    let v1 = v3(6.0, 7.0, 4.0);
    let v2 = v3(2.0, 3.0, 2.0);

    let res = v1.dot(&v2);
    assert_eq!(res, fx(12.0 + 21.0 + 8.0));
}

#[test]
fn test_dot_vec3_vec3_2() {
    let v1 = Vec3::from_float(fx(1.0));
    let v2 = v3(-2.0, 2.0, 0.0);
    let v2_norm = v3(-2.0, 2.0, 0.0).norm();

    let res = v1.dot(&v2);
    let res_n = v1.dot(&v2_norm);
    assert_eq!(res, fx(0.0));
    assert_eq!(res, res_n);
}

#[test]
fn test_reflect_1() {
    let v1 = v3(1.0, -1.0, 0.0);
    let normal = v3(0.0, 1.0, 0.0).norm();

    let r = v1.reflect(&normal);
    assert_eq!(r, v3(1.0, 1.0, 0.0));
}

#[test]
fn test_reflect_2() {
    let twosqrt2 = 2.0_f64.powf(0.5) / 2.0;
    let v1 = v3(0.0, -1.0, 0.0);
    let normal = v3(twosqrt2, twosqrt2, 0.0).norm();

    let r = v1.reflect(&normal);
    assert_eq!(r, v3(1.0, 0.0, 0.0));
}

#[test]
fn test_cross_vec3_vec3_1() {
    let v1 = v3(1.0, 0.0, 0.0);
    let v2 = v3(0.0, 1.0, 0.0);

    let res = v1.cross(&v2);
    assert_eq!(res, v3(0.0, 0.0, 1.0));
}

#[test]
fn test_cross_vec3_vec3_2() {
    let v1 = v3(1.0, 2.0, 3.0);
    let v2 = v3(2.0, 3.0, 4.0);

    let res = v1.cross(&v2);

    assert_eq!(res, v3(-1.0, 2.0, -1.0));
}

#[test]
fn test_cross_vec3_vec3_3() {
    let v1 = v3(1.0, 2.0, 3.0);
    let v2 = v3(2.0, 3.0, 4.0);

    let res = v2.cross(&v1);

    assert_eq!(res, v3(1.0, -2.0, 1.0));
}

#[test]
fn test_from_float() {
    assert_eq!(v3(2.0, 2.0, 2.0), Vec3::from_float(fx(2.0)));
}

#[test]
fn test_norm_unit_length() {
    let v = v3(3.0, -5.0, 6.0).norm();
    let m = v.mag();
    assert!((m.raw - 1_000_000).abs() < 100);
}

#[test]
fn test_dotxz_ignores_y() {
    let v1 = v3(2.0, 100.0, 3.0);
    let v2 = v3(4.0, -100.0, 5.0);
    assert_eq!(v1.dotxz(&v2), fx(8.0 + 15.0));
}

#[test]
fn test_to_color_clamps() {
    let c = v3(1.5, -0.2, 0.5);
    assert_eq!(c.to_color(), 255 * 65536 + 0 * 256 + 127);
}

#[test]
fn test_neg() {
    assert_eq!(v3(1.0, -2.0, 3.0).neg(), v3(-1.0, 2.0, -3.0));
}

#[test]
fn test_set_and_set_scalar() {
    let mut v = v3(0.0, 0.0, 0.0);
    v.set(&v3(1.0, 2.0, 3.0));
    assert_eq!(v, v3(1.0, 2.0, 3.0));
    v.set_scalar(fx(4.0), fx(5.0), fx(6.0));
    assert_eq!(v, v3(4.0, 5.0, 6.0));
}
