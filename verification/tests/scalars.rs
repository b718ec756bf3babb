use minirt::utils::fx::Fx;

fn fx(v: f64) -> Fx {
    Fx::from_raw((v * 1e6).round() as i64)
}

#[test]
fn test_from_int() {
    assert_eq!(Fx::from_int(3), fx(3.0));
    assert_eq!(Fx::from_int(-7), fx(-7.0));
    assert_eq!(Fx::zero(), fx(0.0));
    assert_eq!(Fx::one(), fx(1.0));
}

#[test]
fn test_add_sub_neg() {
    assert_eq!(fx(1.5).add(fx(2.25)), fx(3.75));
    assert_eq!(fx(1.5).sub(fx(2.0)), fx(-0.5));
    assert_eq!(fx(-1.5).neg(), fx(1.5));
    assert_eq!(fx(2.0).abs(), fx(2.0));
    assert_eq!(fx(-2.0).abs(), fx(2.0));
}

#[test]
fn test_mul_truncates_toward_zero() {
    assert_eq!(fx(1.5).mul(fx(2.0)), fx(3.0));
    // 0.000001 * 0.5 = 0.0000005, truncated to zero
    assert_eq!(Fx::from_raw(1).mul(fx(0.5)), Fx::from_raw(0));
    assert_eq!(Fx::from_raw(-1).mul(fx(0.5)), Fx::from_raw(0));
    assert_eq!(fx(-1.5).mul(fx(2.0)), fx(-3.0));
}

#[test]
fn test_div() {
    assert_eq!(fx(3.0).div(fx(2.0)), fx(1.5));
    assert_eq!(fx(1.0).div(fx(3.0)), Fx::from_raw(333_333));
    assert_eq!(fx(-1.0).div(fx(3.0)), Fx::from_raw(-333_333));
}

#[test]
fn test_div_by_zero_yields_zero() {
    assert_eq!(fx(5.0).div(fx(0.0)), fx(0.0));
    assert_eq!(fx(-5.0).div(fx(0.0)), fx(0.0));
}

#[test]
fn test_saturation_at_range_edge() {
    let top = Fx::from_raw(i64::MAX);
    assert_eq!(top.add(Fx::one()), top);
    let bottom = Fx::from_raw(i64::MIN);
    assert_eq!(bottom.sub(Fx::one()), bottom);
    assert_eq!(bottom.neg(), top);
}

#[test]
fn test_sqrt() {
    assert_eq!(fx(4.0).sqrt(), fx(2.0));
    assert_eq!(fx(0.0).sqrt(), fx(0.0));
    assert_eq!(fx(-4.0).sqrt(), fx(0.0));
    assert_eq!(fx(2.0).sqrt(), Fx::from_raw(1_414_213));
    assert_eq!(fx(0.25).sqrt(), fx(0.5));
}

#[test]
fn test_powi() {
    assert_eq!(fx(2.0).powi(10), fx(1024.0));
    assert_eq!(fx(3.0).powi(0), fx(1.0));
    assert_eq!(fx(1.0).powi(200), fx(1.0));
    assert_eq!(fx(0.5).powi(2), fx(0.25));
}

#[test]
fn test_round_units() {
    assert_eq!(fx(2.4).round_units(), 2);
    assert_eq!(fx(2.5).round_units(), 3);
    assert_eq!(fx(-2.4).round_units(), -2);
    assert_eq!(fx(-2.5).round_units(), -3);
    assert_eq!(fx(0.0).round_units(), 0);
}

#[test]
fn test_rounds_even() {
    assert!(fx(0.2).rounds_even());
    assert!(!fx(1.3).rounds_even());
    assert!(!fx(-0.6).rounds_even());
    assert!(fx(-2.2).rounds_even());
    assert!(!fx(2.6).rounds_even());
}
