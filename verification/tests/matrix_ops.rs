use minirt::utils::fx::Fx;
use minirt::utils::matrix::Mat;
use minirt::utils::vec3::Vec3;

fn fx(v: f64) -> Fx {
    Fx::from_raw((v * 1e6).round() as i64)
}

fn v3(x: f64, y: f64, z: f64) -> Vec3 {
    Vec3::new(fx(x), fx(y), fx(z))
}

fn mat(rows: Vec<Vec<f64>>) -> Mat {
    let tab: Vec<Vec<Fx>> = rows
        .iter()
        .map(|r| r.iter().map(|v| fx(*v)).collect())
        .collect();
    Mat::new(tab)
}

#[test]
fn test_mul_mat4_mat4() {
    let m1 = mat(vec![
        vec![1.0, 2.0, 3.0, 4.0],
        vec![5.0, 6.0, 7.0, 8.0],
        vec![9.0, 8.0, 7.0, 6.0],
        vec![5.0, 4.0, 3.0, 2.0],
    ]);
    let m2 = mat(vec![
        vec![-2.0, 1.0, 2.0, 3.0],
        vec![3.0, 2.0, 1.0, -1.0],
        vec![4.0, 3.0, 6.0, 5.0],
        vec![1.0, 2.0, 7.0, 8.0],
    ]);

    let m = m1.mul(&m2);

    assert_eq!(
        m,
        mat(vec![
            vec![20.0, 22.0, 50.0, 48.0],
            vec![44.0, 54.0, 114.0, 108.0],
            vec![40.0, 58.0, 110.0, 102.0],
            vec![16.0, 26.0, 46.0, 42.0],
        ])
    );
}

#[test]
fn test_mul_mat4_vec3() {
    let m = mat(vec![
        vec![1.0, 2.0, 3.0, 4.0],
        vec![2.0, 4.0, 4.0, 2.0],
        vec![8.0, 6.0, 4.0, 1.0],
        vec![0.0, 0.0, 0.0, 1.0],
    ]);
    let v = v3(1.0, 2.0, 3.0);

    let res = m.mul_point(&v);

    assert_eq!(res, v3(18.0, 24.0, 33.0));
}

#[test]
fn test_transpose() {
    let m = mat(vec![
        vec![1.0, 2.0, 3.0, 4.0],
        vec![2.0, 4.0, 4.0, 2.0],
        vec![8.0, 6.0, 4.0, 1.0],
        vec![0.0, 0.0, 0.0, 1.0],
    ]);

    assert_eq!(
        m.transpose(),
        mat(vec![
            vec![1.0, 2.0, 8.0, 0.0],
            vec![2.0, 4.0, 6.0, 0.0],
            vec![3.0, 4.0, 4.0, 0.0],
            vec![4.0, 2.0, 1.0, 1.0],
        ])
    );
}

#[test]
fn test_determinant_2x2() {
    let m = mat(vec![vec![1.0, 5.0], vec![-3.0, 2.0]]);

    assert_eq!(m.determinant(), fx(17.0));
}

#[test]
fn test_submatri_4x4() {
    let m = mat(vec![
        vec![1.0, 2.0, 3.0, 4.0],
        vec![2.0, 4.0, 4.0, 2.0],
        vec![8.0, 6.0, 4.0, 1.0],
        vec![0.0, 0.0, 0.0, 1.0],
    ]);
    let r = m.submatrix(0, 2);
    assert_eq!(
        r,
        mat(vec![
            vec![2.0, 4.0, 2.0],
            vec![8.0, 6.0, 1.0],
            vec![0.0, 0.0, 1.0],
        ])
    );
}

#[test]
fn test_submatri_3x3() {
    let m = mat(vec![
        vec![2.0, 4.0, 2.0],
        vec![8.0, 6.0, 1.0],
        vec![0.0, 0.0, 1.0],
    ]);
    let r = m.submatrix(2, 1);
    assert_eq!(r, mat(vec![vec![2.0, 2.0], vec![8.0, 1.0]]));
}

#[test]
fn test_minor() {
    let m = mat(vec![
        vec![3.0, 5.0, 0.0],
        vec![2.0, -1.0, -7.0],
        vec![6.0, -1.0, 5.0],
    ]);

    assert_eq!(m.minor(1, 0), fx(25.0));
}

#[test]
fn test_cofactor() {
    let m = mat(vec![
        vec![3.0, 5.0, 0.0],
        vec![2.0, -1.0, -7.0],
        vec![6.0, -1.0, 5.0],
    ]);

    assert_eq!(m.minor(0, 0), fx(-12.0));
    assert_eq!(m.cofactor(0, 0), fx(-12.0));
    assert_eq!(m.minor(1, 0), fx(25.0));
    assert_eq!(m.cofactor(1, 0), fx(-25.0));
}

#[test]
fn test_determinant_4x4() {
    let m = mat(vec![
        vec![-2.0, -8.0, 3.0, 5.0],
        vec![-3.0, 1.0, 7.0, 3.0],
        vec![1.0, 2.0, -9.0, 6.0],
        vec![-6.0, 7.0, 7.0, -9.0],
    ]);

    assert_eq!(m.determinant(), fx(-4071.0));
}

#[test]
fn test_inverse() {
    let m = mat(vec![
        vec![-5.0, 2.0, 6.0, -8.0],
        vec![1.0, -5.0, 1.0, 8.0],
        vec![7.0, 7.0, -6.0, -7.0],
        vec![1.0, -3.0, 7.0, 4.0],
    ]);

    let expected = mat(vec![
        vec![0.21805, 0.45113, 0.24060, -0.04511],
        vec![-0.80827, -1.45677, -0.44361, 0.52068],
        vec![-0.07895, -0.22368, -0.05263, 0.19737],
        vec![-0.52256, -0.81391, -0.30075, 0.30639],
    ]);

    assert_eq!(m.inverse(), expected);
}

#[test]
fn test_inverse_1() {
    let m1 = mat(vec![
        vec![1.0, 2.0, 3.0, 4.0],
        vec![5.0, 6.0, 7.0, 8.0],
        vec![9.0, 8.0, 7.0, 6.0],
        vec![5.0, 4.0, 3.0, 2.0],
    ]);
    let m2 = mat(vec![
        vec![-2.0, 1.0, 2.0, 3.0],
        vec![3.0, 2.0, 1.0, -1.0],
        vec![4.0, 3.0, 6.0, 5.0],
        vec![1.0, 2.0, 7.0, 8.0],
    ]);

    let res = m1.mul(&m2);

    assert_eq!(res.mul(&m2.inverse()), m1);
}

#[test]
fn test_view_tranfromation_1() {
    let from = v3(0.0, 0.0, 0.0);
    let to = v3(0.0, 0.0, -1.0);
    let up = v3(0.0, 1.0, 0.0);
    let m = Mat::view_transformation(&from, &to, &up);

    assert_eq!(m, Mat::identity(4));
}

#[test]
fn test_view_tranfromation_2() {
    let from = v3(1.0, 3.0, 2.0);
    let to = v3(4.0, -2.0, 8.0);
    let up = v3(1.0, 1.0, 0.0);
    let m = Mat::view_transformation(&from, &to, &up);

    assert_eq!(
        m,
        mat(vec![
            vec![-0.50709, 0.50709, 0.67612, -2.36643],
            vec![0.76772, 0.60609, 0.12122, -2.82843],
            vec![-0.35857, 0.59761, -0.71714, 0.00000],
            vec![0.00000, 0.00000, 0.00000, 1.00000],
        ])
    );
}

#[test]
fn test_inverse_round_trip_point() {
    let m = mat(vec![
        vec![2.0, 0.0, 1.0, 3.0],
        vec![0.0, 1.0, 0.0, -2.0],
        vec![1.0, 0.0, 2.0, 0.5],
        vec![0.0, 0.0, 0.0, 1.0],
    ]);
    let p = v3(1.5, -2.0, 3.25);
    let moved = m.mul_point(&p);
    let back = m.inverse().mul_point(&moved);
    assert_eq!(back, p);
}

#[test]
fn test_inverse_of_degenerate_is_identity() {
    let m = mat(vec![
        vec![1.0, 2.0, 3.0, 4.0],
        vec![2.0, 4.0, 6.0, 8.0],
        vec![0.0, 0.0, 0.0, 0.0],
        vec![0.0, 0.0, 0.0, 1.0],
    ]);
    assert_eq!(m.determinant(), fx(0.0));
    assert_eq!(m.inverse(), Mat::identity(4));
}

#[test]
fn test_from_vec3_column() {
    let m = Mat::from_vec3(&v3(1.0, 2.0, 3.0), 4, fx(9.0));
    assert_eq!(m.rows, 4);
    assert_eq!(m.cols, 1);
    assert_eq!(m.tab[0][0], fx(1.0));
    assert_eq!(m.tab[1][0], fx(2.0));
    assert_eq!(m.tab[2][0], fx(3.0));
    assert_eq!(m.tab[3][0], fx(9.0));
}
