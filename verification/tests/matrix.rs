use raytrace::coord::Coord;
use raytrace::fx::Fx;
use raytrace::matrix::Matrix;

fn fx(v: i64) -> Fx {
    Fx::from_int(v)
}

fn fx_f32(v: f32) -> Fx {
    Fx::from_units((v * 1_000_000.0).round() as i64)
}

fn mat(rows: Vec<Vec<f32>>) -> Matrix {
    let mut data: Vec<Vec<Fx>> = Vec::new();
    for row in rows {
        let mut cells: Vec<Fx> = Vec::new();
        for v in row {
            cells.push(fx_f32(v));
        }
        data.push(cells);
    }
    Matrix::new(data)
}

fn mat_near(a: &Matrix, b: &Matrix, tol: i64) -> bool {
    let da = a.get_data();
    let db = b.get_data();
    if da.len() != db.len() {
        return false;
    }
    for (ra, rb) in da.iter().zip(db.iter()) {
        if ra.len() != rb.len() {
            return false;
        }
        for (va, vb) in ra.iter().zip(rb.iter()) {
            if (va.to_units() - vb.to_units()).abs() > tol {
                return false;
            }
        }
    }
    true
}

fn coord_near(a: Coord, b: Coord, tol: i64) -> bool {
    (a.get_x().to_units() - b.get_x().to_units()).abs() <= tol
        && (a.get_y().to_units() - b.get_y().to_units()).abs() <= tol
        && (a.get_z().to_units() - b.get_z().to_units()).abs() <= tol
        && (a.get_w().to_units() - b.get_w().to_units()).abs() <= tol
}

#[test]
fn test_new_mat_4x4() {
    let m = mat(vec![
        vec![1.0, 2.0, 3.0, 4.0],
        vec![5.5, 6.5, 7.5, 8.5],
        vec![9.0, 10.0, 11.0, 12.0],
        vec![13.5, 14.5, 15.5, 16.5],
    ]);
    assert_eq!(m.at(0, 0).to_units(), 1_000_000);
    assert_eq!(m.at(0, 3).to_units(), 4_000_000);
    assert_eq!(m.at(1, 0).to_units(), 5_500_000);
    assert_eq!(m.at(1, 2).to_units(), 7_500_000);
    assert_eq!(m.at(2, 2).to_units(), 11_000_000);
    assert_eq!(m.at(3, 0).to_units(), 13_500_000);
    assert_eq!(m.at(3, 2).to_units(), 15_500_000);
}

#[test]
fn test_new_mat_3x3() {
    let m = mat(vec![
        vec![-3.0, 5.0, 0.0],
        vec![1.0, -2.0, -7.0],
        vec![0.0, 1.0, 1.0],
    ]);
    assert_eq!(m.at(0, 0).to_units(), -3_000_000);
    assert_eq!(m.at(1, 1).to_units(), -2_000_000);
    assert_eq!(m.at(2, 2).to_units(), 1_000_000);
}

#[test]
fn test_new_mat_2x2() {
    let m = mat(vec![vec![-3.0, 5.0], vec![1.0, -2.0]]);
    assert_eq!(m.at(0, 0).to_units(), -3_000_000);
    assert_eq!(m.at(0, 1).to_units(), 5_000_000);
    assert_eq!(m.at(1, 0).to_units(), 1_000_000);
    assert_eq!(m.at(1, 1).to_units(), -2_000_000);
}

#[test]
fn test_mat_equality() {
    let rows = vec![
        vec![1.0, 2.0, 3.0, 4.0],
        vec![5.0, 6.0, 7.0, 8.0],
        vec![9.0, 8.0, 7.0, 6.0],
        vec![5.0, 4.0, 3.0, 2.0],
    ];
    let m1 = mat(rows.clone());
    let m2 = mat(rows);
    assert!(m1 == m2);

    let m3 = mat(vec![
        vec![2.0, 3.0, 4.0, 5.0],
        vec![6.0, 7.0, 8.0, 9.0],
        vec![8.0, 7.0, 8.0, 5.0],
        vec![4.0, 3.0, 2.0, 1.0],
    ]);
    assert!(m1 != m3);
    assert!(m2 != m3);
}

#[test]
fn test_mat_mul() {
    let m1 = mat(vec![
        vec![1.0, 2.0, 3.0, 4.0],
        vec![5.0, 6.0, 7.0, 8.0],
        vec![9.0, 8.0, 7.0, 6.0],
        vec![5.0, 4.0, 3.0, 2.0],
    ]);
    let m2 = mat(vec![
        vec![-2.0, 1.0, 2.0, 3.0],
        vec![3.0, 2.0, 1.0, -1.0],
        vec![4.0, 3.0, 6.0, 5.0],
        vec![1.0, 2.0, 7.0, 8.0],
    ]);
    let m3 = m1.mul_matrix(&m2);
    let expected = mat(vec![
        vec![20.0, 22.0, 50.0, 48.0],
        vec![44.0, 54.0, 114.0, 108.0],
        vec![40.0, 58.0, 110.0, 102.0],
        vec![16.0, 26.0, 46.0, 42.0],
    ]);
    assert_eq!(m3, expected);
}

#[test]
fn test_mat_tuple_mul() {
    let m = mat(vec![
        vec![1.0, 2.0, 3.0, 4.0],
        vec![2.0, 4.0, 4.0, 2.0],
        vec![8.0, 6.0, 4.0, 1.0],
        vec![0.0, 0.0, 0.0, 1.0],
    ]);
    let tuple = vec![fx(1), fx(2), fx(3), fx(1)];
    let out = m.mul_vec(&tuple);
    assert_eq!(out.len(), 4);
    assert_eq!(out[0].to_units(), 18_000_000);
    assert_eq!(out[1].to_units(), 24_000_000);
    assert_eq!(out[2].to_units(), 33_000_000);
    assert_eq!(out[3].to_units(), 1_000_000);
}

#[test]
fn test_identity() {
    let expected = mat(vec![
        vec![1.0, 0.0, 0.0, 0.0],
        vec![0.0, 1.0, 0.0, 0.0],
        vec![0.0, 0.0, 1.0, 0.0],
        vec![0.0, 0.0, 0.0, 1.0],
    ]);
    assert_eq!(Matrix::identity(4), expected);

    let m = mat(vec![
        vec![0.0, 1.0, 2.0, 4.0],
        vec![1.0, 2.0, 4.0, 8.0],
        vec![2.0, 4.0, 8.0, 16.0],
        vec![4.0, 8.0, 16.0, 32.0],
    ]);
    assert_eq!(m.mul_matrix(&Matrix::identity(4)), m);
}

#[test]
fn test_transpose() {
    let m = mat(vec![
        vec![0.0, 9.0, 3.0, 0.0],
        vec![9.0, 8.0, 0.0, 8.0],
        vec![1.0, 8.0, 5.0, 3.0],
        vec![0.0, 0.0, 5.0, 8.0],
    ]);
    let expected = mat(vec![
        vec![0.0, 9.0, 1.0, 0.0],
        vec![9.0, 8.0, 8.0, 0.0],
        vec![3.0, 0.0, 5.0, 5.0],
        vec![0.0, 8.0, 3.0, 8.0],
    ]);
    assert_eq!(m.transpose(), expected);
}

#[test]
fn test_determinate2x2() {
    let m = mat(vec![vec![1.0, 5.0], vec![-3.0, 2.0]]);
    assert_eq!(m.determinate_2x2().to_units(), 17_000_000);
}

#[test]
fn test_sub_matrix() {
    let m = mat(vec![
        vec![1.0, 5.0, 0.0],
        vec![-3.0, 2.0, 7.0],
        vec![0.0, 6.0, -3.0],
    ]);
    let expected = mat(vec![vec![-3.0, 2.0], vec![0.0, 6.0]]);
    assert_eq!(m.sub_matrix(0, 2), expected);

    let m = mat(vec![
        vec![-6.0, 1.0, 1.0, 6.0],
        vec![-8.0, 5.0, 8.0, 6.0],
        vec![-1.0, 0.0, 8.0, 2.0],
        vec![-7.0, 1.0, -1.0, 1.0],
    ]);
    let expected = mat(vec![
        vec![-6.0, 1.0, 6.0],
        vec![-8.0, 8.0, 6.0],
        vec![-7.0, -1.0, 1.0],
    ]);
    assert_eq!(m.sub_matrix(2, 1), expected);
}

#[test]
fn test_minor() {
    let m = mat(vec![
        vec![3.0, 5.0, 0.0],
        vec![2.0, -1.0, -7.0],
        vec![6.0, -1.0, 5.0],
    ]);
    assert_eq!(m.minor(1, 0).unwrap().to_units(), 25_000_000);
}

#[test]
fn test_cofactor() {
    let m = mat(vec![
        vec![3.0, 5.0, 0.0],
        vec![2.0, -1.0, -7.0],
        vec![6.0, -1.0, 5.0],
    ]);
    assert_eq!(m.minor(0, 0).unwrap().to_units(), -12_000_000);
    assert_eq!(m.cofactor(0, 0).to_units(), -12_000_000);
    assert_eq!(m.minor(1, 0).unwrap().to_units(), 25_000_000);
    assert_eq!(m.cofactor(1, 0).to_units(), -25_000_000);
}

#[test]
fn test_determinate() {
    let m = mat(vec![
        vec![1.0, 2.0, 6.0],
        vec![-5.0, 8.0, -4.0],
        vec![2.0, 6.0, 4.0],
    ]);
    assert_eq!(m.cofactor(0, 0).to_units(), 56_000_000);
    assert_eq!(m.cofactor(0, 1).to_units(), 12_000_000);
    assert_eq!(m.cofactor(0, 2).to_units(), -46_000_000);
    assert_eq!(m.determinate().to_units(), -196_000_000);

    let m = mat(vec![
        vec![-2.0, -8.0, 3.0, 5.0],
        vec![-3.0, 1.0, 7.0, 3.0],
        vec![1.0, 2.0, -9.0, 6.0],
        vec![-6.0, 7.0, 7.0, -9.0],
    ]);
    assert_eq!(m.cofactor(0, 0).to_units(), 690_000_000);
    assert_eq!(m.cofactor(0, 1).to_units(), 447_000_000);
    assert_eq!(m.cofactor(0, 2).to_units(), 210_000_000);
    assert_eq!(m.cofactor(0, 3).to_units(), 51_000_000);
    assert_eq!(m.determinate().to_units(), -4_071_000_000);
}

#[test]
fn test_is_invertable() {
    let m = mat(vec![
        vec![6.0, 4.0, 4.0, 4.0],
        vec![5.0, 5.0, 7.0, 6.0],
        vec![4.0, -9.0, 3.0, -7.0],
        vec![9.0, 1.0, 7.0, -6.0],
    ]);
    assert_eq!(m.determinate().to_units(), -2_120_000_000);
    assert!(m.inverse().is_some());

    let m = mat(vec![
        vec![-4.0, 2.0, -2.0, -3.0],
        vec![9.0, 6.0, 2.0, 6.0],
        vec![0.0, -5.0, 1.0, -5.0],
        vec![0.0, 0.0, 0.0, 0.0],
    ]);
    assert_eq!(m.determinate().to_units(), 0);
    assert!(m.inverse().is_none());
}

#[test]
fn test_invert() {
    let m = mat(vec![
        vec![-5.0, 2.0, 6.0, -8.0],
        vec![1.0, -5.0, 1.0, 8.0],
        vec![7.0, 7.0, -6.0, -7.0],
        vec![1.0, -3.0, 7.0, 4.0],
    ]);
    let inverse = m.inverse().unwrap();
    assert_eq!(m.determinate().to_units(), 532_000_000);
    assert_eq!(m.cofactor(2, 3).to_units(), -160_000_000);
    assert!((inverse.at(3, 2).to_units() - fx_f32(-160.0 / 532.0).to_units()).abs() <= 2);
    assert_eq!(m.cofactor(3, 2).to_units(), 105_000_000);
    assert!((inverse.at(2, 3).to_units() - fx_f32(105.0 / 532.0).to_units()).abs() <= 2);

    let expected = mat(vec![
        vec![0.21804512, 0.45112783, 0.24060151, -0.04511278],
        vec![-0.80827070, -1.456767, -0.44360903, 0.5206767],
        vec![-0.078947365, -0.22368420, -0.05263158, 0.19736843],
        vec![-0.52255636, -0.81390977, -0.30075186, 0.30639097],
    ]);
    assert!(mat_near(&inverse, &expected, 3));
}

#[test]
fn test_invert_2() {
    let a = mat(vec![
        vec![3.0, -9.0, 7.0, 3.0],
        vec![3.0, -8.0, 2.0, -9.0],
        vec![-4.0, 4.0, 4.0, 1.0],
        vec![-6.0, 5.0, -1.0, 1.0],
    ]);
    let b = mat(vec![
        vec![8.0, 2.0, 2.0, 2.0],
        vec![3.0, -1.0, 7.0, 0.0],
        vec![7.0, -1.0, 5.0, 4.0],
        vec![6.0, -2.0, 0.0, 5.0],
    ]);
    let c = a.mul_matrix(&b);
    let back = c.mul_matrix(&b.inverse().unwrap());
    assert!(mat_near(&back, &a, 60));
}

#[test]
fn test_translation() {
    let v = Coord::point(fx(5), fx(-3), fx(2));
    let m = Matrix::translation_from_coord(&v);
    let expected = mat(vec![
        vec![1.0, 0.0, 0.0, 5.0],
        vec![0.0, 1.0, 0.0, -3.0],
        vec![0.0, 0.0, 1.0, 2.0],
        vec![0.0, 0.0, 0.0, 1.0],
    ]);
    assert_eq!(m, expected);

    let m = Matrix::translation(fx(5), fx(-3), fx(2));
    assert_eq!(m, expected);

    let m = Matrix::translation_from_coord(&Coord::vec(fx(5), fx(-3), fx(2)));
    let p = Coord::point(fx(-3), fx(4), fx(5));
    assert_eq!(m.mul_coord(p), Coord::point(fx(2), fx(1), fx(7)));

    let m = Matrix::translation(fx(5), fx(-3), fx(2));
    let inv = m.inverse().expect("inverse was none");
    let p = Coord::point(fx(-3), fx(4), fx(5));
    assert_eq!(inv.mul_coord(p), Coord::point(fx(-8), fx(7), fx(3)));
}

#[test]
fn test_scaling() {
    let m = Matrix::scaling_from_coord(Coord::point(fx(2), fx(3), fx(4)));
    let expected = mat(vec![
        vec![2.0, 0.0, 0.0, 0.0],
        vec![0.0, 3.0, 0.0, 0.0],
        vec![0.0, 0.0, 4.0, 0.0],
        vec![0.0, 0.0, 0.0, 1.0],
    ]);
    assert_eq!(m, expected);

    // scaling a point
    let m = Matrix::scaling_from_coord(Coord::vec(fx(2), fx(3), fx(4)));
    let p = Coord::point(fx(-4), fx(6), fx(8));
    assert_eq!(m.mul_coord(p), Coord::point(fx(-8), fx(18), fx(32)));

    // scaling a vector
    let m = Matrix::scaling(fx(2), fx(3), fx(4));
    let v = Coord::vec(fx(-4), fx(6), fx(8));
    assert_eq!(m.mul_coord(v), Coord::vec(fx(-8), fx(18), fx(32)));

    // scaling by the inverse
    let m = Matrix::scaling(fx(2), fx(3), fx(4));
    let inv = m.inverse().expect("inverse was none");
    let v = Coord::vec(fx(-4), fx(6), fx(8));
    assert!(coord_near(inv.mul_coord(v), Coord::vec(fx(-2), fx(2), fx(2)), 30));

    // reflection is scaling by a negative value
    let m = Matrix::scaling(fx(-1), fx(1), fx(1));
    let p = Coord::point(fx(2), fx(3), fx(4));
    assert_eq!(m.mul_coord(p), Coord::point(fx(-2), fx(3), fx(4)));
}

#[test]
fn test_rotation_x() {
    let p = Coord::point(fx(0), fx(1), fx(0));
    let half_quarter = Matrix::rotate_x(fx_f32(std::f32::consts::PI / 4.0));
    let full_quarter = Matrix::rotate_x(fx_f32(std::f32::consts::PI / 2.0));
    let half_root = fx_f32(2.0_f32.sqrt() / 2.0);
    assert!(coord_near(
        half_quarter.mul_coord(p),
        Coord::point(fx(0), half_root, half_root),
        20
    ));
    assert!(coord_near(full_quarter.mul_coord(p), Coord::point(fx(0), fx(0), fx(1)), 20));

    let inv = half_quarter.inverse().expect("rotation inverse was none");
    assert!(coord_near(
        inv.mul_coord(p),
        Coord::point(fx(0), half_root, half_root.neg()),
        60
    ));
}

#[test]
fn test_rotation_y() {
    let p = Coord::point(fx(0), fx(0), fx(1));
    let half_quarter = Matrix::rotate_y(fx_f32(std::f32::consts::PI / 4.0));
    let full_quarter = Matrix::rotate_y(fx_f32(std::f32::consts::PI / 2.0));
    let half_root = fx_f32(2.0_f32.sqrt() / 2.0);
    assert!(coord_near(
        half_quarter.mul_coord(p),
        Coord::point(half_root, fx(0), half_root),
        20
    ));
    assert!(coord_near(full_quarter.mul_coord(p), Coord::point(fx(1), fx(0), fx(0)), 20));
}

#[test]
fn test_rotation_z() {
    let p = Coord::point(fx(0), fx(1), fx(0));
    let half_quarter = Matrix::rotate_z(fx_f32(std::f32::consts::PI / 4.0));
    let full_quarter = Matrix::rotate_z(fx_f32(std::f32::consts::PI / 2.0));
    let half_root = fx_f32(2.0_f32.sqrt() / 2.0);
    assert!(coord_near(
        half_quarter.mul_coord(p),
        Coord::point(half_root.neg(), half_root, fx(0)),
        20
    ));
    assert!(coord_near(full_quarter.mul_coord(p), Coord::point(fx(-1), fx(0), fx(0)), 20));
}

#[test]
fn test_shearing() {
    let p = Coord::point(fx(2), fx(3), fx(4));
    let m = Matrix::shearing(fx(1), fx(0), fx(0), fx(0), fx(0), fx(0));
    assert_eq!(m.mul_coord(p), Coord::point(fx(5), fx(3), fx(4)));

    let m = Matrix::shearing(fx(0), fx(1), fx(0), fx(0), fx(0), fx(0));
    assert_eq!(m.mul_coord(p), Coord::point(fx(6), fx(3), fx(4)));

    let m = Matrix::shearing(fx(0), fx(0), fx(1), fx(0), fx(0), fx(0));
    assert_eq!(m.mul_coord(p), Coord::point(fx(2), fx(5), fx(4)));

    let m = Matrix::shearing(fx(0), fx(0), fx(0), fx(1), fx(0), fx(0));
    assert_eq!(m.mul_coord(p), Coord::point(fx(2), fx(7), fx(4)));

    let m = Matrix::shearing(fx(0), fx(0), fx(0), fx(0), fx(1), fx(0));
    assert_eq!(m.mul_coord(p), Coord::point(fx(2), fx(3), fx(6)));

    let m = Matrix::shearing(fx(0), fx(0), fx(0), fx(0), fx(0), fx(1));
    assert_eq!(m.mul_coord(p), Coord::point(fx(2), fx(3), fx(7)));
}

#[test]
fn test_sequence() {
    let p = Coord::point(fx(1), fx(0), fx(1));
    let a = Matrix::rotate_x(fx_f32(std::f32::consts::PI / 2.0));
    let b = Matrix::scaling(fx(5), fx(5), fx(5));
    let c = Matrix::translation(fx(10), fx(5), fx(7));

    let p2 = a.mul_coord(p);
    assert!(coord_near(p2, Coord::point(fx(1), fx(-1), fx(0)), 20));

    let p3 = b.mul_coord(p2);
    assert!(coord_near(p3, Coord::point(fx(5), fx(-5), fx(0)), 60));

    let p4 = c.mul_coord(p3);
    assert!(coord_near(p4, Coord::point(fx(15), fx(0), fx(7)), 60));

    let transform = c.mul_matrix(&b).mul_matrix(&a);
    assert!(coord_near(transform.mul_coord(p), Coord::point(fx(15), fx(0), fx(7)), 60));
}

#[test]
fn test_from_vec() {
    let v = Coord::vec(fx(4), fx(2), fx(3));
    let m = Matrix::from_vec(&v);
    let l = v.get_as_list();
    for i in 0..3 {
        assert_eq!(m.at(i, i).to_units(), l[i].to_units());
    }
}

#[test]
fn test_to_vec() {
    let v = Coord::vec(fx(1), fx(2), fx(3));
    let m = Matrix::from_vec(&v);
    assert_eq!(m.to_vec(), v);

    let m2 = m.mul_matrix(&Matrix::scaling(fx(2), fx(3), fx(4)));
    assert_eq!(m2.to_vec(), Coord::vec(fx(2), fx(6), fx(12)));

    let m = Matrix::from_vec(&v);
    let m3 = m.mul_matrix(&Matrix::translation(fx(1), fx(2), fx(3)));
    assert_eq!(m3.to_vec(), v);
}

#[test]
fn test_to_point() {
    let p = Coord::point(fx(1), fx(2), fx(3));
    let m = Matrix::from_point(&p);
    assert_eq!(m.to_point(), p);

    let t = m.mul_matrix(&Matrix::scaling(fx(2), fx(3), fx(4)));
    assert_eq!(t.to_point(), Coord::point(fx(2), fx(6), fx(12)));

    let t = m.mul_matrix(&Matrix::translation(fx(1), fx(2), fx(3)));
    assert_eq!(t.to_point(), Coord::point(fx(2), fx(4), fx(6)));
}

#[test]
fn test_view_transformation() {
    let from = Coord::point(fx(0), fx(0), fx(0));
    let to = Coord::point(fx(0), fx(0), fx(-1));
    let up = Coord::vec(fx(0), fx(1), fx(0));
    let t = Matrix::view_transformation(from, to, up);
    assert!(mat_near(&t, &Matrix::identity(4), 2));

    let to = Coord::point(fx(0), fx(0), fx(1));
    let t = Matrix::view_transformation(from, to, up);
    assert!(mat_near(&t, &Matrix::scaling(fx(-1), fx(1), fx(-1)), 2));

    let from = Coord::point(fx(0), fx(0), fx(8));
    let to = Coord::point(fx(0), fx(0), fx(0));
    let t = Matrix::view_transformation(from, to, up);
    assert!(mat_near(&t, &Matrix::translation(fx(0), fx(0), fx(-8)), 20));

    let from = Coord::point(fx(1), fx(3), fx(2));
    let to = Coord::point(fx(4), fx(-2), fx(8));
    let up = Coord::vec(fx(1), fx(1), fx(0));
    let t = Matrix::view_transformation(from, to, up);
    let expected = mat(vec![
        vec![-0.50709254, 0.50709254, 0.6761234, -2.366432],
        vec![0.76771593, 0.6060915, 0.12121832, -2.828427],
        vec![-0.35856858, 0.59761435, -0.71713716, 0.0],
        vec![0.0, 0.0, 0.0, 1.0],
    ]);
    assert!(mat_near(&t, &expected, 30));
}

#[test]
fn test_eq_cells() {
    let a = Matrix::translation(fx(1), fx(2), fx(3));
    let b = Matrix::translation(fx(1), fx(2), fx(3));
    let c = Matrix::translation(fx(1), fx(2), fx(4));
    assert!(a.eq_cells(&b));
    assert!(!a.eq_cells(&c));
    assert!(!a.eq_cells(&Matrix::identity(3)));
}

#[test]
fn test_identity_sizes() {
    for n in 2..=4usize {
        let id = Matrix::identity(n);
        assert_eq!(id.size(), n);
        let d = id.get_data();
        for i in 0..n {
            for j in 0..n {
                let want = if i == j { 1_000_000 } else { 0 };
                assert_eq!(d[i][j].to_units(), want);
            }
        }
    }
}
