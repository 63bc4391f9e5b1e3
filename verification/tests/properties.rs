use raytrace::canvas::color::Color;
use raytrace::coord::Coord;
use raytrace::fx::Fx;
use raytrace::light::Light;
use raytrace::matrix::Matrix;
use raytrace::render::draw_clock;
use raytrace::render::draw_multiple_spheres;
use raytrace::render::outline_sphere;
use raytrace::sphere::Sphere;

fn fx(v: i64) -> Fx {
    Fx::from_int(v)
}

fn fxm(units: i64) -> Fx {
    Fx::from_units(units)
}

fn coord_near(a: Coord, b: Coord, tol: i64) -> bool {
    (a.get_x().to_units() - b.get_x().to_units()).abs() <= tol
        && (a.get_y().to_units() - b.get_y().to_units()).abs() <= tol
        && (a.get_z().to_units() - b.get_z().to_units()).abs() <= tol
        && (a.get_w().to_units() - b.get_w().to_units()).abs() <= tol
}

#[test]
fn test_inverse_round_trip() {
    // applying a transform and then its inverse brings a point back
    let m = Matrix::translation(fx(5), fx(-3), fx(2)).mul_matrix(&Matrix::scaling(
        fx(2),
        fx(3),
        fx(4),
    ));
    let inv = m.inverse().unwrap();
    let p = Coord::point(fx(1), fx(2), fx(3));
    let back = inv.mul_coord(m.mul_coord(p));
    assert!(coord_near(back, p, 60));

    let shear = Matrix::shearing(fx(1), fx(0), fx(0), fx(0), fx(0), fx(1));
    let inv = shear.inverse().unwrap();
    let back = inv.mul_coord(shear.mul_coord(p));
    assert!(coord_near(back, p, 60));
}

#[test]
fn test_translation_round_trip_exact() {
    // for a pure translation the round trip is exact to the last unit
    let m = Matrix::translation(fx(5), fx(-3), fx(2));
    let inv = m.inverse().unwrap();
    let p = Coord::point(fxm(1_234_567), fx(-7), fxm(42));
    let back = inv.mul_coord(m.mul_coord(p));
    assert_eq!(back.get_x().to_units(), 1_234_567);
    assert_eq!(back.get_y().to_units(), -7_000_000);
    assert_eq!(back.get_z().to_units(), 42);
    assert_eq!(back.get_w().to_units(), 1_000_000);
}

#[test]
fn test_normalized_magnitude_is_one() {
    // a normalized vector has length one, within tolerance
    let samples = vec![
        Coord::vec(fx(1), fx(2), fx(3)),
        Coord::vec(fx(-7), fx(11), fxm(500_000)),
        Coord::vec(fxm(10_000), fx(0), fx(0)),
        Coord::vec(fx(100), fx(-250), fx(875)),
    ];
    for v in samples {
        let m = v.normalized().magnitude();
        assert!((m.to_units() - 1_000_000).abs() <= 10, "magnitude {}", m.to_units());
    }
}

#[test]
fn test_outline_sphere_renders() {
    let light = Light::new(Coord::point(fx(10), fx(10), fx(-10)), Color::white());
    let canvas = outline_sphere(16, Sphere::default(), light);
    assert_eq!(canvas.get_width(), 16);
    assert_eq!(canvas.get_height(), 16);
    // the ray through the middle hits the sphere, a corner ray misses
    let center = canvas.get_pixel(8, 8);
    assert!(center.get_r().to_units() > 0);
    assert_eq!(canvas.get_pixel(0, 0), Color::black());
}

#[test]
fn test_draw_multiple_spheres_dimensions() {
    let spheres = vec![Sphere::default(), Sphere::default()];
    let canvas = draw_multiple_spheres(&spheres, 2, 8);
    assert_eq!(canvas.get_width(), 16);
    assert_eq!(canvas.get_height(), 8);
}

#[test]
fn test_draw_clock_marks_hours() {
    let canvas = draw_clock();
    assert_eq!(canvas.get_width(), 100);
    assert_eq!(canvas.get_height(), 100);
    // the three o'clock mark sits right of center, give or take the
    // truncation to whole pixels
    let hit = canvas.get_pixel(75, 50) == Color::white()
        || canvas.get_pixel(74, 50) == Color::white();
    assert!(hit);
}
