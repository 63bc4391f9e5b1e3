use raytrace::canvas::color::Color;
use raytrace::coord::Coord;
use raytrace::fx::Fx;
use raytrace::light::Light;
use raytrace::light::lighting;
use raytrace::material::Material;

fn fx(v: i64) -> Fx {
    Fx::from_int(v)
}

fn fx_f32(v: f32) -> Fx {
    Fx::from_units((v * 1_000_000.0).round() as i64)
}

fn color_near(a: Color, b: Color, tol: i64) -> bool {
    (a.get_r().to_units() - b.get_r().to_units()).abs() <= tol
        && (a.get_g().to_units() - b.get_g().to_units()).abs() <= tol
        && (a.get_b().to_units() - b.get_b().to_units()).abs() <= tol
        && (a.get_a().to_units() - b.get_a().to_units()).abs() <= tol
}

#[test]
fn light_test_new() {
    let l = Light::default();
    assert_eq!(l.get_pos(), Coord::point(fx(0), fx(0), fx(0)));
    assert_eq!(l.get_intensity(), Color::white());

    let l = Light::new(Coord::point(fx(1), fx(2), fx(3)), Color::red());
    assert_eq!(l.get_pos(), Coord::point(fx(1), fx(2), fx(3)));
    assert_eq!(l.get_intensity(), Color::red());
}

#[test]
fn test_get_pos() {
    let l = Light::default();
    assert_eq!(l.get_pos(), Coord::point(fx(0), fx(0), fx(0)));

    let l = Light::new(Coord::point(fx(1), fx(2), fx(3)), Color::white());
    assert_eq!(l.get_pos(), Coord::point(fx(1), fx(2), fx(3)));
}

#[test]
fn test_get_intensity() {
    let l = Light::default();
    assert_eq!(l.get_intensity(), Color::white());

    let l = Light::new(Coord::point(fx(0), fx(0), fx(0)), Color::green());
    assert_eq!(l.get_intensity(), Color::green());
}

#[test]
fn test_light_setters() {
    let mut l = Light::default();
    l.set_intensity(Color::blue());
    assert_eq!(l.get_intensity(), Color::blue());
    l.set_pos(Coord::point(fx(4), fx(5), fx(6)));
    assert_eq!(l.get_pos(), Coord::point(fx(4), fx(5), fx(6)));
}

#[test]
fn test_lighting() {
    let material = Material::default();
    let pos = Coord::point(fx(0), fx(0), fx(0));
    let half_root = fx_f32(2.0_f32.sqrt() / 2.0);

    // eye straight on: full ambient, diffuse and specular
    let camv = Coord::vec(fx(0), fx(0), fx(-1));
    let normal = Coord::vec(fx(0), fx(0), fx(-1));
    let light = Light::new(Coord::point(fx(0), fx(0), fx(-10)), Color::white());
    let r = lighting(material, light, pos, camv, normal);
    assert!(color_near(r, Color::new(fx_f32(1.9), fx_f32(1.9), fx_f32(1.9), fx(0)), 3));

    // eye at forty-five degrees: the highlight fades out
    let camv = Coord::vec(fx(0), half_root, half_root.neg());
    let r = lighting(material, light, pos, camv, normal);
    assert!(color_near(r, Color::new(fx(1), fx(1), fx(1), fx(0)), 3));

    // light at forty-five degrees: the diffuse term shrinks
    let camv = Coord::vec(fx(0), fx(0), fx(-1));
    let light = Light::new(Coord::point(fx(0), fx(10), fx(-10)), Color::white());
    let r = lighting(material, light, pos, camv, normal);
    assert!(color_near(
        r,
        Color::new(fx_f32(0.7363961), fx_f32(0.7363961), fx_f32(0.7363961), fx(0)),
        3
    ));

    // eye in the reflection path: the highlight returns
    let camv = Coord::vec(fx(0), half_root.neg(), half_root.neg());
    let r = lighting(material, light, pos, camv, normal);
    assert!(color_near(
        r,
        Color::new(fx_f32(1.6363853), fx_f32(1.6363853), fx_f32(1.6363853), fx(0)),
        400
    ));

    // light behind the surface: ambient alone remains
    let light = Light::new(Coord::point(fx(0), fx(0), fx(10)), Color::white());
    let r = lighting(material, light, pos, camv, normal);
    assert!(color_near(r, Color::new(fx_f32(0.1), fx_f32(0.1), fx_f32(0.1), fx(0)), 3));
}
