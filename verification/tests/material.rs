use raytrace::canvas::color::Color;
use raytrace::fx::Fx;
use raytrace::material::Material;

fn fx(v: i64) -> Fx {
    Fx::from_int(v)
}

fn fxm(units: i64) -> Fx {
    Fx::from_units(units)
}

#[test]
fn material_test_new() {
    let m = Material::new(fx(1), fx(0), fx(1), fx(27), Color::white());
    assert_eq!(m.get_ambient().to_units(), 1_000_000);
    assert_eq!(m.get_diffuse().to_units(), 0);
    assert_eq!(m.get_specular().to_units(), 1_000_000);
    assert_eq!(m.get_shininess().to_units(), 27_000_000);
    assert_eq!(m.get_color(), Color::white());
}

#[test]
fn material_test_getters() {
    let m = Material::default();
    assert_eq!(m.get_ambient().to_units(), 100_000);
    assert_eq!(m.get_diffuse().to_units(), 900_000);
    assert_eq!(m.get_specular().to_units(), 900_000);
    assert_eq!(m.get_shininess().to_units(), 200_000_000);
    assert_eq!(m.get_color(), Color::white());
}

#[test]
fn test_material_setters() {
    let mut m = Material::default();
    m.set_color(Color::red());
    assert_eq!(m.get_color(), Color::red());
    m.set_ambient(fxm(250_000));
    assert_eq!(m.get_ambient().to_units(), 250_000);
    m.set_diffuse(fxm(350_000));
    assert_eq!(m.get_diffuse().to_units(), 350_000);
    m.set_specular(fxm(450_000));
    assert_eq!(m.get_specular().to_units(), 450_000);
    m.set_shininess(fx(50));
    assert_eq!(m.get_shininess().to_units(), 50_000_000);
}
