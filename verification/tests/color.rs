use raytrace::canvas::color::Color;
use raytrace::fx::Fx;

fn fxm(units: i64) -> Fx {
    Fx::from_units(units)
}

fn color_near(a: Color, b: Color, tol: i64) -> bool {
    (a.get_r().to_units() - b.get_r().to_units()).abs() <= tol
        && (a.get_g().to_units() - b.get_g().to_units()).abs() <= tol
        && (a.get_b().to_units() - b.get_b().to_units()).abs() <= tol
        && (a.get_a().to_units() - b.get_a().to_units()).abs() <= tol
}

#[test]
fn color_test_create() {
    let c = Color::new(fxm(-500_000), fxm(400_000), fxm(1_700_000), fxm(0));
    assert_eq!(c.get_r().to_units(), -500_000);
    assert_eq!(c.get_g().to_units(), 400_000);
    assert_eq!(c.get_b().to_units(), 1_700_000);
    assert_eq!(c.get_a().to_units(), 0);
}

#[test]
fn color_test_add() {
    let c1 = Color::new(fxm(900_000), fxm(600_000), fxm(750_000), fxm(500_000));
    let c2 = Color::new(fxm(700_000), fxm(100_000), fxm(250_000), fxm(1_500_000));
    let n = c1.add(c2);
    assert!(color_near(
        n,
        Color::new(fxm(1_600_000), fxm(700_000), fxm(1_000_000), fxm(2_000_000)),
        2
    ));
}

#[test]
fn color_test_sub() {
    let c1 = Color::new(fxm(900_000), fxm(600_000), fxm(750_000), fxm(500_000));
    let c2 = Color::new(fxm(700_000), fxm(100_000), fxm(250_000), fxm(1_500_000));
    let n = c1.sub(c2);
    assert!(color_near(
        n,
        Color::new(fxm(200_000), fxm(500_000), fxm(500_000), fxm(-1_000_000)),
        2
    ));
}

#[test]
fn color_test_mul_scalar() {
    let c = Color::new(fxm(200_000), fxm(300_000), fxm(400_000), fxm(500_000));
    assert_eq!(
        c.scale(Fx::from_int(2)),
        Color::new(fxm(400_000), fxm(600_000), fxm(800_000), fxm(1_000_000))
    );
}

#[test]
fn test_mul_colors() {
    let c1 = Color::new(fxm(1_000_000), fxm(200_000), fxm(400_000), fxm(0));
    let c2 = Color::new(fxm(900_000), fxm(1_000_000), fxm(100_000), fxm(0));
    let n = c1.mul(c2);
    assert!(color_near(
        n,
        Color::new(fxm(900_000), fxm(200_000), fxm(40_000), fxm(0)),
        2
    ));
}

#[test]
fn test_inverse() {
    assert_eq!(Color::red().inverse(), Color::turquoise());
    assert_eq!(Color::white().inverse(), Color::black());
    assert_eq!(Color::gray().inverse(), Color::gray());
}

#[test]
fn test_clamped() {
    let c = Color::new(fxm(1_500_000), fxm(-300_000), fxm(600_000), fxm(2_000_000));
    let k = c.clamped();
    assert_eq!(k.get_r().to_units(), 1_000_000);
    assert_eq!(k.get_g().to_units(), 0);
    assert_eq!(k.get_b().to_units(), 600_000);
    assert_eq!(k.get_a().to_units(), 2_000_000);
}

#[test]
fn test_quantized() {
    // over one saturates, under zero floors, the rest scales linearly
    let c = Color::new(fxm(1_500_000), fxm(0), fxm(0), fxm(0));
    assert_eq!(c.quantized(255), [255, 0, 0]);
    let c = Color::new(fxm(0), fxm(500_000), fxm(0), fxm(0));
    assert_eq!(c.quantized(255), [0, 127, 0]);
    let c = Color::new(fxm(-500_000), fxm(0), fxm(1_000_000), fxm(1_000_000));
    assert_eq!(c.quantized(255), [0, 0, 255]);
    let c = Color::new(fxm(1_000_000), fxm(800_000), fxm(600_000), fxm(0));
    assert_eq!(c.quantized(255), [255, 204, 153]);
}
