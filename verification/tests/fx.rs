use raytrace::fx::Fx;
use raytrace::fx::SCALE;

fn fx(v: i64) -> Fx {
    Fx::from_int(v)
}

fn fxm(units: i64) -> Fx {
    Fx::from_units(units)
}

#[test]
fn test_fx_arithmetic() {
    assert_eq!(fx(2).add(fx(3)).to_units(), 5 * SCALE);
    assert_eq!(fx(2).sub(fx(3)).to_units(), -SCALE);
    assert_eq!(fx(2).neg().to_units(), -2 * SCALE);
    assert_eq!(fx(2).mul(fx(3)).to_units(), 6 * SCALE);
    assert_eq!(fx(3).div(fx(2)).to_units(), 1_500_000);
    assert_eq!(fxm(100_000).mul(fxm(100_000)).to_units(), 10_000);
    assert_eq!(fx(1).divi(3).to_units(), 333_333);
}

#[test]
fn test_fx_rounds_to_nearest() {
    // two thirds rounds up where truncation would round down
    assert_eq!(fx(2).divi(3).to_units(), 666_667);
    assert_eq!(fx(-2).divi(3).to_units(), -666_667);
}

#[test]
fn test_fx_saturates() {
    let top = fxm(i64::MAX);
    assert_eq!(top.add(fx(1)).to_units(), i64::MAX);
    assert_eq!(top.mul(fx(2)).to_units(), i64::MAX);
    assert_eq!(top.neg().add(fx(-1)).to_units(), i64::MIN);
    let bottom = fxm(i64::MIN);
    assert_eq!(bottom.sub(fx(1)).to_units(), i64::MIN);
}

#[test]
fn test_fx_sqrt() {
    assert_eq!(fx(9).sqrt().to_units(), 3 * SCALE);
    assert_eq!(fx(2).sqrt().to_units(), 1_414_213);
    assert_eq!(fx(0).sqrt().to_units(), 0);
}

#[test]
fn test_fx_powi() {
    assert_eq!(fx(2).powi(10).to_units(), 1024 * SCALE);
    assert_eq!(fx(7).powi(0).to_units(), SCALE);
    assert_eq!(fx(1).powi(200).to_units(), SCALE);
    // a proper fraction raised far enough fades to almost nothing
    assert!(fxm(707_107).powi(200).to_units() <= 1);
}

#[test]
fn test_fx_trig() {
    let pi = 3.141_592_65_f64;
    let half_pi = Fx::from_units((pi / 2.0 * 1_000_000.0).round() as i64);
    assert!((half_pi.sin().to_units() - SCALE).abs() <= 5);
    assert!(half_pi.cos().to_units().abs() <= 5);
    assert!((fx(0).cos().to_units() - SCALE).abs() <= 5);
    assert_eq!(fx(0).sin().to_units(), 0);
    let quarter_pi = Fx::from_units((pi / 4.0 * 1_000_000.0).round() as i64);
    assert!((quarter_pi.sin().to_units() - 707_107).abs() <= 10);
    assert!((quarter_pi.cos().to_units() - 707_107).abs() <= 10);
    // range reduction brings large angles back
    let two_pi_and_quarter = Fx::from_units((2.25 * pi * 1_000_000.0).round() as i64);
    let quarter = Fx::from_units((0.25 * pi * 1_000_000.0).round() as i64);
    assert!((two_pi_and_quarter.sin().to_units() - quarter.sin().to_units()).abs() <= 10);
}

#[test]
fn test_fx_comparisons() {
    assert!(fx(1).lt(fx(2)));
    assert!(fx(2).le(fx(2)));
    assert!(!fx(3).le(fx(2)));
    assert!(fx(0).is_zero());
    assert!(fx(-1).is_neg());
    assert_eq!(fx(-2).abs().to_units(), 2 * SCALE);
    assert_eq!(fxm(2_500_000).to_usize(), 2);
    assert_eq!(fxm(-2_500_000).to_usize(), 0);
}
