use raytrace::canvas::Canvas;
use raytrace::canvas::color::Color;
use raytrace::fx::Fx;

fn fx(v: i64) -> Fx {
    Fx::from_int(v)
}

#[test]
fn canvas_test_create() {
    let c = Canvas::new(10, 20);
    assert_eq!(c.get_width(), 10);
    assert_eq!(c.get_height(), 20);
    let test_color = Color::new(fx(0), fx(0), fx(0), fx(0));
    for y in 0..20 {
        for x in 0..10 {
            assert_eq!(c.get_pixel(x, y), test_color);
        }
    }
}

#[test]
fn test_set_pixel() {
    let mut c = Canvas::new(10, 20);
    let default_color = Color::new(fx(0), fx(0), fx(0), fx(0));
    let new_color = Color::new(fx(1), fx(0), fx(0), fx(0));
    c.set_pixel(2, 3, new_color);
    for y in 0..20 {
        for x in 0..10 {
            if x == 2 && y == 3 {
                assert_eq!(c.get_pixel(x, y), new_color);
            } else {
                assert_eq!(c.get_pixel(x, y), default_color);
            }
        }
    }
}

#[test]
fn test_set_pixel_out_of_bounds() {
    // coordinates off the canvas are silently ignored
    let mut c = Canvas::new(4, 4);
    c.set_pixel(4, 0, Color::white());
    c.set_pixel(0, 4, Color::white());
    c.set_pixel(100, 100, Color::white());
    for y in 0..4 {
        for x in 0..4 {
            assert_eq!(c.get_pixel(x, y), Color::black());
        }
    }
}
