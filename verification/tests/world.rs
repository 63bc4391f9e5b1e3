use raytrace::canvas::color::Color;
use raytrace::coord::Coord;
use raytrace::fx::Fx;
use raytrace::light::Light;
use raytrace::material::Material;
use raytrace::matrix::Matrix;
use raytrace::ray::Ray;
use raytrace::ray::intersection::Intersection;
use raytrace::renderable::compare_renderables;
use raytrace::sphere::Sphere;
use raytrace::world::Comps;
use raytrace::world::World;

fn fx(v: i64) -> Fx {
    Fx::from_int(v)
}

fn fxm(units: i64) -> Fx {
    Fx::from_units(units)
}

fn fx_f32(v: f32) -> Fx {
    Fx::from_units((v * 1_000_000.0).round() as i64)
}

fn color_near(a: Color, b: Color, tol: i64) -> bool {
    (a.get_r().to_units() - b.get_r().to_units()).abs() <= tol
        && (a.get_g().to_units() - b.get_g().to_units()).abs() <= tol
        && (a.get_b().to_units() - b.get_b().to_units()).abs() <= tol
}

fn colors_clearly_apart(a: &Color, b: &Color) {
    assert!((a.get_r().to_units() - b.get_r().to_units()).abs() >= 1);
    assert!((a.get_g().to_units() - b.get_g().to_units()).abs() >= 1);
    assert!((a.get_b().to_units() - b.get_b().to_units()).abs() >= 1);
}

#[test]
fn world_test_new() {
    let w = World::new();
    assert_eq!(w.get_light().len(), 0);
    assert_eq!(w.get_object().len(), 0);
}

#[test]
fn world_test_getters() {
    let w = World::new();
    assert_eq!(w.get_light().len(), 0);
    assert_eq!(w.get_object().len(), 0);
}

#[test]
fn test_default() {
    let w = World::default();

    assert_eq!(w.get_light().len(), 1);
    let l = w.get_light()[0];
    assert_eq!(l.get_pos(), Coord::point(fx(-10), fx(10), fx(-10)));
    assert_eq!(l.get_intensity(), Color::white());

    let mut s1 = Sphere::default();
    let objs = w.get_object();
    let mat = Material::new(
        fxm(100_000),
        fxm(700_000),
        fxm(200_000),
        fx(200),
        Color::new(fxm(800_000), fx(1), fxm(600_000), fx(0)),
    );
    s1.set_material(mat);
    assert_eq!(objs.len(), 2);
    assert!(compare_renderables(&objs[0], &s1));

    let mut s2 = Sphere::default();
    s2.set_transformation(Matrix::scaling(fxm(500_000), fxm(500_000), fxm(500_000)));
    assert!(compare_renderables(&objs[1], &s2));
}

#[test]
fn test_get_intersections() {
    let w = World::default();
    let r = Ray::new(Coord::point(fx(0), fx(0), fx(-5)), Coord::vec(fx(0), fx(0), fx(1)));
    let xs = w.get_intersections(r);
    assert_eq!(xs.len(), 4);
    assert_eq!(xs[0].get_time().to_units(), 4_000_000);
    assert_eq!(xs[1].get_time().to_units(), 6_000_000);
    assert_eq!(xs[2].get_time().to_units(), 4_500_000);
    assert_eq!(xs[3].get_time().to_units(), 5_500_000);
}

#[test]
fn test_prepare_computations() {
    let ray = Ray::new(Coord::point(fx(0), fx(0), fx(-5)), Coord::vec(fx(0), fx(0), fx(1)));
    let shape = Sphere::default();
    let i = Intersection::new(fx(4), shape.clone());
    let comp = Comps::prepare_computations(i.clone(), ray);
    assert_eq!(comp.get_time().to_units(), i.get_time().to_units());
    assert_eq!(comp.get_object().get_transformation(), shape.get_transformation());
    assert_eq!(comp.get_object().get_type(), shape.get_type());
    assert_eq!(comp.get_object().get_pos(), shape.get_pos());
    assert_eq!(comp.get_point(), Coord::point(fx(0), fx(0), fx(-1)));
    assert_eq!(comp.get_eyev(), Coord::vec(fx(0), fx(0), fx(-1)));
    assert_eq!(comp.get_normalv(), Coord::vec(fx(0), fx(0), fx(-1)));
}

#[test]
fn test_prepare_computations_inside() {
    let ray = Ray::new(Coord::point(fx(0), fx(0), fx(0)), Coord::vec(fx(0), fx(0), fx(1)));
    let shape = Sphere::default();
    let i = Intersection::new(fx(1), shape);
    let comp = Comps::prepare_computations(i, ray);

    assert_eq!(comp.get_point(), Coord::point(fx(0), fx(0), fx(1)));
    assert_eq!(comp.get_eyev(), Coord::vec(fx(0), fx(0), fx(-1)));
    assert_eq!(comp.get_inside(), true);
    assert_eq!(comp.get_normalv(), Coord::vec(fx(0), fx(0), fx(-1)));
}

#[test]
fn test_shade_hit() {
    let w = World::default();
    let ray = Ray::new(Coord::point(fx(0), fx(0), fx(-5)), Coord::vec(fx(0), fx(0), fx(1)));
    let shape = w.get_object()[0].clone();
    let i = Intersection::new(fx(4), shape);
    let comps = Comps::prepare_computations(i, ray);
    let c = w.shade_hit(comps);
    assert!(color_near(
        c,
        Color::new(fx_f32(0.38066125), fx_f32(0.4758265), fx_f32(0.28549594), fx(0)),
        20
    ));

    let mut w = World::default();
    w.set_light(Light::new(Coord::point(fx(0), fxm(250_000), fx(0)), Color::white()));
    let ray = Ray::new(Coord::point(fx(0), fx(0), fx(0)), Coord::vec(fx(0), fx(0), fx(1)));
    let shape = w.get_object()[1].clone();
    let i = Intersection::new(fxm(500_000), shape);
    let comps = Comps::prepare_computations(i, ray);
    let c = w.shade_hit(comps);
    assert!(color_near(
        c,
        Color::new(fx_f32(0.9049845), fx_f32(0.9049845), fx_f32(0.9049845), fx(0)),
        20
    ));
}

#[test]
fn test_color_at() {
    // a ray that misses everything comes back black
    let w = World::default();
    let ray = Ray::new(Coord::point(fx(0), fx(0), fx(-5)), Coord::vec(fx(0), fx(1), fx(0)));
    let c = w.color_at(ray);
    assert_eq!(c, Color::black());

    // a ray that hits is shaded at the nearest surface
    let w = World::default();
    let ray = Ray::new(Coord::point(fx(0), fx(0), fx(-5)), Coord::vec(fx(0), fx(0), fx(1)));
    let c = w.color_at(ray);
    assert!(color_near(
        c,
        Color::new(fx_f32(0.38066125), fx_f32(0.4758265), fx_f32(0.28549594), fx(0)),
        20
    ));

    let w = World::default();
    let ray = Ray::new(Coord::point(fx(0), fx(0), fxm(750_000)), Coord::vec(fx(0), fx(0), fx(-1)));
    let c = w.color_at(ray);
    colors_clearly_apart(&c, &w.get_object()[0].get_material().get_color());
}

#[test]
fn test_color_at_picks_nearest() {
    // the shaded surface is the nearest one, not a farther intersection
    let mut w = World::new();
    w.add_light(Light::new(Coord::point(fx(0), fx(0), fx(-10)), Color::white()));
    let mut near_sphere = Sphere::default();
    let mut mat = Material::default();
    mat.set_color(Color::red());
    mat.set_ambient(fx(1));
    mat.set_diffuse(fx(0));
    mat.set_specular(fx(0));
    near_sphere.set_material(mat);
    let mut far_sphere = Sphere::default();
    let mut far_mat = Material::default();
    far_mat.set_color(Color::green());
    far_mat.set_ambient(fx(1));
    far_mat.set_diffuse(fx(0));
    far_mat.set_specular(fx(0));
    far_sphere.set_material(far_mat);
    far_sphere.set_transformation(Matrix::translation(fx(0), fx(0), fx(10)));
    w.add_object(far_sphere);
    w.add_object(near_sphere);
    let ray = Ray::new(Coord::point(fx(0), fx(0), fx(-5)), Coord::vec(fx(0), fx(0), fx(1)));
    let c = w.color_at(ray);
    // ambient-only red, not the farther green sphere
    assert!(color_near(c, Color::red(), 3));
}

#[test]
fn test_world_without_lights_is_dark() {
    // a hit in a lightless scene accumulates nothing
    let mut w = World::new();
    w.add_object(Sphere::default());
    let ray = Ray::new(Coord::point(fx(0), fx(0), fx(-5)), Coord::vec(fx(0), fx(0), fx(1)));
    let c = w.color_at(ray);
    assert_eq!(c, Color::black());
}
