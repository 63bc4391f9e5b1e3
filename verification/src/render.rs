//! Demonstration renders: a lit sphere drawn against a wall, grids of
//! spheres with varied material coefficients, and a clock face of
//! rotated points.  Everything here computes pixel buffers; writing them
//! to image files is left to the caller.

use vstd::prelude::*;

use crate::canvas::Canvas;
use crate::canvas::color::Color;
use crate::canvas::color::Rgba;
use crate::coord::Coord;
use crate::coord::Vec4;
use crate::coord::v4_add;
use crate::coord::v4_is_point;
use crate::coord::v4_mag;
use crate::coord::v4_neg;
use crate::coord::v4_norm;
use crate::coord::v4_scale;
use crate::coord::v4_sub;
use crate::fx::Fx;
use crate::fx::PI_UNITS;
use crate::fx::SCALE;
use crate::fx::clip;
use crate::fx::fx_add;
use crate::fx::fx_div;
use crate::fx::fx_mul;
use crate::fx::fx_neg;
use crate::fx::fx_sub;
use crate::fx::lemma_fx_div_zero;
use crate::fx::lemma_fx_mul_zero;
use crate::light::Light;
use crate::light::LightV;
use crate::light::lighting;
use crate::light::lighting_spec;
use crate::material::Material;
use crate::material::Phong;
use crate::material::default_phong;
use crate::matrix::Matrix;
use crate::ray::Ray;
use crate::ray::RayV;
use crate::ray::ray_norm_dir;
use crate::sphere::Sphere;
use crate::sphere::SphereV;
use crate::sphere::sphere_intersect_times;
use crate::sphere::sphere_normal;
use crate::sphere::sphere_wf;

verus! {

/// The eye the outline render looks from.
pub open spec fn outline_eye() -> Vec4 {
    Vec4 { x: 0, y: 0, z: -5 * (SCALE as int), w: SCALE as int }
}

/// The ray the outline render casts through one pixel: from the fixed
/// eye towards the pixel's spot on a wall of edge seven, ten units out,
/// the direction normalized unless its length rounds to zero.
pub open spec fn outline_ray(size: int, x: int, y: int) -> RayV {
    let half_wall = 7 * (SCALE as int) / 2;
    let pixel_size = fx_div(7 * (SCALE as int), clip(size * SCALE));
    let world_y = fx_sub(half_wall, fx_mul(pixel_size, clip(y * SCALE)));
    let world_x = fx_add(fx_neg(half_wall), fx_mul(pixel_size, clip(x * SCALE)));
    let pos = Vec4 { x: world_x, y: world_y, z: 10 * (SCALE as int), w: SCALE as int };
    let towards = v4_sub(pos, outline_eye());
    let direction = if v4_mag(towards) == 0 {
        towards
    } else {
        v4_norm(towards)
    };
    RayV { origin: outline_eye(), direction, norm_dir: ray_norm_dir(direction) }
}

/// The color the outline render gives one pixel: black on a miss, Phong
/// shading at the entry point on a hit.
pub open spec fn outline_pixel(orb: SphereV, light: LightV, size: int, x: int, y: int) -> Rgba {
    let r = outline_ray(size, x, y);
    match sphere_intersect_times(orb, r) {
        Option::None => Rgba { r: 0, g: 0, b: 0, a: 0 },
        Option::Some(t) => {
            let point = v4_add(r.origin, v4_scale(r.direction, t.0));
            let normal = sphere_normal(orb, point);
            let camv = v4_neg(r.direction);
            lighting_spec(orb.material, light, point, camv, normal)
        },
    }
}

/// One sphere drawn on a square canvas: a ray is cast from a fixed eye
/// through every pixel of a wall behind the sphere, and hits are shaded
/// with the given light against a black background.
#[verifier::rlimit(100)]
pub fn outline_sphere(resolution: usize, orb: Sphere, light: Light) -> (c: Canvas)
    requires
        1 <= resolution <= 4000,
        sphere_wf(orb@),
        v4_is_point(light@.pos),
    ensures
        c.wf(),
        c.spec_width() == resolution as int,
        c.spec_height() == resolution as int,
        forall|yy: int, xx: int|
            0 <= yy < resolution as int && 0 <= xx < resolution as int ==> #[trigger] c@[yy][xx]
                == outline_pixel(orb@, light@, resolution as int, xx, yy),
{
    let size: usize = resolution;
    let mut canvas: Canvas = Canvas::new(size, size);
    let nil: Fx = Fx::zero();
    let camera_pos: Coord = Coord::point(nil, nil, Fx::from_int(-5));
    let wall_z: Fx = Fx::from_int(10);
    let wall_size: Fx = Fx::from_int(7);
    let background_color: Color = Color::black();
    let half_wall: Fx = wall_size.divi(2);
    let pixel_size: Fx = wall_size.div(Fx::from_int(size as i64));
    let mut y: usize = 0;
    while y < size
        invariant
            y <= size,
            1 <= size <= 4000,
            sphere_wf(orb@),
            v4_is_point(light@.pos),
            v4_is_point(camera_pos@),
            camera_pos@ == outline_eye(),
            half_wall@ == 7 * (SCALE as int) / 2,
            pixel_size@ == fx_div(7 * (SCALE as int), clip(size * SCALE)),
            wall_z@ == 10 * (SCALE as int),
            background_color@ == (Rgba { r: 0, g: 0, b: 0, a: 0 }),
            canvas.wf(),
            canvas.spec_width() == size as int,
            canvas.spec_height() == size as int,
            forall|yy: int, xx: int|
                0 <= yy < y as int && 0 <= xx < size as int ==> #[trigger] canvas@[yy][xx]
                    == outline_pixel(orb@, light@, size as int, xx, yy),
        decreases size - y,
    {
        let world_y: Fx = half_wall.sub(pixel_size.mul(Fx::from_int(y as i64)));
        let mut x: usize = 0;
        while x < size
            invariant
                x <= size,
                y < size,
                1 <= size <= 4000,
                sphere_wf(orb@),
                v4_is_point(light@.pos),
                v4_is_point(camera_pos@),
                camera_pos@ == outline_eye(),
                half_wall@ == 7 * (SCALE as int) / 2,
                pixel_size@ == fx_div(7 * (SCALE as int), clip(size * SCALE)),
                wall_z@ == 10 * (SCALE as int),
                background_color@ == (Rgba { r: 0, g: 0, b: 0, a: 0 }),
                world_y@ == fx_sub(half_wall@, fx_mul(pixel_size@, clip(y * SCALE))),
                canvas.wf(),
                canvas.spec_width() == size as int,
                canvas.spec_height() == size as int,
                forall|yy: int, xx: int|
                    0 <= yy < y as int && 0 <= xx < size as int ==> #[trigger] canvas@[yy][xx]
                        == outline_pixel(orb@, light@, size as int, xx, yy),
                forall|xx: int|
                    0 <= xx < x as int ==> #[trigger] canvas@[y as int][xx] == outline_pixel(
                        orb@,
                        light@,
                        size as int,
                        xx,
                        y as int,
                    ),
            decreases size - x,
        {
            let world_x: Fx = half_wall.neg().add(pixel_size.mul(Fx::from_int(x as i64)));
            let pos: Coord = Coord::point(world_x, world_y, wall_z);
            let towards: Coord = pos.sub(camera_pos);
            let direction: Coord = if towards.magnitude().is_zero() {
                towards
            } else {
                proof {
                    lemma_fx_div_zero(v4_mag(towards@));
                }
                towards.normalized()
            };
            let ray: Ray = Ray::new(camera_pos, direction);
            proof {
                assert(ray@ == outline_ray(size as int, x as int, y as int));
            }
            match ray.intersect(&orb) {
                Some(pair) => {
                    let t: Fx = pair.0.get_time();
                    let point: Coord = ray.position(t);
                    let normal: Coord = orb.normal_at(point);
                    let cam_v: Coord = ray.get_direction().neg();
                    proof {
                        lemma_fx_mul_zero(t@);
                    }
                    let shade: Color = lighting(
                        pair.0.get_object().get_material(),
                        light,
                        point,
                        cam_v,
                        normal,
                    );
                    proof {
                        assert(shade@ == outline_pixel(orb@, light@, size as int, x as int, y as int));
                    }
                    canvas.set_pixel(x, y, shade);
                },
                None => {
                    canvas.set_pixel(x, y, background_color);
                },
            }
            x = x + 1;
        }
        y = y + 1;
    }
    canvas
}

/// The white light every grid cell is rendered under.
pub open spec fn grid_light() -> LightV {
    LightV {
        pos: Vec4 {
            x: 10 * (SCALE as int),
            y: 10 * (SCALE as int),
            z: -10 * (SCALE as int),
            w: SCALE as int,
        },
        intensity: Rgba { r: SCALE as int, g: SCALE as int, b: SCALE as int, a: 0 },
    }
}

/// Which sphere of the grid owns the canvas cell at row `rr`, column `cc`.
pub open spec fn cell_index(per_row: int, res: int, rr: int, cc: int) -> int {
    (rr / res) * per_row + cc / res
}

/// The color a grid canvas cell carries: the owning sphere's outline
/// render, sampled within its tile.
pub open spec fn cell_pixel(spheres: Seq<Sphere>, per_row: int, res: int, rr: int, cc: int) -> Rgba {
    outline_pixel(
        (spheres[cell_index(per_row, res, rr, cc)])@,
        grid_light(),
        res,
        cc % res,
        rr % res,
    )
}

/// Copy column `x` of a rendered tile into its place on the grid canvas:
/// cell (`row`, `col`) of the grid, one pixel per canvas row; rows past
/// the canvas edge are dropped.
#[verifier::rlimit(100)]
fn copy_tile_column(
    canvas: &mut Canvas,
    drawn: &Canvas,
    row: usize,
    col: usize,
    x: usize,
    resolution: usize,
    per_row: usize,
    total: Ghost<int>,
)
    requires
        1 <= per_row <= 64,
        1 <= resolution <= 4000,
        0 <= total@ <= 64,
        (row as int) <= 64,
        (col as int) < per_row as int,
        (x as int) < resolution as int,
        old(canvas).wf(),
        old(canvas).spec_width() == resolution * per_row,
        old(canvas).spec_height() == (total@ / per_row as int) * resolution,
        drawn.wf(),
        drawn.spec_width() == resolution as int,
        drawn.spec_height() == resolution as int,
    ensures
        final(canvas).wf(),
        final(canvas).spec_width() == old(canvas).spec_width(),
        final(canvas).spec_height() == old(canvas).spec_height(),
        forall|rr: int, cc: int|
            0 <= rr < old(canvas).spec_height() && 0 <= cc < old(canvas).spec_width()
                ==> #[trigger] final(canvas)@[rr][cc] == (
            if cc == col as int * resolution as int + x as int && row as int * resolution as int
                <= rr < row as int * resolution as int + resolution as int {
                drawn@[rr - row as int * resolution as int][x as int]
            } else {
                old(canvas)@[rr][cc]
            }),
{
    proof {
        vstd::arithmetic::mul::lemma_mul_upper_bound(col as int, 63, resolution as int, 4000);
        vstd::arithmetic::mul::lemma_mul_upper_bound(row as int, 64, resolution as int, 4000);
    }
    let ux: usize = x + col * resolution;
    proof {
        assert((ux as int) < resolution * per_row) by (nonlinear_arith)
            requires
                ux as int == x as int + col as int * (resolution as int),
                (x as int) < resolution as int,
                (col as int) < per_row as int,
                0 < resolution as int,
        {
        }
    }
    let mut yy: usize = 0;
    while yy < resolution
        invariant
            yy <= resolution,
            1 <= per_row <= 64,
            1 <= resolution <= 4000,
            0 <= total@ <= 64,
            (row as int) <= 64,
            (col as int) < per_row as int,
            (x as int) < resolution as int,
            ux as int == col as int * resolution as int + x as int,
            (ux as int) < resolution * per_row,
            drawn.wf(),
            drawn.spec_width() == resolution as int,
            drawn.spec_height() == resolution as int,
            canvas.wf(),
            canvas.spec_width() == resolution * per_row,
            canvas.spec_height() == (total@ / per_row as int) * resolution,
            forall|rr: int, cc: int|
                0 <= rr < canvas.spec_height() && 0 <= cc < canvas.spec_width()
                    ==> #[trigger] canvas@[rr][cc] == (
                if cc == ux as int && row as int * resolution as int <= rr < row as int
                    * resolution as int + yy as int {
                    drawn@[rr - row as int * resolution as int][x as int]
                } else {
                    old(canvas)@[rr][cc]
                }),
        decreases resolution - yy,
    {
        proof {
            vstd::arithmetic::mul::lemma_mul_upper_bound(row as int, 64, resolution as int, 4000);
        }
        let uy: usize = yy + row * resolution;
        proof {
            let res = resolution as int;
            let rows = total@ / (per_row as int);
            if (row as int) + 1 <= rows {
                assert((uy as int) < rows * (resolution as int)) by (nonlinear_arith)
                    requires
                        uy as int == yy as int + (row as int) * (resolution as int),
                        (yy as int) < resolution as int,
                        (row as int) + 1 <= rows,
                        0 < resolution as int,
                {
                }
            } else {
                assert((uy as int) >= rows * (resolution as int)) by (nonlinear_arith)
                    requires
                        uy as int == yy as int + (row as int) * (resolution as int),
                        0 <= yy as int,
                        rows <= row as int,
                        0 < resolution as int,
                        0 <= rows,
                {
                }
            }
        }
        canvas.set_pixel(ux, uy, drawn.get_pixel(x, yy));
        yy = yy + 1;
    }
}

/// Several spheres drawn side by side on one canvas, a fixed number per
/// row, each rendered alone and copied into its tile; spheres past the
/// last whole row fall off the canvas.
#[verifier::rlimit(100)]
pub fn draw_multiple_spheres(spheres: &Vec<Sphere>, per_row: usize, resolution: usize) -> (c:
    Canvas)
    requires
        1 <= per_row <= 64,
        1 <= resolution <= 4000,
        spheres@.len() <= 64,
        forall|i: int| 0 <= i < spheres@.len() ==> sphere_wf((#[trigger] spheres@[i])@),
    ensures
        c.wf(),
        c.spec_width() == resolution * per_row,
        c.spec_height() == (spheres@.len() as int / per_row as int) * resolution,
        forall|rr: int, cc: int|
            0 <= rr < c.spec_height() && 0 <= cc < c.spec_width() && cell_index(
                per_row as int,
                resolution as int,
                rr,
                cc,
            ) < spheres@.len() as int ==> #[trigger] c@[rr][cc] == cell_pixel(
                spheres@,
                per_row as int,
                resolution as int,
                rr,
                cc,
            ),
{
    proof {
        vstd::arithmetic::mul::lemma_mul_upper_bound(resolution as int, 4000, per_row as int, 64);
        vstd::arithmetic::div_mod::lemma_div_nonincreasing(spheres@.len() as int, per_row as int);
        vstd::arithmetic::mul::lemma_mul_upper_bound(
            spheres@.len() as int / per_row as int,
            64,
            resolution as int,
            4000,
        );
        vstd::arithmetic::div_mod::lemma_div_pos_is_pos(spheres@.len() as int, per_row as int);
    }
    let mut canvas: Canvas = Canvas::new(
        resolution * per_row,
        (spheres.len() / per_row) * resolution,
    );
    let ten: Fx = Fx::from_int(10);
    let light: Light = Light::new(Coord::point(ten, ten, ten.neg()), Color::white());
    let mut idx: usize = 0;
    while idx < spheres.len()
        invariant
            idx <= spheres@.len(),
            spheres@.len() <= 64,
            1 <= per_row <= 64,
            1 <= resolution <= 4000,
            forall|i: int| 0 <= i < spheres@.len() ==> sphere_wf((#[trigger] spheres@[i])@),
            light@ == grid_light(),
            canvas.wf(),
            canvas.spec_width() == resolution * per_row,
            canvas.spec_height() == (spheres@.len() as int / per_row as int) * resolution,
            forall|rr: int, cc: int|
                0 <= rr < canvas.spec_height() && 0 <= cc < canvas.spec_width() && cell_index(
                    per_row as int,
                    resolution as int,
                    rr,
                    cc,
                ) < idx as int ==> #[trigger] canvas@[rr][cc] == cell_pixel(
                    spheres@,
                    per_row as int,
                    resolution as int,
                    rr,
                    cc,
                ),
        decreases spheres@.len() - idx,
    {
        let row: usize = idx / per_row;
        let col: usize = idx % per_row;
        proof {
            vstd::arithmetic::div_mod::lemma_div_nonincreasing(idx as int, per_row as int);
            vstd::arithmetic::div_mod::lemma_div_pos_is_pos(idx as int, per_row as int);
            vstd::arithmetic::div_mod::lemma_mod_division_less_than_divisor(
                idx as int,
                per_row as int,
            );
            vstd::arithmetic::mul::lemma_mul_upper_bound(col as int, 63, resolution as int, 4000);
            vstd::arithmetic::mul::lemma_mul_upper_bound(row as int, 64, resolution as int, 4000);
            vstd::arithmetic::div_mod::lemma_fundamental_div_mod(idx as int, per_row as int);
            assert(idx as int == per_row as int * (row as int) + (col as int)) by (nonlinear_arith)
                requires
                    idx as int == (per_row as int) * (idx as int / per_row as int) + (idx as int
                        % per_row as int),
                    row as int == idx as int / per_row as int,
                    col as int == idx as int % per_row as int,
            {
            }
        }
        let drawn: Canvas = outline_sphere(resolution, spheres[idx].clone(), light);
        let mut x: usize = 0;
        while x < resolution
            invariant
                x <= resolution,
                idx < spheres@.len(),
                spheres@.len() <= 64,
                1 <= per_row <= 64,
                1 <= resolution <= 4000,
                row as int == idx as int / per_row as int,
                col as int == idx as int % per_row as int,
                idx as int == per_row as int * (row as int) + (col as int),
                (col as int) < per_row as int,
                (row as int) <= 64,
                col * resolution <= 252_000,
                row * resolution <= 256_000,
                drawn.wf(),
                drawn.spec_width() == resolution as int,
                drawn.spec_height() == resolution as int,
                forall|ry: int, rx: int|
                    0 <= ry < resolution as int && 0 <= rx < resolution as int
                        ==> #[trigger] drawn@[ry][rx] == outline_pixel(
                        (spheres@[idx as int])@,
                        grid_light(),
                        resolution as int,
                        rx,
                        ry,
                    ),
                canvas.wf(),
                canvas.spec_width() == resolution * per_row,
                canvas.spec_height() == (spheres@.len() as int / per_row as int) * resolution,
                forall|rr: int, cc: int|
                    0 <= rr < canvas.spec_height() && 0 <= cc < canvas.spec_width() && cell_index(
                        per_row as int,
                        resolution as int,
                        rr,
                        cc,
                    ) < idx as int ==> #[trigger] canvas@[rr][cc] == cell_pixel(
                        spheres@,
                        per_row as int,
                        resolution as int,
                        rr,
                        cc,
                    ),
                forall|ry: int, rx: int|
                    (row as int) + 1 <= spheres@.len() as int / per_row as int && 0 <= ry
                        < resolution as int && 0 <= rx < x as int
                        ==> #[trigger] canvas@[row as int * resolution as int + ry][col as int
                        * resolution as int + rx] == drawn@[ry][rx],
            decreases resolution - x,
        {
            copy_tile_column(&mut canvas, &drawn, row, col, x, resolution, per_row,
                Ghost(spheres@.len() as int));
            proof {
                let res = resolution as int;
                let per = per_row as int;
                let rows = spheres@.len() as int / per;
                let ux = col as int * res + x as int;
                assert forall|rr: int, cc: int|
                    0 <= rr < canvas.spec_height() && 0 <= cc < canvas.spec_width() && cell_index(
                        per,
                        res,
                        rr,
                        cc,
                    ) < idx as int implies #[trigger] canvas@[rr][cc] == cell_pixel(
                    spheres@,
                    per,
                    res,
                    rr,
                    cc,
                ) by {
                    if cc == ux && row as int * res <= rr < row as int * res + res {
                        vstd::arithmetic::div_mod::lemma_fundamental_div_mod_converse(
                            cc,
                            res,
                            col as int,
                            x as int,
                        );
                        vstd::arithmetic::div_mod::lemma_fundamental_div_mod_converse(
                            rr,
                            res,
                            row as int,
                            rr - row as int * res,
                        );
                        assert((rr / res) * per + cc / res == idx as int) by (nonlinear_arith)
                            requires
                                rr / res == row as int,
                                cc / res == col as int,
                                idx as int == per * (row as int) + (col as int),
                        {
                        }
                    }
                }
                assert forall|ry: int, rx: int|
                    (row as int) + 1 <= rows && 0 <= ry < res && 0 <= rx < x as int + 1 implies
                    #[trigger] canvas@[row as int * res + ry][col as int * res + rx] == drawn@[ry][
                    rx] by {
                    assert(row as int * res + ry < rows * res) by (nonlinear_arith)
                        requires
                            (row as int) + 1 <= rows,
                            0 <= ry < res,
                            0 < res,
                    {
                    }
                    assert(col as int * res + rx < res * per) by (nonlinear_arith)
                        requires
                            (col as int) < per,
                            0 <= rx < res,
                            0 < res,
                    {
                    }
                }
            }
            x = x + 1;
        }
        proof {
            assert forall|rr: int, cc: int|
                0 <= rr < canvas.spec_height() && 0 <= cc < canvas.spec_width() && cell_index(
                    per_row as int,
                    resolution as int,
                    rr,
                    cc,
                ) < idx as int + 1 implies #[trigger] canvas@[rr][cc] == cell_pixel(
                spheres@,
                per_row as int,
                resolution as int,
                rr,
                cc,
            ) by {
                let res = resolution as int;
                let per = per_row as int;
                if cell_index(per, res, rr, cc) == idx as int {
                    let rows = spheres@.len() as int / per;
                    vstd::arithmetic::div_mod::lemma_fundamental_div_mod(rr, res);
                    vstd::arithmetic::div_mod::lemma_fundamental_div_mod(cc, res);
                    vstd::arithmetic::div_mod::lemma_mod_division_less_than_divisor(rr, res);
                    vstd::arithmetic::div_mod::lemma_mod_division_less_than_divisor(cc, res);
                    vstd::arithmetic::div_mod::lemma_div_pos_is_pos(rr, res);
                    vstd::arithmetic::div_mod::lemma_div_pos_is_pos(cc, res);
                    assert(rr < res * rows) by (nonlinear_arith)
                        requires
                            rr < rows * (resolution as int),
                            res == resolution as int,
                    {
                    }
                    vstd::arithmetic::div_mod::lemma_multiply_divide_lt(rr, res, rows);
                    assert(cc < res * per) by (nonlinear_arith)
                        requires
                            cc < (resolution as int) * (per_row as int),
                            res == resolution as int,
                            per == per_row as int,
                    {
                    }
                    vstd::arithmetic::div_mod::lemma_multiply_divide_lt(cc, res, per);
                    vstd::arithmetic::div_mod::lemma_fundamental_div_mod_converse(
                        idx as int,
                        per,
                        rr / res,
                        cc / res,
                    );
                    assert(rr / res == row as int && cc / res == col as int);
                    assert(rr == row as int * res + rr % res) by (nonlinear_arith)
                        requires
                            rr == res * (rr / res) + rr % res,
                            rr / res == row as int,
                    {
                    }
                    assert(cc == col as int * res + cc % res) by (nonlinear_arith)
                        requires
                            cc == res * (cc / res) + cc % res,
                            cc / res == col as int,
                    {
                    }
                    assert(canvas@[row as int * res + rr % res][col as int * res + cc % res]
                        == drawn@[rr % res][cc % res]);
                }
            }
        }
        idx = idx + 1;
    }
    canvas
}

/// A clock face: twelve points swung about the center by one-hour steps
/// and marked white.
pub fn draw_clock() -> (c: Canvas)
    ensures
        c.wf(),
        c.spec_width() == 100,
        c.spec_height() == 100,
{
    let mut clockface: Canvas = Canvas::new(100, 100);
    let white: Color = Color::white();
    let step: Fx = Fx::from_units(PI_UNITS).divi(6);
    let nil: Fx = Fx::zero();
    let fifty: Fx = Fx::from_int(50);
    let quarter_turn_arm: Fx = Fx::from_int(25);
    let center: Matrix = Matrix::translation(fifty, fifty, nil);
    let arm: Matrix = Matrix::translation(quarter_turn_arm, nil, nil);
    let origin: Coord = Coord::point(nil, nil, nil);
    let mut spot: u64 = 0;
    while spot < 12
        invariant
            spot <= 12,
            clockface.wf(),
            clockface.spec_width() == 100,
            clockface.spec_height() == 100,
            crate::matrix::m_wf(center@),
            center@.len() == 4,
            crate::matrix::m_wf(arm@),
            arm@.len() == 4,
        decreases 12 - spot,
    {
        let angle: Fx = step.mul(Fx::from_int(spot as i64));
        let rot: Matrix = Matrix::rotate_z(angle);
        let placed: Matrix = center.mul_matrix(&rot).mul_matrix(&arm);
        let point: Coord = placed.mul_coord(origin);
        clockface.set_pixel(point.get_x().to_usize(), point.get_y().to_usize(), white);
        spot = spot + 1;
    }
    clockface
}

/// The six coefficient values the sphere studies sweep.
pub open spec fn sweep_val(i: int) -> int {
    if i == 0 {
        0
    } else if i == 1 {
        100_000
    } else if i == 2 {
        250_000
    } else if i == 3 {
        500_000
    } else if i == 4 {
        750_000
    } else {
        1_000_000
    }
}

/// The six shininess values the highlight study sweeps.
pub open spec fn shiny_val(i: int) -> int {
    if i == 0 {
        0
    } else if i == 1 {
        5_000_000
    } else if i == 2 {
        10_000_000
    } else if i == 3 {
        50_000_000
    } else if i == 4 {
        100_000_000
    } else {
        500_000_000
    }
}

/// Pure red.
pub open spec fn red_rgba() -> Rgba {
    Rgba { r: SCALE as int, g: 0, b: 0, a: 0 }
}

/// The sphere in slot `i` of study `which`: the unit sphere, painted
/// red, with one Phong coefficient swept — shininess and specular
/// together, then specular negated at shininess fifty, then diffuse,
/// negated diffuse, ambient, negated ambient.
pub open spec fn study_sphere(which: int, i: int) -> SphereV {
    SphereV {
        transformation: crate::matrix::m_id(4),
        material: if which == 0 {
            Phong {
                shininess: shiny_val(i),
                specular: sweep_val(i),
                color: red_rgba(),
                ..default_phong()
            }
        } else if which == 1 {
            Phong {
                shininess: 50_000_000,
                specular: crate::fx::fx_neg(sweep_val(i)),
                color: red_rgba(),
                ..default_phong()
            }
        } else if which == 2 {
            Phong { diffuse: sweep_val(i), color: red_rgba(), ..default_phong() }
        } else if which == 3 {
            Phong { diffuse: crate::fx::fx_neg(sweep_val(i)), color: red_rgba(), ..default_phong() }
        } else if which == 4 {
            Phong { ambient: sweep_val(i), color: red_rgba(), ..default_phong() }
        } else {
            Phong { ambient: crate::fx::fx_neg(sweep_val(i)), color: red_rgba(), ..default_phong() }
        },
    }
}

/// The red default-material sphere the three single studies render; the
/// later material edits of the driver are never applied back to it.
pub open spec fn study_orb() -> SphereV {
    SphereV {
        transformation: crate::matrix::m_id(4),
        material: Phong { color: red_rgba(), ..default_phong() },
    }
}

/// The blue light the three single studies render under.
pub open spec fn study_light() -> LightV {
    LightV {
        pos: Vec4 {
            x: 10 * (SCALE as int),
            y: 10 * (SCALE as int),
            z: -10 * (SCALE as int),
            w: SCALE as int,
        },
        intensity: Rgba { r: 0, g: 0, b: 0 + SCALE as int, a: 0 },
    }
}

/// A canvas holds study grid `which`: every pixel is the outline render
/// of the owning swept sphere, sampled within its tile.
pub open spec fn study_grid_ok(c: Canvas, which: int) -> bool {
    forall|rr: int, cc: int|
        0 <= rr < 1200 && 0 <= cc < 800 ==> #[trigger] c@[rr][cc] == outline_pixel(
            study_sphere(which, cell_index(2, 400, rr, cc)),
            grid_light(),
            400,
            cc % 400,
            rr % 400,
        )
}

/// A canvas holds one single study: every pixel is the outline render of
/// the red sphere under the blue light.
pub open spec fn study_single_ok(c: Canvas) -> bool {
    forall|rr: int, cc: int|
        0 <= rr < 400 && 0 <= cc < 400 ==> #[trigger] c@[rr][cc] == outline_pixel(
            study_orb(),
            study_light(),
            400,
            cc,
            rr,
        )
}

/// The six spheres of one study, their materials swept as the study asks.
fn study_orbs(which: usize, small_vals: &Vec<Fx>, shiny_vals: &Vec<Fx>) -> (v: Vec<Sphere>)
    requires
        which <= 5,
        small_vals@.len() == 6,
        shiny_vals@.len() == 6,
        forall|j: int| 0 <= j < 6 ==> (#[trigger] small_vals@[j])@ == sweep_val(j),
        forall|j: int| 0 <= j < 6 ==> (#[trigger] shiny_vals@[j])@ == shiny_val(j),
    ensures
        v@.len() == 6,
        forall|j: int|
            0 <= j < 6 ==> (#[trigger] v@[j])@ == study_sphere(which as int, j) && sphere_wf(
                v@[j]@,
            ),
{
    let mut out: Vec<Sphere> = Vec::new();
    let mut i: usize = 0;
    while i < 6
        invariant
            i <= 6,
            which <= 5,
            small_vals@.len() == 6,
            shiny_vals@.len() == 6,
            forall|j: int| 0 <= j < 6 ==> (#[trigger] small_vals@[j])@ == sweep_val(j),
            forall|j: int| 0 <= j < 6 ==> (#[trigger] shiny_vals@[j])@ == shiny_val(j),
            out@.len() == i as int,
            forall|j: int|
                0 <= j < i as int ==> (#[trigger] out@[j])@ == study_sphere(which as int, j)
                    && sphere_wf(out@[j]@),
        decreases 6 - i,
    {
        let mut mat: Material = Material::default();
        if which == 0 {
            mat.set_shininess(shiny_vals[i]);
            mat.set_specular(small_vals[i]);
        } else if which == 1 {
            mat.set_shininess(Fx::from_int(50));
            mat.set_specular(small_vals[i].neg());
        } else if which == 2 {
            mat.set_diffuse(small_vals[i]);
        } else if which == 3 {
            mat.set_diffuse(small_vals[i].neg());
        } else if which == 4 {
            mat.set_ambient(small_vals[i]);
        } else {
            mat.set_ambient(small_vals[i].neg());
        }
        mat.set_color(Color::red());
        let mut s: Sphere = Sphere::default();
        s.set_material(mat);
        proof {
            assert(s@ == study_sphere(which as int, i as int));
        }
        out.push(s);
        i = i + 1;
    }
    out
}

/// The demonstration set: six sphere grids that sweep one material
/// coefficient each, then three single renders of the same red sphere
/// under a blue light; nine canvases in all, every pixel pinned, for the
/// caller to write out.
pub fn draw_test_spheres() -> (out: Vec<Canvas>)
    ensures
        out@.len() == 9,
        forall|i: int| 0 <= i < out@.len() ==> (#[trigger] out@[i]).wf(),
        forall|i: int|
            0 <= i < 6 ==> (#[trigger] out@[i]).spec_width() == 800 && out@[i].spec_height()
                == 1200,
        forall|i: int|
            6 <= i < 9 ==> (#[trigger] out@[i]).spec_width() == 400 && out@[i].spec_height()
                == 400,
        forall|g: int| 0 <= g < 6 ==> study_grid_ok(#[trigger] out@[g], g),
        forall|g: int| 6 <= g < 9 ==> study_single_ok(#[trigger] out@[g]),
{
    let nil: Fx = Fx::zero();
    let mut small_vals: Vec<Fx> = Vec::new();
    small_vals.push(nil);
    small_vals.push(Fx::from_units(100_000));
    small_vals.push(Fx::from_units(250_000));
    small_vals.push(Fx::from_units(500_000));
    small_vals.push(Fx::from_units(750_000));
    small_vals.push(Fx::one());
    let mut shiny_vals: Vec<Fx> = Vec::new();
    shiny_vals.push(nil);
    shiny_vals.push(Fx::from_int(5));
    shiny_vals.push(Fx::from_int(10));
    shiny_vals.push(Fx::from_int(50));
    shiny_vals.push(Fx::from_int(100));
    shiny_vals.push(Fx::from_int(500));
    let mut out: Vec<Canvas> = Vec::new();
    let mut g: usize = 0;
    while g < 6
        invariant
            g <= 6,
            small_vals@.len() == 6,
            shiny_vals@.len() == 6,
            forall|j: int| 0 <= j < 6 ==> (#[trigger] small_vals@[j])@ == sweep_val(j),
            forall|j: int| 0 <= j < 6 ==> (#[trigger] shiny_vals@[j])@ == shiny_val(j),
            out@.len() == g as int,
            forall|gg: int|
                0 <= gg < g as int ==> (#[trigger] out@[gg]).wf() && out@[gg].spec_width() == 800
                    && out@[gg].spec_height() == 1200 && study_grid_ok(out@[gg], gg),
        decreases 6 - g,
    {
        let orbs: Vec<Sphere> = study_orbs(g, &small_vals, &shiny_vals);
        let canvas: Canvas = draw_multiple_spheres(&orbs, 2, 400);
        proof {
            assert forall|rr: int, cc: int| 0 <= rr < 1200 && 0 <= cc < 800 implies
                #[trigger] canvas@[rr][cc] == outline_pixel(
                study_sphere(g as int, cell_index(2, 400, rr, cc)),
                grid_light(),
                400,
                cc % 400,
                rr % 400,
            ) by {
                vstd::arithmetic::div_mod::lemma_div_pos_is_pos(rr, 400);
                vstd::arithmetic::div_mod::lemma_div_pos_is_pos(cc, 400);
                vstd::arithmetic::div_mod::lemma_multiply_divide_lt(rr, 400, 3);
                vstd::arithmetic::div_mod::lemma_multiply_divide_lt(cc, 400, 2);
                assert(cell_index(2, 400, rr, cc) < 6) by (nonlinear_arith)
                    requires
                        cell_index(2, 400, rr, cc) == (rr / 400) * 2 + cc / 400,
                        0 <= rr / 400 < 3,
                        0 <= cc / 400 < 2,
                {
                }
                assert(canvas@[rr][cc] == cell_pixel(orbs@, 2, 400, rr, cc));
            }
            assert(study_grid_ok(canvas, g as int));
        }
        out.push(canvas);
        g = g + 1;
    }

    let ten: Fx = Fx::from_int(10);
    let light: Light = Light::new(Coord::point(ten, ten, ten.neg()), Color::blue());
    let mut orb: Sphere = Sphere::default();
    let mut mat: Material = Material::default();
    mat.set_color(Color::red());
    orb.set_material(mat);
    proof {
        assert(orb@ == study_orb());
        assert(light@ == study_light());
    }
    let first: Canvas = outline_sphere(400, orb.clone(), light);
    proof {
        assert(study_single_ok(first));
    }
    out.push(first);

    mat.set_color(Color::purple());
    mat.set_diffuse(Fx::from_units(-500_000));
    let second: Canvas = outline_sphere(400, orb.clone(), light);
    proof {
        assert(study_single_ok(second));
    }
    out.push(second);

    mat.set_color(Color::red());
    mat.set_diffuse(Fx::from_units(500_000));
    mat.set_ambient(ten);
    let third: Canvas = outline_sphere(400, orb, light);
    proof {
        assert(study_single_ok(third));
    }
    out.push(third);
    out
}

} // verus!
