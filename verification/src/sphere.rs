//! The one primitive: a unit sphere in object space, placed in the world
//! by a transform and shaded by a material.

use vstd::prelude::*;

use crate::coord::Coord;
use crate::coord::Vec4;
use crate::coord::v4_dot;
use crate::coord::v4_is_point;
use crate::coord::v4_is_vec;
use crate::coord::v4_mag;
use crate::coord::v4_norm;
use crate::coord::v4_sub;
use crate::fx::Fx;
use crate::fx::SCALE;
use crate::fx::fx_add;
use crate::fx::fx_div;
use crate::fx::fx_mul;
use crate::fx::fx_neg;
use crate::fx::fx_sqrt;
use crate::fx::fx_sub;
use crate::fx::lemma_fx_div_zero;
use crate::fx::lemma_fx_mul_zero;
use crate::material::Material;
use crate::material::Phong;
use crate::material::default_phong;
use crate::matrix::Grid;
use crate::matrix::Matrix;
use crate::matrix::m_apply;
use crate::matrix::m_det;
use crate::matrix::m_id;
use crate::matrix::m_inv;
use crate::matrix::m_mul;
use crate::matrix::m_translation;
use crate::matrix::m_transpose;
use crate::matrix::m_wf;
use crate::ray::Ray;
use crate::ray::RayV;
use crate::ray::intersection::Intersection;
use crate::renderable::RenderableType;

verus! {

/// Mathematical image of a sphere: its transform and its material.
pub ghost struct SphereV {
    pub transformation: Grid,
    pub material: Phong,
}

/// A sphere carries a four-by-four transform.
pub open spec fn sphere_wf(s: SphereV) -> bool {
    &&& m_wf(s.transformation)
    &&& s.transformation.len() == 4
}

/// The roots of the quadratic, smallest first: none when the discriminant
/// is negative or the leading coefficient vanishes; the double root
/// `-b / 2a` when the discriminant is zero.
#[verifier::opaque]
pub open spec fn quad_roots(a: int, b: int, c: int) -> Option<(int, int)> {
    let disc = fx_sub(fx_mul(b, b), fx_mul(fx_mul(4 * SCALE, c), a));
    if disc < 0 {
        Option::None
    } else if disc == 0 {
        if a == 0 {
            Option::None
        } else {
            let t = fx_div(fx_mul(-(SCALE as int) / 2, b), a);
            Option::Some((t, t))
        }
    } else {
        let two_a = fx_mul(2 * SCALE, a);
        if two_a == 0 {
            Option::None
        } else {
            let val = fx_div(fx_add(fx_neg(b), fx_sqrt(disc)), two_a);
            let other = fx_sub(fx_neg(val), fx_div(b, a));
            if val > other {
                Option::Some((other, val))
            } else {
                Option::Some((val, other))
            }
        }
    }
}

/// The times at which a ray meets the unit sphere at the origin: the
/// quadratic in the ray's own coordinates.  A ray whose direction is a
/// point is rejected as degenerate.
#[verifier::opaque]
pub open spec fn analytical_roots(r: RayV) -> Option<(int, int)> {
    let l = Vec4 { x: r.origin.x, y: r.origin.y, z: r.origin.z, w: 0 };
    if v4_is_point(r.direction) {
        Option::None
    } else {
        let a = v4_dot(r.direction, r.direction);
        let b = fx_mul(2 * SCALE, v4_dot(r.direction, l));
        let c = fx_sub(v4_dot(l, l), SCALE as int);
        quad_roots(a, b, c)
    }
}

/// The times at which a world-space ray meets the sphere: none when the
/// sphere's transform has no inverse; otherwise the ray is carried into
/// object space and the unit-sphere quadratic decides.
#[verifier::opaque]
pub open spec fn sphere_intersect_times(s: SphereV, r: RayV) -> Option<(int, int)> {
    if m_det(s.transformation) == 0 {
        Option::None
    } else {
        let inv = m_inv(s.transformation);
        analytical_roots(
            RayV {
                origin: m_apply(inv, r.origin),
                direction: m_apply(inv, r.direction),
                norm_dir: crate::ray::ray_norm_dir(m_apply(inv, r.direction)),
            },
        )
    }
}

/// The surface normal in world space: the point carried into object
/// space, the object-space normal read off it, carried back through the
/// transposed inverse, flattened to a vector and normalized.  The zero
/// tuple stands in when the transform has no inverse or the normal has no
/// length.
#[verifier::opaque]
pub open spec fn sphere_normal(s: SphereV, pos: Vec4) -> Vec4 {
    if m_det(s.transformation) == 0 {
        Vec4 { x: 0, y: 0, z: 0, w: 0 }
    } else {
        let inv = m_inv(s.transformation);
        let obj_pos = m_apply(inv, pos);
        let obj_normal = v4_sub(obj_pos, Vec4 { x: 0, y: 0, z: 0, w: SCALE as int });
        let world = m_apply(m_transpose(inv), obj_normal);
        let flat = Vec4 { x: world.x, y: world.y, z: world.z, w: 0 };
        if v4_mag(flat) == 0 {
            Vec4 { x: 0, y: 0, z: 0, w: 0 }
        } else {
            v4_norm(flat)
        }
    }
}

/// The smaller then larger real roots of the quadratic with the given
/// fixed-point coefficients, by the closed formula.
pub fn quadratic_formula_helper(a: Fx, b: Fx, c: Fx) -> (r: Option<(Fx, Fx)>)
    ensures
        (r is None) == (quad_roots(a@, b@, c@) is None),
        r matches Some(p) ==> quad_roots(a@, b@, c@) == Some((p.0@, p.1@)),
{
    proof {
        reveal(quad_roots);
    }
    let four: Fx = Fx::from_int(4);
    let disc: Fx = b.mul(b).sub(four.mul(c).mul(a));
    if disc.is_neg() {
        return None;
    }
    let neg_half: Fx = Fx::from_units(-(SCALE / 2));
    if disc.is_zero() {
        if a.is_zero() {
            return None;
        }
        let out: Fx = neg_half.mul(b).div(a);
        return Some((out, out));
    }
    let two_a: Fx = Fx::from_int(2).mul(a);
    if two_a.is_zero() {
        return None;
    }
    proof {
        if a@ == 0 {
            lemma_fx_mul_zero(2 * SCALE as int);
        }
    }
    let val: Fx = b.neg().add(disc.sqrt()).div(two_a);
    let other: Fx = val.neg().sub(b.div(a));
    if other.lt(val) {
        Some((other, val))
    } else {
        Some((val, other))
    }
}

/// A sphere: always the unit sphere in its own space; the transform
/// places it in the world.
#[derive(Debug, PartialEq)]
pub struct Sphere {
    transformation: Matrix,
    material: Material,
}

impl View for Sphere {
    type V = SphereV;

    closed spec fn view(&self) -> SphereV {
        SphereV { transformation: self.transformation@, material: self.material@ }
    }
}

impl Clone for Sphere {
    /// The clone carries the same transform and material.
    fn clone(&self) -> (r: Self)
        ensures
            r@ == self@,
    {
        Sphere { transformation: self.transformation.clone(), material: self.material }
    }
}

impl Sphere {
    /// The unit sphere at the origin with the stock material.
    pub fn default() -> (s: Self)
        ensures
            s@.transformation == m_id(4),
            s@.material == default_phong(),
            sphere_wf(s@),
    {
        Sphere { transformation: Matrix::identity(4), material: Material::default() }
    }

    /// A sphere translated to the given point, with the stock material.
    pub fn new(origin: Coord) -> (s: Self)
        requires
            v4_is_point(origin@),
        ensures
            s@.transformation == m_translation(origin@.x, origin@.y, origin@.z),
            s@.material == default_phong(),
            sphere_wf(s@),
    {
        Sphere { transformation: Matrix::from_point(&origin), material: Material::default() }
    }

    /// Replace the material.
    pub fn set_material(&mut self, mat: Material)
        ensures
            final(self)@ == (SphereV { material: mat@, ..old(self)@ }),
    {
        self.material = mat;
    }

    /// Replace the transform, which must be four-by-four.
    pub fn set_transformation(&mut self, mat: Matrix)
        requires
            m_wf(mat@),
            mat@.len() == 4,
        ensures
            final(self)@ == (SphereV { transformation: mat@, ..old(self)@ }),
            sphere_wf(final(self)@),
    {
        self.transformation = mat;
    }

    /// Compose a further transform onto the existing one, on the right.
    pub fn apply_transformation(&mut self, mat: Matrix)
        requires
            sphere_wf(old(self)@),
            m_wf(mat@),
            mat@.len() == 4,
        ensures
            final(self)@ == (SphereV {
                transformation: m_mul(old(self)@.transformation, mat@),
                ..old(self)@
            }),
            sphere_wf(final(self)@),
    {
        self.transformation = self.transformation.mul_matrix(&mat);
    }

    /// The world position of the sphere's own origin, read off the
    /// transform.
    pub fn get_origin(&self) -> (p: Coord)
        requires
            sphere_wf(self@),
        ensures
            p@ == (Vec4 {
                x: fx_mul(self@.transformation[0][3], self@.transformation[0][0]),
                y: fx_mul(self@.transformation[1][3], self@.transformation[1][1]),
                z: fx_mul(self@.transformation[2][3], self@.transformation[2][2]),
                w: SCALE as int,
            }),
    {
        self.transformation.to_point()
    }

    /// The transform, copied out.
    pub fn get_transformation(&self) -> (m: Matrix)
        ensures
            m@ == self@.transformation,
    {
        self.transformation.clone()
    }

    /// The material.
    pub fn get_material(&self) -> (m: Material)
        ensures
            m@ == self@.material,
    {
        self.material
    }

    /// The world position, as the capability interface names it.
    pub fn get_pos(&self) -> (p: Coord)
        requires
            sphere_wf(self@),
        ensures
            p@ == (Vec4 {
                x: fx_mul(self@.transformation[0][3], self@.transformation[0][0]),
                y: fx_mul(self@.transformation[1][3], self@.transformation[1][1]),
                z: fx_mul(self@.transformation[2][3], self@.transformation[2][2]),
                w: SCALE as int,
            }),
    {
        self.get_origin()
    }

    /// Which primitive this is.
    pub fn get_type(&self) -> (t: RenderableType)
        ensures
            t == RenderableType::Sphere,
    {
        RenderableType::Sphere
    }

    /// The times at which a ray meets the unit sphere at the origin.
    fn analytical_intersect(&self, ray: &Ray) -> (r: Option<(Fx, Fx)>)
        ensures
            (r is None) == (analytical_roots(ray@) is None),
            r matches Some(p) ==> analytical_roots(ray@) == Some((p.0@, p.1@)),
    {
        proof {
            reveal(analytical_roots);
        }
        let o: Coord = ray.get_origin();
        let l: Coord = Coord::vec(o.get_x(), o.get_y(), o.get_z());
        let d: Coord = ray.get_direction();
        if d.is_point() {
            return None;
        }
        let a: Fx = d.dot(d);
        let b: Fx = Fx::from_int(2).mul(d.dot(l));
        let c: Fx = l.dot(l).sub(Fx::one());
        quadratic_formula_helper(a, b, c)
    }

    /// The entry and exit times of a world-space ray, wrapped as a pair of
    /// intersection records naming this sphere; none when the ray misses
    /// or the transform has no inverse.
    pub fn intersect(&self, ray: &Ray) -> (r: Option<(Intersection, Intersection)>)
        requires
            sphere_wf(self@),
        ensures
            (r is None) == (sphere_intersect_times(self@, ray@) is None),
            r matches Some(p) ==> sphere_intersect_times(self@, ray@) == Some((
                p.0@.time,
                p.1@.time,
            )) && p.0@.object == self@ && p.1@.object == self@,
    {
        proof {
            reveal(sphere_intersect_times);
        }
        let inv: Matrix = match self.transformation.inverse() {
            Some(m) => m,
            None => {
                return None;
            },
        };
        let local: Ray = ray.transform(inv);
        match self.analytical_intersect(&local) {
            None => None,
            Some(pair) => Some(
                (Intersection::new(pair.0, self.clone()), Intersection::new(pair.1, self.clone())),
            ),
        }
    }

    /// The surface normal at a world point assumed to lie on the sphere,
    /// always a direction vector.
    pub fn normal_at(&self, pos: Coord) -> (n: Coord)
        requires
            sphere_wf(self@),
        ensures
            n@ == sphere_normal(self@, pos@),
            v4_is_vec(n@),
    {
        proof {
            reveal(sphere_normal);
        }
        let nil: Fx = Fx::zero();
        let inv: Matrix = match self.transformation.inverse() {
            Some(m) => m,
            None => {
                return Coord::vec(nil, nil, nil);
            },
        };
        let object_pos: Coord = inv.mul_coord(pos);
        let obj_normal: Coord = object_pos.sub(Coord::point(nil, nil, nil));
        let mut world_norm: Coord = inv.transpose().mul_coord(obj_normal);
        world_norm.set_w(nil);
        if world_norm.magnitude().is_zero() {
            return Coord::vec(nil, nil, nil);
        }
        proof {
            lemma_fx_div_zero(v4_mag(world_norm@));
        }
        world_norm.normalized()
    }
}

impl crate::ray::intersection::Intersect for Sphere {
    open spec fn intersect_wf(&self) -> bool {
        sphere_wf(self@)
    }

    open spec fn intersect_model(&self, r: RayV) -> Option<(int, int)> {
        sphere_intersect_times(self@, r)
    }

    fn intersect(&self, ray: &Ray) -> (r: Option<(Intersection, Intersection)>) {
        Sphere::intersect(self, ray)
    }
}

impl crate::renderable::Renderable for Sphere {
    open spec fn material_model(&self) -> Phong {
        self@.material
    }

    open spec fn transformation_model(&self) -> Grid {
        self@.transformation
    }

    open spec fn type_model(&self) -> RenderableType {
        RenderableType::Sphere
    }

    open spec fn renderable_wf(&self) -> bool {
        sphere_wf(self@)
    }

    fn get_material(&self) -> (m: Material) {
        Sphere::get_material(self)
    }

    fn get_pos(&self) -> (p: Coord) {
        Sphere::get_pos(self)
    }

    fn get_transformation(&self) -> (m: Matrix) {
        Sphere::get_transformation(self)
    }

    fn get_type(&self) -> (t: RenderableType) {
        Sphere::get_type(self)
    }
}

} // verus!
