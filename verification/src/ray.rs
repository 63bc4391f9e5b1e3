//! Rays: an origin, a direction, and the direction normalized once at
//! construction, since intersection math reuses it.

use vstd::prelude::*;

use crate::coord::Coord;
use crate::coord::Vec4;
use crate::coord::v4_add;
use crate::coord::v4_mag;
use crate::coord::v4_norm;
use crate::coord::v4_scale;
use crate::fx::Fx;
use crate::matrix::Matrix;
use crate::matrix::m_apply;
use crate::matrix::m_wf;
use crate::ray::intersection::Intersection;
use crate::sphere::Sphere;
use crate::sphere::sphere_intersect_times;
use crate::sphere::sphere_wf;

pub mod intersection;

verus! {

/// Mathematical image of a ray.
pub ghost struct RayV {
    pub origin: Vec4,
    pub direction: Vec4,
    pub norm_dir: Vec4,
}

/// The direction normalized, or the zero tuple when its length is zero.
pub open spec fn ray_norm_dir(d: Vec4) -> Vec4 {
    if v4_mag(d) == 0 {
        Vec4 { x: 0, y: 0, z: 0, w: 0 }
    } else {
        v4_norm(d)
    }
}

/// A ray: where it starts and which way it goes.
#[derive(Clone, Copy, Debug, PartialEq)]
pub struct Ray {
    origin: Coord,
    direction: Coord,
    norm_dir: Coord,
}

impl View for Ray {
    type V = RayV;

    closed spec fn view(&self) -> RayV {
        RayV { origin: self.origin@, direction: self.direction@, norm_dir: self.norm_dir@ }
    }
}

impl Ray {
    /// A ray from an origin and a direction; the normalized direction is
    /// computed here, once.
    pub fn new(origin: Coord, direction: Coord) -> (r: Self)
        ensures
            r@.origin == origin@,
            r@.direction == direction@,
            r@.norm_dir == ray_norm_dir(direction@),
    {
        let nil: Fx = Fx::zero();
        let norm_dir: Coord = if direction.magnitude().is_zero() {
            Coord::new(nil, nil, nil, nil)
        } else {
            direction.normalized()
        };
        Ray { origin, direction, norm_dir }
    }

    /// The direction normalized at construction.
    pub fn get_norm_direction(&self) -> (d: Coord)
        ensures
            d@ == self@.norm_dir,
    {
        self.norm_dir
    }

    /// The point the ray reaches at the given parametric time.
    pub fn position(&self, time: Fx) -> (p: Coord)
        ensures
            p@ == v4_add(self@.origin, v4_scale(self@.direction, time@)),
    {
        self.origin.add(self.direction.scale(time))
    }

    /// The times at which the ray meets a sphere, if it does.
    pub fn intersect(&self, object: &Sphere) -> (r: Option<(Intersection, Intersection)>)
        requires
            sphere_wf(object@),
        ensures
            (r is None) == (sphere_intersect_times(object@, self@) is None),
            r matches Some(p) ==> sphere_intersect_times(object@, self@) == Some((
                p.0@.time,
                p.1@.time,
            )) && p.0@.object == object@ && p.1@.object == object@,
    {
        object.intersect(self)
    }

    /// The origin.
    pub fn get_origin(&self) -> (p: Coord)
        ensures
            p@ == self@.origin,
    {
        self.origin
    }

    /// The direction.
    pub fn get_direction(&self) -> (d: Coord)
        ensures
            d@ == self@.direction,
    {
        self.direction
    }

    /// The ray carried into another coordinate space: the matrix applied
    /// to the origin as a point and to the direction as a vector, giving a
    /// new ray.
    pub fn transform(&self, mat: Matrix) -> (r: Self)
        requires
            m_wf(mat@),
            mat@.len() == 4,
        ensures
            r@.origin == m_apply(mat@, self@.origin),
            r@.direction == m_apply(mat@, self@.direction),
            r@.norm_dir == ray_norm_dir(m_apply(mat@, self@.direction)),
    {
        Self::new(mat.mul_coord(self.origin), mat.mul_coord(self.direction))
    }
}

} // verus!
