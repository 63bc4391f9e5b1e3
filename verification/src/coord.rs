//! Homogeneous four-component tuples: points (`w == 1`) and direction
//! vectors (`w == 0`), with the arithmetic the tracing pipeline needs.

use vstd::prelude::*;

use crate::fx::Fx;
use crate::fx::SCALE;
use crate::fx::fx_add;
use crate::fx::fx_div;
use crate::fx::fx_mul;
use crate::fx::fx_neg;
use crate::fx::fx_sqrt;
use crate::fx::fx_sub;
use crate::fx::mag;

verus! {

/// Equality tolerance in fixed-point units: one millionth.
pub const EPSILON_UNITS: i64 = 1;

/// Mathematical image of a coordinate: its four components in units.
pub ghost struct Vec4 {
    pub x: int,
    pub y: int,
    pub z: int,
    pub w: int,
}

/// Componentwise sum.
pub open spec fn v4_add(a: Vec4, b: Vec4) -> Vec4 {
    Vec4 { x: fx_add(a.x, b.x), y: fx_add(a.y, b.y), z: fx_add(a.z, b.z), w: fx_add(a.w, b.w) }
}

/// Componentwise difference.
pub open spec fn v4_sub(a: Vec4, b: Vec4) -> Vec4 {
    Vec4 { x: fx_sub(a.x, b.x), y: fx_sub(a.y, b.y), z: fx_sub(a.z, b.z), w: fx_sub(a.w, b.w) }
}

/// Componentwise negation.
pub open spec fn v4_neg(a: Vec4) -> Vec4 {
    Vec4 { x: fx_neg(a.x), y: fx_neg(a.y), z: fx_neg(a.z), w: fx_neg(a.w) }
}

/// Componentwise scaling.
pub open spec fn v4_scale(a: Vec4, s: int) -> Vec4 {
    Vec4 { x: fx_mul(a.x, s), y: fx_mul(a.y, s), z: fx_mul(a.z, s), w: fx_mul(a.w, s) }
}

/// Componentwise division by a scalar.
pub open spec fn v4_div(a: Vec4, s: int) -> Vec4 {
    Vec4 { x: fx_div(a.x, s), y: fx_div(a.y, s), z: fx_div(a.z, s), w: fx_div(a.w, s) }
}

/// A point carries `w == 1`.
pub open spec fn v4_is_point(a: Vec4) -> bool {
    a.w == SCALE as int
}

/// A direction vector carries `w == 0`.
pub open spec fn v4_is_vec(a: Vec4) -> bool {
    a.w == 0
}

/// Dot product over the three spatial components.
pub open spec fn v4_dot(a: Vec4, b: Vec4) -> int {
    fx_add(fx_add(fx_mul(a.x, b.x), fx_mul(a.y, b.y)), fx_mul(a.z, b.z))
}

/// Cross product of the spatial components, a direction vector.
pub open spec fn v4_cross(a: Vec4, b: Vec4) -> Vec4 {
    Vec4 {
        x: fx_sub(fx_mul(a.y, b.z), fx_mul(a.z, b.y)),
        y: fx_sub(fx_mul(a.z, b.x), fx_mul(a.x, b.z)),
        z: fx_sub(fx_mul(a.x, b.y), fx_mul(a.y, b.x)),
        w: 0,
    }
}

/// Length over all four components.
pub open spec fn v4_mag(a: Vec4) -> int {
    fx_sqrt(
        fx_add(
            fx_add(fx_add(fx_mul(a.x, a.x), fx_mul(a.y, a.y)), fx_mul(a.z, a.z)),
            fx_mul(a.w, a.w),
        ),
    )
}

/// Length over the three spatial components.
pub open spec fn v4_len(a: Vec4) -> int {
    fx_sqrt(fx_add(fx_add(fx_mul(a.x, a.x), fx_mul(a.y, a.y)), fx_mul(a.z, a.z)))
}

/// The tuple divided by its own length.
pub open spec fn v4_norm(a: Vec4) -> Vec4 {
    v4_div(a, v4_mag(a))
}

/// The incoming tuple mirrored about a normal.
pub open spec fn v4_reflect(a: Vec4, n: Vec4) -> Vec4 {
    v4_sub(a, v4_scale(v4_scale(n, 2 * SCALE), v4_dot(a, n)))
}

/// The scalar that carries `a` onto `b`: absent when either tuple is a
/// point or the tuples are not parallel; zero when no component pair is
/// jointly nonzero.
pub open spec fn v4_scalar_multiple(a: Vec4, b: Vec4) -> Option<int> {
    if v4_is_point(a) || v4_is_point(b) {
        None
    } else if v4_len(v4_cross(a, b)) > EPSILON_UNITS {
        None
    } else if a.x != 0 && b.x != 0 {
        Some(fx_div(b.x, a.x))
    } else if a.y != 0 && b.y != 0 {
        Some(fx_div(b.y, a.y))
    } else if a.z != 0 && b.z != 0 {
        Some(fx_div(b.z, a.z))
    } else {
        Some(0)
    }
}

/// The image of an optional scalar in units.
pub open spec fn view_option(o: Option<Fx>) -> Option<int> {
    match o {
        Option::Some(f) => Option::Some(f@),
        Option::None => Option::None,
    }
}

/// Componentwise equality within one unit of tolerance.
pub open spec fn v4_approx(a: Vec4, b: Vec4) -> bool {
    &&& mag(a.x - b.x) <= EPSILON_UNITS
    &&& mag(a.y - b.y) <= EPSILON_UNITS
    &&& mag(a.z - b.z) <= EPSILON_UNITS
    &&& mag(a.w - b.w) <= EPSILON_UNITS
}

/// A homogeneous tuple; `w` tells points (`1`) from vectors (`0`).
#[derive(Clone, Copy, Debug)]
pub struct Coord {
    x: Fx,
    y: Fx,
    z: Fx,
    w: Fx,
}

impl View for Coord {
    type V = Vec4;

    closed spec fn view(&self) -> Vec4 {
        Vec4 { x: self.x@, y: self.y@, z: self.z@, w: self.w@ }
    }
}

impl PartialEq for Coord {
    /// Equality holds when every component agrees within the tolerance.
    fn eq(&self, other: &Self) -> (r: bool) {
        let one_eps: Fx = Fx::from_units(EPSILON_UNITS);
        if self.x.sub(other.x).abs().le(one_eps)
            && self.y.sub(other.y).abs().le(one_eps)
            && self.z.sub(other.z).abs().le(one_eps)
            && self.w.sub(other.w).abs().le(one_eps) {
            true
        } else {
            false
        }
    }
}

impl vstd::std_specs::cmp::PartialEqSpecImpl for Coord {
    open spec fn obeys_eq_spec() -> bool {
        true
    }

    open spec fn eq_spec(&self, other: &Coord) -> bool {
        v4_approx(self@, other@)
    }
}

proof fn lemma_square_nonneg(a: int)
    ensures
        fx_mul(a, a) >= 0,
{
    assert(a * a >= 0) by (nonlinear_arith);
}

impl Coord {
    /// A tuple from all four components.
    pub fn new(x: Fx, y: Fx, z: Fx, w: Fx) -> (r: Self)
        ensures
            r@ == (Vec4 { x: x@, y: y@, z: z@, w: w@ }),
    {
        Coord { x, y, z, w }
    }

    /// The first spatial component.
    pub fn get_x(&self) -> (r: Fx)
        ensures
            r@ == self@.x,
    {
        self.x
    }

    /// The second spatial component.
    pub fn get_y(&self) -> (r: Fx)
        ensures
            r@ == self@.y,
    {
        self.y
    }

    /// The third spatial component.
    pub fn get_z(&self) -> (r: Fx)
        ensures
            r@ == self@.z,
    {
        self.z
    }

    /// The homogeneous component.
    pub fn get_w(&self) -> (r: Fx)
        ensures
            r@ == self@.w,
    {
        self.w
    }

    /// Replace the first spatial component.
    pub fn set_x(&mut self, x: Fx)
        ensures
            final(self)@ == (Vec4 { x: x@, ..old(self)@ }),
    {
        self.x = x;
    }

    /// Replace the second spatial component.
    pub fn set_y(&mut self, y: Fx)
        ensures
            final(self)@ == (Vec4 { y: y@, ..old(self)@ }),
    {
        self.y = y;
    }

    /// Replace the third spatial component.
    pub fn set_z(&mut self, z: Fx)
        ensures
            final(self)@ == (Vec4 { z: z@, ..old(self)@ }),
    {
        self.z = z;
    }

    /// Replace the homogeneous component.
    pub fn set_w(&mut self, w: Fx)
        ensures
            final(self)@ == (Vec4 { w: w@, ..old(self)@ }),
    {
        self.w = w;
    }

    /// The four components in order.
    pub fn get_as_list(&self) -> (r: [Fx; 4])
        ensures
            r@.len() == 4,
            r@[0]@ == self@.x,
            r@[1]@ == self@.y,
            r@[2]@ == self@.z,
            r@[3]@ == self@.w,
    {
        [self.x, self.y, self.z, self.w]
    }

    /// A tuple from four components in order.
    pub fn from_list(list: &[Fx; 4]) -> (r: Self)
        ensures
            r@ == (Vec4 { x: list@[0]@, y: list@[1]@, z: list@[2]@, w: list@[3]@ }),
    {
        Coord { x: list[0], y: list[1], z: list[2], w: list[3] }
    }

    /// A point: `w` is one.
    pub fn point(x: Fx, y: Fx, z: Fx) -> (r: Self)
        ensures
            r@ == (Vec4 { x: x@, y: y@, z: z@, w: SCALE as int }),
            v4_is_point(r@),
    {
        Coord { x, y, z, w: Fx::one() }
    }

    /// A direction vector: `w` is zero.
    pub fn vec(x: Fx, y: Fx, z: Fx) -> (r: Self)
        ensures
            r@ == (Vec4 { x: x@, y: y@, z: z@, w: 0 }),
            v4_is_vec(r@),
    {
        Coord { x, y, z, w: Fx::zero() }
    }

    /// Whether the tuple is a direction vector.
    pub fn is_vec(&self) -> (r: bool)
        ensures
            r == v4_is_vec(self@),
    {
        self.w.is_zero()
    }

    /// Whether the tuple is a point.
    pub fn is_point(&self) -> (r: bool)
        ensures
            r == v4_is_point(self@),
    {
        self.w.to_units() == SCALE
    }

    /// Componentwise sum.
    pub fn add(self, other: Coord) -> (r: Coord)
        ensures
            r@ == v4_add(self@, other@),
    {
        Coord {
            x: self.x.add(other.x),
            y: self.y.add(other.y),
            z: self.z.add(other.z),
            w: self.w.add(other.w),
        }
    }

    /// Componentwise sum in place.
    pub fn add_assign(&mut self, rhs: Coord)
        ensures
            final(self)@ == v4_add(old(self)@, rhs@),
    {
        self.x = self.x.add(rhs.x);
        self.y = self.y.add(rhs.y);
        self.z = self.z.add(rhs.z);
        self.w = self.w.add(rhs.w);
    }

    /// Componentwise difference.  Subtracting a point from a point leaves a
    /// vector; subtracting a vector from a point leaves a point; subtracting
    /// a vector from a vector leaves a vector.
    pub fn sub(self, other: Coord) -> (r: Coord)
        ensures
            r@ == v4_sub(self@, other@),
            v4_is_point(self@) && v4_is_point(other@) ==> v4_is_vec(r@),
            v4_is_point(self@) && v4_is_vec(other@) ==> v4_is_point(r@),
            v4_is_vec(self@) && v4_is_vec(other@) ==> v4_is_vec(r@),
    {
        Coord {
            x: self.x.sub(other.x),
            y: self.y.sub(other.y),
            z: self.z.sub(other.z),
            w: self.w.sub(other.w),
        }
    }

    /// The tuple negated.
    pub fn neg(self) -> (r: Coord)
        ensures
            r@ == v4_neg(self@),
    {
        Coord { x: self.x.neg(), y: self.y.neg(), z: self.z.neg(), w: self.w.neg() }
    }

    /// The tuple scaled componentwise, `w` included.
    pub fn scale(self, rhs: Fx) -> (r: Coord)
        ensures
            r@ == v4_scale(self@, rhs@),
    {
        Coord {
            x: self.x.mul(rhs),
            y: self.y.mul(rhs),
            z: self.z.mul(rhs),
            w: self.w.mul(rhs),
        }
    }

    /// The tuple divided componentwise by a nonzero scalar, `w` included.
    pub fn div_scale(self, rhs: Fx) -> (r: Coord)
        requires
            rhs@ != 0,
        ensures
            r@ == v4_div(self@, rhs@),
    {
        Coord {
            x: self.x.div(rhs),
            y: self.y.div(rhs),
            z: self.z.div(rhs),
            w: self.w.div(rhs),
        }
    }

    /// Length over all four components.
    pub fn magnitude(&self) -> (r: Fx)
        ensures
            r@ == v4_mag(self@),
            r@ >= 0,
    {
        proof {
            lemma_square_nonneg(self@.x);
            lemma_square_nonneg(self@.y);
            lemma_square_nonneg(self@.z);
            lemma_square_nonneg(self@.w);
        }
        let s: Fx = self.x.mul(self.x)
            .add(self.y.mul(self.y))
            .add(self.z.mul(self.z))
            .add(self.w.mul(self.w));
        s.sqrt()
    }

    /// The tuple divided by its own length, which must not be zero.
    pub fn normalized(&self) -> (r: Coord)
        requires
            v4_mag(self@) != 0,
        ensures
            r@ == v4_norm(self@),
    {
        let m: Fx = self.magnitude();
        self.div_scale(m)
    }

    /// Dot product over the spatial components; points are rejected, the
    /// product is only meaningful between vectors.
    pub fn dot(self, other: Coord) -> (r: Fx)
        requires
            !v4_is_point(self@),
            !v4_is_point(other@),
        ensures
            r@ == v4_dot(self@, other@),
    {
        self.x.mul(other.x).add(self.y.mul(other.y)).add(self.z.mul(other.z))
    }

    /// Cross product; points are rejected, the result is a vector.
    pub fn cross(self, other: &Self) -> (r: Self)
        requires
            !v4_is_point(self@),
            !v4_is_point(other@),
        ensures
            r@ == v4_cross(self@, other@),
            v4_is_vec(r@),
    {
        Coord::vec(
            self.y.mul(other.z).sub(self.z.mul(other.y)),
            self.z.mul(other.x).sub(self.x.mul(other.z)),
            self.x.mul(other.y).sub(self.y.mul(other.x)),
        )
    }

    /// Length over the spatial components.
    pub fn len(&self) -> (r: Fx)
        ensures
            r@ == v4_len(self@),
            r@ >= 0,
    {
        proof {
            lemma_square_nonneg(self@.x);
            lemma_square_nonneg(self@.y);
            lemma_square_nonneg(self@.z);
        }
        let s: Fx = self.x.mul(self.x).add(self.y.mul(self.y)).add(self.z.mul(self.z));
        s.sqrt()
    }

    /// The scalar that carries this tuple onto the other, when the two are
    /// parallel vectors.
    pub fn scalar_multiple(&self, other: &Self) -> (r: Option<Fx>)
        ensures
            view_option(r) == v4_scalar_multiple(self@, other@),
    {
        if self.is_point() || other.is_point() {
            return None;
        }
        let eps: Fx = Fx::from_units(EPSILON_UNITS);
        if eps.lt(self.cross(other).len()) {
            return None;
        }
        if !self.x.is_zero() && !other.x.is_zero() {
            return Some(other.x.div(self.x));
        } else if !self.y.is_zero() && !other.y.is_zero() {
            return Some(other.y.div(self.y));
        } else if !self.z.is_zero() && !other.z.is_zero() {
            return Some(other.z.div(self.z));
        }
        Some(Fx::zero())
    }

    /// The tuple mirrored about a normal vector.
    pub fn reflect(&self, norm: &Self) -> (r: Self)
        requires
            !v4_is_point(self@),
            !v4_is_point(norm@),
        ensures
            r@ == v4_reflect(self@, norm@),
    {
        let d: Fx = self.dot(norm.clone());
        self.sub(norm.scale(Fx::from_int(2)).scale(d))
    }
}

} // verus!
