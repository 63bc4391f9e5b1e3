//! The capability interface every drawable primitive offers: its
//! material, its position, its transform, and which primitive it is.

use vstd::prelude::*;

use crate::coord::Coord;
use crate::coord::Vec4;
use crate::fx::SCALE;
use crate::fx::fx_mul;
use crate::material::Material;
use crate::material::Phong;
use crate::matrix::Grid;
use crate::matrix::Matrix;

verus! {

/// The kinds of primitive a scene can hold.
#[derive(Clone, Copy, Debug, PartialEq, Eq, Structural)]
pub enum RenderableType {
    Sphere,
}

/// What a scene object exposes to the world: readable material, position,
/// transform and kind, each pinned to the object's mathematical image.
pub trait Renderable {
    /// The image of the material.
    spec fn material_model(&self) -> Phong;

    /// The image of the transform.
    spec fn transformation_model(&self) -> Grid;

    /// The kind of primitive.
    spec fn type_model(&self) -> RenderableType;

    /// The transform is square, four by four.
    spec fn renderable_wf(&self) -> bool;

    /// The material.
    fn get_material(&self) -> (m: Material)
        ensures
            m@ == self.material_model(),
    ;

    /// The world position of the object's own origin, read off the
    /// transform.
    fn get_pos(&self) -> (p: Coord)
        requires
            self.renderable_wf(),
        ensures
            p@ == pos_of(self.transformation_model()),
    ;

    /// The transform, copied out.
    fn get_transformation(&self) -> (m: Matrix)
        ensures
            m@ == self.transformation_model(),
    ;

    /// Which primitive this is.
    fn get_type(&self) -> (t: RenderableType)
        ensures
            t == self.type_model(),
    ;
}

/// The world position a transform gives an object's own origin.
pub open spec fn pos_of(t: Grid) -> Vec4 {
    Vec4 {
        x: fx_mul(t[0][3], t[0][0]),
        y: fx_mul(t[1][3], t[1][1]),
        z: fx_mul(t[2][3], t[2][2]),
        w: SCALE as int,
    }
}

/// Whether two scene objects agree: same material, same position within
/// tolerance, same transform cells, same kind.
pub fn compare_renderables<A: Renderable, B: Renderable>(a: &A, b: &B) -> (r: bool)
    requires
        a.renderable_wf(),
        b.renderable_wf(),
        crate::matrix::m_wf(a.transformation_model()),
        crate::matrix::m_wf(b.transformation_model()),
    ensures
        r == (a.material_model() == b.material_model() && crate::coord::v4_approx(
            pos_of(a.transformation_model()),
            pos_of(b.transformation_model()),
        ) && a.transformation_model() == b.transformation_model() && a.type_model()
            == b.type_model()),
{
    let ma: Material = a.get_material();
    let mb: Material = b.get_material();
    proof {
        crate::material::lemma_material_view_eq(ma, mb);
    }
    if !(ma == mb) {
        return false;
    }
    let pa: Coord = a.get_pos();
    let pb: Coord = b.get_pos();
    if !(pa == pb) {
        return false;
    }
    if !a.get_transformation().eq_cells(&b.get_transformation()) {
        return false;
    }
    a.get_type() == b.get_type()
}

} // verus!
