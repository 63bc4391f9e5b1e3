//! The camera: output size, field of view, a view transform, and the
//! world-space size of one square pixel derived from them.

use vstd::prelude::*;

use crate::fx::Fx;
use crate::fx::SCALE;
use crate::fx::usize_of;
use crate::matrix::Grid;
use crate::matrix::Matrix;
use crate::matrix::m_id;
use crate::matrix::m_wf;

verus! {

/// Mathematical image of a camera.
pub ghost struct CameraV {
    pub hsize: int,
    pub vsize: int,
    pub field_of_view: int,
    pub transformation: Grid,
    pub pixel_size: int,
}

/// The half-view width the camera derives from its field of view: the
/// tangent of half the angle as the library's sine over cosine, saturated
/// when the cosine rounds to zero.
pub open spec fn camera_half_view(fov: int) -> int {
    let half_angle = crate::fx::fx_divi(fov, 2);
    let c = crate::fx::cos_units(half_angle);
    if c == 0 {
        i64::MAX as int
    } else {
        crate::fx::fx_div(crate::fx::sin_units(half_angle), c)
    }
}

/// The world-space pixel size that a half-view width gives a grid: the
/// half width follows the smaller side of the aspect ratio, doubled and
/// spread over the horizontal pixels.
pub open spec fn pixel_size_of(half_view: int, hsize: int, vsize: int) -> int {
    let h = crate::fx::clip(hsize * SCALE);
    let v = crate::fx::clip(vsize * SCALE);
    let aspect = crate::fx::fx_div(h, v);
    let half_width = if aspect < SCALE { crate::fx::fx_mul(half_view, aspect) } else { half_view };
    crate::fx::fx_div(crate::fx::fx_mul(half_width, crate::fx::clip(2 * SCALE)), h)
}

/// A camera over a pixel grid.
#[derive(Debug, PartialEq)]
pub struct Camera {
    hsize: Fx,
    vsize: Fx,
    field_of_view: Fx,
    transformation: Matrix,
    pixel_size: Fx,
}

impl View for Camera {
    type V = CameraV;

    closed spec fn view(&self) -> CameraV {
        CameraV {
            hsize: self.hsize@,
            vsize: self.vsize@,
            field_of_view: self.field_of_view@,
            transformation: self.transformation@,
            pixel_size: self.pixel_size@,
        }
    }
}

impl Camera {
    /// A camera over a pixel grid of the given size with the given field
    /// of view in radians; the world-space pixel size follows from the
    /// half-view width and the aspect ratio, assuming square pixels.
    pub fn new(hsize: usize, vsize: usize, field_of_view: Fx) -> (c: Self)
        requires
            1 <= hsize <= 1_000_000,
            1 <= vsize <= 1_000_000,
        ensures
            c@.hsize == hsize * crate::fx::SCALE,
            c@.vsize == vsize * crate::fx::SCALE,
            c@.field_of_view == field_of_view@,
            c@.transformation == m_id(4),
            m_wf(c@.transformation),
            c@.pixel_size == pixel_size_of(
                camera_half_view(field_of_view@),
                hsize as int,
                vsize as int,
            ),
    {
        let h: Fx = Fx::from_int(hsize as i64);
        let v: Fx = Fx::from_int(vsize as i64);
        let half_angle: Fx = field_of_view.divi(2);
        let cos: Fx = half_angle.cos();
        let sin: Fx = half_angle.sin();
        let half_view: Fx = if cos.is_zero() {
            Fx::from_units(i64::MAX)
        } else {
            sin.div(cos)
        };
        let aspect: Fx = h.div(v);
        let one: Fx = Fx::one();
        let half_width: Fx = if aspect.lt(one) {
            half_view.mul(aspect)
        } else {
            half_view
        };
        let pixel_size: Fx = half_width.mul(Fx::from_int(2)).div(h);
        proof {
            assert(half_view@ == camera_half_view(field_of_view@));
        }
        Camera {
            hsize: h,
            vsize: v,
            field_of_view,
            transformation: Matrix::identity(4),
            pixel_size,
        }
    }

    /// Replace the view transform, which must be four-by-four.
    pub fn set_transformation(&mut self, transformation: Matrix)
        requires
            m_wf(transformation@),
            transformation@.len() == 4,
        ensures
            final(self)@ == (CameraV { transformation: transformation@, ..old(self)@ }),
    {
        self.transformation = transformation;
    }

    /// Replace the field of view.
    pub fn set_field_of_view(&mut self, field_of_view: Fx)
        ensures
            final(self)@ == (CameraV { field_of_view: field_of_view@, ..old(self)@ }),
    {
        self.field_of_view = field_of_view;
    }

    /// Replace the horizontal size.
    pub fn set_hsize(&mut self, hsize: usize)
        requires
            hsize <= 1_000_000,
        ensures
            final(self)@ == (CameraV { hsize: hsize * crate::fx::SCALE, ..old(self)@ }),
    {
        self.hsize = Fx::from_int(hsize as i64);
    }

    /// The horizontal size.
    pub fn get_hsize(&self) -> (h: usize)
        ensures
            h as int == usize_of(self@.hsize),
    {
        self.hsize.to_usize()
    }

    /// Replace the vertical size.
    pub fn set_vsize(&mut self, vsize: usize)
        requires
            vsize <= 1_000_000,
        ensures
            final(self)@ == (CameraV { vsize: vsize * crate::fx::SCALE, ..old(self)@ }),
    {
        self.vsize = Fx::from_int(vsize as i64);
    }

    /// The vertical size.
    pub fn get_vsize(&self) -> (v: usize)
        ensures
            v as int == usize_of(self@.vsize),
    {
        self.vsize.to_usize()
    }

    /// The world-space size of one pixel.
    pub fn get_pixel_size(&self) -> (p: Fx)
        ensures
            p@ == self@.pixel_size,
    {
        self.pixel_size
    }
}

} // verus!
