//! Phong material coefficients and a base color.  The coefficients are
//! conventionally within `[0, 1]` and the shininess within `[10, 200]`,
//! but out-of-range values are accepted and simply propagate.

use vstd::prelude::*;

use crate::canvas::color::Color;
use crate::canvas::color::Rgba;
use crate::fx::Fx;
use crate::fx::SCALE;

verus! {

/// Mathematical image of a material.
pub ghost struct Phong {
    pub ambient: int,
    pub diffuse: int,
    pub specular: int,
    pub shininess: int,
    pub color: Rgba,
}

/// The stock material's image: low ambient, strong diffuse and specular,
/// tight highlight, white base color.
pub open spec fn default_phong() -> Phong {
    Phong {
        ambient: SCALE as int / 10,
        diffuse: 9 * (SCALE as int) / 10,
        specular: 9 * (SCALE as int) / 10,
        shininess: 200 * (SCALE as int),
        color: Rgba { r: SCALE as int, g: SCALE as int, b: SCALE as int, a: 0 },
    }
}

/// A Phong material.
#[derive(Clone, Copy, Debug, PartialEq, Eq, Structural)]
pub struct Material {
    ambient: Fx,
    diffuse: Fx,
    specular: Fx,
    shininess: Fx,
    color: Color,
}

impl View for Material {
    type V = Phong;

    closed spec fn view(&self) -> Phong {
        Phong {
            ambient: self.ambient@,
            diffuse: self.diffuse@,
            specular: self.specular@,
            shininess: self.shininess@,
            color: self.color@,
        }
    }
}

/// Two materials are equal exactly when their images are.
pub proof fn lemma_material_view_eq(a: Material, b: Material)
    ensures
        (a == b) == (a@ == b@),
{
    crate::fx::lemma_fx_view_eq(a.ambient, b.ambient);
    crate::fx::lemma_fx_view_eq(a.diffuse, b.diffuse);
    crate::fx::lemma_fx_view_eq(a.specular, b.specular);
    crate::fx::lemma_fx_view_eq(a.shininess, b.shininess);
    crate::canvas::color::lemma_color_view_eq(a.color, b.color);
}

impl Material {
    /// A material from its four coefficients and base color.
    pub fn new(ambient: Fx, diffuse: Fx, specular: Fx, shininess: Fx, color: Color) -> (m: Self)
        ensures
            m@ == (Phong {
                ambient: ambient@,
                diffuse: diffuse@,
                specular: specular@,
                shininess: shininess@,
                color: color@,
            }),
    {
        Material { ambient, diffuse, specular, shininess, color }
    }

    /// The stock material: low ambient, strong diffuse and specular,
    /// tight highlight, white base color.
    pub fn default() -> (m: Self)
        ensures
            m@ == default_phong(),
    {
        Material {
            ambient: Fx::from_units(SCALE / 10),
            diffuse: Fx::from_units(9 * (SCALE / 10)),
            specular: Fx::from_units(9 * (SCALE / 10)),
            shininess: Fx::from_int(200),
            color: Color::white(),
        }
    }

    /// The base color.
    pub fn get_color(&self) -> (c: Color)
        ensures
            c@ == self@.color,
    {
        self.color
    }

    /// The ambient coefficient.
    pub fn get_ambient(&self) -> (v: Fx)
        ensures
            v@ == self@.ambient,
    {
        self.ambient
    }

    /// The diffuse coefficient.
    pub fn get_diffuse(&self) -> (v: Fx)
        ensures
            v@ == self@.diffuse,
    {
        self.diffuse
    }

    /// The specular coefficient.
    pub fn get_specular(&self) -> (v: Fx)
        ensures
            v@ == self@.specular,
    {
        self.specular
    }

    /// The specular exponent.
    pub fn get_shininess(&self) -> (v: Fx)
        ensures
            v@ == self@.shininess,
    {
        self.shininess
    }

    /// Replace the base color.
    pub fn set_color(&mut self, color: Color)
        ensures
            final(self)@ == (Phong { color: color@, ..old(self)@ }),
    {
        self.color = color;
    }

    /// Replace the ambient coefficient.
    pub fn set_ambient(&mut self, v: Fx)
        ensures
            final(self)@ == (Phong { ambient: v@, ..old(self)@ }),
    {
        self.ambient = v;
    }

    /// Replace the diffuse coefficient.
    pub fn set_diffuse(&mut self, v: Fx)
        ensures
            final(self)@ == (Phong { diffuse: v@, ..old(self)@ }),
    {
        self.diffuse = v;
    }

    /// Replace the specular coefficient.
    pub fn set_specular(&mut self, v: Fx)
        ensures
            final(self)@ == (Phong { specular: v@, ..old(self)@ }),
    {
        self.specular = v;
    }

    /// Replace the specular exponent.
    pub fn set_shininess(&mut self, v: Fx)
        ensures
            final(self)@ == (Phong { shininess: v@, ..old(self)@ }),
    {
        self.shininess = v;
    }
}

} // verus!
