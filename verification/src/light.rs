//! Point lights, and the Phong shading computation that combines one
//! light with a material and a surface sample.

use vstd::prelude::*;

use crate::canvas::color::Color;
use crate::canvas::color::Rgba;
use crate::canvas::color::c_add;
use crate::canvas::color::c_mul;
use crate::canvas::color::c_scale;
use crate::coord::Coord;
use crate::coord::Vec4;
use crate::coord::v4_dot;
use crate::coord::v4_is_point;
use crate::coord::v4_is_vec;
use crate::coord::v4_mag;
use crate::coord::v4_neg;
use crate::coord::v4_norm;
use crate::coord::v4_reflect;
use crate::coord::v4_sub;
use crate::fx::Fx;
use crate::fx::SCALE;
use crate::fx::fx_pow;
use crate::fx::lemma_fx_div_zero;
use crate::material::Material;
use crate::material::Phong;

verus! {

/// Mathematical image of a light: a position and an intensity.
pub ghost struct LightV {
    pub pos: Vec4,
    pub intensity: Rgba,
}

/// A point light.
#[derive(Clone, Copy, Debug)]
pub struct Light {
    pos: Coord,
    intensity: Color,
}

impl View for Light {
    type V = LightV;

    closed spec fn view(&self) -> LightV {
        LightV { pos: self.pos@, intensity: self.intensity@ }
    }
}

impl Light {
    /// A light from a position and an intensity.
    pub fn new(pos: Coord, intensity: Color) -> (l: Self)
        ensures
            l@ == (LightV { pos: pos@, intensity: intensity@ }),
    {
        Light { pos, intensity }
    }

    /// A white light at the origin.
    pub fn default() -> (l: Self)
        ensures
            l@.pos == (Vec4 { x: 0, y: 0, z: 0, w: SCALE as int }),
            l@.intensity == (Rgba { r: SCALE as int, g: SCALE as int, b: SCALE as int, a: 0 }),
    {
        let nil: Fx = Fx::zero();
        Light { pos: Coord::point(nil, nil, nil), intensity: Color::white() }
    }

    /// The intensity.
    pub fn get_intensity(&self) -> (c: Color)
        ensures
            c@ == self@.intensity,
    {
        self.intensity
    }

    /// The position.
    pub fn get_pos(&self) -> (p: Coord)
        ensures
            p@ == self@.pos,
    {
        self.pos
    }

    /// Replace the intensity.
    pub fn set_intensity(&mut self, color: Color)
        ensures
            final(self)@ == (LightV { intensity: color@, ..old(self)@ }),
    {
        self.intensity = color;
    }

    /// Replace the position, which must be a point.
    pub fn set_pos(&mut self, pos: Coord)
        requires
            v4_is_point(pos@),
        ensures
            final(self)@ == (LightV { pos: pos@, ..old(self)@ }),
    {
        self.pos = pos;
    }
}

/// The unit vector from the surface sample towards the light, or the zero
/// vector when the two coincide.
pub open spec fn light_dir(l: Vec4, p: Vec4) -> Vec4 {
    if v4_mag(v4_sub(l, p)) == 0 {
        Vec4 { x: 0, y: 0, z: 0, w: 0 }
    } else {
        v4_norm(v4_sub(l, p))
    }
}

/// The whole-number specular exponent read off the shininess.
pub open spec fn spec_exponent(sh: int) -> nat {
    if sh <= 0 {
        0nat
    } else {
        (sh / (SCALE as int)) as nat
    }
}

/// Phong shading: the ambient term always; the diffuse term unless the
/// light is behind the surface; the specular term unless the reflected
/// beam points away from the eye.
#[verifier::opaque]
pub open spec fn lighting_spec(m: Phong, l: LightV, pos: Vec4, camv: Vec4, normal: Vec4) -> Rgba {
    let effective = c_mul(m.color, l.intensity);
    let ambient = c_scale(effective, m.ambient);
    let lv = light_dir(l.pos, pos);
    let ldn = v4_dot(lv, normal);
    if ldn < 0 {
        ambient
    } else {
        let diffuse = c_scale(c_scale(effective, m.diffuse), ldn);
        let reflect_v = v4_reflect(v4_neg(lv), normal);
        let rdc = v4_dot(reflect_v, camv);
        if rdc <= 0 {
            c_add(ambient, diffuse)
        } else {
            let factor = fx_pow(rdc, spec_exponent(m.shininess));
            let specular = c_scale(c_scale(l.intensity, m.specular), factor);
            c_add(c_add(ambient, diffuse), specular)
        }
    }
}

/// Phong shading of one surface sample under one light.
pub fn lighting(material: Material, light: Light, pos: Coord, camv: Coord, normal: Coord) -> (c:
    Color)
    requires
        v4_is_point(light@.pos),
        v4_is_point(pos@),
        v4_is_vec(normal@),
        !v4_is_point(camv@),
    ensures
        c@ == lighting_spec(material@, light@, pos@, camv@, normal@),
{
    proof {
        reveal(lighting_spec);
    }
    let effective: Color = material.get_color().mul(light.get_intensity());
    let ambient: Color = effective.scale(material.get_ambient());
    let delta: Coord = light.get_pos().sub(pos);
    let nil: Fx = Fx::zero();
    let light_v: Coord = if delta.magnitude().is_zero() {
        Coord::vec(nil, nil, nil)
    } else {
        proof {
            lemma_fx_div_zero(v4_mag(delta@));
        }
        delta.normalized()
    };
    let light_dot_normal: Fx = light_v.dot(normal);
    if light_dot_normal.is_neg() {
        return ambient;
    }
    let diffuse: Color = effective.scale(material.get_diffuse()).scale(light_dot_normal);
    let reflect_v: Coord = light_v.neg().reflect(&normal);
    proof {
        assert(light_v@.w == 0);
        crate::fx::lemma_fx_mul_zero(2 * (SCALE as int));
        crate::fx::lemma_fx_mul_zero(v4_dot(v4_neg(light_v@), normal@));
        assert(v4_reflect(v4_neg(light_v@), normal@).w == 0);
    }
    let reflect_dot_cam: Fx = reflect_v.dot(camv);
    if reflect_dot_cam.le(Fx::zero()) {
        return ambient.add(diffuse);
    }
    let sh: i64 = material.get_shininess().to_units();
    let exponent: u64 = if sh <= 0 {
        0
    } else {
        (sh as u64) / (SCALE as u64)
    };
    let factor: Fx = reflect_dot_cam.powi(exponent);
    let specular: Color = light.get_intensity().scale(material.get_specular()).scale(factor);
    ambient.add(diffuse).add(specular)
}

} // verus!
