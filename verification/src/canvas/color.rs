//! Colors as four fixed-point channels.  Shading may push channels outside
//! `[0, 1]`; clamping and quantization happen only at the image boundary.

use vstd::prelude::*;

use crate::fx::Fx;
use crate::fx::SCALE;
use crate::fx::clip;
use crate::fx::fx_add;
use crate::fx::fx_mul;
use crate::fx::fx_sub;
use crate::fx::mag;

verus! {

/// Mathematical image of a color: its four channels in fixed-point units.
pub ghost struct Rgba {
    pub r: int,
    pub g: int,
    pub b: int,
    pub a: int,
}

/// Channelwise sum.
pub open spec fn c_add(x: Rgba, y: Rgba) -> Rgba {
    Rgba { r: fx_add(x.r, y.r), g: fx_add(x.g, y.g), b: fx_add(x.b, y.b), a: fx_add(x.a, y.a) }
}

/// Channelwise difference.
pub open spec fn c_sub(x: Rgba, y: Rgba) -> Rgba {
    Rgba { r: fx_sub(x.r, y.r), g: fx_sub(x.g, y.g), b: fx_sub(x.b, y.b), a: fx_sub(x.a, y.a) }
}

/// Channelwise product.
pub open spec fn c_mul(x: Rgba, y: Rgba) -> Rgba {
    Rgba { r: fx_mul(x.r, y.r), g: fx_mul(x.g, y.g), b: fx_mul(x.b, y.b), a: fx_mul(x.a, y.a) }
}

/// Every channel scaled by one value.
pub open spec fn c_scale(x: Rgba, s: int) -> Rgba {
    Rgba { r: fx_mul(x.r, s), g: fx_mul(x.g, s), b: fx_mul(x.b, s), a: fx_mul(x.a, s) }
}

/// One channel clamped into `[0, 1]`.
pub open spec fn chan_clamped(v: int) -> int {
    if v > SCALE { SCALE as int } else if v < 0 { 0 } else { v }
}

/// The color channels clamped into `[0, 1]`; the alpha channel is kept.
pub open spec fn c_clamped(x: Rgba) -> Rgba {
    Rgba { r: chan_clamped(x.r), g: chan_clamped(x.g), b: chan_clamped(x.b), a: x.a }
}

/// One channel mirrored about one half.
pub open spec fn chan_inverse(v: int) -> int {
    clip(mag(fx_sub(v, SCALE as int)))
}

/// The color channels mirrored; the alpha channel is kept.
pub open spec fn c_inverse(x: Rgba) -> Rgba {
    Rgba { r: chan_inverse(x.r), g: chan_inverse(x.g), b: chan_inverse(x.b), a: x.a }
}

/// One channel quantized to `0..=max`: negative values floor at zero,
/// values above one saturate at `max`, the rest scale linearly, truncated.
pub open spec fn chan_quantized(v: int, max: int) -> int {
    if v > SCALE {
        max
    } else if v < 0 {
        0
    } else {
        (v * max) / (SCALE as int)
    }
}

/// A color of four fixed-point channels: red, green, blue, alpha.
#[derive(Clone, Copy, Debug, PartialEq, Eq, Structural)]
pub struct Color {
    r: Fx,
    g: Fx,
    b: Fx,
    a: Fx,
}

impl View for Color {
    type V = Rgba;

    closed spec fn view(&self) -> Rgba {
        Rgba { r: self.r@, g: self.g@, b: self.b@, a: self.a@ }
    }
}

/// Two colors are equal exactly when their images are.
pub proof fn lemma_color_view_eq(a: Color, b: Color)
    ensures
        (a == b) == (a@ == b@),
{
    crate::fx::lemma_fx_view_eq(a.r, b.r);
    crate::fx::lemma_fx_view_eq(a.g, b.g);
    crate::fx::lemma_fx_view_eq(a.b, b.b);
    crate::fx::lemma_fx_view_eq(a.a, b.a);
}

impl Color {
    /// A color from its four channels.
    pub fn new(r: Fx, g: Fx, b: Fx, a: Fx) -> (c: Self)
        ensures
            c@ == (Rgba { r: r@, g: g@, b: b@, a: a@ }),
    {
        Color { r, g, b, a }
    }

    /// The red channel.
    pub fn get_r(&self) -> (v: Fx)
        ensures
            v@ == self@.r,
    {
        self.r
    }

    /// The green channel.
    pub fn get_g(&self) -> (v: Fx)
        ensures
            v@ == self@.g,
    {
        self.g
    }

    /// The blue channel.
    pub fn get_b(&self) -> (v: Fx)
        ensures
            v@ == self@.b,
    {
        self.b
    }

    /// The alpha channel.
    pub fn get_a(&self) -> (v: Fx)
        ensures
            v@ == self@.a,
    {
        self.a
    }

    /// Full white.
    pub fn white() -> (c: Self)
        ensures
            c@ == (Rgba { r: SCALE as int, g: SCALE as int, b: SCALE as int, a: 0 }),
    {
        Color { r: Fx::one(), g: Fx::one(), b: Fx::one(), a: Fx::zero() }
    }

    /// Pure red.
    pub fn red() -> (c: Self)
        ensures
            c@ == (Rgba { r: SCALE as int, g: 0, b: 0, a: 0 }),
    {
        Color { r: Fx::one(), g: Fx::zero(), b: Fx::zero(), a: Fx::zero() }
    }

    /// Pure green.
    pub fn green() -> (c: Self)
        ensures
            c@ == (Rgba { r: 0, g: SCALE as int, b: 0, a: 0 }),
    {
        Color { r: Fx::zero(), g: Fx::one(), b: Fx::zero(), a: Fx::zero() }
    }

    /// Pure blue.
    pub fn blue() -> (c: Self)
        ensures
            c@ == (Rgba { r: 0, g: 0, b: SCALE as int, a: 0 }),
    {
        Color { r: Fx::zero(), g: Fx::zero(), b: Fx::one(), a: Fx::zero() }
    }

    /// Black.
    pub fn black() -> (c: Self)
        ensures
            c@ == (Rgba { r: 0, g: 0, b: 0, a: 0 }),
    {
        Color { r: Fx::zero(), g: Fx::zero(), b: Fx::zero(), a: Fx::zero() }
    }

    /// Red and green at once.
    pub fn yellow() -> (c: Self)
        ensures
            c@ == c_add(
                (Rgba { r: SCALE as int, g: 0, b: 0, a: 0 }),
                (Rgba { r: 0, g: SCALE as int, b: 0, a: 0 }),
            ),
    {
        Self::red().add(Self::green())
    }

    /// Red and blue at once.
    pub fn purple() -> (c: Self)
        ensures
            c@ == c_add(
                (Rgba { r: SCALE as int, g: 0, b: 0, a: 0 }),
                (Rgba { r: 0, g: 0, b: SCALE as int, a: 0 }),
            ),
    {
        Self::red().add(Self::blue())
    }

    /// Blue and green at once.
    pub fn turquoise() -> (c: Self)
        ensures
            c@ == c_add(
                (Rgba { r: 0, g: 0, b: SCALE as int, a: 0 }),
                (Rgba { r: 0, g: SCALE as int, b: 0, a: 0 }),
            ),
    {
        Self::blue().add(Self::green())
    }

    /// Mid gray.
    pub fn gray() -> (c: Self)
        ensures
            c@ == (Rgba { r: SCALE as int / 2, g: SCALE as int / 2, b: SCALE as int / 2, a: 0 }),
    {
        let half: Fx = Fx::from_units(SCALE / 2);
        Color { r: half, g: half, b: half, a: Fx::zero() }
    }

    /// Channelwise sum.
    pub fn add(self, rhs: Self) -> (c: Self)
        ensures
            c@ == c_add(self@, rhs@),
    {
        Color {
            r: self.r.add(rhs.r),
            g: self.g.add(rhs.g),
            b: self.b.add(rhs.b),
            a: self.a.add(rhs.a),
        }
    }

    /// Channelwise difference.
    pub fn sub(self, rhs: Self) -> (c: Self)
        ensures
            c@ == c_sub(self@, rhs@),
    {
        Color {
            r: self.r.sub(rhs.r),
            g: self.g.sub(rhs.g),
            b: self.b.sub(rhs.b),
            a: self.a.sub(rhs.a),
        }
    }

    /// Channelwise product.
    pub fn mul(self, rhs: Self) -> (c: Self)
        ensures
            c@ == c_mul(self@, rhs@),
    {
        Color {
            r: self.r.mul(rhs.r),
            g: self.g.mul(rhs.g),
            b: self.b.mul(rhs.b),
            a: self.a.mul(rhs.a),
        }
    }

    /// Every channel scaled by one value.
    pub fn scale(self, rhs: Fx) -> (c: Self)
        ensures
            c@ == c_scale(self@, rhs@),
    {
        Color {
            r: self.r.mul(rhs),
            g: self.g.mul(rhs),
            b: self.b.mul(rhs),
            a: self.a.mul(rhs),
        }
    }

    /// The color channels clamped into `[0, 1]`.
    pub fn clamped(&self) -> (c: Self)
        ensures
            c@ == c_clamped(self@),
    {
        let one: Fx = Fx::one();
        let nil: Fx = Fx::zero();
        let r: Fx = if one.lt(self.r) { one } else if self.r.is_neg() { nil } else { self.r };
        let g: Fx = if one.lt(self.g) { one } else if self.g.is_neg() { nil } else { self.g };
        let b: Fx = if one.lt(self.b) { one } else if self.b.is_neg() { nil } else { self.b };
        Color { r, g, b, a: self.a }
    }

    /// The color channels mirrored about one half.
    pub fn inverse(&self) -> (c: Self)
        ensures
            c@ == c_inverse(self@),
    {
        let one: Fx = Fx::one();
        Color {
            r: self.r.sub(one).abs(),
            g: self.g.sub(one).abs(),
            b: self.b.sub(one).abs(),
            a: self.a,
        }
    }

    /// The red, green and blue channels quantized to `0..=max`.
    pub fn quantized(&self, max: usize) -> (q: [usize; 3])
        ensures
            q@.len() == 3,
            q@[0] as int == chan_quantized(self@.r, max as int),
            q@[1] as int == chan_quantized(self@.g, max as int),
            q@[2] as int == chan_quantized(self@.b, max as int),
    {
        [
            quantize_channel(self.r, max),
            quantize_channel(self.g, max),
            quantize_channel(self.b, max),
        ]
    }
}

/// One channel quantized to `0..=max`.
fn quantize_channel(v: Fx, max: usize) -> (q: usize)
    ensures
        q as int == chan_quantized(v@, max as int),
        q <= max,
{
    let units: i64 = v.to_units();
    if units > SCALE {
        max
    } else if units < 0 {
        0
    } else {
        proof {
            vstd::arithmetic::mul::lemma_mul_inequality(units as int, SCALE as int, max as int);
        }
        let wide: u128 = (units as u128) * (max as u128);
        let q: u128 = wide / (SCALE as u128);
        proof {
            vstd::arithmetic::div_mod::lemma_div_is_ordered(
                (units as int) * (max as int),
                (SCALE as int) * (max as int),
                SCALE as int,
            );
            vstd::arithmetic::div_mod::lemma_div_multiples_vanish(max as int, SCALE as int);
        }
        q as usize
    }
}

} // verus!
