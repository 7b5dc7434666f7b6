//! Four-channel colors.
//!
//! Channels are fixed-point scalars normally in `[0, 1]`.  The byte
//! conversion for the image sink rounds `clamp(value, 0, 1) * 255` to the
//! nearest integer.

use vstd::prelude::*;
use crate::fx::{Fx, fx_add, fx_mul, fx_div, fx_clamp_to, FX_ONE_RAW};
use crate::vec3::{Vec3, V3};

verus! {

/// The model of a color: four channel numerators.
pub struct C4 {
    pub r: int,
    pub g: int,
    pub b: int,
    pub a: int,
}

/// The channel value of the byte `n`: `n / 255`.
pub open spec fn c_of_u8(n: int) -> int {
    fx_div(n * (FX_ONE_RAW as int), 255 * (FX_ONE_RAW as int))
}

/// The byte of a channel: `clamp(value, 0, 1) * 255`, rounded to nearest.
pub open spec fn byte_of(v: int) -> int {
    (fx_clamp_to(v, 0, FX_ONE_RAW as int) * 255 + (FX_ONE_RAW as int) / 2) / (FX_ONE_RAW as int)
}

/// Component-wise sum.
pub open spec fn c_add(a: C4, b: C4) -> C4 {
    C4 { r: fx_add(a.r, b.r), g: fx_add(a.g, b.g), b: fx_add(a.b, b.b), a: fx_add(a.a, b.a) }
}

/// Component-wise product.
pub open spec fn c_mul(a: C4, b: C4) -> C4 {
    C4 { r: fx_mul(a.r, b.r), g: fx_mul(a.g, b.g), b: fx_mul(a.b, b.b), a: fx_mul(a.a, b.a) }
}

/// Each channel divided by the integer `s`.
pub open spec fn c_div_int(c: C4, s: int) -> C4 {
    C4 {
        r: fx_div(c.r, s * (FX_ONE_RAW as int)),
        g: fx_div(c.g, s * (FX_ONE_RAW as int)),
        b: fx_div(c.b, s * (FX_ONE_RAW as int)),
        a: fx_div(c.a, s * (FX_ONE_RAW as int)),
    }
}

/// A four-channel color.
#[derive(Clone, Copy, Debug, PartialEq, Eq, Structural)]
pub struct Color {
    pub r: Fx,
    pub g: Fx,
    pub b: Fx,
    pub a: Fx,
}

impl View for Color {
    type V = C4;

    open spec fn view(&self) -> C4 {
        C4 { r: self.r@, g: self.g@, b: self.b@, a: self.a@ }
    }
}

/// The channel value of one byte.
fn u8_r(n: u8) -> (r: Fx)
    ensures
        r@ == c_of_u8(n as int),
{
    Fx::from_u32(n as u32).div(Fx::from_int(255))
}

/// The byte of one channel.
fn r_u8(n: Fx) -> (r: u8)
    ensures
        r as int == byte_of(n@),
{
    let c: i64 = crate::fx::clamp(n, Fx::zero(), Fx::one()).raw();
    (((c * 255) + 32768) / 65536) as u8
}

impl Color {
    /// The color with the given byte channels.
    pub fn from_u8(r: u8, g: u8, b: u8, a: u8) -> (c: Color)
        ensures
            c@ == (C4 {
                r: c_of_u8(r as int),
                g: c_of_u8(g as int),
                b: c_of_u8(b as int),
                a: c_of_u8(a as int),
            }),
    {
        Color { r: u8_r(r), g: u8_r(g), b: u8_r(b), a: u8_r(a) }
    }

    pub fn new(r: Fx, g: Fx, b: Fx, a: Fx) -> (c: Color)
        ensures
            c@ == (C4 { r: r@, g: g@, b: b@, a: a@ }),
    {
        Color { r, g, b, a }
    }

    /// A color from a vector's components, with the given alpha byte.
    pub fn from_vec3(v: Vec3, alpha: u8) -> (c: Color)
        ensures
            c@ == (C4 { r: v@.x, g: v@.y, b: v@.z, a: c_of_u8(alpha as int) }),
    {
        Color { r: v.x, g: v.y, b: v.z, a: u8_r(alpha) }
    }

    /// The accumulated color averaged over `samples` samples.
    pub fn from_samples(&self, samples: u32) -> (c: Color)
        ensures
            c@ == c_div_int(self@, samples as int),
    {
        self.div_u32(samples)
    }

    /// Each channel divided by the integer `rhs`.
    pub fn div_u32(self, rhs: u32) -> (c: Color)
        ensures
            c@ == c_div_int(self@, rhs as int),
    {
        let d = Fx::from_u32(rhs);
        Color { r: self.r.div(d), g: self.g.div(d), b: self.b.div(d), a: self.a.div(d) }
    }

    /// Component-wise product.
    pub fn mul(self, rhs: Color) -> (c: Color)
        ensures
            c@ == c_mul(self@, rhs@),
    {
        Color {
            r: self.r.mul(rhs.r),
            g: self.g.mul(rhs.g),
            b: self.b.mul(rhs.b),
            a: self.a.mul(rhs.a),
        }
    }

    /// Component-wise sum, in place.
    pub fn add_assign(&mut self, rhs: Color)
        ensures
            final(self)@ == c_add(old(self)@, rhs@),
    {
        self.r = self.r.add(rhs.r);
        self.g = self.g.add(rhs.g);
        self.b = self.b.add(rhs.b);
        self.a = self.a.add(rhs.a);
    }

    /// The four channel bytes, red first.
    pub fn to_bytes(self) -> (r: [u8; 4])
        ensures
            r@.len() == 4,
            r@[0] as int == byte_of(self@.r),
            r@[1] as int == byte_of(self@.g),
            r@[2] as int == byte_of(self@.b),
            r@[3] as int == byte_of(self@.a),
    {
        [r_u8(self.r), r_u8(self.g), r_u8(self.b), r_u8(self.a)]
    }
}

} // verus!
