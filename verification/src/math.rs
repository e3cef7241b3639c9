//! Small linear-algebra and color value types.
//!
//! Every scalar is the bit pattern of an IEEE-754 single-precision float,
//! carried as a `u32`. The pipeline never computes with these values; it only
//! moves them between the configuration, the uniform layout and the GPU, so a
//! bit pattern is the exact model of a scalar and packing round-trips are
//! bit-exact by construction.

use vstd::prelude::*;

verus! {

/// Bit pattern of the single-precision float 0.0.
pub const BITS_ZERO: u32 = 0x0000_0000;

/// Bit pattern of the single-precision float 1.0.
pub const BITS_ONE: u32 = 0x3F80_0000;

/// An RGBA color; each channel is a single-precision float bit pattern.
#[derive(Clone, Copy, Debug, PartialEq, Eq, Structural)]
pub struct Color {
    pub red: u32,
    pub green: u32,
    pub blue: u32,
    pub alpha: u32,
}

/// Opaque white, `(1, 1, 1, 1)`.
pub open spec fn color_white() -> Color {
    Color { red: BITS_ONE, green: BITS_ONE, blue: BITS_ONE, alpha: BITS_ONE }
}

/// Opaque black, `(0, 0, 0, 1)`.
pub open spec fn color_black() -> Color {
    Color { red: BITS_ZERO, green: BITS_ZERO, blue: BITS_ZERO, alpha: BITS_ONE }
}

/// Opaque pure red, `(1, 0, 0, 1)`.
pub open spec fn color_red() -> Color {
    Color { red: BITS_ONE, green: BITS_ZERO, blue: BITS_ZERO, alpha: BITS_ONE }
}

/// Opaque pure green, `(0, 1, 0, 1)`.
pub open spec fn color_green() -> Color {
    Color { red: BITS_ZERO, green: BITS_ONE, blue: BITS_ZERO, alpha: BITS_ONE }
}

/// Opaque pure blue, `(0, 0, 1, 1)`.
pub open spec fn color_blue() -> Color {
    Color { red: BITS_ZERO, green: BITS_ZERO, blue: BITS_ONE, alpha: BITS_ONE }
}

impl Color {
    /// Opaque white, `(1, 1, 1, 1)`.
    pub fn white() -> (c: Color)
        ensures
            c == color_white(),
    {
        Color { red: BITS_ONE, green: BITS_ONE, blue: BITS_ONE, alpha: BITS_ONE }
    }

    /// Opaque black, `(0, 0, 0, 1)`.
    pub fn black() -> (c: Color)
        ensures
            c == color_black(),
    {
        Color { red: BITS_ZERO, green: BITS_ZERO, blue: BITS_ZERO, alpha: BITS_ONE }
    }
}

/// A three-component vector of single-precision float bit patterns.
#[derive(Clone, Copy, Debug, PartialEq, Eq, Structural)]
pub struct Vec3 {
    pub x: u32,
    pub y: u32,
    pub z: u32,
}

/// A four-component vector of single-precision float bit patterns.
#[derive(Clone, Copy, Debug, PartialEq, Eq, Structural)]
pub struct Vec4 {
    pub x: u32,
    pub y: u32,
    pub z: u32,
    pub w: u32,
}

/// The `Vec4` carrying the four channels of a color, in RGBA order.
pub open spec fn vec4_of_color(c: Color) -> Vec4 {
    Vec4 { x: c.red, y: c.green, z: c.blue, w: c.alpha }
}

impl From<Color> for Vec4 {
    /// The four channels of the color become `(x, y, z, w)`, in RGBA order.
    fn from(value: Color) -> (v: Vec4)
        ensures
            v == vec4_of_color(value),
    {
        Vec4 { x: value.red, y: value.green, z: value.blue, w: value.alpha }
    }
}

impl vstd::std_specs::convert::FromSpecImpl<Color> for Vec4 {
    open spec fn obeys_from_spec() -> bool {
        true
    }

    open spec fn from_spec(v: Color) -> Vec4 {
        vec4_of_color(v)
    }
}

/// The first three channels of a color, as a `Vec3`.
pub open spec fn vec3_of_color(c: Color) -> Vec3 {
    Vec3 { x: c.red, y: c.green, z: c.blue }
}

impl Vec3 {
    /// The `(red, green, blue)` channels of `c`, dropping alpha.
    pub fn of_color(c: &Color) -> (v: Vec3)
        ensures
            v == vec3_of_color(*c),
    {
        Vec3 { x: c.red, y: c.green, z: c.blue }
    }
}

/// A 3x3 matrix of single-precision float bit patterns, stored by rows.
#[derive(Clone, Copy, Debug, PartialEq, Eq, Structural)]
pub struct Mat3 {
    pub row0: Vec3,
    pub row1: Vec3,
    pub row2: Vec3,
}

} // verus!
