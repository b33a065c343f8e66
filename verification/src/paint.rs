//! The paint model: colors, stroke styling and shadows. Pure data; absence
//! of a descriptor on a path means the corresponding operation is skipped.

use vstd::prelude::*;

use crate::geometry::Vec2D;

verus! {

/// An RGBA color with 8 bits per channel.
#[derive(Clone, Copy, Debug, PartialEq, Eq, Structural)]
pub struct Color {
    pub r: u8,
    pub g: u8,
    pub b: u8,
    pub a: u8,
}

impl Color {
    pub fn rgba(r: u8, g: u8, b: u8, a: u8) -> (c: Color)
        ensures
            c == (Color { r, g, b, a }),
    {
        Color { r, g, b, a }
    }

    /// Opaque black.
    pub fn black() -> (c: Color)
        ensures
            c == (Color { r: 0, g: 0, b: 0, a: 255 }),
    {
        Color { r: 0, g: 0, b: 0, a: 255 }
    }

    /// The same color with another alpha channel.
    pub fn with_alpha(&self, a: u8) -> (c: Color)
        ensures
            c == (Color { a, ..*self }),
    {
        Color { a, ..*self }
    }
}

/// How a stroked line ends.
#[derive(Clone, Copy, Debug, PartialEq, Eq, Structural)]
pub enum StrokeCapType {
    Butt,
    Round,
}

/// How two stroked segments join.
#[derive(Clone, Copy, Debug, PartialEq, Eq, Structural)]
pub enum StrokeJoinType {
    Miter,
    Round,
    Bevel,
}

/// Denominator of a gradient stop offset: an offset of [`OFFSET_UNIT`] sits
/// at the end of the gradient, an offset of zero at its start.
pub const OFFSET_UNIT: i64 = 1000000;

/// One color stop of a gradient. The caller keeps stops in monotonic offset
/// order; the library neither sorts nor de-duplicates them.
#[derive(Clone, Copy, Debug, PartialEq, Eq, Structural)]
pub struct GradientStop {
    pub offset: i64,
    pub color: Color,
}

/// A drop shadow: color, blur radius and offset.
#[derive(Clone, Copy, Debug, PartialEq, Eq, Structural)]
pub struct Shadow {
    pub color: Color,
    pub blur: i64,
    pub offset: Vec2D,
}

} // verus!
