//! Solid RGBA colors used by the rendering layer.

use vstd::prelude::*;

verus! {

/// An RGBA color with 8-bit channels.
#[derive(Debug, Copy, Clone, PartialEq, Eq, Structural)]
pub struct Color {
    pub r: u8,
    pub b: u8,
    pub g: u8,
    pub a: u8,
}

impl Color {
    /// The sky color used to clear the screen.
    pub fn light_blue() -> (c: Self)
        ensures
            c == (Color { r: 0, g: 159, b: 207, a: 255 }),
    {
        Self { r: 0, g: 159, b: 207, a: 255 }
    }

    /// Opaque white.
    pub fn white() -> (c: Self)
        ensures
            c == (Color { r: 255, g: 255, b: 255, a: 255 }),
    {
        Self { r: 255, g: 255, b: 255, a: 255 }
    }

    /// Opaque black.
    pub fn black() -> (c: Self)
        ensures
            c == (Color { r: 0, g: 0, b: 0, a: 255 }),
    {
        Self { r: 0, g: 0, b: 0, a: 255 }
    }
}

} // verus!
