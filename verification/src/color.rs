use vstd::prelude::*;

verus! {

/// A packed four-channel byte color value: red, green, blue, alpha.
///
/// Channels are stored as bytes; a normalized channel value `v` in `[0, 1]`
/// corresponds to the byte `(v * 255)`.
#[derive(Copy, Clone, Debug, PartialEq, Eq, Structural)]
pub struct Color {
    pub r: u8,
    pub g: u8,
    pub b: u8,
    pub a: u8,
}

impl Color {
    /// Opaque white, the default color.
    pub fn new() -> (c: Color)
        ensures
            c == (Color { r: 255, g: 255, b: 255, a: 255 }),
    {
        Color { r: 255, g: 255, b: 255, a: 255 }
    }

    /// A color with the given channel values.
    pub fn make(r: u8, g: u8, b: u8, a: u8) -> (c: Color)
        ensures
            c == (Color { r, g, b, a }),
    {
        Color { r, g, b, a }
    }
}

} // verus!
