use crate::scope::{ScopeKind, ScopeToken};
use vstd::prelude::*;

verus! {

/// A color with 8 bits for each of red, green, blue and alpha.
#[derive(Debug, Clone, Copy, PartialEq, Eq, Hash, PartialOrd, Ord, Structural)]
pub struct Color {
    pub r: u8,
    pub g: u8,
    pub b: u8,
    pub a: u8,
}

impl Color {
    /// The opaque color with the given red, green and blue.
    pub fn rgb(r: u8, g: u8, b: u8) -> (c: Color)
        ensures
            c == (Color { r, g, b, a: 255 }),
    {
        Color { r, g, b, a: 255 }
    }

    /// The color with the given red, green, blue and alpha.
    pub fn rgba(r: u8, g: u8, b: u8, a: u8) -> (c: Color)
        ensures
            c == (Color { r, g, b, a }),
    {
        Color { r, g, b, a }
    }

    /// The color packed as `0xRRGGBBAA`.
    pub open spec fn packed(self) -> int {
        self.r * 0x1000000 + self.g * 0x10000 + self.b * 0x100 + self.a
    }

    /// The color packed as `0xRRGGBBAA`, as the native library's `ColorToInt` packs it.
    pub fn to_int(self) -> (r: u32)
        ensures
            r == self.packed(),
    {
        (self.r as u32) * 0x1000000 + (self.g as u32) * 0x10000 + (self.b as u32) * 0x100 + (
        self.a as u32)
    }
}

} // verus!
