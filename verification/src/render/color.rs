//! Colours.

use vstd::prelude::*;

verus! {

/// A colour of four channels. Each field holds the bit pattern of a
/// single-precision number, nominally between zero and one.
#[derive(Clone, Copy, PartialEq, Eq, Structural, Hash, Debug)]
pub struct Color {
    pub r: u32,
    pub g: u32,
    pub b: u32,
    pub a: u32,
}

/// The bit pattern of the single-precision number one.
pub const ONE_BITS: u32 = 0x3f80_0000;

impl Color {
    /// The colour of the four given channels.
    pub fn srgba(r: u32, g: u32, b: u32, a: u32) -> (c: Self)
        ensures
            c == (Color { r, g, b, a }),
    {
        Color { r, g, b, a }
    }

    /// The opaque colour of the three given channels.
    pub fn srgb(r: u32, g: u32, b: u32) -> (c: Self)
        ensures
            c == (Color { r, g, b, a: ONE_BITS }),
    {
        Color { r, g, b, a: ONE_BITS }
    }
}

} // verus!
