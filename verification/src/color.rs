//! Colours with fixed-point channels.

use vstd::prelude::*;

verus! {

/// A colour in sRGB with its opacity, each channel in billionths of full.
#[derive(Clone, Copy, Debug, PartialEq, Eq, Structural)]
pub struct Color {
    pub red: i64,
    pub green: i64,
    pub blue: i64,
    pub alpha: i64,
}

impl Color {
    /// An opaque colour.
    pub fn srgb(red: i64, green: i64, blue: i64) -> (c: Color)
        ensures
            c == (Color { red, green, blue, alpha: 1_000_000_000 }),
    {
        Color { red, green, blue, alpha: 1_000_000_000 }
    }

    /// A colour with the given opacity.
    pub fn srgba(red: i64, green: i64, blue: i64, alpha: i64) -> (c: Color)
        ensures
            c == (Color { red, green, blue, alpha }),
    {
        Color { red, green, blue, alpha }
    }
}

} // verus!
