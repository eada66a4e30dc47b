//! The pixel value every buffer in this crate is made of.

use vstd::prelude::*;

verus! {

/// One screen pixel: four 8-bit channels.
#[derive(Clone, Copy, PartialEq, Eq, Structural, Debug)]
pub struct Color {
    pub alpha: u8,
    pub red: u8,
    pub green: u8,
    pub blue: u8,
}

impl Color {
    /// Builds a fully opaque color from its three channels.
    pub fn opaque(red: u8, green: u8, blue: u8) -> (c: Color)
        ensures
            c == (Color { alpha: 255, red, green, blue }),
    {
        Color { alpha: 255, red, green, blue }
    }

    /// The fill color of the cells the compositor never draws over.
    pub fn black() -> (c: Color)
        ensures
            c == Color::black_spec(),
    {
        Color { alpha: 255, red: 0, green: 0, blue: 0 }
    }

    /// The color of the separator rows of the debug overlay.
    pub fn light_gray() -> (c: Color)
        ensures
            c == Color::light_gray_spec(),
    {
        Color { alpha: 255, red: 100, green: 100, blue: 100 }
    }

    pub open spec fn black_spec() -> Color {
        Color { alpha: 255, red: 0, green: 0, blue: 0 }
    }

    pub open spec fn light_gray_spec() -> Color {
        Color { alpha: 255, red: 100, green: 100, blue: 100 }
    }
}

} // verus!
