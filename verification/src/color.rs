//! The color of a text, written as `#RRGGBB` by `hex_color`.

use vstd::prelude::*;
use crate::digits::hex_digits;

verus! {

/// A color with red, green, blue and alpha channel; an alpha of 255 is
/// opaque.
#[derive(Clone, Copy, Debug, PartialEq, Eq, Structural)]
pub struct Color {
    pub r: u8,
    pub g: u8,
    pub b: u8,
    pub a: u8,
}

impl Color {
    /// Opaque black.
    pub open spec fn black_spec() -> Color {
        Color { r: 0, g: 0, b: 0, a: 255 }
    }

    /// The color as `#RRGGBB`: each channel but alpha with two hexadecimal
    /// digits in capital letters.
    pub open spec fn rgb_text(self) -> Seq<char> {
        seq!['#'] + hex_digits(self.r as nat, 2, true) + hex_digits(self.g as nat, 2, true)
            + hex_digits(self.b as nat, 2, true)
    }

    /// An opaque color with the given channels.
    pub fn rgb(r: u8, g: u8, b: u8) -> (c: Color)
        ensures
            c == (Color { r, g, b, a: 255 }),
    {
        Color { r, g, b, a: 255 }
    }

    /// Opaque black, the color of a text for which none was chosen.
    pub fn black() -> (c: Color)
        ensures
            c == Color::black_spec(),
    {
        solid_black()
    }

    /// The color as `#RRGGBB`.
    pub fn display_rgb(&self) -> (text: String)
        ensures
            text@ == self.rgb_text(),
    {
        rgb_text_of(*self)
    }
}

/// `HexColor::BLACK`, documented as solid black with the channels
/// `(0, 0, 0, 255)`.
#[verifier::external_body]
fn solid_black() -> (c: Color)
    ensures
        c == Color::black_spec(),
{
    let black = hex_color::HexColor::BLACK;
    Color { r: black.r, g: black.g, b: black.b, a: black.a }
}

/// `HexColor::display_rgb`, formatted: `#` and the red, green and blue
/// channel, each as two capital hexadecimal digits; the alpha channel is
/// hidden.
#[verifier::external_body]
fn rgb_text_of(color: Color) -> (text: String)
    ensures
        text@ == color.rgb_text(),
{
    hex_color::HexColor::rgba(color.r, color.g, color.b, color.a).display_rgb().to_string()
}

} // verus!
