//! Colours, as four 8-bit channels.

use vstd::prelude::*;

verus! {

/// A colour with red, green, blue and alpha channels, each from 0 to 255.
#[derive(Clone, Copy, Debug, PartialEq, Eq)]
pub struct Color {
    pub r: u8,
    pub g: u8,
    pub b: u8,
    pub a: u8,
}

impl Color {
    /// An opaque colour with the given channels.
    pub open spec fn opaque(r: u8, g: u8, b: u8) -> Color {
        Color { r, g, b, a: 255 }
    }
}

pub open spec fn spec_white() -> Color {
    Color::opaque(255, 255, 255)
}

pub open spec fn spec_black() -> Color {
    Color::opaque(0, 0, 0)
}

pub open spec fn spec_gray() -> Color {
    Color::opaque(130, 130, 130)
}

pub open spec fn spec_darkgray() -> Color {
    Color::opaque(79, 79, 79)
}

pub open spec fn spec_blue() -> Color {
    Color::opaque(0, 120, 242)
}

pub open spec fn spec_charcoal() -> Color {
    Color::opaque(43, 44, 47)
}

#[verifier::when_used_as_spec(spec_white)]
pub fn white() -> (c: Color)
    ensures
        c == spec_white(),
{
    Color { r: 255, g: 255, b: 255, a: 255 }
}

#[verifier::when_used_as_spec(spec_black)]
pub fn black() -> (c: Color)
    ensures
        c == spec_black(),
{
    Color { r: 0, g: 0, b: 0, a: 255 }
}

#[verifier::when_used_as_spec(spec_gray)]
pub fn gray() -> (c: Color)
    ensures
        c == spec_gray(),
{
    Color { r: 130, g: 130, b: 130, a: 255 }
}

#[verifier::when_used_as_spec(spec_darkgray)]
pub fn darkgray() -> (c: Color)
    ensures
        c == spec_darkgray(),
{
    Color { r: 79, g: 79, b: 79, a: 255 }
}

#[verifier::when_used_as_spec(spec_blue)]
pub fn blue() -> (c: Color)
    ensures
        c == spec_blue(),
{
    Color { r: 0, g: 120, b: 242, a: 255 }
}

/// The dark gray that a canvas is cleared to when no background is chosen.
#[verifier::when_used_as_spec(spec_charcoal)]
pub fn charcoal() -> (c: Color)
    ensures
        c == spec_charcoal(),
{
    Color { r: 43, g: 44, b: 47, a: 255 }
}

} // verus!
