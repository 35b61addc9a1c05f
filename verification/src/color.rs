//! Colours and their single-channel brightness.

use vstd::prelude::*;

verus! {

/// The brightness of a colour with the channel weights 0.30, 0.59 and 0.11,
/// rounded to the nearest whole number (a half rounds up).
pub open spec fn luma(r: int, g: int, b: int) -> int {
    (30 * r + 59 * g + 11 * b + 50) / 100
}

/// A colour as red, green and blue, independent of any buffer's byte layout.
#[derive(Clone, Copy, Debug, PartialEq, Eq, Structural)]
pub struct Color {
    pub r: u8,
    pub g: u8,
    pub b: u8,
}

impl Color {
    /// Full brightness on every channel.
    pub fn white() -> (c: Self)
        ensures
            c == (Color { r: 255, g: 255, b: 255 }),
    {
        Self { r: 255, g: 255, b: 255 }
    }

    /// Full green, no red and no blue.
    pub fn green() -> (c: Self)
        ensures
            c == (Color { r: 0, g: 255, b: 0 }),
    {
        Self { r: 0, g: 255, b: 0 }
    }

    pub fn new(r: u8, g: u8, b: u8) -> (c: Self)
        ensures
            c.r == r,
            c.g == g,
            c.b == b,
    {
        Self { r, g, b }
    }

    /// The brightness of this colour as a mathematical integer.
    pub open spec fn luma(self) -> int {
        luma(self.r as int, self.g as int, self.b as int)
    }

    /// The single byte that stands for this colour on a one-channel display.
    pub fn grayscale(self) -> (y: u8)
        ensures
            y as int == self.luma(),
    {
        let weighted: u32 = 30 * (self.r as u32) + 59 * (self.g as u32) + 11 * (self.b as u32);
        let rounded: u32 = (weighted + 50) / 100;
        rounded as u8
    }
}

/// Brightness stays within one byte, is least for black and greatest for white.
pub proof fn luma_bounds(c: Color)
    ensures
        0 <= c.luma() <= 255,
        (Color { r: 0, g: 0, b: 0 }).luma() == 0,
        (Color { r: 255, g: 255, b: 255 }).luma() == 255,
{
}

} // verus!
