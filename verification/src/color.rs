//! The two states of a display pixel.

use vstd::prelude::*;

verus! {

/// The colour of one pixel: `White` is a set pixel, `Black` an unset one.
#[derive(Debug, Clone, Copy, PartialEq, Eq, Structural)]
pub enum Color {
    White,
    Black,
}

impl Color {
    /// The opposite colour.
    pub open spec fn flipped(self) -> Color {
        match self {
            Color::White => Color::Black,
            Color::Black => Color::White,
        }
    }

    /// Whether the pixel is set.
    pub open spec fn lit(self) -> bool {
        self == Color::White
    }

    /// Toggles the colour: white becomes black and black becomes white.
    pub fn not(self) -> (out: Color)
        ensures
            out == self.flipped(),
    {
        match self {
            Color::White => Color::Black,
            Color::Black => Color::White,
        }
    }

    /// Whether the pixel is set.
    pub fn is_lit(self) -> (b: bool)
        ensures
            b == self.lit(),
    {
        self == Color::White
    }

    /// The red, green and blue components in which a host shows the colour.
    pub fn rgb(self) -> (out: (u8, u8, u8))
        ensures
            out == (if self.lit() { (255u8, 255u8, 255u8) } else { (0u8, 0u8, 0u8) }),
    {
        match self {
            Color::White => (255, 255, 255),
            Color::Black => (0, 0, 0),
        }
    }
}

impl Default for Color {
    /// A pixel starts out unset.
    fn default() -> (out: Color)
        ensures
            out == Color::Black,
    {
        Color::Black
    }
}

} // verus!
