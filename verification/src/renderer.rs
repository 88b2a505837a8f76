//! The values the GPU front-end hands to a renderer sink: screen positions,
//! colors, and whole draw commands. The core never draws; it assembles
//! commands and leaves presenting them to the embedder.

use vstd::prelude::*;

verus! {

/// A signed 16-bit screen position.
#[derive(Clone, Copy, Debug, PartialEq, Eq, Structural)]
pub struct Position {
    /// The horizontal coordinate.
    pub x: i16,
    /// The vertical coordinate.
    pub y: i16,
}

/// An 8-bit-per-channel color.
#[derive(Clone, Copy, Debug, PartialEq, Eq, Structural)]
pub struct Color {
    /// The red channel.
    pub r: u8,
    /// The green channel.
    pub g: u8,
    /// The blue channel.
    pub b: u8,
}

/// The position packed into a command word: x in the low half-word, y in
/// the high one, both signed.
pub open spec fn spec_position_from_word(word: u32) -> Position {
    Position { x: (word & 0xffff) as i16, y: ((word >> 16) & 0xffff) as i16 }
}

/// The color packed into a command word: red, green and blue in the low
/// three bytes.
pub open spec fn spec_color_from_word(word: u32) -> Color {
    Color { r: (word & 0xff) as u8, g: ((word >> 8) & 0xff) as u8, b: ((word >> 16) & 0xff) as u8 }
}

impl Position {
    /// Unpacks a position from a command word: x in the low half-word, y in
    /// the high one, both signed.
    pub fn from_word(word: u32) -> (r: Position)
        ensures
            r == spec_position_from_word(word),
    {
        Position { x: (word & 0xffff) as i16, y: ((word >> 16) & 0xffff) as i16 }
    }

    /// The horizontal coordinate.
    pub fn x(&self) -> (r: i16)
        ensures
            r == self.x,
    {
        self.x
    }

    /// The vertical coordinate.
    pub fn y(&self) -> (r: i16)
        ensures
            r == self.y,
    {
        self.y
    }
}

impl Color {
    /// Unpacks a color from a command word: red, green and blue in the low
    /// three bytes.
    pub fn from_word(word: u32) -> (r: Color)
        ensures
            r == spec_color_from_word(word),
    {
        Color { r: (word & 0xff) as u8, g: ((word >> 8) & 0xff) as u8, b: ((word >> 16) & 0xff) as u8 }
    }

    /// The red channel.
    pub fn r(&self) -> (r: u8)
        ensures
            r == self.r,
    {
        self.r
    }

    /// The green channel.
    pub fn g(&self) -> (r: u8)
        ensures
            r == self.g,
    {
        self.g
    }

    /// The blue channel.
    pub fn b(&self) -> (r: u8)
        ensures
            r == self.b,
    {
        self.b
    }
}

/// One submission to the renderer sink, with its vertices in command order.
#[derive(Clone, Copy, Debug, PartialEq, Eq, Structural)]
pub enum DrawCommand {
    /// A three-vertex polygon.
    Triangle {
        p0: Position,
        p1: Position,
        p2: Position,
        c0: Color,
        c1: Color,
        c2: Color,
    },
    /// A four-vertex polygon.
    Quad {
        p0: Position,
        p1: Position,
        p2: Position,
        p3: Position,
        c0: Color,
        c1: Color,
        c2: Color,
        c3: Color,
    },
}

} // verus!
