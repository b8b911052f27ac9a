//! Plain value types shared across the library: screen positions, pixel
//! dimensions, label offsets, and the per-entity saved settings record.

use vstd::prelude::*;

verus! {

/// A screen position in pixels (top-left corner of a window).
#[derive(Debug, Clone, Copy, PartialEq, Eq, Structural)]
pub struct Position {
    pub x: i16,
    pub y: i16,
}

impl Position {
    pub fn new(x: i16, y: i16) -> (r: Position)
        ensures
            r == (Position { x, y }),
    {
        Position { x, y }
    }
}

/// Pixel dimensions of a thumbnail window, fixed at creation.
#[derive(Debug, Clone, Copy, PartialEq, Eq, Structural)]
pub struct Dimensions {
    pub width: u16,
    pub height: u16,
}

impl Dimensions {
    pub fn new(width: u16, height: u16) -> (r: Dimensions)
        ensures
            r == (Dimensions { width, height }),
    {
        Dimensions { width, height }
    }
}

/// Offset of the entity label from the thumbnail's top-left corner.
#[derive(Debug, Clone, Copy, PartialEq, Eq, Structural)]
pub struct TextOffset {
    pub x: i16,
    pub y: i16,
}

impl TextOffset {
    /// The configured label offsets are measured from the border edge.
    pub fn from_border_edge(x: i16, y: i16) -> (r: TextOffset)
        ensures
            r == (TextOffset { x, y }),
    {
        TextOffset { x, y }
    }
}

/// Durable per-entity settings: last saved position and thumbnail size.
#[derive(Debug, Clone, Copy, PartialEq, Eq, Structural)]
pub struct CharacterSettings {
    pub x: i16,
    pub y: i16,
    pub dimensions: Dimensions,
}

impl CharacterSettings {
    pub fn new(x: i16, y: i16, width: u16, height: u16) -> (r: CharacterSettings)
        ensures
            r == (CharacterSettings { x, y, dimensions: Dimensions { width, height } }),
    {
        CharacterSettings { x, y, dimensions: Dimensions { width, height } }
    }

    pub fn position(&self) -> (r: Position)
        ensures
            r == (Position { x: self.x, y: self.y }),
    {
        Position { x: self.x, y: self.y }
    }

    pub fn dimensions(&self) -> (r: (u16, u16))
        ensures
            r.0 == self.dimensions.width,
            r.1 == self.dimensions.height,
    {
        (self.dimensions.width, self.dimensions.height)
    }
}

} // verus!
