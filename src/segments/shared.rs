use vstd::prelude::*;

verus! {

/// Identifies a bitmap object.
#[derive(Debug, PartialEq, Eq, Clone, Copy, Hash, Structural)]
pub struct ObjectId {
    pub raw_id: u16,
}

/// Identifies a window on screen.
#[derive(Debug, PartialEq, Eq, Clone, Copy, Hash, Structural)]
pub struct WindowId {
    pub raw_id: u8,
}

/// Identifies a palette.
#[derive(Debug, PartialEq, Eq, Clone, Copy, Hash, Structural)]
pub struct PaletteId {
    pub raw_id: u8,
}

/// Index of a color in a palette; one bitmap pixel.
#[derive(Debug, PartialEq, Eq, Clone, Copy, Hash, Structural)]
pub struct ColorId {
    pub raw_id: u8,
}

/// A position on screen.
#[derive(Debug, PartialEq, Eq, Clone, Copy, Hash, Structural)]
pub struct Point {
    pub x: u16,
    pub y: u16,
}

/// A rectangle given by its top-left corner and its size.
#[derive(Debug, PartialEq, Eq, Clone, Copy, Hash, Structural)]
pub struct Rect {
    pub origin_x: u16,
    pub origin_y: u16,
    pub width: u16,
    pub height: u16,
}

} // verus!
