use vstd::prelude::*;

verus! {

/// A 16-bit point in 2D space.
#[derive(Debug, PartialEq, Eq, Clone, Copy, Structural)]
pub struct Point {
    pub x: u16,
    pub y: u16,
}

/// A rectangle held by its four edges. The far edges are computed modulo
/// 2^16, so that width and height are always those it was built with.
#[derive(Debug, PartialEq, Eq, Clone, Copy, Structural)]
pub struct Rect {
    left: u16,
    right: u16,
    top: u16,
    bottom: u16,
}

impl View for Rect {
    /// The rectangle by its top-left corner and its size.
    type V = crate::segments::shared::Rect;

    closed spec fn view(&self) -> crate::segments::shared::Rect {
        crate::segments::shared::Rect {
            origin_x: self.left,
            origin_y: self.top,
            width: ((self.right as int - self.left as int) % 65536) as u16,
            height: ((self.bottom as int - self.top as int) % 65536) as u16,
        }
    }
}

impl Rect {
    pub fn new(x_offset: u16, y_offset: u16, width: u16, height: u16) -> (r: Self)
        ensures
            r@ == (crate::segments::shared::Rect { origin_x: x_offset, origin_y: y_offset, width, height }),
    {
        Self {
            left: x_offset,
            right: x_offset.wrapping_add(width),
            top: y_offset,
            bottom: y_offset.wrapping_add(height),
        }
    }

    pub fn width(&self) -> (r: u16)
        ensures
            r == self@.width,
    {
        self.right.wrapping_sub(self.left)
    }

    pub fn height(&self) -> (r: u16)
        ensures
            r == self@.height,
    {
        self.bottom.wrapping_sub(self.top)
    }
}

#[derive(Debug, PartialEq, Eq, Clone, Copy, Structural)]
pub struct ObjectId(pub u16);

impl ObjectId {
    pub fn new(id: u16) -> (r: Self)
        ensures
            r.0 == id,
    {
        Self(id)
    }

    pub fn raw_value(&self) -> (r: u16)
        ensures
            r == self.0,
    {
        self.0
    }
}

#[derive(Debug, PartialEq, Eq, Clone, Copy, Structural)]
pub struct WindowId(pub u8);

impl WindowId {
    pub fn new(id: u8) -> (r: Self)
        ensures
            r.0 == id,
    {
        Self(id)
    }

    pub fn raw_value(&self) -> (r: u8)
        ensures
            r == self.0,
    {
        self.0
    }
}

#[derive(Debug, PartialEq, Eq, Clone, Copy, Structural)]
pub struct PaletteId(pub u8);

impl PaletteId {
    pub fn new(id: u8) -> (r: Self)
        ensures
            r.0 == id,
    {
        Self(id)
    }

    pub fn raw_value(&self) -> (r: u8)
        ensures
            r == self.0,
    {
        self.0
    }
}

} // verus!
