//! Pen positions and rectangles, with their mathematical models.

use vstd::prelude::*;

verus! {

/// A pen position over the unbounded integers.
pub struct PenModel {
    pub x: int,
    pub y: int,
}

/// A rectangle over the unbounded integers: its top-left corner and its size.
pub struct RectModel {
    pub x: int,
    pub y: int,
    pub w: int,
    pub h: int,
}

impl RectModel {
    /// Whether a [`Rect`] can hold the rectangle.
    pub open spec fn representable(self) -> bool {
        &&& i128::MIN <= self.x <= i128::MAX
        &&& i128::MIN <= self.y <= i128::MAX
        &&& i128::MIN <= self.w <= i128::MAX
        &&& i128::MIN <= self.h <= i128::MAX
    }

    /// Whether the pixel `(px, py)` lies inside the rectangle.
    pub open spec fn covers(self, px: int, py: int) -> bool {
        &&& self.x <= px < self.x + self.w
        &&& self.y <= py < self.y + self.h
    }
}

/// The absolute position at which the next glyph is drawn: the top-left
/// corner of its cell. The coordinates are twice as wide as those of the
/// point at which a text begins, so no text can take the pen out of their
/// range.
#[derive(Clone, Copy, Debug, PartialEq, Eq, Structural)]
pub struct Pen {
    pub x: i128,
    pub y: i128,
}

impl View for Pen {
    type V = PenModel;

    open spec fn view(&self) -> PenModel {
        PenModel { x: self.x as int, y: self.y as int }
    }
}

/// A filled, axis-aligned rectangle in absolute coordinates.
#[derive(Clone, Copy, Debug, PartialEq, Eq, Structural)]
pub struct Rect {
    pub x: i128,
    pub y: i128,
    pub w: i128,
    pub h: i128,
}

impl View for Rect {
    type V = RectModel;

    open spec fn view(&self) -> RectModel {
        RectModel { x: self.x as int, y: self.y as int, w: self.w as int, h: self.h as int }
    }
}

} // verus!
