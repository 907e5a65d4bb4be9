//! The primitive drawing operations of a glyph and the rectangle each one
//! gives at a pen position.

use vstd::prelude::*;
use crate::geometry::{Pen, PenModel, Rect, RectModel};

verus! {

/// The side of one pixel.
pub const WIDTH: i128 = 1;

/// The gap left around a pixel.
pub const MARGIN: i128 = 0;

/// One drawing operation in the coordinates of a glyph cell. Columns grow to
/// the right and rows grow downwards; both are nominally 0 to 4.
#[derive(Clone, Copy, Debug, PartialEq, Eq, Structural)]
pub enum Stroke {
    /// A single pixel at `(col, row)`.
    Point(i8, i8),
    /// The pixels of column `col` from row `from` to row `to`, both included:
    /// `VerticalRun(col, from, to)`.
    VerticalRun(i8, i8, i8),
    /// The pixels of row `row` from column `from` to column `to`, both
    /// included: `HorizontalRun(row, from, to)`.
    HorizontalRun(i8, i8, i8),
}

impl Stroke {
    /// Whether the stroke fills the pixel at `(col, row)` of its cell.
    pub open spec fn fills(self, col: int, row: int) -> bool {
        match self {
            Stroke::Point(c, r) => col == c && row == r,
            Stroke::VerticalRun(c, from, to) => col == c && from <= row <= to,
            Stroke::HorizontalRun(r, from, to) => row == r && from <= col <= to,
        }
    }
}

/// The rectangle that a stroke fills when the cell's corner is at `pen`.
pub open spec fn rect_of(pen: PenModel, stroke: Stroke) -> RectModel {
    match stroke {
        Stroke::Point(col, row) => RectModel {
            x: pen.x + col + MARGIN,
            y: pen.y + row + MARGIN,
            w: WIDTH as int,
            h: WIDTH as int,
        },
        Stroke::VerticalRun(col, from, to) => RectModel {
            x: pen.x + col + MARGIN,
            y: pen.y + from + MARGIN,
            w: WIDTH as int,
            h: (to - from) + WIDTH,
        },
        Stroke::HorizontalRun(row, from, to) => RectModel {
            x: pen.x + from + MARGIN,
            y: pen.y + row + MARGIN,
            w: (to - from) + WIDTH,
            h: WIDTH as int,
        },
    }
}

/// The rectangle of the pixel at `(col, row)`.
pub fn pixel(pen: Pen, col: i8, row: i8) -> (rect: Rect)
    requires
        rect_of(pen@, Stroke::Point(col, row)).representable(),
    ensures
        rect@ == rect_of(pen@, Stroke::Point(col, row)),
{
    Rect {
        x: pen.x + (col as i128) + MARGIN,
        y: pen.y + (row as i128) + MARGIN,
        w: WIDTH,
        h: WIDTH,
    }
}

/// The rectangle of the vertical run in column `col` from row `from` to row
/// `to`.
pub fn v_line(pen: Pen, col: i8, from: i8, to: i8) -> (rect: Rect)
    requires
        rect_of(pen@, Stroke::VerticalRun(col, from, to)).representable(),
    ensures
        rect@ == rect_of(pen@, Stroke::VerticalRun(col, from, to)),
{
    Rect {
        x: pen.x + (col as i128) + MARGIN,
        y: pen.y + (from as i128) + MARGIN,
        w: WIDTH,
        h: ((to as i128) - (from as i128)) + WIDTH,
    }
}

/// The rectangle of the horizontal run in row `row` from column `from` to
/// column `to`.
pub fn h_line(pen: Pen, row: i8, from: i8, to: i8) -> (rect: Rect)
    requires
        rect_of(pen@, Stroke::HorizontalRun(row, from, to)).representable(),
    ensures
        rect@ == rect_of(pen@, Stroke::HorizontalRun(row, from, to)),
{
    Rect {
        x: pen.x + (from as i128) + MARGIN,
        y: pen.y + (row as i128) + MARGIN,
        w: ((to as i128) - (from as i128)) + WIDTH,
        h: WIDTH,
    }
}

impl Stroke {
    /// The rectangle that this stroke fills when the cell's corner is at
    /// `pen`.
    pub fn rect_at(&self, pen: Pen) -> (rect: Rect)
        requires
            rect_of(pen@, *self).representable(),
        ensures
            rect@ == rect_of(pen@, *self),
    {
        match *self {
            Stroke::Point(col, row) => pixel(pen, col, row),
            Stroke::VerticalRun(col, from, to) => v_line(pen, col, from, to),
            Stroke::HorizontalRun(row, from, to) => h_line(pen, row, from, to),
        }
    }
}

/// The rectangle of a stroke covers the pixels that the stroke fills, moved
/// to the pen, and no others.
pub proof fn lemma_rect_covers_stroke(pen: PenModel, stroke: Stroke, col: int, row: int)
    ensures
        rect_of(pen, stroke).covers(pen.x + col, pen.y + row) <==> stroke.fills(col, row),
{
}

} // verus!
