//! The digits. Each is one pixel narrower than a letter.

use vstd::prelude::*;
use crate::glyph::{Glyph, Shape};
use crate::stroke::Stroke::{HorizontalRun, Point, VerticalRun};

verus! {

/// The shape of the digit `1`.
///
/// ```text
/// .##..
/// ..#..
/// ..#..
/// ..#..
/// .###.
/// ```
///
/// It is 1 pixel narrower than a full cell.
pub open spec fn shape_one() -> Shape {
    Shape {
        strokes: seq![
            Point(1, 0),
            VerticalRun(2, 0, 3),
            HorizontalRun(4, 1, 3),
        ],
        shrink: 1,
    }
}

/// The glyph of the digit `1`.
pub(crate) fn one() -> (glyph: Glyph)
    ensures
        glyph@ == shape_one(),
{
    Glyph {
        strokes: vec![
            Point(1, 0),
            VerticalRun(2, 0, 3),
            HorizontalRun(4, 1, 3),
        ],
        shrink: 1,
    }
}

/// The shape of the digit `2`.
///
/// ```text
/// ###..
/// ...#.
/// .##..
/// #....
/// ####.
/// ```
///
/// It is 1 pixel narrower than a full cell.
pub open spec fn shape_two() -> Shape {
    Shape {
        strokes: seq![
            HorizontalRun(0, 0, 2),
            Point(3, 1),
            HorizontalRun(2, 1, 2),
            Point(0, 3),
            HorizontalRun(4, 0, 3),
        ],
        shrink: 1,
    }
}

/// The glyph of the digit `2`.
pub(crate) fn two() -> (glyph: Glyph)
    ensures
        glyph@ == shape_two(),
{
    Glyph {
        strokes: vec![
            HorizontalRun(0, 0, 2),
            Point(3, 1),
            HorizontalRun(2, 1, 2),
            Point(0, 3),
            HorizontalRun(4, 0, 3),
        ],
        shrink: 1,
    }
}

/// The shape of the digit `3`.
///
/// ```text
/// ###..
/// ...#.
/// .##..
/// ...#.
/// ###..
/// ```
///
/// It is 1 pixel narrower than a full cell.
pub open spec fn shape_three() -> Shape {
    Shape {
        strokes: seq![
            HorizontalRun(0, 0, 2),
            HorizontalRun(2, 1, 2),
            HorizontalRun(4, 0, 2),
            Point(3, 1),
            Point(3, 3),
        ],
        shrink: 1,
    }
}

/// The glyph of the digit `3`.
pub(crate) fn three() -> (glyph: Glyph)
    ensures
        glyph@ == shape_three(),
{
    Glyph {
        strokes: vec![
            HorizontalRun(0, 0, 2),
            HorizontalRun(2, 1, 2),
            HorizontalRun(4, 0, 2),
            Point(3, 1),
            Point(3, 3),
        ],
        shrink: 1,
    }
}

/// The shape of the digit `4`.
///
/// ```text
/// ..#..
/// .##..
/// #.#..
/// ####.
/// ..#..
/// ```
///
/// It is 1 pixel narrower than a full cell.
pub open spec fn shape_four() -> Shape {
    Shape {
        strokes: seq![
            VerticalRun(2, 0, 4),
            HorizontalRun(3, 0, 3),
            Point(0, 2),
            Point(1, 1),
        ],
        shrink: 1,
    }
}

/// The glyph of the digit `4`.
pub(crate) fn four() -> (glyph: Glyph)
    ensures
        glyph@ == shape_four(),
{
    Glyph {
        strokes: vec![
            VerticalRun(2, 0, 4),
            HorizontalRun(3, 0, 3),
            Point(0, 2),
            Point(1, 1),
        ],
        shrink: 1,
    }
}

/// The shape of the digit `5`.
///
/// ```text
/// ####.
/// #....
/// ###..
/// ...#.
/// ###..
/// ```
///
/// It is 1 pixel narrower than a full cell.
pub open spec fn shape_five() -> Shape {
    Shape {
        strokes: seq![
            HorizontalRun(0, 0, 3),
            Point(0, 1),
            HorizontalRun(2, 0, 2),
            Point(3, 3),
            HorizontalRun(4, 0, 2),
        ],
        shrink: 1,
    }
}

/// The glyph of the digit `5`.
pub(crate) fn five() -> (glyph: Glyph)
    ensures
        glyph@ == shape_five(),
{
    Glyph {
        strokes: vec![
            HorizontalRun(0, 0, 3),
            Point(0, 1),
            HorizontalRun(2, 0, 2),
            Point(3, 3),
            HorizontalRun(4, 0, 2),
        ],
        shrink: 1,
    }
}

/// The shape of the digit `6`.
///
/// ```text
/// .##..
/// #....
/// ###..
/// #..#.
/// .##..
/// ```
///
/// It is 1 pixel narrower than a full cell.
pub open spec fn shape_six() -> Shape {
    Shape {
        strokes: seq![
            HorizontalRun(0, 1, 2),
            HorizontalRun(2, 1, 2),
            HorizontalRun(4, 1, 2),
            VerticalRun(0, 1, 3),
            Point(3, 3),
        ],
        shrink: 1,
    }
}

/// The glyph of the digit `6`.
pub(crate) fn six() -> (glyph: Glyph)
    ensures
        glyph@ == shape_six(),
{
    Glyph {
        strokes: vec![
            HorizontalRun(0, 1, 2),
            HorizontalRun(2, 1, 2),
            HorizontalRun(4, 1, 2),
            VerticalRun(0, 1, 3),
            Point(3, 3),
        ],
        shrink: 1,
    }
}

/// The shape of the digit `7`.
///
/// ```text
/// ####.
/// ...#.
/// ..#..
/// .#...
/// #....
/// ```
///
/// It is 1 pixel narrower than a full cell.
pub open spec fn shape_seven() -> Shape {
    Shape {
        strokes: seq![
            HorizontalRun(0, 0, 3),
            Point(3, 1),
            Point(2, 2),
            Point(1, 3),
            Point(0, 4),
        ],
        shrink: 1,
    }
}

/// The glyph of the digit `7`.
pub(crate) fn seven() -> (glyph: Glyph)
    ensures
        glyph@ == shape_seven(),
{
    Glyph {
        strokes: vec![
            HorizontalRun(0, 0, 3),
            Point(3, 1),
            Point(2, 2),
            Point(1, 3),
            Point(0, 4),
        ],
        shrink: 1,
    }
}

/// The shape of the digit `8`.
///
/// ```text
/// .##..
/// #..#.
/// .##..
/// #..#.
/// .##..
/// ```
///
/// It is 1 pixel narrower than a full cell.
pub open spec fn shape_eight() -> Shape {
    Shape {
        strokes: seq![
            HorizontalRun(0, 1, 2),
            HorizontalRun(2, 1, 2),
            HorizontalRun(4, 1, 2),
            Point(0, 1),
            Point(3, 1),
            Point(0, 3),
            Point(3, 3),
        ],
        shrink: 1,
    }
}

/// The glyph of the digit `8`.
pub(crate) fn eight() -> (glyph: Glyph)
    ensures
        glyph@ == shape_eight(),
{
    Glyph {
        strokes: vec![
            HorizontalRun(0, 1, 2),
            HorizontalRun(2, 1, 2),
            HorizontalRun(4, 1, 2),
            Point(0, 1),
            Point(3, 1),
            Point(0, 3),
            Point(3, 3),
        ],
        shrink: 1,
    }
}

/// The shape of the digit `9`.
///
/// ```text
/// .##..
/// #..#.
/// .###.
/// ...#.
/// .##..
/// ```
///
/// It is 1 pixel narrower than a full cell.
pub open spec fn shape_nine() -> Shape {
    Shape {
        strokes: seq![
            Point(0, 1),
            VerticalRun(3, 1, 3),
            HorizontalRun(0, 1, 2),
            HorizontalRun(2, 1, 2),
            HorizontalRun(4, 1, 2),
        ],
        shrink: 1,
    }
}

/// The glyph of the digit `9`.
pub(crate) fn nine() -> (glyph: Glyph)
    ensures
        glyph@ == shape_nine(),
{
    Glyph {
        strokes: vec![
            Point(0, 1),
            VerticalRun(3, 1, 3),
            HorizontalRun(0, 1, 2),
            HorizontalRun(2, 1, 2),
            HorizontalRun(4, 1, 2),
        ],
        shrink: 1,
    }
}

/// The shape of the digit `0`.
///
/// ```text
/// .##..
/// #..#.
/// #..#.
/// #..#.
/// .##..
/// ```
///
/// It is 1 pixel narrower than a full cell.
pub open spec fn shape_zero() -> Shape {
    Shape {
        strokes: seq![
            HorizontalRun(0, 1, 2),
            HorizontalRun(4, 1, 2),
            VerticalRun(0, 1, 3),
            VerticalRun(3, 1, 3),
        ],
        shrink: 1,
    }
}

/// The glyph of the digit `0`.
pub(crate) fn zero() -> (glyph: Glyph)
    ensures
        glyph@ == shape_zero(),
{
    Glyph {
        strokes: vec![
            HorizontalRun(0, 1, 2),
            HorizontalRun(4, 1, 2),
            VerticalRun(0, 1, 3),
            VerticalRun(3, 1, 3),
        ],
        shrink: 1,
    }
}

} // verus!
