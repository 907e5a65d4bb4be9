//! The letters. Small letters are drawn as capitals.

use vstd::prelude::*;
use crate::glyph::{Glyph, Shape};
use crate::stroke::Stroke;
use crate::stroke::Stroke::{HorizontalRun, Point, VerticalRun};

verus! {

/// The shape of the letter `A`.
///
/// ```text
/// .###.
/// #...#
/// #####
/// #...#
/// #...#
/// ```
pub open spec fn shape_a() -> Shape {
    Shape {
        strokes: seq![
            VerticalRun(0, 1, 4),
            VerticalRun(4, 1, 4),
            HorizontalRun(0, 1, 3),
            HorizontalRun(2, 1, 3),
        ],
        shrink: 0,
    }
}

/// The glyph of the letter `A`.
pub(crate) fn a() -> (glyph: Glyph)
    ensures
        glyph@ == shape_a(),
{
    Glyph {
        strokes: vec![
            VerticalRun(0, 1, 4),
            VerticalRun(4, 1, 4),
            HorizontalRun(0, 1, 3),
            HorizontalRun(2, 1, 3),
        ],
        shrink: 0,
    }
}

/// The shape of the letter `B`.
///
/// ```text
/// ####.
/// #...#
/// ####.
/// #...#
/// ####.
/// ```
pub open spec fn shape_b() -> Shape {
    Shape {
        strokes: seq![
            VerticalRun(0, 0, 4),
            Point(4, 1),
            Point(4, 3),
            HorizontalRun(0, 0, 3),
            HorizontalRun(2, 0, 3),
            HorizontalRun(4, 0, 3),
        ],
        shrink: 0,
    }
}

/// The glyph of the letter `B`.
pub(crate) fn b() -> (glyph: Glyph)
    ensures
        glyph@ == shape_b(),
{
    Glyph {
        strokes: vec![
            VerticalRun(0, 0, 4),
            Point(4, 1),
            Point(4, 3),
            HorizontalRun(0, 0, 3),
            HorizontalRun(2, 0, 3),
            HorizontalRun(4, 0, 3),
        ],
        shrink: 0,
    }
}

/// The shape of the letter `C`.
///
/// ```text
/// .####
/// #....
/// #....
/// #....
/// .####
/// ```
pub open spec fn shape_c() -> Shape {
    Shape {
        strokes: seq![
            VerticalRun(0, 1, 3),
            HorizontalRun(0, 1, 4),
            HorizontalRun(4, 1, 4),
        ],
        shrink: 0,
    }
}

/// The glyph of the letter `C`.
pub(crate) fn c() -> (glyph: Glyph)
    ensures
        glyph@ == shape_c(),
{
    Glyph {
        strokes: vec![
            VerticalRun(0, 1, 3),
            HorizontalRun(0, 1, 4),
            HorizontalRun(4, 1, 4),
        ],
        shrink: 0,
    }
}

/// The shape of the letter `D`.
///
/// ```text
/// ####.
/// #...#
/// #...#
/// #...#
/// ####.
/// ```
pub open spec fn shape_d() -> Shape {
    Shape {
        strokes: seq![
            VerticalRun(0, 0, 4),
            VerticalRun(4, 1, 3),
            HorizontalRun(0, 1, 3),
            HorizontalRun(4, 1, 3),
        ],
        shrink: 0,
    }
}

/// The glyph of the letter `D`.
pub(crate) fn d() -> (glyph: Glyph)
    ensures
        glyph@ == shape_d(),
{
    Glyph {
        strokes: vec![
            VerticalRun(0, 0, 4),
            VerticalRun(4, 1, 3),
            HorizontalRun(0, 1, 3),
            HorizontalRun(4, 1, 3),
        ],
        shrink: 0,
    }
}

/// The shape of the letter `E`.
///
/// ```text
/// #####
/// #....
/// ###..
/// #....
/// #####
/// ```
pub open spec fn shape_e() -> Shape {
    Shape {
        strokes: seq![
            VerticalRun(0, 0, 4),
            HorizontalRun(0, 1, 4),
            HorizontalRun(2, 1, 2),
            HorizontalRun(4, 1, 4),
        ],
        shrink: 0,
    }
}

/// The glyph of the letter `E`.
pub(crate) fn e() -> (glyph: Glyph)
    ensures
        glyph@ == shape_e(),
{
    Glyph {
        strokes: vec![
            VerticalRun(0, 0, 4),
            HorizontalRun(0, 1, 4),
            HorizontalRun(2, 1, 2),
            HorizontalRun(4, 1, 4),
        ],
        shrink: 0,
    }
}

/// The shape of the letter `F`.
///
/// ```text
/// #####
/// #....
/// ###..
/// #....
/// #....
/// ```
pub open spec fn shape_f() -> Shape {
    Shape {
        strokes: seq![
            VerticalRun(0, 0, 4),
            HorizontalRun(0, 1, 4),
            HorizontalRun(2, 1, 2),
        ],
        shrink: 0,
    }
}

/// The glyph of the letter `F`.
pub(crate) fn f() -> (glyph: Glyph)
    ensures
        glyph@ == shape_f(),
{
    Glyph {
        strokes: vec![
            VerticalRun(0, 0, 4),
            HorizontalRun(0, 1, 4),
            HorizontalRun(2, 1, 2),
        ],
        shrink: 0,
    }
}

/// The shape of the letter `G`.
///
/// ```text
/// .####
/// #....
/// #..##
/// #...#
/// .####
/// ```
pub open spec fn shape_g() -> Shape {
    Shape {
        strokes: seq![
            VerticalRun(0, 1, 3),
            HorizontalRun(0, 1, 4),
            HorizontalRun(4, 1, 4),
            HorizontalRun(2, 3, 4),
            Point(4, 3),
        ],
        shrink: 0,
    }
}

/// The glyph of the letter `G`.
pub(crate) fn g() -> (glyph: Glyph)
    ensures
        glyph@ == shape_g(),
{
    Glyph {
        strokes: vec![
            VerticalRun(0, 1, 3),
            HorizontalRun(0, 1, 4),
            HorizontalRun(4, 1, 4),
            HorizontalRun(2, 3, 4),
            Point(4, 3),
        ],
        shrink: 0,
    }
}

/// The shape of the letter `H`.
///
/// ```text
/// #...#
/// #...#
/// #####
/// #...#
/// #...#
/// ```
pub open spec fn shape_h() -> Shape {
    Shape {
        strokes: seq![
            VerticalRun(0, 0, 4),
            VerticalRun(4, 0, 4),
            HorizontalRun(2, 1, 3),
        ],
        shrink: 0,
    }
}

/// The glyph of the letter `H`.
pub(crate) fn h() -> (glyph: Glyph)
    ensures
        glyph@ == shape_h(),
{
    Glyph {
        strokes: vec![
            VerticalRun(0, 0, 4),
            VerticalRun(4, 0, 4),
            HorizontalRun(2, 1, 3),
        ],
        shrink: 0,
    }
}

/// The shape of the letter `I`.
///
/// ```text
/// #....
/// #....
/// #....
/// #....
/// #....
/// ```
///
/// It is 4 pixels narrower than a full cell.
pub open spec fn shape_i() -> Shape {
    Shape {
        strokes: seq![
            VerticalRun(0, 0, 4),
        ],
        shrink: 4,
    }
}

/// The glyph of the letter `I`.
pub(crate) fn i() -> (glyph: Glyph)
    ensures
        glyph@ == shape_i(),
{
    let mut strokes: Vec<Stroke> = Vec::new();
    strokes.push(VerticalRun(0, 0, 4));
    Glyph { strokes, shrink: 4 }
}

/// The shape of the letter `J`.
///
/// ```text
/// ....#
/// ....#
/// ....#
/// #...#
/// .###.
/// ```
pub open spec fn shape_j() -> Shape {
    Shape {
        strokes: seq![
            Point(0, 3),
            VerticalRun(4, 0, 3),
            HorizontalRun(4, 1, 3),
        ],
        shrink: 0,
    }
}

/// The glyph of the letter `J`.
pub(crate) fn j() -> (glyph: Glyph)
    ensures
        glyph@ == shape_j(),
{
    Glyph {
        strokes: vec![
            Point(0, 3),
            VerticalRun(4, 0, 3),
            HorizontalRun(4, 1, 3),
        ],
        shrink: 0,
    }
}

/// The shape of the letter `K`.
///
/// ```text
/// #...#
/// #..#.
/// ###..
/// #..#.
/// #...#
/// ```
pub open spec fn shape_k() -> Shape {
    Shape {
        strokes: seq![
            VerticalRun(0, 0, 4),
            HorizontalRun(2, 1, 2),
            Point(3, 1),
            Point(4, 0),
            Point(3, 3),
            Point(4, 4),
        ],
        shrink: 0,
    }
}

/// The glyph of the letter `K`.
pub(crate) fn k() -> (glyph: Glyph)
    ensures
        glyph@ == shape_k(),
{
    Glyph {
        strokes: vec![
            VerticalRun(0, 0, 4),
            HorizontalRun(2, 1, 2),
            Point(3, 1),
            Point(4, 0),
            Point(3, 3),
            Point(4, 4),
        ],
        shrink: 0,
    }
}

/// The shape of the letter `L`.
///
/// ```text
/// #....
/// #....
/// #....
/// #....
/// #####
/// ```
pub open spec fn shape_l() -> Shape {
    Shape {
        strokes: seq![
            VerticalRun(0, 0, 4),
            HorizontalRun(4, 1, 4),
        ],
        shrink: 0,
    }
}

/// The glyph of the letter `L`.
pub(crate) fn l() -> (glyph: Glyph)
    ensures
        glyph@ == shape_l(),
{
    Glyph {
        strokes: vec![
            VerticalRun(0, 0, 4),
            HorizontalRun(4, 1, 4),
        ],
        shrink: 0,
    }
}

/// The shape of the letter `M`.
///
/// ```text
/// #...#
/// ##.##
/// #.#.#
/// #...#
/// #...#
/// ```
pub open spec fn shape_m() -> Shape {
    Shape {
        strokes: seq![
            VerticalRun(0, 0, 4),
            VerticalRun(4, 0, 4),
            Point(1, 1),
            Point(2, 2),
            Point(3, 1),
        ],
        shrink: 0,
    }
}

/// The glyph of the letter `M`.
pub(crate) fn m() -> (glyph: Glyph)
    ensures
        glyph@ == shape_m(),
{
    Glyph {
        strokes: vec![
            VerticalRun(0, 0, 4),
            VerticalRun(4, 0, 4),
            Point(1, 1),
            Point(2, 2),
            Point(3, 1),
        ],
        shrink: 0,
    }
}

/// The shape of the letter `N`.
///
/// ```text
/// #...#
/// ##..#
/// #.#.#
/// #..##
/// #...#
/// ```
pub open spec fn shape_n() -> Shape {
    Shape {
        strokes: seq![
            VerticalRun(0, 0, 4),
            VerticalRun(4, 0, 4),
            Point(1, 1),
            Point(2, 2),
            Point(3, 3),
        ],
        shrink: 0,
    }
}

/// The glyph of the letter `N`.
pub(crate) fn n() -> (glyph: Glyph)
    ensures
        glyph@ == shape_n(),
{
    Glyph {
        strokes: vec![
            VerticalRun(0, 0, 4),
            VerticalRun(4, 0, 4),
            Point(1, 1),
            Point(2, 2),
            Point(3, 3),
        ],
        shrink: 0,
    }
}

/// The shape of the letter `O`.
///
/// ```text
/// .###.
/// #...#
/// #...#
/// #...#
/// .###.
/// ```
pub open spec fn shape_o() -> Shape {
    Shape {
        strokes: seq![
            VerticalRun(0, 1, 3),
            VerticalRun(4, 1, 3),
            HorizontalRun(0, 1, 3),
            HorizontalRun(4, 1, 3),
        ],
        shrink: 0,
    }
}

/// The glyph of the letter `O`.
pub(crate) fn o() -> (glyph: Glyph)
    ensures
        glyph@ == shape_o(),
{
    Glyph {
        strokes: vec![
            VerticalRun(0, 1, 3),
            VerticalRun(4, 1, 3),
            HorizontalRun(0, 1, 3),
            HorizontalRun(4, 1, 3),
        ],
        shrink: 0,
    }
}

/// The shape of the letter `P`.
///
/// ```text
/// ####.
/// #...#
/// ####.
/// #....
/// #....
/// ```
pub open spec fn shape_p() -> Shape {
    Shape {
        strokes: seq![
            VerticalRun(0, 0, 4),
            HorizontalRun(0, 1, 3),
            HorizontalRun(2, 1, 3),
            Point(4, 1),
        ],
        shrink: 0,
    }
}

/// The glyph of the letter `P`.
pub(crate) fn p() -> (glyph: Glyph)
    ensures
        glyph@ == shape_p(),
{
    Glyph {
        strokes: vec![
            VerticalRun(0, 0, 4),
            HorizontalRun(0, 1, 3),
            HorizontalRun(2, 1, 3),
            Point(4, 1),
        ],
        shrink: 0,
    }
}

/// The shape of the letter `Q`.
///
/// ```text
/// .###.
/// #...#
/// #...#
/// #...#
/// .###.
/// ....#
/// ```
///
/// The last row of the picture lies one row below the cell.
pub open spec fn shape_q() -> Shape {
    Shape {
        strokes: shape_o().strokes.push(Point(4, 5)),
        shrink: 0,
    }
}

/// The glyph of the letter `Q`.
pub(crate) fn q() -> (glyph: Glyph)
    ensures
        glyph@ == shape_q(),
{
    let mut glyph = o();
    glyph.strokes.push(Point(4, 5));
    glyph
}

/// The shape of the letter `R`.
///
/// ```text
/// ####.
/// #...#
/// ####.
/// #...#
/// #...#
/// ```
pub open spec fn shape_r() -> Shape {
    Shape {
        strokes: seq![
            VerticalRun(0, 0, 4),
            Point(4, 1),
            VerticalRun(4, 3, 4),
            HorizontalRun(0, 1, 3),
            HorizontalRun(2, 1, 3),
        ],
        shrink: 0,
    }
}

/// The glyph of the letter `R`.
pub(crate) fn r() -> (glyph: Glyph)
    ensures
        glyph@ == shape_r(),
{
    Glyph {
        strokes: vec![
            VerticalRun(0, 0, 4),
            Point(4, 1),
            VerticalRun(4, 3, 4),
            HorizontalRun(0, 1, 3),
            HorizontalRun(2, 1, 3),
        ],
        shrink: 0,
    }
}

/// The shape of the letter `S`.
///
/// ```text
/// .####
/// #....
/// .###.
/// ....#
/// ####.
/// ```
pub open spec fn shape_s() -> Shape {
    Shape {
        strokes: seq![
            HorizontalRun(0, 1, 4),
            Point(0, 1),
            HorizontalRun(2, 1, 3),
            Point(4, 3),
            HorizontalRun(4, 0, 3),
        ],
        shrink: 0,
    }
}

/// The glyph of the letter `S`.
pub(crate) fn s() -> (glyph: Glyph)
    ensures
        glyph@ == shape_s(),
{
    Glyph {
        strokes: vec![
            HorizontalRun(0, 1, 4),
            Point(0, 1),
            HorizontalRun(2, 1, 3),
            Point(4, 3),
            HorizontalRun(4, 0, 3),
        ],
        shrink: 0,
    }
}

/// The shape of the letter `T`.
///
/// ```text
/// #####
/// ..#..
/// ..#..
/// ..#..
/// ..#..
/// ```
pub open spec fn shape_t() -> Shape {
    Shape {
        strokes: seq![
            VerticalRun(2, 1, 4),
            HorizontalRun(0, 0, 4),
        ],
        shrink: 0,
    }
}

/// The glyph of the letter `T`.
pub(crate) fn t() -> (glyph: Glyph)
    ensures
        glyph@ == shape_t(),
{
    Glyph {
        strokes: vec![
            VerticalRun(2, 1, 4),
            HorizontalRun(0, 0, 4),
        ],
        shrink: 0,
    }
}

/// The shape of the letter `U`.
///
/// ```text
/// #...#
/// #...#
/// #...#
/// #...#
/// .###.
/// ```
pub open spec fn shape_u() -> Shape {
    Shape {
        strokes: seq![
            VerticalRun(0, 0, 3),
            VerticalRun(4, 0, 3),
            HorizontalRun(4, 1, 3),
        ],
        shrink: 0,
    }
}

/// The glyph of the letter `U`.
pub(crate) fn u() -> (glyph: Glyph)
    ensures
        glyph@ == shape_u(),
{
    Glyph {
        strokes: vec![
            VerticalRun(0, 0, 3),
            VerticalRun(4, 0, 3),
            HorizontalRun(4, 1, 3),
        ],
        shrink: 0,
    }
}

/// The shape of the letter `V`.
///
/// ```text
/// #...#
/// #...#
/// #...#
/// .#.#.
/// ..#..
/// ```
pub open spec fn shape_v() -> Shape {
    Shape {
        strokes: seq![
            VerticalRun(0, 0, 2),
            VerticalRun(4, 0, 2),
            Point(1, 3),
            Point(2, 4),
            Point(3, 3),
        ],
        shrink: 0,
    }
}

/// The glyph of the letter `V`.
pub(crate) fn v() -> (glyph: Glyph)
    ensures
        glyph@ == shape_v(),
{
    Glyph {
        strokes: vec![
            VerticalRun(0, 0, 2),
            VerticalRun(4, 0, 2),
            Point(1, 3),
            Point(2, 4),
            Point(3, 3),
        ],
        shrink: 0,
    }
}

/// The shape of the letter `W`.
///
/// ```text
/// #...#
/// #...#
/// #.#.#
/// ##.##
/// #...#
/// ```
pub open spec fn shape_w() -> Shape {
    Shape {
        strokes: seq![
            VerticalRun(0, 0, 4),
            VerticalRun(4, 0, 4),
            Point(1, 3),
            Point(3, 3),
            Point(2, 2),
        ],
        shrink: 0,
    }
}

/// The glyph of the letter `W`.
pub(crate) fn w() -> (glyph: Glyph)
    ensures
        glyph@ == shape_w(),
{
    Glyph {
        strokes: vec![
            VerticalRun(0, 0, 4),
            VerticalRun(4, 0, 4),
            Point(1, 3),
            Point(3, 3),
            Point(2, 2),
        ],
        shrink: 0,
    }
}

/// The shape of the letter `X`.
///
/// ```text
/// #...#
/// .#.#.
/// ..#..
/// .#.#.
/// #...#
/// ```
pub open spec fn shape_x() -> Shape {
    Shape {
        strokes: seq![
            Point(0, 0),
            Point(1, 1),
            Point(2, 2),
            Point(3, 3),
            Point(4, 4),
            Point(0, 4),
            Point(1, 3),
            Point(3, 1),
            Point(4, 0),
        ],
        shrink: 0,
    }
}

/// The glyph of the letter `X`.
pub(crate) fn x() -> (glyph: Glyph)
    ensures
        glyph@ == shape_x(),
{
    Glyph {
        strokes: vec![
            Point(0, 0),
            Point(1, 1),
            Point(2, 2),
            Point(3, 3),
            Point(4, 4),
            Point(0, 4),
            Point(1, 3),
            Point(3, 1),
            Point(4, 0),
        ],
        shrink: 0,
    }
}

/// The shape of the letter `Y`.
///
/// ```text
/// #...#
/// .#.#.
/// ..#..
/// ..#..
/// ..#..
/// ```
pub open spec fn shape_y() -> Shape {
    Shape {
        strokes: seq![
            Point(0, 0),
            Point(1, 1),
            VerticalRun(2, 2, 4),
            Point(3, 1),
            Point(4, 0),
        ],
        shrink: 0,
    }
}

/// The glyph of the letter `Y`.
pub(crate) fn y() -> (glyph: Glyph)
    ensures
        glyph@ == shape_y(),
{
    Glyph {
        strokes: vec![
            Point(0, 0),
            Point(1, 1),
            VerticalRun(2, 2, 4),
            Point(3, 1),
            Point(4, 0),
        ],
        shrink: 0,
    }
}

/// The shape of the letter `Z`.
///
/// ```text
/// #####
/// ...#.
/// ..#..
/// .#...
/// #####
/// ```
pub open spec fn shape_z() -> Shape {
    Shape {
        strokes: seq![
            HorizontalRun(0, 0, 4),
            HorizontalRun(4, 0, 4),
            Point(3, 1),
            Point(2, 2),
            Point(1, 3),
        ],
        shrink: 0,
    }
}

/// The glyph of the letter `Z`.
pub(crate) fn z() -> (glyph: Glyph)
    ensures
        glyph@ == shape_z(),
{
    Glyph {
        strokes: vec![
            HorizontalRun(0, 0, 4),
            HorizontalRun(4, 0, 4),
            Point(3, 1),
            Point(2, 2),
            Point(1, 3),
        ],
        shrink: 0,
    }
}

} // verus!
