//! The space, the punctuation marks and the other symbols.

use vstd::prelude::*;
use crate::catalog::letters::{s, shape_s};
use crate::glyph::{Glyph, Shape};
use crate::stroke::Stroke;
use crate::stroke::Stroke::{HorizontalRun, Point, VerticalRun};

verus! {

/// The shape of the space, ` `.
///
/// ```text
/// .....
/// .....
/// .....
/// .....
/// .....
/// ```
///
/// It is 2 pixels narrower than a full cell.
pub open spec fn shape_space() -> Shape {
    Shape {
        strokes: Seq::empty(),
        shrink: 2,
    }
}

/// The glyph of the space, ` `.
pub(crate) fn space() -> (glyph: Glyph)
    ensures
        glyph@ == shape_space(),
{
    Glyph { strokes: Vec::new(), shrink: 2 }
}

/// The shape of the hyphen, `-`.
///
/// ```text
/// .....
/// .....
/// ####.
/// .....
/// .....
/// ```
///
/// It is 1 pixel narrower than a full cell.
pub open spec fn shape_hyphen() -> Shape {
    Shape {
        strokes: seq![
            HorizontalRun(2, 0, 3),
        ],
        shrink: 1,
    }
}

/// The glyph of the hyphen, `-`.
pub(crate) fn hyphen() -> (glyph: Glyph)
    ensures
        glyph@ == shape_hyphen(),
{
    let mut strokes: Vec<Stroke> = Vec::new();
    strokes.push(HorizontalRun(2, 0, 3));
    Glyph { strokes, shrink: 1 }
}

/// The shape of the underscore, `_`.
///
/// ```text
/// .....
/// .....
/// .....
/// .....
/// #####
/// ```
pub open spec fn shape_underscore() -> Shape {
    Shape {
        strokes: seq![
            HorizontalRun(4, 0, 4),
        ],
        shrink: 0,
    }
}

/// The glyph of the underscore, `_`.
pub(crate) fn underscore() -> (glyph: Glyph)
    ensures
        glyph@ == shape_underscore(),
{
    let mut strokes: Vec<Stroke> = Vec::new();
    strokes.push(HorizontalRun(4, 0, 4));
    Glyph { strokes, shrink: 0 }
}

/// The shape of the equals sign, `=`.
///
/// ```text
/// .....
/// #####
/// .....
/// #####
/// .....
/// ```
pub open spec fn shape_equals() -> Shape {
    Shape {
        strokes: seq![
            HorizontalRun(1, 0, 4),
            HorizontalRun(3, 0, 4),
        ],
        shrink: 0,
    }
}

/// The glyph of the equals sign, `=`.
pub(crate) fn equals() -> (glyph: Glyph)
    ensures
        glyph@ == shape_equals(),
{
    Glyph {
        strokes: vec![
            HorizontalRun(1, 0, 4),
            HorizontalRun(3, 0, 4),
        ],
        shrink: 0,
    }
}

/// The shape of the plus sign, `+`.
///
/// ```text
/// ..#..
/// ..#..
/// #####
/// ..#..
/// ..#..
/// ```
pub open spec fn shape_plus() -> Shape {
    Shape {
        strokes: seq![
            VerticalRun(2, 0, 4),
            HorizontalRun(2, 0, 4),
        ],
        shrink: 0,
    }
}

/// The glyph of the plus sign, `+`.
pub(crate) fn plus() -> (glyph: Glyph)
    ensures
        glyph@ == shape_plus(),
{
    Glyph {
        strokes: vec![
            VerticalRun(2, 0, 4),
            HorizontalRun(2, 0, 4),
        ],
        shrink: 0,
    }
}

/// The shape of the opening square bracket, `[`.
///
/// ```text
/// ###..
/// #....
/// #....
/// #....
/// ###..
/// ```
///
/// It is 1 pixel narrower than a full cell.
pub open spec fn shape_l_sqr_bracket() -> Shape {
    Shape {
        strokes: seq![
            VerticalRun(0, 0, 4),
            HorizontalRun(0, 1, 2),
            HorizontalRun(4, 1, 2),
        ],
        shrink: 1,
    }
}

/// The glyph of the opening square bracket, `[`.
pub(crate) fn l_sqr_bracket() -> (glyph: Glyph)
    ensures
        glyph@ == shape_l_sqr_bracket(),
{
    Glyph {
        strokes: vec![
            VerticalRun(0, 0, 4),
            HorizontalRun(0, 1, 2),
            HorizontalRun(4, 1, 2),
        ],
        shrink: 1,
    }
}

/// The shape of the opening curly bracket, `{`.
///
/// ```text
/// ..#..
/// .#...
/// ##...
/// .#...
/// ..#..
/// ```
///
/// It is 1 pixel narrower than a full cell.
pub open spec fn shape_l_crl_bracket() -> Shape {
    Shape {
        strokes: seq![
            Point(2, 0),
            Point(2, 4),
            VerticalRun(1, 1, 3),
            Point(0, 2),
        ],
        shrink: 1,
    }
}

/// The glyph of the opening curly bracket, `{`.
pub(crate) fn l_crl_bracket() -> (glyph: Glyph)
    ensures
        glyph@ == shape_l_crl_bracket(),
{
    Glyph {
        strokes: vec![
            Point(2, 0),
            Point(2, 4),
            VerticalRun(1, 1, 3),
            Point(0, 2),
        ],
        shrink: 1,
    }
}

/// The shape of the closing square bracket, `]`.
///
/// ```text
/// ###..
/// ..#..
/// ..#..
/// ..#..
/// ###..
/// ```
///
/// It is 1 pixel narrower than a full cell.
pub open spec fn shape_r_sqr_bracket() -> Shape {
    Shape {
        strokes: seq![
            VerticalRun(2, 0, 4),
            HorizontalRun(0, 0, 1),
            HorizontalRun(4, 0, 1),
        ],
        shrink: 1,
    }
}

/// The glyph of the closing square bracket, `]`.
pub(crate) fn r_sqr_bracket() -> (glyph: Glyph)
    ensures
        glyph@ == shape_r_sqr_bracket(),
{
    Glyph {
        strokes: vec![
            VerticalRun(2, 0, 4),
            HorizontalRun(0, 0, 1),
            HorizontalRun(4, 0, 1),
        ],
        shrink: 1,
    }
}

/// The shape of the closing curly bracket, `}`.
///
/// ```text
/// #....
/// .#...
/// .##..
/// .#...
/// #....
/// ```
///
/// It is 1 pixel narrower than a full cell.
pub open spec fn shape_r_crl_bracket() -> Shape {
    Shape {
        strokes: seq![
            Point(0, 0),
            Point(0, 4),
            VerticalRun(1, 1, 3),
            Point(2, 2),
        ],
        shrink: 1,
    }
}

/// The glyph of the closing curly bracket, `}`.
pub(crate) fn r_crl_bracket() -> (glyph: Glyph)
    ensures
        glyph@ == shape_r_crl_bracket(),
{
    Glyph {
        strokes: vec![
            Point(0, 0),
            Point(0, 4),
            VerticalRun(1, 1, 3),
            Point(2, 2),
        ],
        shrink: 1,
    }
}

/// The shape of the backslash, `\`.
///
/// ```text
/// #....
/// .#...
/// ..#..
/// ...#.
/// ....#
/// ```
pub open spec fn shape_back_slash() -> Shape {
    Shape {
        strokes: Seq::new(5, |i: int| Point(i as i8, i as i8)),
        shrink: 0,
    }
}

/// The glyph of the backslash, `\`.
pub(crate) fn back_slash() -> (glyph: Glyph)
    ensures
        glyph@ == shape_back_slash(),
{
    let mut strokes: Vec<Stroke> = Vec::new();
    let mut i: i8 = 0;
    while i < 5
        invariant
            0 <= i <= 5,
            strokes@ =~= Seq::new(i as nat, |k: int| Point(k as i8, k as i8)),
        decreases 5 - i,
    {
        strokes.push(Point(i, i));
        i += 1;
    }
    Glyph { strokes, shrink: 0 }
}

/// The shape of the vertical bar, `|`.
///
/// ```text
/// #....
/// #....
/// #....
/// #....
/// #....
/// ```
///
/// It is 4 pixels narrower than a full cell.
pub open spec fn shape_vertical_line() -> Shape {
    Shape {
        strokes: seq![
            VerticalRun(0, 0, 4),
        ],
        shrink: 4,
    }
}

/// The glyph of the vertical bar, `|`.
pub(crate) fn vertical_line() -> (glyph: Glyph)
    ensures
        glyph@ == shape_vertical_line(),
{
    let mut strokes: Vec<Stroke> = Vec::new();
    strokes.push(VerticalRun(0, 0, 4));
    Glyph { strokes, shrink: 4 }
}

/// The shape of the semicolon, `;`.
///
/// ```text
/// .....
/// #....
/// .....
/// #....
/// #....
/// ```
///
/// It is 4 pixels narrower than a full cell.
pub open spec fn shape_semicolon() -> Shape {
    Shape {
        strokes: seq![
            VerticalRun(0, 1, 1),
            VerticalRun(0, 3, 4),
        ],
        shrink: 4,
    }
}

/// The glyph of the semicolon, `;`.
pub(crate) fn semicolon() -> (glyph: Glyph)
    ensures
        glyph@ == shape_semicolon(),
{
    Glyph {
        strokes: vec![
            VerticalRun(0, 1, 1),
            VerticalRun(0, 3, 4),
        ],
        shrink: 4,
    }
}

/// The shape of the colon, `:`.
///
/// ```text
/// .....
/// #....
/// .....
/// #....
/// .....
/// ```
///
/// It is 4 pixels narrower than a full cell.
pub open spec fn shape_colon() -> Shape {
    Shape {
        strokes: seq![
            VerticalRun(0, 1, 1),
            VerticalRun(0, 3, 3),
        ],
        shrink: 4,
    }
}

/// The glyph of the colon, `:`.
pub(crate) fn colon() -> (glyph: Glyph)
    ensures
        glyph@ == shape_colon(),
{
    Glyph {
        strokes: vec![
            VerticalRun(0, 1, 1),
            VerticalRun(0, 3, 3),
        ],
        shrink: 4,
    }
}

/// The shape of the apostrophe, `'`.
///
/// ```text
/// #....
/// #....
/// .....
/// .....
/// .....
/// ```
///
/// It is 4 pixels narrower than a full cell.
pub open spec fn shape_apostrophe() -> Shape {
    Shape {
        strokes: seq![
            VerticalRun(0, 0, 1),
        ],
        shrink: 4,
    }
}

/// The glyph of the apostrophe, `'`.
pub(crate) fn apostrophe() -> (glyph: Glyph)
    ensures
        glyph@ == shape_apostrophe(),
{
    let mut strokes: Vec<Stroke> = Vec::new();
    strokes.push(VerticalRun(0, 0, 1));
    Glyph { strokes, shrink: 4 }
}

/// The shape of the quotation mark, `"`.
///
/// ```text
/// #.#..
/// #.#..
/// .....
/// .....
/// .....
/// ```
///
/// It is 2 pixels narrower than a full cell.
pub open spec fn shape_quotation() -> Shape {
    Shape {
        strokes: seq![
            VerticalRun(0, 0, 1),
            VerticalRun(2, 0, 1),
        ],
        shrink: 2,
    }
}

/// The glyph of the quotation mark, `"`.
pub(crate) fn quotation() -> (glyph: Glyph)
    ensures
        glyph@ == shape_quotation(),
{
    Glyph {
        strokes: vec![
            VerticalRun(0, 0, 1),
            VerticalRun(2, 0, 1),
        ],
        shrink: 2,
    }
}

/// The shape of the comma, `,`.
///
/// ```text
/// .....
/// .....
/// .....
/// #....
/// #....
/// ```
///
/// It is 4 pixels narrower than a full cell.
pub open spec fn shape_comma() -> Shape {
    Shape {
        strokes: seq![
            VerticalRun(0, 3, 4),
        ],
        shrink: 4,
    }
}

/// The glyph of the comma, `,`.
pub(crate) fn comma() -> (glyph: Glyph)
    ensures
        glyph@ == shape_comma(),
{
    let mut strokes: Vec<Stroke> = Vec::new();
    strokes.push(VerticalRun(0, 3, 4));
    Glyph { strokes, shrink: 4 }
}

/// The shape of the less-than sign, `<`.
///
/// ```text
/// ..#..
/// .#...
/// #....
/// .#...
/// ..#..
/// ```
///
/// It is 2 pixels narrower than a full cell.
pub open spec fn shape_less_than() -> Shape {
    Shape {
        strokes: seq![
            Point(0, 2),
            Point(1, 1),
            Point(2, 0),
            Point(1, 3),
            Point(2, 4),
        ],
        shrink: 2,
    }
}

/// The glyph of the less-than sign, `<`.
pub(crate) fn less_than() -> (glyph: Glyph)
    ensures
        glyph@ == shape_less_than(),
{
    Glyph {
        strokes: vec![
            Point(0, 2),
            Point(1, 1),
            Point(2, 0),
            Point(1, 3),
            Point(2, 4),
        ],
        shrink: 2,
    }
}

/// The shape of the full stop, `.`.
///
/// ```text
/// .....
/// .....
/// .....
/// .....
/// #....
/// ```
///
/// It is 4 pixels narrower than a full cell.
pub open spec fn shape_period() -> Shape {
    Shape {
        strokes: seq![
            Point(0, 4),
        ],
        shrink: 4,
    }
}

/// The glyph of the full stop, `.`.
pub(crate) fn period() -> (glyph: Glyph)
    ensures
        glyph@ == shape_period(),
{
    let mut strokes: Vec<Stroke> = Vec::new();
    strokes.push(Point(0, 4));
    Glyph { strokes, shrink: 4 }
}

/// The shape of the greater-than sign, `>`.
///
/// ```text
/// #....
/// .#...
/// ..#..
/// .#...
/// #....
/// ```
///
/// It is 2 pixels narrower than a full cell.
pub open spec fn shape_greater_than() -> Shape {
    Shape {
        strokes: seq![
            Point(0, 0),
            Point(1, 1),
            Point(2, 2),
            Point(1, 3),
            Point(0, 4),
        ],
        shrink: 2,
    }
}

/// The glyph of the greater-than sign, `>`.
pub(crate) fn greater_than() -> (glyph: Glyph)
    ensures
        glyph@ == shape_greater_than(),
{
    Glyph {
        strokes: vec![
            Point(0, 0),
            Point(1, 1),
            Point(2, 2),
            Point(1, 3),
            Point(0, 4),
        ],
        shrink: 2,
    }
}

/// The shape of the slash, `/`.
///
/// ```text
/// ....#
/// ...#.
/// ..#..
/// .#...
/// #....
/// ```
pub open spec fn shape_fwd_slash() -> Shape {
    Shape {
        strokes: seq![
            Point(0, 4),
            Point(1, 3),
            Point(2, 2),
            Point(3, 1),
            Point(4, 0),
        ],
        shrink: 0,
    }
}

/// The glyph of the slash, `/`.
pub(crate) fn fwd_slash() -> (glyph: Glyph)
    ensures
        glyph@ == shape_fwd_slash(),
{
    Glyph {
        strokes: vec![
            Point(0, 4),
            Point(1, 3),
            Point(2, 2),
            Point(3, 1),
            Point(4, 0),
        ],
        shrink: 0,
    }
}

/// The shape of the question mark, `?`.
///
/// ```text
/// .###.
/// #...#
/// ..##.
/// .....
/// ..#..
/// ```
pub open spec fn shape_question() -> Shape {
    Shape {
        strokes: seq![
            Point(0, 1),
            HorizontalRun(0, 1, 3),
            Point(4, 1),
            HorizontalRun(2, 2, 3),
            Point(2, 4),
        ],
        shrink: 0,
    }
}

/// The glyph of the question mark, `?`.
pub(crate) fn question() -> (glyph: Glyph)
    ensures
        glyph@ == shape_question(),
{
    Glyph {
        strokes: vec![
            Point(0, 1),
            HorizontalRun(0, 1, 3),
            Point(4, 1),
            HorizontalRun(2, 2, 3),
            Point(2, 4),
        ],
        shrink: 0,
    }
}

/// The shape of the exclamation mark, `!`.
///
/// ```text
/// #....
/// #....
/// #....
/// .....
/// #....
/// ```
///
/// It is 4 pixels narrower than a full cell.
pub open spec fn shape_exclamation() -> Shape {
    Shape {
        strokes: seq![
            VerticalRun(0, 0, 2),
            Point(0, 4),
        ],
        shrink: 4,
    }
}

/// The glyph of the exclamation mark, `!`.
pub(crate) fn exclamation() -> (glyph: Glyph)
    ensures
        glyph@ == shape_exclamation(),
{
    Glyph {
        strokes: vec![
            VerticalRun(0, 0, 2),
            Point(0, 4),
        ],
        shrink: 4,
    }
}

/// The shape of the at sign, `@`.
///
/// ```text
/// .###.
/// #.#.#
/// #.###
/// #....
/// .###.
/// ```
pub open spec fn shape_at() -> Shape {
    Shape {
        strokes: seq![
            HorizontalRun(0, 1, 3),
            HorizontalRun(4, 1, 3),
            VerticalRun(0, 1, 3),
            VerticalRun(4, 1, 2),
            VerticalRun(2, 1, 2),
            Point(3, 2),
        ],
        shrink: 0,
    }
}

/// The glyph of the at sign, `@`.
pub(crate) fn at() -> (glyph: Glyph)
    ensures
        glyph@ == shape_at(),
{
    Glyph {
        strokes: vec![
            HorizontalRun(0, 1, 3),
            HorizontalRun(4, 1, 3),
            VerticalRun(0, 1, 3),
            VerticalRun(4, 1, 2),
            VerticalRun(2, 1, 2),
            Point(3, 2),
        ],
        shrink: 0,
    }
}

/// The shape of the number sign, `#`.
///
/// ```text
/// .#.#.
/// #####
/// .#.#.
/// #####
/// .#.#.
/// ```
pub open spec fn shape_octothorpe() -> Shape {
    Shape {
        strokes: seq![
            VerticalRun(1, 0, 4),
            VerticalRun(3, 0, 4),
            HorizontalRun(1, 0, 4),
            HorizontalRun(3, 0, 4),
        ],
        shrink: 0,
    }
}

/// The glyph of the number sign, `#`.
pub(crate) fn octothorpe() -> (glyph: Glyph)
    ensures
        glyph@ == shape_octothorpe(),
{
    Glyph {
        strokes: vec![
            VerticalRun(1, 0, 4),
            VerticalRun(3, 0, 4),
            HorizontalRun(1, 0, 4),
            HorizontalRun(3, 0, 4),
        ],
        shrink: 0,
    }
}

/// The shape of the dollar sign, `$`.
///
/// ```text
/// ..#..
/// .####
/// #.#..
/// .###.
/// ..#.#
/// ####.
/// ..#..
/// ```
///
/// The picture starts one row above the cell and ends one row below it.
pub open spec fn shape_dollar() -> Shape {
    Shape {
        strokes: shape_s().strokes.push(VerticalRun(2, (-1) as i8, 5)),
        shrink: 0,
    }
}

/// The glyph of the dollar sign, `$`.
pub(crate) fn dollar() -> (glyph: Glyph)
    ensures
        glyph@ == shape_dollar(),
{
    let mut glyph = s();
    glyph.strokes.push(VerticalRun(2, -1, 5));
    glyph
}

/// The shape of the percent sign, `%`.
///
/// ```text
/// #...#
/// ...#.
/// ..#..
/// .#...
/// #...#
/// ```
pub open spec fn shape_percent() -> Shape {
    Shape {
        strokes: shape_fwd_slash().strokes.push(Point(0, 0)).push(Point(4, 4)),
        shrink: 0,
    }
}

/// The glyph of the percent sign, `%`.
pub(crate) fn percent() -> (glyph: Glyph)
    ensures
        glyph@ == shape_percent(),
{
    let mut glyph = fwd_slash();
    glyph.strokes.push(Point(0, 0));
    glyph.strokes.push(Point(4, 4));
    glyph
}

/// The shape of the caret, `^`.
///
/// ```text
/// ..#..
/// .#.#.
/// #...#
/// .....
/// .....
/// ```
pub open spec fn shape_caret() -> Shape {
    Shape {
        strokes: seq![
            Point(0, 2),
            Point(1, 1),
            Point(2, 0),
            Point(3, 1),
            Point(4, 2),
        ],
        shrink: 0,
    }
}

/// The glyph of the caret, `^`.
pub(crate) fn caret() -> (glyph: Glyph)
    ensures
        glyph@ == shape_caret(),
{
    Glyph {
        strokes: vec![
            Point(0, 2),
            Point(1, 1),
            Point(2, 0),
            Point(3, 1),
            Point(4, 2),
        ],
        shrink: 0,
    }
}

/// The shape of the ampersand, `&`.
///
/// ```text
/// .###.
/// #....
/// .####
/// #..#.
/// .###.
/// ```
pub open spec fn shape_ampersand() -> Shape {
    Shape {
        strokes: seq![
            HorizontalRun(0, 1, 3),
            HorizontalRun(2, 1, 4),
            HorizontalRun(4, 1, 3),
            Point(0, 1),
            Point(0, 3),
            Point(3, 3),
        ],
        shrink: 0,
    }
}

/// The glyph of the ampersand, `&`.
pub(crate) fn ampersand() -> (glyph: Glyph)
    ensures
        glyph@ == shape_ampersand(),
{
    Glyph {
        strokes: vec![
            HorizontalRun(0, 1, 3),
            HorizontalRun(2, 1, 4),
            HorizontalRun(4, 1, 3),
            Point(0, 1),
            Point(0, 3),
            Point(3, 3),
        ],
        shrink: 0,
    }
}

/// The shape of the asterisk, `*`.
///
/// ```text
/// ..#..
/// #.#.#
/// .###.
/// #.#.#
/// ..#..
/// ```
pub open spec fn shape_star() -> Shape {
    Shape {
        strokes: seq![
            VerticalRun(2, 0, 4),
            HorizontalRun(2, 1, 3),
            Point(0, 1),
            Point(4, 1),
            Point(0, 3),
            Point(4, 3),
        ],
        shrink: 0,
    }
}

/// The glyph of the asterisk, `*`.
pub(crate) fn star() -> (glyph: Glyph)
    ensures
        glyph@ == shape_star(),
{
    Glyph {
        strokes: vec![
            VerticalRun(2, 0, 4),
            HorizontalRun(2, 1, 3),
            Point(0, 1),
            Point(4, 1),
            Point(0, 3),
            Point(4, 3),
        ],
        shrink: 0,
    }
}

/// The shape of the opening round bracket, `(`.
///
/// ```text
/// .#...
/// #....
/// #....
/// #....
/// .#...
/// ```
///
/// It is 3 pixels narrower than a full cell.
pub open spec fn shape_l_round_bracket() -> Shape {
    Shape {
        strokes: seq![
            VerticalRun(0, 1, 3),
            Point(1, 0),
            Point(1, 4),
        ],
        shrink: 3,
    }
}

/// The glyph of the opening round bracket, `(`.
pub(crate) fn l_round_bracket() -> (glyph: Glyph)
    ensures
        glyph@ == shape_l_round_bracket(),
{
    Glyph {
        strokes: vec![
            VerticalRun(0, 1, 3),
            Point(1, 0),
            Point(1, 4),
        ],
        shrink: 3,
    }
}

/// The shape of the closing round bracket, `)`.
///
/// ```text
/// #....
/// .#...
/// .#...
/// .#...
/// #....
/// ```
///
/// It is 3 pixels narrower than a full cell.
pub open spec fn shape_r_round_bracket() -> Shape {
    Shape {
        strokes: seq![
            VerticalRun(1, 1, 3),
            Point(0, 0),
            Point(0, 4),
        ],
        shrink: 3,
    }
}

/// The glyph of the closing round bracket, `)`.
pub(crate) fn r_round_bracket() -> (glyph: Glyph)
    ensures
        glyph@ == shape_r_round_bracket(),
{
    Glyph {
        strokes: vec![
            VerticalRun(1, 1, 3),
            Point(0, 0),
            Point(0, 4),
        ],
        shrink: 3,
    }
}

/// The shape of the grave accent, `` ` ``.
///
/// ```text
/// #....
/// .#...
/// .....
/// .....
/// .....
/// ```
///
/// It is 3 pixels narrower than a full cell.
pub open spec fn shape_accent() -> Shape {
    Shape {
        strokes: seq![
            Point(0, 0),
            Point(1, 1),
        ],
        shrink: 3,
    }
}

/// The glyph of the grave accent, `` ` ``.
pub(crate) fn accent() -> (glyph: Glyph)
    ensures
        glyph@ == shape_accent(),
{
    Glyph {
        strokes: vec![
            Point(0, 0),
            Point(1, 1),
        ],
        shrink: 3,
    }
}

/// The shape of the tilde, `~`.
///
/// ```text
/// .#.#.
/// #.#..
/// .....
/// .....
/// .....
/// ```
///
/// It is 1 pixel narrower than a full cell.
pub open spec fn shape_tilde() -> Shape {
    Shape {
        strokes: seq![
            Point(0, 1),
            Point(2, 1),
            Point(1, 0),
            Point(3, 0),
        ],
        shrink: 1,
    }
}

/// The glyph of the tilde, `~`.
pub(crate) fn tilde() -> (glyph: Glyph)
    ensures
        glyph@ == shape_tilde(),
{
    Glyph {
        strokes: vec![
            Point(0, 1),
            Point(2, 1),
            Point(1, 0),
            Point(3, 0),
        ],
        shrink: 1,
    }
}

} // verus!
