//! The cursor: where the pen stands before each character of a text, and the
//! rectangles that the text gives.
//!
//! A character is drawn at the pen. The pen then steps back by the glyph's
//! width correction and forward by one cell. A line feed draws nothing: it
//! takes the pen one line down and back to the column in which the text
//! began.

use vstd::prelude::*;
use crate::catalog::{entry, glyph_of, lemma_fallback, lemma_strokes_in_cell, to_upper};
use crate::geometry::{Pen, PenModel, RectModel};
use crate::glyph::Glyph;
use crate::stroke::{rect_of, Stroke};

verus! {

/// The distance from the corner of one cell to the corner of the next.
pub const ADVANCE: i128 = 8;

/// The distance from one line of text to the next.
pub const LINE_HEIGHT: i128 = 9;

impl PenModel {
    /// The pen after a glyph with the width correction `shrink` was drawn at
    /// it.
    pub open spec fn after_glyph(self, shrink: int) -> PenModel {
        PenModel { x: (self.x - shrink) + ADVANCE, y: self.y }
    }

    /// The pen after a line feed in a text that began in column `home_x`.
    /// The line feed puts the pen one cell to the left of that column, and
    /// the step that follows every character brings it back there.
    pub open spec fn after_newline(self, home_x: int) -> PenModel {
        PenModel { x: (home_x - ADVANCE) + ADVANCE, y: self.y + LINE_HEIGHT }
    }

    /// The pen after the character `c` of a text that began in column
    /// `home_x`.
    pub open spec fn after_char(self, home_x: int, c: char) -> PenModel {
        if c == '\n' {
            self.after_newline(home_x)
        } else {
            self.after_glyph(glyph_of(c).shrink as int)
        }
    }
}

/// The pen with which a text that begins at `point` starts.
pub open spec fn origin_of(point: (i64, i64)) -> PenModel {
    PenModel { x: point.0 as int, y: point.1 as int }
}

/// The rectangles of a glyph's strokes drawn at `pen`, in drawing order.
pub open spec fn glyph_rects(pen: PenModel, strokes: Seq<Stroke>) -> Seq<RectModel> {
    Seq::new(strokes.len(), |i: int| rect_of(pen, strokes[i]))
}

/// The rectangles that the character `c` gives at `pen`: none for a line
/// feed, else those of its glyph.
pub open spec fn char_rects(pen: PenModel, c: char) -> Seq<RectModel> {
    if c == '\n' {
        Seq::empty()
    } else {
        glyph_rects(pen, glyph_of(c).strokes)
    }
}

/// The pen after the first `n` characters of `text`, which begins at
/// `origin`.
pub open spec fn pen_at(text: Seq<char>, origin: PenModel, n: nat) -> PenModel
    decreases n,
{
    if n == 0 {
        origin
    } else {
        pen_at(text, origin, (n - 1) as nat).after_char(origin.x, text[n - 1])
    }
}

/// The rectangles that the first `n` characters of `text` give, in order.
pub open spec fn rendering(text: Seq<char>, origin: PenModel, n: nat) -> Seq<RectModel>
    decreases n,
{
    if n == 0 {
        Seq::empty()
    } else {
        rendering(text, origin, (n - 1) as nat) + char_rects(
            pen_at(text, origin, (n - 1) as nat),
            text[n - 1],
        )
    }
}

/// The rectangles that the whole of `text` gives.
pub open spec fn rendered(text: Seq<char>, origin: PenModel) -> Seq<RectModel> {
    rendering(text, origin, text.len())
}

impl Pen {
    /// The pen with which a text that begins at `point` starts.
    pub fn at(point: (i64, i64)) -> (pen: Pen)
        ensures
            pen@ == origin_of(point),
    {
        Pen { x: point.0 as i128, y: point.1 as i128 }
    }

    /// The pen after `glyph` was drawn at it.
    pub fn after_glyph(self, glyph: &Glyph) -> (pen: Pen)
        requires
            i128::MIN <= self.x - glyph.shrink,
            self.x - glyph.shrink + ADVANCE <= i128::MAX,
        ensures
            pen@ == self@.after_glyph(glyph@.shrink as int),
    {
        Pen { x: (self.x - (glyph.shrink as i128)) + ADVANCE, y: self.y }
    }

    /// The pen after a line feed in a text that began in column `home_x`.
    pub fn after_newline(self, home_x: i64) -> (pen: Pen)
        requires
            self.y + LINE_HEIGHT <= i128::MAX,
        ensures
            pen@ == self@.after_newline(home_x as int),
    {
        Pen { x: ((home_x as i128) - ADVANCE) + ADVANCE, y: self.y + LINE_HEIGHT }
    }
}

/// A text of one character that is no line feed leaves the pen in its row,
/// one cell further right less the glyph's width correction: eight pixels
/// for a glyph of full width, four for one that is narrower by four.
pub proof fn lemma_advance(c: char, origin: PenModel)
    requires
        c != '\n',
    ensures
        pen_at(seq![c], origin, 1).y == origin.y,
        pen_at(seq![c], origin, 1).x == origin.x + 8 - glyph_of(c).shrink,
        glyph_of(c).shrink == 0 ==> pen_at(seq![c], origin, 1).x == origin.x + 8,
        glyph_of(c).shrink == 4 ==> pen_at(seq![c], origin, 1).x == origin.x + 4,
{
    let text = seq![c];
    assert(pen_at(text, origin, 1) == pen_at(text, origin, 0).after_char(origin.x, text[0]));
}

/// A space draws nothing and moves the pen six pixels to the right.
pub proof fn lemma_space(origin: PenModel)
    ensures
        rendered(seq![' '], origin) == Seq::<RectModel>::empty(),
        pen_at(seq![' '], origin, 1) == (PenModel { x: origin.x + 6, y: origin.y }),
{
    let text = seq![' '];
    assert(rendering(text, origin, 1) == rendering(text, origin, 0) + char_rects(
        pen_at(text, origin, 0),
        text[0],
    ));
}

/// A character that has no entry and is no line feed is drawn as the box:
/// its top, its bottom, its left side and its right side, in that order. The
/// pen then moves seven pixels to the right.
pub proof fn lemma_fallback_drawn(pen: PenModel, home_x: int, c: char)
    requires
        entry(to_upper(c)) is None,
        c != '\n',
    ensures
        char_rects(pen, c) == seq![
            RectModel { x: pen.x, y: pen.y, w: 4, h: 1 },
            RectModel { x: pen.x, y: pen.y + 4, w: 4, h: 1 },
            RectModel { x: pen.x, y: pen.y + 1, w: 1, h: 3 },
            RectModel { x: pen.x + 3, y: pen.y + 1, w: 1, h: 3 },
        ],
        pen.after_char(home_x, c) == (PenModel { x: pen.x + 7, y: pen.y }),
{
    lemma_fallback(c);
}

/// After a line feed the pen stands in the column in which the text began,
/// one line below the row in which it stood.
pub proof fn lemma_newline(text: Seq<char>, origin: PenModel, i: nat)
    requires
        i < text.len(),
        text[i as int] == '\n',
    ensures
        pen_at(text, origin, i + 1).x == origin.x,
        pen_at(text, origin, i + 1).y == pen_at(text, origin, i).y + 9,
{
}

/// A character that is no line feed leaves the pen in its row.
pub proof fn lemma_row_kept(text: Seq<char>, origin: PenModel, i: nat)
    requires
        i < text.len(),
        text[i as int] != '\n',
    ensures
        pen_at(text, origin, i + 1).y == pen_at(text, origin, i).y,
{
}

/// The number of line feeds among the first `n` characters of `text`.
pub open spec fn line_feeds(text: Seq<char>, n: nat) -> nat
    decreases n,
{
    if n == 0 {
        0
    } else {
        line_feeds(text, (n - 1) as nat) + if text[n - 1] == '\n' {
            1nat
        } else {
            0nat
        }
    }
}

/// The pen stands one line below the row in which the text began for each
/// line feed that came before it.
pub proof fn lemma_row_counts_line_feeds(text: Seq<char>, origin: PenModel, n: nat)
    requires
        n <= text.len(),
    ensures
        pen_at(text, origin, n).y == origin.y + 9 * line_feeds(text, n),
    decreases n,
{
    if n > 0 {
        lemma_row_counts_line_feeds(text, origin, (n - 1) as nat);
    }
}

/// Every rectangle of a character lies inside the cell at the pen at which
/// the character is drawn: five columns, and five rows with the one row
/// above and below them. It is at least one pixel wide and high.
pub proof fn lemma_rects_in_cell(pen: PenModel, c: char, i: int)
    requires
        0 <= i < char_rects(pen, c).len(),
    ensures
        ({
            let rect = char_rects(pen, c)[i];
            &&& rect.w >= 1
            &&& rect.h >= 1
            &&& pen.x <= rect.x
            &&& rect.x + rect.w <= pen.x + 5
            &&& pen.y - 1 <= rect.y
            &&& rect.y + rect.h <= pen.y + 6
        }),
{
    lemma_strokes_in_cell(c, i);
}

} // verus!
