//! The text writer: draws a text into a mesh sink, glyph by glyph.

use vstd::prelude::*;
use vstd::slice::spec_slice_len;
use vstd::utf8::encode_utf8;
use crate::catalog::lookup;
use crate::geometry::Pen;
use crate::glyph::Glyph;
use crate::layout::{
    glyph_rects, origin_of, pen_at, rendered, rendering, ADVANCE, LINE_HEIGHT,
};
use crate::sink::{inked, Color, MeshSink, QuadModel};
use crate::stroke::rect_of;

verus! {

/// What a sink holds once `text` was drawn into it in `color`, beginning at
/// `point`, when it held `before`: the same, and then the rectangles of the
/// text.
pub open spec fn written(
    before: Seq<QuadModel>,
    color: Color,
    text: Seq<char>,
    point: (i64, i64),
) -> Seq<QuadModel> {
    before + inked(rendered(text, origin_of(point)), color)
}

/// A text has at least one byte for each of its characters.
proof fn lemma_chars_at_most_bytes(chars: Seq<char>)
    ensures
        chars.len() <= encode_utf8(chars).len(),
    decreases chars.len(),
{
    if chars.len() > 0 {
        lemma_chars_at_most_bytes(chars.drop_first());
    }
}

/// Draws `glyph` with its corner at `pen`: one rectangle for each stroke, in
/// order, each filled with `color`.
pub fn draw_glyph(sink: &mut MeshSink, color: Color, pen: Pen, glyph: &Glyph)
    requires
        forall|i: int|
            0 <= i < glyph@.strokes.len() ==> #[trigger] rect_of(
                pen@,
                glyph@.strokes[i],
            ).representable(),
    ensures
        final(sink)@ == old(sink)@ + inked(glyph_rects(pen@, glyph@.strokes), color),
{
    let mut i: usize = 0;
    while i < glyph.strokes.len()
        invariant
            0 <= i <= glyph.strokes.len(),
            forall|k: int|
                0 <= k < glyph@.strokes.len() ==> #[trigger] rect_of(
                    pen@,
                    glyph@.strokes[k],
                ).representable(),
            sink@ == old(sink)@ + inked(glyph_rects(pen@, glyph@.strokes.take(i as int)), color),
        decreases glyph.strokes.len() - i,
    {
        let rect = glyph.strokes[i].rect_at(pen);
        sink.rectangle(rect, color);
        i += 1;
    }
}

/// Draws `text` into `sink`, beginning at `point`, and gives the pen at which
/// a text that goes on from there would begin.
pub fn render(sink: &mut MeshSink, color: Color, text: &str, point: (i64, i64)) -> (pen: Pen)
    ensures
        final(sink)@ == written(old(sink)@, color, text@, point),
        pen@ == pen_at(text@, origin_of(point), text@.len()),
{
    let ghost origin = origin_of(point);
    // The bytes of a text fit in memory, so its characters can be counted in
    // a `usize`, and the pen stays far inside its range.
    let bytes = text.as_bytes();
    proof {
        lemma_chars_at_most_bytes(text@);
        assert(bytes@.len() == spec_slice_len(bytes));
    }
    let mut pen = Pen::at(point);
    for c in it: text.chars()
        invariant
            it.seq() == text@,
            text@.len() <= usize::MAX,
            origin == origin_of(point),
            pen@ == pen_at(text@, origin, it.index() as nat),
            origin.x - ADVANCE * it.index() <= pen.x <= origin.x + ADVANCE * it.index(),
            origin.y <= pen.y <= origin.y + LINE_HEIGHT * it.index(),
            sink@ == old(sink)@ + inked(rendering(text@, origin, it.index() as nat), color),
    {
        if c == '\n' {
            pen = pen.after_newline(point.0);
        } else {
            let glyph = lookup(c);
            draw_glyph(sink, color, pen, &glyph);
            pen = pen.after_glyph(&glyph);
        }
    }
    pen
}

/// Writes text into a mesh sink in one colour.
#[derive(Debug)]
pub struct TextMeshBuilder<'a> {
    /// The colour of everything this writer draws.
    pub color: Color,
    /// Where the rectangles go.
    pub sink: &'a mut MeshSink,
}

impl<'a> TextMeshBuilder<'a> {
    /// A writer that draws into `sink` in opaque white.
    pub fn new(sink: &'a mut MeshSink) -> (writer: Self)
        ensures
            writer.color == Color::white(),
            *writer.sink == *old(sink),
            *final(writer.sink) == *final(sink),
    {
        Self { color: Color::white(), sink }
    }

    /// A writer that draws into `sink` in `color`.
    pub fn with_color(color: Color, sink: &'a mut MeshSink) -> (writer: Self)
        ensures
            writer.color == color,
            *writer.sink == *old(sink),
            *final(writer.sink) == *final(sink),
    {
        Self { color, sink }
    }

    /// Draws `text`, beginning at `point`, after all that the sink holds, and
    /// gives the writer back for the next text. The point is in whole pixels,
    /// and each text begins at its own point.
    pub fn write(&mut self, text: &str, point: (i64, i64)) -> (writer: &mut Self)
        ensures
            writer.sink@ == written(old(self).sink@, old(self).color, text@, point),
            writer.color == old(self).color,
            *final(writer.sink) == *final(old(self).sink),
            *final(self) == *final(writer),
    {
        render(self.sink, self.color, text, point);
        self
    }
}

/// Writing is repeatable: whatever two sinks that were empty hold after the
/// same text was drawn into each, in the same colour and from the same point,
/// is the same, rectangle for rectangle, and is nothing but the text.
pub proof fn lemma_write_repeatable(
    first: Seq<QuadModel>,
    second: Seq<QuadModel>,
    color: Color,
    text: Seq<char>,
    point: (i64, i64),
)
    requires
        first == written(Seq::empty(), color, text, point),
        second == written(Seq::empty(), color, text, point),
    ensures
        first == second,
        first == inked(rendered(text, origin_of(point)), color),
{
}

} // verus!
