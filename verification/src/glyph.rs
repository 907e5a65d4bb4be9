//! A glyph: the strokes of one character and the amount by which it is
//! narrower than a full cell.

use vstd::prelude::*;
use crate::stroke::Stroke;

verus! {

/// What a glyph is: its strokes in drawing order and its width correction.
pub struct Shape {
    /// The strokes, in the order in which they are drawn.
    pub strokes: Seq<Stroke>,
    /// The pixels by which the pen steps back once the strokes are drawn.
    pub shrink: u8,
}

/// The drawing of one character.
#[derive(Clone, Debug, PartialEq, Eq)]
pub struct Glyph {
    /// The strokes, in the order in which they are drawn.
    pub strokes: Vec<Stroke>,
    /// The pixels by which the pen steps back once the strokes are drawn.
    pub shrink: u8,
}

impl View for Glyph {
    type V = Shape;

    open spec fn view(&self) -> Shape {
        Shape { strokes: self.strokes@, shrink: self.shrink }
    }
}

} // verus!
