//! The mesh sink: the filled rectangles that were drawn, each with its
//! colour, in the order in which they came.

use vstd::prelude::*;
use crate::geometry::{Rect, RectModel};

verus! {

/// A colour: red, green, blue and opacity, each from 0 to 255.
#[derive(Clone, Copy, Debug, PartialEq, Eq, Structural)]
pub struct Color {
    pub r: u8,
    pub g: u8,
    pub b: u8,
    pub a: u8,
}

impl Color {
    /// Opaque white.
    pub open spec fn spec_white() -> Color {
        Color { r: 255, g: 255, b: 255, a: 255 }
    }

    /// Opaque white.
    #[verifier::when_used_as_spec(spec_white)]
    pub fn white() -> (color: Color)
        ensures
            color == Color::spec_white(),
    {
        Color { r: 255, g: 255, b: 255, a: 255 }
    }
}

/// A filled rectangle with its colour, over the unbounded integers.
pub struct QuadModel {
    pub rect: RectModel,
    pub color: Color,
}

/// A filled rectangle with its colour.
#[derive(Clone, Copy, Debug, PartialEq, Eq, Structural)]
pub struct Quad {
    pub rect: Rect,
    pub color: Color,
}

impl View for Quad {
    type V = QuadModel;

    open spec fn view(&self) -> QuadModel {
        QuadModel { rect: self.rect@, color: self.color }
    }
}

/// The given rectangles, each filled with `color`.
pub open spec fn inked(rects: Seq<RectModel>, color: Color) -> Seq<QuadModel> {
    Seq::new(rects.len(), |i: int| QuadModel { rect: rects[i], color })
}

/// Collects filled rectangles for drawing.
#[derive(Debug)]
pub struct MeshSink {
    /// What was drawn so far, oldest first.
    pub quads: Vec<Quad>,
}

impl View for MeshSink {
    type V = Seq<QuadModel>;

    open spec fn view(&self) -> Seq<QuadModel> {
        Seq::new(self.quads@.len(), |i: int| self.quads@[i]@)
    }
}

impl MeshSink {
    /// A sink into which nothing was drawn yet.
    pub fn new() -> (sink: MeshSink)
        ensures
            sink@ == Seq::<QuadModel>::empty(),
    {
        MeshSink { quads: Vec::new() }
    }

    /// Draws one rectangle, filled with `color`, after all that was drawn
    /// before.
    pub fn rectangle(&mut self, bounds: Rect, color: Color)
        ensures
            final(self)@ == old(self)@.push(QuadModel { rect: bounds@, color }),
    {
        self.quads.push(Quad { rect: bounds, color });
    }
}

} // verus!
