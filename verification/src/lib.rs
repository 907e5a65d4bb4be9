//! Text as vector geometry: every character is a handful of filled,
//! axis-aligned rectangles on a 5×5 pixel grid, laid out by a pen that walks
//! the text and handed to a mesh sink.
//!
//! [`catalog`] says which strokes a character has, [`stroke`] which rectangle
//! a stroke fills, [`layout`] where the pen stands before each character,
//! and [`writer`] draws a text into a [`sink`].

pub mod catalog;
pub mod geometry;
pub mod glyph;
pub mod layout;
pub mod sink;
pub mod stroke;
pub mod writer;

pub use catalog::lookup;
pub use geometry::{Pen, Rect};
pub use glyph::Glyph;
pub use sink::{Color, MeshSink, Quad};
pub use stroke::Stroke;
pub use writer::TextMeshBuilder;
