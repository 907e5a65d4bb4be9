use text_mesh::geometry::{Pen, Rect};
use text_mesh::sink::{Color, MeshSink, Quad};
use text_mesh::writer::{draw_glyph, render, TextMeshBuilder};
use text_mesh::catalog::lookup;

fn white(x: i128, y: i128, w: i128, h: i128) -> Quad {
    Quad { rect: Rect { x, y, w, h }, color: Color::white() }
}

fn rects(sink: &MeshSink) -> Vec<Rect> {
    sink.quads.iter().map(|quad| quad.rect).collect()
}

#[test]
fn white_is_opaque_white() {
    assert_eq!(Color::white(), Color { r: 255, g: 255, b: 255, a: 255 });
}

#[test]
fn new_sink_is_empty() {
    assert!(MeshSink::new().quads.is_empty());
}

#[test]
fn sink_keeps_rectangles_in_order_with_their_colours() {
    let red = Color { r: 255, g: 0, b: 0, a: 255 };
    let mut sink = MeshSink::new();
    sink.rectangle(Rect { x: 1, y: 2, w: 3, h: 4 }, red);
    sink.rectangle(Rect { x: 5, y: 6, w: 7, h: 8 }, Color::white());
    assert_eq!(
        sink.quads,
        vec![Quad { rect: Rect { x: 1, y: 2, w: 3, h: 4 }, color: red }, white(5, 6, 7, 8)]
    );
}

#[test]
fn new_writer_is_white_and_leaves_the_sink_alone() {
    let mut sink = MeshSink::new();
    sink.rectangle(Rect { x: 1, y: 2, w: 3, h: 4 }, Color::white());
    let writer = TextMeshBuilder::new(&mut sink);
    assert_eq!(writer.color, Color::white());
    assert_eq!(writer.sink.quads.len(), 1);
    assert_eq!(sink.quads, vec![white(1, 2, 3, 4)]);
}

#[test]
fn writer_with_color_draws_in_that_colour() {
    let teal = Color { r: 0, g: 128, b: 128, a: 200 };
    let mut sink = MeshSink::new();
    let mut writer = TextMeshBuilder::with_color(teal, &mut sink);
    assert_eq!(writer.color, teal);
    writer.write("ok", (0, 0));
    assert_eq!(writer.color, teal);
    assert_eq!(sink.quads.len(), 4 + 6);
    assert!(sink.quads.iter().all(|quad| quad.color == teal));
}

#[test]
fn hi_at_the_origin() {
    let mut sink = MeshSink::new();
    TextMeshBuilder::new(&mut sink).write("HI", (0, 0));
    assert_eq!(
        sink.quads,
        vec![white(0, 0, 1, 5), white(4, 0, 1, 5), white(1, 2, 3, 1), white(8, 0, 1, 5)]
    );
    for quad in sink.quads.iter() {
        let rect = quad.rect;
        assert!(0 <= rect.x && rect.x + rect.w - 1 <= 12);
        assert!(0 <= rect.y && rect.y + rect.h - 1 <= 4);
    }
    let glyph = lookup('I');
    let runs: Vec<Rect> = glyph.strokes.iter().map(|s| s.rect_at(Pen { x: 0, y: 0 })).collect();
    assert_eq!(runs, vec![Rect { x: 0, y: 0, w: 1, h: 5 }]);
    assert_eq!(glyph.shrink, 4);
}

#[test]
fn small_letters_are_written_as_capitals() {
    let mut small = MeshSink::new();
    let mut capital = MeshSink::new();
    TextMeshBuilder::new(&mut small).write("hello, world", (4, 9));
    TextMeshBuilder::new(&mut capital).write("HELLO, WORLD", (4, 9));
    assert!(!small.quads.is_empty());
    assert_eq!(small.quads, capital.quads);
}

#[test]
fn letter_a_away_from_the_origin() {
    let mut sink = MeshSink::new();
    TextMeshBuilder::new(&mut sink).write("A", (10, 20));
    assert_eq!(
        sink.quads,
        vec![white(10, 21, 1, 4), white(14, 21, 1, 4), white(11, 20, 3, 1), white(11, 22, 3, 1)]
    );
}

#[test]
fn dollar_overshoots_its_cell_by_one_row_each_way() {
    let mut sink = MeshSink::new();
    TextMeshBuilder::new(&mut sink).write("$", (0, 0));
    assert_eq!(sink.quads.len(), 6);
    assert_eq!(sink.quads[5], white(2, -1, 1, 7));
}

#[test]
fn second_line_starts_below_the_first_in_the_same_column() {
    let mut sink = MeshSink::new();
    TextMeshBuilder::new(&mut sink).write("AB\nCD", (3, 10));
    let all = rects(&sink);
    assert_eq!(all.len(), 4 + 6 + 3 + 4);
    // A
    assert_eq!(all[0], Rect { x: 3, y: 11, w: 1, h: 4 });
    // B, one cell to the right in the same row
    assert_eq!(all[4], Rect { x: 11, y: 10, w: 1, h: 5 });
    // C, in the column of A and nine rows below it
    assert_eq!(
        all[10..13],
        [
            Rect { x: 3, y: 20, w: 1, h: 3 },
            Rect { x: 4, y: 19, w: 4, h: 1 },
            Rect { x: 4, y: 23, w: 4, h: 1 },
        ]
    );
    // D, in the column of B and nine rows below it
    assert_eq!(
        all[13..],
        [
            Rect { x: 11, y: 19, w: 1, h: 5 },
            Rect { x: 15, y: 20, w: 1, h: 3 },
            Rect { x: 12, y: 19, w: 3, h: 1 },
            Rect { x: 12, y: 23, w: 3, h: 1 },
        ]
    );
    let mut alone = MeshSink::new();
    TextMeshBuilder::new(&mut alone).write("CD", (3, 19));
    assert_eq!(all[10..], rects(&alone)[..]);
}

#[test]
fn line_feed_returns_to_the_column_of_the_point_not_to_zero() {
    let mut sink = MeshSink::new();
    TextMeshBuilder::new(&mut sink).write("I\nI", (-40, -9));
    assert_eq!(rects(&sink), vec![Rect { x: -40, y: -9, w: 1, h: 5 }, Rect { x: -40, y: 0, w: 1, h: 5 }]);
}

#[test]
fn same_text_twice_gives_the_same_rectangles() {
    let text = "The quick brown fox\njumps over 13 lazy dogs! {~}";
    let mut first = MeshSink::new();
    let mut second = MeshSink::new();
    TextMeshBuilder::new(&mut first).write(text, (17, -5));
    TextMeshBuilder::new(&mut second).write(text, (17, -5));
    assert!(!first.quads.is_empty());
    assert_eq!(first.quads, second.quads);
}

#[test]
fn chained_writes_each_start_at_their_own_point() {
    let mut chained = MeshSink::new();
    TextMeshBuilder::new(&mut chained).write("AB", (0, 0)).write("C", (100, 50));
    let mut first = MeshSink::new();
    TextMeshBuilder::new(&mut first).write("AB", (0, 0));
    let mut second = MeshSink::new();
    TextMeshBuilder::new(&mut second).write("C", (100, 50));
    let mut expected = first.quads.clone();
    expected.extend(second.quads.iter().copied());
    assert_eq!(chained.quads, expected);
    assert_eq!(chained.quads[10], white(100, 51, 1, 3));
}

#[test]
fn write_appends_to_what_the_sink_holds() {
    let mut sink = MeshSink::new();
    sink.rectangle(Rect { x: 9, y: 9, w: 9, h: 9 }, Color { r: 1, g: 2, b: 3, a: 4 });
    TextMeshBuilder::new(&mut sink).write("I", (0, 0));
    assert_eq!(
        sink.quads,
        vec![
            Quad { rect: Rect { x: 9, y: 9, w: 9, h: 9 }, color: Color { r: 1, g: 2, b: 3, a: 4 } },
            white(0, 0, 1, 5),
        ]
    );
}

#[test]
fn empty_text_draws_nothing() {
    let mut sink = MeshSink::new();
    TextMeshBuilder::new(&mut sink).write("", (5, 5));
    assert!(sink.quads.is_empty());
}

#[test]
fn character_without_entry_is_drawn_as_the_box() {
    let mut sink = MeshSink::new();
    TextMeshBuilder::new(&mut sink).write("\tI", (0, 0));
    assert_eq!(
        sink.quads,
        vec![
            white(0, 0, 4, 1),
            white(0, 4, 4, 1),
            white(0, 1, 1, 3),
            white(3, 1, 1, 3),
            white(7, 0, 1, 5),
        ]
    );
}

#[test]
fn draw_glyph_gives_one_rectangle_for_each_stroke() {
    let mut sink = MeshSink::new();
    let teal = Color { r: 0, g: 128, b: 128, a: 255 };
    draw_glyph(&mut sink, teal, Pen { x: 2, y: 3 }, &lookup('T'));
    assert_eq!(
        sink.quads,
        vec![
            Quad { rect: Rect { x: 4, y: 4, w: 1, h: 4 }, color: teal },
            Quad { rect: Rect { x: 2, y: 3, w: 5, h: 1 }, color: teal },
        ]
    );
}

#[test]
fn render_gives_the_pen_for_the_text_that_follows() {
    let mut whole = MeshSink::new();
    render(&mut whole, Color::white(), "AB12", (6, 2));
    let mut parts = MeshSink::new();
    let pen = render(&mut parts, Color::white(), "AB", (6, 2));
    assert_eq!(pen, Pen { x: 22, y: 2 });
    render(&mut parts, Color::white(), "12", (22, 2));
    assert_eq!(whole.quads, parts.quads);
}

#[test]
fn every_rectangle_lies_in_the_cell_of_its_character() {
    let mut sink = MeshSink::new();
    TextMeshBuilder::new(&mut sink).write("Q$", (0, 0));
    let all = rects(&sink);
    assert_eq!(all.len(), 5 + 6);
    for rect in &all[..5] {
        assert!(0 <= rect.x && rect.x + rect.w <= 5 && -1 <= rect.y && rect.y + rect.h <= 6);
    }
    for rect in &all[5..] {
        assert!(8 <= rect.x && rect.x + rect.w <= 13 && -1 <= rect.y && rect.y + rect.h <= 6);
    }
}

#[test]
fn origin_at_the_ends_of_the_range() {
    let mut sink = MeshSink::new();
    TextMeshBuilder::new(&mut sink).write("I\nI", (i64::MAX, i64::MAX));
    assert_eq!(
        rects(&sink),
        vec![
            Rect { x: i128::from(i64::MAX), y: i128::from(i64::MAX), w: 1, h: 5 },
            Rect { x: i128::from(i64::MAX), y: i128::from(i64::MAX) + 9, w: 1, h: 5 },
        ]
    );
}
