use text_mesh::catalog::lookup;
use text_mesh::geometry::Pen;
use text_mesh::layout::{ADVANCE, LINE_HEIGHT};
use text_mesh::sink::{Color, MeshSink};
use text_mesh::writer::render;

fn pen_after(text: &str, point: (i64, i64)) -> (Pen, usize) {
    let mut sink = MeshSink::new();
    let pen = render(&mut sink, Color::white(), text, point);
    (pen, sink.quads.len())
}

#[test]
fn cell_and_line_distances() {
    assert_eq!(ADVANCE, 8);
    assert_eq!(LINE_HEIGHT, 9);
}

#[test]
fn pen_starts_at_the_point() {
    assert_eq!(Pen::at((3, -4)), Pen { x: 3, y: -4 });
    assert_eq!(pen_after("", (3, -4)), (Pen { x: 3, y: -4 }, 0));
}

#[test]
fn glyph_of_full_width_moves_the_pen_eight_right() {
    assert_eq!(Pen { x: 5, y: 7 }.after_glyph(&lookup('A')), Pen { x: 13, y: 7 });
    assert_eq!(pen_after("A", (5, 7)).0, Pen { x: 13, y: 7 });
    assert_eq!(pen_after("_", (0, 0)).0, Pen { x: 8, y: 0 });
}

#[test]
fn space_moves_the_pen_six_right_and_draws_nothing() {
    assert_eq!(Pen { x: 5, y: 7 }.after_glyph(&lookup(' ')), Pen { x: 11, y: 7 });
    assert_eq!(pen_after(" ", (5, 7)), (Pen { x: 11, y: 7 }, 0));
    assert_eq!(pen_after("   ", (0, 0)), (Pen { x: 18, y: 0 }, 0));
}

#[test]
fn glyph_four_narrower_moves_the_pen_four_right() {
    assert_eq!(Pen { x: 5, y: 7 }.after_glyph(&lookup('I')), Pen { x: 9, y: 7 });
    assert_eq!(pen_after("I", (5, 7)).0, Pen { x: 9, y: 7 });
    assert_eq!(pen_after(":", (0, 0)).0, Pen { x: 4, y: 0 });
    assert_eq!(pen_after("|", (-4, 0)).0, Pen { x: 0, y: 0 });
}

#[test]
fn digit_moves_the_pen_seven_right() {
    assert_eq!(pen_after("7", (0, 0)).0, Pen { x: 7, y: 0 });
    assert_eq!(pen_after("2024", (100, 50)).0, Pen { x: 128, y: 50 });
}

#[test]
fn character_without_entry_moves_the_pen_seven_right() {
    assert_eq!(pen_after("\t", (0, 0)), (Pen { x: 7, y: 0 }, 4));
    assert_eq!(pen_after("é", (0, 0)), (Pen { x: 7, y: 0 }, 4));
}

#[test]
fn line_feed_returns_to_the_first_column_one_line_down() {
    assert_eq!(Pen { x: 50, y: 7 }.after_newline(3), Pen { x: 3, y: 16 });
    assert_eq!(pen_after("\n", (3, 7)), (Pen { x: 3, y: 16 }, 0));
    assert_eq!(pen_after("AB\n", (3, 7)).0, Pen { x: 3, y: 16 });
    assert_eq!(pen_after("AB\nCD", (3, 7)).0, Pen { x: 19, y: 16 });
    assert_eq!(pen_after("\n\n\n", (-2, -30)).0, Pen { x: -2, y: -3 });
}

#[test]
fn line_feed_is_not_capitalised_away_or_drawn() {
    assert_eq!(pen_after("a\nb", (0, 0)), (Pen { x: 8, y: 9 }, 4 + 6));
}

#[test]
fn pen_after_a_mixed_text() {
    // H 8, i 4, ! 4, space 6, 4 7, 2 7
    assert_eq!(pen_after("Hi! 42", (10, 20)).0, Pen { x: 46, y: 20 });
}

#[test]
fn pen_far_from_the_origin() {
    assert_eq!(
        pen_after("AI\nA", (i64::MAX, i64::MIN)).0,
        Pen { x: i128::from(i64::MAX) + 8, y: i128::from(i64::MIN) + 9 }
    );
    assert_eq!(
        pen_after("|", (i64::MIN, i64::MAX)).0,
        Pen { x: i128::from(i64::MIN) + 4, y: i128::from(i64::MAX) }
    );
}

#[test]
fn pen_after_every_documented_character() {
    let text = "ABCDEFGHIJKLMNOPQRSTUVWXYZ0123456789 -_=+[{]}\\|;:'\",<.>/?!@#$%^&*()`~";
    assert_eq!(pen_after(text, (0, 0)), (Pen { x: 69 * 8 - 65, y: 0 }, 268));
}
