use text_mesh::catalog::{invalid, lookup, upper};
use text_mesh::glyph::Glyph;
use text_mesh::stroke::Stroke;
use text_mesh::stroke::Stroke::{HorizontalRun, Point, VerticalRun};

const DOCUMENTED: &str =
    "ABCDEFGHIJKLMNOPQRSTUVWXYZ0123456789 -_=+[{]}\\|;:'\",<.>/?!@#$%^&*()`~";

fn height(stroke: &Stroke) -> i32 {
    match *stroke {
        VerticalRun(_, from, to) => i32::from(to) - i32::from(from) + 1,
        _ => 1,
    }
}

#[test]
fn upper_capitalises_small_ascii_letters_only() {
    assert_eq!(upper('a'), 'A');
    assert_eq!(upper('m'), 'M');
    assert_eq!(upper('z'), 'Z');
    assert_eq!(upper('A'), 'A');
    assert_eq!(upper('`'), '`');
    assert_eq!(upper('{'), '{');
    assert_eq!(upper('7'), '7');
    assert_eq!(upper('\n'), '\n');
    assert_eq!(upper('é'), 'é');
    assert_eq!(upper('ß'), 'ß');
}

#[test]
fn small_and_capital_letters_share_a_glyph() {
    for c in "abcdefghijklmnopqrstuvwxyz".chars() {
        assert_eq!(lookup(c), lookup(c.to_ascii_uppercase()), "letter {}", c);
    }
    for c in DOCUMENTED.chars() {
        assert_eq!(lookup(c), lookup(upper(c)), "character {}", c);
    }
}

#[test]
fn letter_a_has_its_strokes_in_order() {
    let glyph = lookup('A');
    assert_eq!(
        glyph.strokes,
        vec![
            VerticalRun(0, 1, 4),
            VerticalRun(4, 1, 4),
            HorizontalRun(0, 1, 3),
            HorizontalRun(2, 1, 3),
        ]
    );
    assert_eq!(glyph.shrink, 0);
}

#[test]
fn letter_i_is_one_run_of_five_rows_and_four_narrower() {
    let glyph = lookup('I');
    assert_eq!(glyph.strokes, vec![VerticalRun(0, 0, 4)]);
    assert_eq!(glyph.strokes.iter().filter(|s| matches!(s, VerticalRun(..))).count(), 1);
    assert_eq!(height(&glyph.strokes[0]), 5);
    assert_eq!(glyph.shrink, 4);
}

#[test]
fn letter_x_is_nine_points() {
    let glyph = lookup('x');
    assert_eq!(
        glyph.strokes,
        vec![
            Point(0, 0),
            Point(1, 1),
            Point(2, 2),
            Point(3, 3),
            Point(4, 4),
            Point(0, 4),
            Point(1, 3),
            Point(3, 1),
            Point(4, 0),
        ]
    );
    assert_eq!(glyph.shrink, 0);
}

#[test]
fn letter_q_is_the_letter_o_with_a_tail_below_the_cell() {
    let mut expected = lookup('O').strokes;
    expected.push(Point(4, 5));
    assert_eq!(lookup('Q').strokes, expected);
    assert_eq!(lookup('Q').shrink, 0);
}

#[test]
fn dollar_is_the_letter_s_with_a_bar_through_it() {
    let mut expected = lookup('S').strokes;
    expected.push(VerticalRun(2, -1, 5));
    assert_eq!(lookup('$').strokes, expected);
    assert_eq!(lookup('$').shrink, 0);
}

#[test]
fn percent_is_the_slash_with_two_points() {
    let mut expected = lookup('/').strokes;
    expected.push(Point(0, 0));
    expected.push(Point(4, 4));
    assert_eq!(lookup('%').strokes, expected);
}

#[test]
fn backslash_is_the_diagonal() {
    assert_eq!(
        lookup('\\').strokes,
        vec![Point(0, 0), Point(1, 1), Point(2, 2), Point(3, 3), Point(4, 4)]
    );
    assert_eq!(lookup('\\').shrink, 0);
}

#[test]
fn digit_eight_has_its_strokes_in_order() {
    let glyph = lookup('8');
    assert_eq!(
        glyph.strokes,
        vec![
            HorizontalRun(0, 1, 2),
            HorizontalRun(2, 1, 2),
            HorizontalRun(4, 1, 2),
            Point(0, 1),
            Point(3, 1),
            Point(0, 3),
            Point(3, 3),
        ]
    );
    assert_eq!(glyph.shrink, 1);
}

#[test]
fn digits_are_one_pixel_narrower() {
    for c in "0123456789".chars() {
        assert_eq!(lookup(c).shrink, 1, "digit {}", c);
        assert!(!lookup(c).strokes.is_empty());
    }
}

#[test]
fn space_has_no_strokes_and_is_two_pixels_narrower() {
    assert_eq!(lookup(' '), Glyph { strokes: vec![], shrink: 2 });
}

#[test]
fn thin_marks_are_four_pixels_narrower() {
    for c in ":;'!|,.".chars() {
        assert_eq!(lookup(c).shrink, 4, "mark {}", c);
    }
}

#[test]
fn other_width_corrections() {
    for c in "\"<>".chars() {
        assert_eq!(lookup(c).shrink, 2, "mark {}", c);
    }
    for c in "`()".chars() {
        assert_eq!(lookup(c).shrink, 3, "mark {}", c);
    }
    for c in "-[]{}~".chars() {
        assert_eq!(lookup(c).shrink, 1, "mark {}", c);
    }
    for c in "ABCDEFGHJKLMNOPQRSTUVWXYZ_=+\\/?@#$%^&*".chars() {
        assert_eq!(lookup(c).shrink, 0, "character {}", c);
    }
}

#[test]
fn character_without_entry_is_the_box() {
    let boxed = Glyph {
        strokes: vec![
            HorizontalRun(0, 0, 3),
            HorizontalRun(4, 0, 3),
            VerticalRun(0, 1, 3),
            VerticalRun(3, 1, 3),
        ],
        shrink: 1,
    };
    assert_eq!(invalid(), boxed);
    for c in ['\t', '\r', '\u{0}', '\u{7f}', 'é', 'Ω', '€', '\u{10FFFF}', '\n'] {
        assert_eq!(lookup(c), boxed, "character {:?}", c);
        assert_eq!(lookup(c).shrink, 1);
    }
}

#[test]
fn no_documented_character_falls_back() {
    let boxed = invalid();
    for c in DOCUMENTED.chars() {
        assert_ne!(lookup(c), boxed, "character {}", c);
        assert_ne!(lookup(c.to_ascii_lowercase()), boxed, "character {}", c);
    }
    assert_eq!(DOCUMENTED.chars().count(), 69);
}

#[test]
fn every_stroke_stays_in_its_cell() {
    for c in DOCUMENTED.chars().chain(['\t']) {
        for stroke in lookup(c).strokes {
            match stroke {
                Point(col, row) => {
                    assert!((0..=4).contains(&col) && (-1..=5).contains(&row), "{}", c);
                }
                VerticalRun(col, from, to) => {
                    assert!((0..=4).contains(&col) && -1 <= from && from <= to && to <= 5, "{}", c);
                }
                HorizontalRun(row, from, to) => {
                    assert!((-1..=5).contains(&row) && 0 <= from && from <= to && to <= 4, "{}", c);
                }
            }
        }
    }
}

#[test]
fn catalog_as_a_whole() {
    let mut points = 0;
    let mut vertical = 0;
    let mut horizontal = 0;
    let mut shrink = 0;
    for c in DOCUMENTED.chars() {
        let glyph = lookup(c);
        shrink += u32::from(glyph.shrink);
        for stroke in glyph.strokes {
            match stroke {
                Point(..) => points += 1,
                VerticalRun(..) => vertical += 1,
                HorizontalRun(..) => horizontal += 1,
            }
        }
    }
    assert_eq!((points, vertical, horizontal), (123, 64, 81));
    assert_eq!(shrink, 65);
}

#[test]
fn upper_agrees_with_the_standard_library() {
    for code in 0u32..=0x2FF {
        if let Some(c) = char::from_u32(code) {
            assert_eq!(upper(c), c.to_ascii_uppercase(), "character {:?}", c);
        }
    }
    for c in ['\u{D7FF}', '\u{E000}', '\u{FF41}', '\u{10FFFF}'] {
        assert_eq!(upper(c), c);
    }
}
