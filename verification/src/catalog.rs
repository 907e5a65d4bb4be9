//! The glyph catalog: which shape each character has.
//!
//! The catalog is a fixed table. Small letters share the entry of their
//! capital, and a character without an entry is drawn as a box.

use vstd::prelude::*;
use crate::glyph::{Glyph, Shape};
use crate::stroke::Stroke;
use crate::stroke::Stroke::{HorizontalRun, VerticalRun};

pub mod digits;
pub mod letters;
pub mod symbols;

verus! {

/// The shape of a character that has no entry: a box.
///
/// ```text
/// ####.
/// #..#.
/// #..#.
/// #..#.
/// ####.
/// ```
///
/// It is 1 pixel narrower than a full cell.
pub open spec fn shape_invalid() -> Shape {
    Shape {
        strokes: seq![
            HorizontalRun(0, 0, 3),
            HorizontalRun(4, 0, 3),
            VerticalRun(0, 1, 3),
            VerticalRun(3, 1, 3),
        ],
        shrink: 1,
    }
}

/// The glyph of a character that has no entry: a box.
pub fn invalid() -> (glyph: Glyph)
    ensures
        glyph@ == shape_invalid(),
{
    Glyph {
        strokes: vec![
            HorizontalRun(0, 0, 3),
            HorizontalRun(4, 0, 3),
            VerticalRun(0, 1, 3),
            VerticalRun(3, 1, 3),
        ],
        shrink: 1,
    }
}

/// The capital of a small ASCII letter, and any other character unchanged.
pub open spec fn to_upper(c: char) -> char {
    if 'a' <= c <= 'z' {
        ((c as u8) - 32) as char
    } else {
        c
    }
}

/// The capital of a small ASCII letter, and any other character unchanged.
pub fn upper(c: char) -> (u: char)
    ensures
        u == to_upper(c),
{
    if 'a' <= c && c <= 'z' {
        ((c as u8) - 32) as char
    } else {
        c
    }
}

/// The table itself: the shape entered for `c`, if there is one. Letters are
/// entered as capitals.
pub open spec fn entry(c: char) -> Option<Shape> {
    match c {
        'A' => Some(letters::shape_a()),
        'B' => Some(letters::shape_b()),
        'C' => Some(letters::shape_c()),
        'D' => Some(letters::shape_d()),
        'E' => Some(letters::shape_e()),
        'F' => Some(letters::shape_f()),
        'G' => Some(letters::shape_g()),
        'H' => Some(letters::shape_h()),
        'I' => Some(letters::shape_i()),
        'J' => Some(letters::shape_j()),
        'K' => Some(letters::shape_k()),
        'L' => Some(letters::shape_l()),
        'M' => Some(letters::shape_m()),
        'N' => Some(letters::shape_n()),
        'O' => Some(letters::shape_o()),
        'P' => Some(letters::shape_p()),
        'Q' => Some(letters::shape_q()),
        'R' => Some(letters::shape_r()),
        'S' => Some(letters::shape_s()),
        'T' => Some(letters::shape_t()),
        'U' => Some(letters::shape_u()),
        'V' => Some(letters::shape_v()),
        'W' => Some(letters::shape_w()),
        'X' => Some(letters::shape_x()),
        'Y' => Some(letters::shape_y()),
        'Z' => Some(letters::shape_z()),
        '1' => Some(digits::shape_one()),
        '2' => Some(digits::shape_two()),
        '3' => Some(digits::shape_three()),
        '4' => Some(digits::shape_four()),
        '5' => Some(digits::shape_five()),
        '6' => Some(digits::shape_six()),
        '7' => Some(digits::shape_seven()),
        '8' => Some(digits::shape_eight()),
        '9' => Some(digits::shape_nine()),
        '0' => Some(digits::shape_zero()),
        '-' => Some(symbols::shape_hyphen()),
        '_' => Some(symbols::shape_underscore()),
        '=' => Some(symbols::shape_equals()),
        '+' => Some(symbols::shape_plus()),
        '[' => Some(symbols::shape_l_sqr_bracket()),
        '{' => Some(symbols::shape_l_crl_bracket()),
        ']' => Some(symbols::shape_r_sqr_bracket()),
        '}' => Some(symbols::shape_r_crl_bracket()),
        '\\' => Some(symbols::shape_back_slash()),
        '|' => Some(symbols::shape_vertical_line()),
        ';' => Some(symbols::shape_semicolon()),
        ':' => Some(symbols::shape_colon()),
        '\'' => Some(symbols::shape_apostrophe()),
        '\"' => Some(symbols::shape_quotation()),
        ' ' => Some(symbols::shape_space()),
        ',' => Some(symbols::shape_comma()),
        '<' => Some(symbols::shape_less_than()),
        '.' => Some(symbols::shape_period()),
        '>' => Some(symbols::shape_greater_than()),
        '/' => Some(symbols::shape_fwd_slash()),
        '?' => Some(symbols::shape_question()),
        '!' => Some(symbols::shape_exclamation()),
        '@' => Some(symbols::shape_at()),
        '#' => Some(symbols::shape_octothorpe()),
        '$' => Some(symbols::shape_dollar()),
        '%' => Some(symbols::shape_percent()),
        '^' => Some(symbols::shape_caret()),
        '&' => Some(symbols::shape_ampersand()),
        '*' => Some(symbols::shape_star()),
        '(' => Some(symbols::shape_l_round_bracket()),
        ')' => Some(symbols::shape_r_round_bracket()),
        '`' => Some(symbols::shape_accent()),
        '~' => Some(symbols::shape_tilde()),
        _ => None,
    }
}

/// The shape in which `c` is drawn: its entry after capitalising, or the box
/// where it has none.
pub open spec fn glyph_of(c: char) -> Shape {
    match entry(to_upper(c)) {
        Some(shape) => shape,
        None => shape_invalid(),
    }
}

/// The glyph in which `c` is drawn. Every character has one.
pub fn lookup(c: char) -> (glyph: Glyph)
    ensures
        glyph@ == glyph_of(c),
{
    match upper(c) {
        'A' => letters::a(),
        'B' => letters::b(),
        'C' => letters::c(),
        'D' => letters::d(),
        'E' => letters::e(),
        'F' => letters::f(),
        'G' => letters::g(),
        'H' => letters::h(),
        'I' => letters::i(),
        'J' => letters::j(),
        'K' => letters::k(),
        'L' => letters::l(),
        'M' => letters::m(),
        'N' => letters::n(),
        'O' => letters::o(),
        'P' => letters::p(),
        'Q' => letters::q(),
        'R' => letters::r(),
        'S' => letters::s(),
        'T' => letters::t(),
        'U' => letters::u(),
        'V' => letters::v(),
        'W' => letters::w(),
        'X' => letters::x(),
        'Y' => letters::y(),
        'Z' => letters::z(),
        '1' => digits::one(),
        '2' => digits::two(),
        '3' => digits::three(),
        '4' => digits::four(),
        '5' => digits::five(),
        '6' => digits::six(),
        '7' => digits::seven(),
        '8' => digits::eight(),
        '9' => digits::nine(),
        '0' => digits::zero(),
        '-' => symbols::hyphen(),
        '_' => symbols::underscore(),
        '=' => symbols::equals(),
        '+' => symbols::plus(),
        '[' => symbols::l_sqr_bracket(),
        '{' => symbols::l_crl_bracket(),
        ']' => symbols::r_sqr_bracket(),
        '}' => symbols::r_crl_bracket(),
        '\\' => symbols::back_slash(),
        '|' => symbols::vertical_line(),
        ';' => symbols::semicolon(),
        ':' => symbols::colon(),
        '\'' => symbols::apostrophe(),
        '\"' => symbols::quotation(),
        ' ' => symbols::space(),
        ',' => symbols::comma(),
        '<' => symbols::less_than(),
        '.' => symbols::period(),
        '>' => symbols::greater_than(),
        '/' => symbols::fwd_slash(),
        '?' => symbols::question(),
        '!' => symbols::exclamation(),
        '@' => symbols::at(),
        '#' => symbols::octothorpe(),
        '$' => symbols::dollar(),
        '%' => symbols::percent(),
        '^' => symbols::caret(),
        '&' => symbols::ampersand(),
        '*' => symbols::star(),
        '(' => symbols::l_round_bracket(),
        ')' => symbols::r_round_bracket(),
        '`' => symbols::accent(),
        '~' => symbols::tilde(),
        _ => invalid(),
    }
}

/// Whether `c` is one of the characters that the catalog is meant to draw:
/// an ASCII letter, a digit, the space or one of the listed marks.
pub open spec fn documented(c: char) -> bool {
    ||| 'A' <= c <= 'Z'
    ||| 'a' <= c <= 'z'
    ||| '0' <= c <= '9'
    ||| c == ' '
    ||| c == '-' || c == '_' || c == '=' || c == '+'
    ||| c == '[' || c == ']' || c == '{' || c == '}' || c == '(' || c == ')'
    ||| c == '\\' || c == '/' || c == '|'
    ||| c == ';' || c == ':' || c == '\'' || c == '"' || c == ',' || c == '.'
    ||| c == '<' || c == '>' || c == '?' || c == '!' || c == '`' || c == '~'
    ||| c == '@' || c == '#' || c == '$' || c == '%' || c == '^' || c == '&' || c == '*'
}

impl Stroke {
    /// Whether the stroke stays inside a glyph cell: columns 0 to 4, rows 0
    /// to 4 and the one row above and below them, with its ends in order.
    pub open spec fn in_cell(self) -> bool {
        match self {
            Stroke::Point(col, row) => 0 <= col <= 4 && -1 <= row <= 5,
            Stroke::VerticalRun(col, from, to) => 0 <= col <= 4 && -1 <= from <= to <= 5,
            Stroke::HorizontalRun(row, from, to) => -1 <= row <= 5 && 0 <= from <= to <= 4,
        }
    }
}

/// A small letter is drawn exactly as its capital: same strokes, same width
/// correction.
pub proof fn lemma_case_insensitive(c: char)
    ensures
        glyph_of(c) == glyph_of(to_upper(c)),
{
}

/// A character without an entry is drawn as the box, which is one pixel
/// narrower than a full cell.
pub proof fn lemma_fallback(c: char)
    requires
        entry(to_upper(c)) is None,
    ensures
        glyph_of(c) == shape_invalid(),
        glyph_of(c).shrink == 1,
{
}

/// Every documented character has an entry of its own, and that entry is not
/// the box.
pub proof fn lemma_coverage(c: char)
    requires
        documented(c),
    ensures
        entry(to_upper(c)) is Some,
        glyph_of(c) != shape_invalid(),
{
}

/// Every stroke of every glyph stays inside the glyph cell.
pub proof fn lemma_strokes_in_cell(c: char, i: int)
    requires
        0 <= i < glyph_of(c).strokes.len(),
    ensures
        glyph_of(c).strokes[i].in_cell(),
{
}

/// The widths of the catalog: a letter other than `I` fills its cell, a
/// digit is one pixel narrower, the space has no strokes and is two pixels
/// narrower, and the colon, the semicolon, the apostrophe, the exclamation
/// mark and the vertical bar are four pixels narrower.
pub proof fn lemma_widths(c: char)
    ensures
        'A' <= to_upper(c) <= 'Z' && to_upper(c) != 'I' ==> glyph_of(c).shrink == 0,
        '0' <= c <= '9' ==> glyph_of(c).shrink == 1,
        c == ' ' ==> glyph_of(c).shrink == 2 && glyph_of(c).strokes.len() == 0,
        c == ':' || c == ';' || c == '\'' || c == '!' || c == '|' ==> glyph_of(c).shrink == 4,
{
}

} // verus!
