use text_mesh::geometry::{Pen, Rect};
use text_mesh::stroke::{h_line, pixel, v_line, Stroke};

#[test]
fn pixel_is_one_by_one_at_its_column_and_row() {
    let pen = Pen { x: 10, y: 20 };
    assert_eq!(pixel(pen, 3, 4), Rect { x: 13, y: 24, w: 1, h: 1 });
    assert_eq!(pixel(pen, 0, 0), Rect { x: 10, y: 20, w: 1, h: 1 });
    assert_eq!(pixel(pen, 4, 5), Rect { x: 14, y: 25, w: 1, h: 1 });
}

#[test]
fn vertical_run_is_one_wide_and_as_high_as_its_rows() {
    let pen = Pen { x: 10, y: 20 };
    assert_eq!(v_line(pen, 0, 1, 4), Rect { x: 10, y: 21, w: 1, h: 4 });
    assert_eq!(v_line(pen, 2, -1, 5), Rect { x: 12, y: 19, w: 1, h: 7 });
    assert_eq!(v_line(pen, 4, 3, 3), Rect { x: 14, y: 23, w: 1, h: 1 });
}

#[test]
fn horizontal_run_is_one_high_and_as_wide_as_its_columns() {
    let pen = Pen { x: 10, y: 20 };
    assert_eq!(h_line(pen, 0, 1, 3), Rect { x: 11, y: 20, w: 3, h: 1 });
    assert_eq!(h_line(pen, 4, 0, 4), Rect { x: 10, y: 24, w: 5, h: 1 });
    assert_eq!(h_line(pen, 2, 2, 2), Rect { x: 12, y: 22, w: 1, h: 1 });
}

#[test]
fn stroke_gives_the_rectangle_of_its_kind() {
    let pen = Pen { x: -8, y: -3 };
    assert_eq!(Stroke::Point(1, 2).rect_at(pen), Rect { x: -7, y: -1, w: 1, h: 1 });
    assert_eq!(Stroke::VerticalRun(4, 0, 4).rect_at(pen), Rect { x: -4, y: -3, w: 1, h: 5 });
    assert_eq!(Stroke::HorizontalRun(2, 1, 3).rect_at(pen), Rect { x: -7, y: -1, w: 3, h: 1 });
}

#[test]
fn run_with_its_ends_the_wrong_way_round_has_no_area() {
    let pen = Pen { x: 0, y: 0 };
    assert_eq!(v_line(pen, 0, 4, 3), Rect { x: 0, y: 4, w: 1, h: 0 });
    assert_eq!(h_line(pen, 0, 127, -128), Rect { x: 127, y: 0, w: -254, h: 1 });
}

#[test]
fn rectangles_far_from_the_origin_are_exact() {
    let pen = Pen { x: i128::from(i64::MAX) * 16, y: i128::from(i64::MIN) * 16 };
    assert_eq!(
        pixel(pen, 4, 4),
        Rect { x: i128::from(i64::MAX) * 16 + 4, y: i128::from(i64::MIN) * 16 + 4, w: 1, h: 1 }
    );
}
