use term_wm_ui_components::geometry::{
    layout_rect_to_clipped_rect, localize_coordinate, localize_coordinate_clamped, rect_contains,
    rect_intersection, string_cells, LayoutRect, Rect,
};

fn lr(x: i32, y: i32, width: u16, height: u16) -> LayoutRect {
    LayoutRect { x, y, width, height }
}

#[test]
fn layout_rect_to_clipped_rect_on_screen() {
    let r = layout_rect_to_clipped_rect(lr(5, 10, 20, 15));
    assert_eq!(r.x, 5);
    assert_eq!(r.y, 10);
    assert_eq!(r.width, 20);
    assert_eq!(r.height, 15);
}

#[test]
fn layout_rect_to_clipped_rect_off_screen() {
    let r = layout_rect_to_clipped_rect(lr(-10, -5, 80, 40));
    assert_eq!(r.x, 0);
    assert_eq!(r.y, 0);
    assert_eq!(r.width, 70);
    assert_eq!(r.height, 35);
}

#[test]
fn localize_coordinate_inside() {
    assert_eq!(localize_coordinate(lr(0, 0, 10, 10), 3, 5), Some((3, 5)));
}

#[test]
fn localize_coordinate_outside() {
    let area = lr(0, 0, 10, 10);
    assert_eq!(localize_coordinate(area, 15, 5), None);
    assert_eq!(localize_coordinate(area, 5, 15), None);
}

#[test]
fn localize_coordinate_negative_offset() {
    assert_eq!(localize_coordinate(lr(-10, -5, 80, 40), 0, 0), Some((10, 5)));
}

#[test]
fn localize_coordinate_clamped_outside() {
    assert_eq!(localize_coordinate_clamped(lr(0, 0, 10, 10), 15, 5), Some((9, 5)));
}

#[test]
fn localize_coordinate_clamped_inside() {
    assert_eq!(localize_coordinate_clamped(lr(0, 0, 10, 10), 3, 5), Some((3, 5)));
}

#[test]
fn localize_coordinate_clamped_zero_area() {
    assert_eq!(localize_coordinate_clamped(lr(0, 0, 0, 0), 5, 5), None);
}

#[test]
fn rect_contains_edge_cases() {
    assert!(!rect_contains(lr(0, 0, 0, 3), 0, 0));
    let r2 = lr(1, 1, 2, 2);
    assert!(rect_contains(r2, 1, 1));
    assert!(!rect_contains(r2, 3, 1));
}

// ── Further cases ──

#[test]
fn intersection_of_overlapping_and_disjoint_rects() {
    let a = Rect { x: 0, y: 0, width: 10, height: 10 };
    let b = Rect { x: 5, y: 2, width: 10, height: 3 };
    assert_eq!(rect_intersection(a, b), Rect { x: 5, y: 2, width: 5, height: 3 });
    let c = Rect { x: 20, y: 20, width: 5, height: 5 };
    let d = rect_intersection(a, c);
    assert_eq!((d.width, d.height), (0, 0));
}

#[test]
fn clipped_rect_fully_off_screen_is_empty() {
    let r = layout_rect_to_clipped_rect(lr(-30, 0, 20, 5));
    assert_eq!((r.x, r.width), (0, 0));
}

#[test]
fn safe_set_string_writes_within_bounds() {
    let bounds = Rect { x: 0, y: 0, width: 10, height: 3 };
    let cells = string_cells(bounds, 2, 1, "hello");
    assert_eq!(cells.first(), Some(&(2, 'h')));
    assert_eq!(cells.last(), Some(&(6, 'o')));
    // Past the bounds nothing panics: the write is cut at the right edge.
    let cells = string_cells(bounds, 8, 1, "xyz");
    assert_eq!(cells, vec![(8, 'x'), (9, 'y')]);
}

#[test]
fn safe_set_string_skips_out_of_bounds_y() {
    let bounds = Rect { x: 0, y: 0, width: 10, height: 3 };
    assert!(string_cells(bounds, 0, 5, "hello").is_empty());
}

#[test]
fn safe_set_string_wide_chars() {
    let bounds = Rect { x: 0, y: 0, width: 10, height: 1 };
    assert_eq!(string_cells(bounds, 0, 0, "AB"), vec![(0, 'A'), (1, 'B')]);
}
