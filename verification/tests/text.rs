use term_wm_ui_components::text::{char_columns, slice_by_columns};
use unicode_width::UnicodeWidthStr;

#[test]
fn slice_by_columns_pads_boundary_wide_chars() {
    // '界' is a 2-column CJK char. Column layout of "a界b": a(0), 界(1-2), b(3).
    let s = "a界b";
    // Full viewport keeps everything.
    assert_eq!(slice_by_columns(s, 0, 4), "a界b");
    // start_col=1: '界' starts exactly at the viewport -> fully inside.
    assert_eq!(slice_by_columns(s, 1, 3), "界b");
    // start_col=2: '界' (cols 1-2) straddles the left edge -> pad its visible
    // 1 column, then 'b'.
    assert_eq!(slice_by_columns(s, 2, 3), " b");
    // width=1 at col 1: '界' straddles the right edge -> pad 1 column.
    assert_eq!(slice_by_columns(s, 1, 1), " ");
    // width=1 at col 0: only 'a' fits; '界' entirely after -> stop.
    assert_eq!(slice_by_columns(s, 0, 1), "a");
    // Right-edge straddle producing trailing padding: "a界" cols a(0), 界(1-2).
    assert_eq!(slice_by_columns("a界", 0, 2), "a ");
    // Output never exceeds `width` columns and stays aligned (leading/trailing
    // space pads a truncated wide char). Shorter sources simply don't fill.
    for (start, width) in [(0usize, 4usize), (1, 3), (1, 1), (0, 1), (2, 2)] {
        assert!(
            slice_by_columns(s, start, width).width() <= width,
            "slice_by_columns({start},{width}) must not exceed {width} columns"
        );
    }
}

#[test]
fn slice_by_columns_edges() {
    assert_eq!(slice_by_columns("", 0, 10), "");
    assert_eq!(slice_by_columns("hello", 0, 0), "");
    assert_eq!(slice_by_columns("hello", 3, 10), "lo");
    assert_eq!(slice_by_columns("hello", 10, 3), "");
    // A wide char straddling both edges of a one-column window.
    assert_eq!(slice_by_columns("界", 1, 0), "");
}

#[test]
fn char_columns_of_ascii_wide_and_control() {
    assert_eq!(char_columns('a'), 1);
    assert_eq!(char_columns('界'), 2);
    assert_eq!(char_columns('\u{7}'), 0);
}
