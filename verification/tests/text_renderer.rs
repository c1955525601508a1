use term_wm_ui_components::text_renderer::{decode_link_color, encode_link_color, LineSlot, TextRendererComponent};

fn text(lines: &[&[&str]]) -> Vec<Vec<String>> {
    lines.iter().map(|spans| spans.iter().map(|s| s.to_string()).collect()).collect()
}

#[test]
fn text_renderer_starts_with_one_empty_wrapped_line() {
    let t = TextRendererComponent::new();
    assert_eq!(t.rendered_lines(), vec![String::new()]);
    assert!(t.wrap);
    assert!(!t.selection_enabled);
}

#[test]
fn text_renderer_rendered_lines_join_spans() {
    let mut t = TextRendererComponent::new();
    t.set_text(text(&[&["Hel", "lo"], &[], &["a", "b", "c"]]));
    assert_eq!(t.rendered_lines(), vec!["Hello".to_string(), String::new(), "abc".to_string()]);
}

#[test]
fn text_renderer_jump_counts_wrapped_rows() {
    let mut t = TextRendererComponent::new();
    // 25 columns wrap to 3 rows at width 10; the empty line takes one row.
    t.set_text(text(&[&["aaaaaaaaaaaaaaaaaaaaaaaaa"], &[], &["bb"], &["cc"]]));
    assert_eq!(t.jump_to_logical_line(0, 10), 0);
    assert_eq!(t.jump_to_logical_line(1, 10), 3);
    assert_eq!(t.jump_to_logical_line(2, 10), 4);
    assert_eq!(t.jump_to_logical_line(3, 10), 5);
    // Past the end: the rows of every line.
    assert_eq!(t.jump_to_logical_line(99, 10), 6);
    // Without wrapping each line is one row.
    t.set_wrap(false);
    assert_eq!(t.jump_to_logical_line(2, 10), 2);
    // No width: the top.
    assert_eq!(t.jump_to_logical_line(2, 0), 0);
}

#[test]
fn text_renderer_selection_toggle_reports_clearing() {
    let mut t = TextRendererComponent::new();
    assert!(!t.set_selection_enabled(true));
    assert!(!t.set_selection_enabled(true));
    assert!(t.set_selection_enabled(false));
    assert!(!t.set_selection_enabled(false));
}

#[test]
fn text_renderer_link_colors_round_trip() {
    assert_eq!(encode_link_color(1), (0, 0, 1));
    assert_eq!(encode_link_color(0x12_34_56), (0x12, 0x34, 0x56));
    assert_eq!(decode_link_color(0x12, 0x34, 0x56), Some(0x12_34_56));
    assert_eq!(decode_link_color(0, 0, 0), None);
    for id in [1u32, 255, 256, 65_535, 0xFF_FFFF] {
        let (r, g, b) = encode_link_color(id);
        assert_eq!(decode_link_color(r, g, b), Some(id));
    }
}

fn slot(line: usize, skip: usize, y: u16, rows: u16, rule: bool) -> LineSlot {
    LineSlot { line, skip, y, rows, rule }
}

#[test]
fn text_renderer_plan_wraps_and_scrolls() {
    let mut t = TextRendererComponent::new();
    // 25 columns wrap to 3 rows at width 10; then an empty line and "bb".
    t.set_text(text(&[&["aaaaaaaaaaaaaaaaaaaaaaaaa"], &[], &["bb"]]));
    assert!(t.render_plan(0, 5, 0).is_none());
    assert!(t.render_plan(10, 0, 0).is_none());
    let p = t.render_plan(10, 4, 0).unwrap();
    assert_eq!(p.content_width, 10);
    assert_eq!(p.content_height, 5);
    assert_eq!(p.slots, vec![slot(0, 0, 0, 3, false), slot(1, 0, 3, 1, false)]);
    // Scrolled down two rows: the long line shows from its third row.
    let p = t.render_plan(10, 4, 2).unwrap();
    assert_eq!(p.slots, vec![slot(0, 2, 0, 1, false), slot(1, 0, 1, 1, false), slot(2, 0, 2, 1, false)]);
}

#[test]
fn text_renderer_plan_unwrapped_and_rules() {
    let mut t = TextRendererComponent::new();
    t.set_wrap(false);
    t.set_text(text(&[&["abc"], &["\0RULE\0"], &["defghij"]]));
    let p = t.render_plan(4, 10, 0).unwrap();
    assert_eq!(p.content_width, 7);
    assert_eq!(p.content_height, 3);
    assert_eq!(p.slots, vec![slot(0, 0, 0, 1, false), slot(1, 0, 1, 1, true), slot(2, 0, 2, 1, false)]);
    // A view one row tall past the first line shows only the rule.
    let p = t.render_plan(4, 1, 1).unwrap();
    assert_eq!(p.slots, vec![slot(1, 0, 0, 1, true)]);
}
