use term_wm_ui_components::action::{Action, EventResult, MouseButton};
use term_wm_ui_components::list::ListComponent;

fn strings(v: &[&str]) -> Vec<String> {
    v.iter().map(|s| s.to_string()).collect()
}

fn numbered(range: std::ops::Range<usize>) -> Vec<String> {
    range.map(|i| format!("{}", i)).collect()
}

#[test]
fn selection_moves_with_keys() {
    let mut list = ListComponent::new("t");
    list.set_items(strings(&["a", "b", "c"]));
    list.update(Action::MenuDown);
    assert_eq!(list.selected(), 1);
    list.update(Action::MenuUp);
    assert_eq!(list.selected(), 0);
}

#[test]
fn home_and_end_keys() {
    let mut list = ListComponent::new("t");
    list.set_items(strings(&["a", "b", "c", "d"]));
    list.update(Action::ScrollEnd);
    assert_eq!(list.selected(), 3);
    list.update(Action::ScrollHome);
    assert_eq!(list.selected(), 0);
}

#[test]
fn page_keys_move_more() {
    let mut list = ListComponent::new("t");
    list.set_items(numbered(0..20));
    list.update(Action::ScrollPageDown);
    assert!(list.selected() >= 5);
    list.update(Action::ScrollPageUp);
    assert!(list.selected() < 20);
}

#[test]
fn add_item_and_selected_item() {
    let mut list = ListComponent::new("t");
    assert!(list.items().is_empty());
    assert!(list.selected_item().is_none());
    list.add_item("first".into());
    list.add_item("second".into());
    assert_eq!(list.items().len(), 2);
    assert_eq!(list.selected(), 0);
    assert_eq!(list.selected_item().unwrap(), "first");
}

#[test]
fn move_selection_clamps() {
    let mut list = ListComponent::new("t");
    list.set_items(strings(&["a", "b", "c"]));
    list.move_selection(100);
    assert_eq!(list.selected(), 2);
    list.move_selection(-100);
    assert_eq!(list.selected(), 0);
}

#[test]
fn set_items_resets_selection() {
    let mut list = ListComponent::new("t");
    list.set_items(strings(&["a", "b", "c"]));
    list.update(Action::MenuDown);
    assert_eq!(list.selected(), 1);
    list.set_items(strings(&["x"]));
    assert_eq!(list.selected(), 0);
}

#[test]
fn mouse_click_selects_item() {
    let mut list = ListComponent::new("t");
    list.set_items(strings(&["a", "b", "c"]));
    let result = list.on_mouse_press(1, MouseButton::Left, true, 0);
    assert!(matches!(result, EventResult::Consumed));
    assert_eq!(list.selected(), 1);
}

#[test]
fn mouse_click_outside_items_ignored() {
    let mut list = ListComponent::new("t");
    list.set_items(strings(&["a", "b"]));
    let result = list.on_mouse_press(10, MouseButton::Left, true, 0);
    assert!(matches!(result, EventResult::Ignored));
}

#[test]
fn mouse_click_respects_scroll_and_focus() {
    let mut list = ListComponent::new("t");
    list.set_items(numbered(0..20));
    assert!(matches!(list.on_mouse_press(2, MouseButton::Left, true, 10), EventResult::Consumed));
    assert_eq!(list.selected(), 12);
    assert!(matches!(list.on_mouse_press(2, MouseButton::Left, false, 0), EventResult::Ignored));
    assert!(matches!(list.on_mouse_press(2, MouseButton::Right, true, 0), EventResult::Ignored));
    assert_eq!(list.selected(), 12);
}

#[test]
fn update_handles_all_actions() {
    let mut list = ListComponent::new("t");
    list.set_items(numbered(0..10));
    list.update(Action::MenuUp);
    assert_eq!(list.selected(), 0);
    list.update(Action::MenuDown);
    assert_eq!(list.selected(), 1);
    list.update(Action::ScrollHome);
    assert_eq!(list.selected(), 0);
    list.update(Action::ScrollEnd);
    assert_eq!(list.selected(), 9);
    list.update(Action::ScrollPageUp);
    assert_eq!(list.selected(), 4);
}

#[test]
fn update_empty_list_no_panic() {
    let mut list = ListComponent::new("t");
    list.update(Action::MenuUp);
    list.update(Action::MenuDown);
    list.update(Action::ScrollEnd);
    list.update(Action::ScrollPageUp);
    list.update(Action::ScrollPageDown);
    list.update(Action::ScrollHome);
    assert_eq!(list.selected(), 0);
}

#[test]
fn update_items_clamps_out_of_range_selection() {
    let mut list = ListComponent::new("t");
    list.set_items(numbered(0..20));
    list.move_selection(18);
    assert_eq!(list.selected(), 18);
    list.update_items(numbered(0..5));
    assert_eq!(list.selected(), 4);
}

#[test]
fn update_items_preserves_selection() {
    let mut list = ListComponent::new("t");
    list.set_items(numbered(0..20));
    list.move_selection(5);
    list.update_items(numbered(10..20));
    assert_eq!(list.selected(), 5, "selection preserved across update_items");
    list.update_items(Vec::new());
    assert_eq!(list.selected(), 0);
}

#[test]
fn title_is_kept() {
    let mut list = ListComponent::new("Windows");
    list.set_items(strings(&["a"]));
    assert_eq!(list.title(), "Windows");
}

/// A frame of a list in a scroll view of `rows` rows: the list follows its
/// selection and the view takes the offset.
fn render_with_scroll(list: &mut ListComponent, offset_y: &mut usize, rows: usize) {
    *offset_y = list.follow_selection(*offset_y, rows);
}

#[test]
fn scroll_follow_starts_at_offset_zero() {
    let mut list = ListComponent::new("t");
    list.set_items(numbered(0..20));
    let mut offset = 0;
    render_with_scroll(&mut list, &mut offset, 10);
    assert_eq!(offset, 0);
}

#[test]
fn scroll_follow_advances_when_selection_moves_past_viewport() {
    let mut list = ListComponent::new("t");
    list.set_items(numbered(0..20));
    let mut offset = 0;
    render_with_scroll(&mut list, &mut offset, 10);
    for _ in 0..12 {
        list.update(Action::MenuDown);
    }
    render_with_scroll(&mut list, &mut offset, 10);
    assert!(offset > 0, "offset should advance to keep selection visible");
    let selected_row = list.selected();
    assert!(
        selected_row >= offset && selected_row < offset + 10,
        "selected row {} must be visible in [{}..{})",
        selected_row,
        offset,
        offset + 10
    );
}

#[test]
fn scroll_follow_goes_back_when_selection_moves_up() {
    let mut list = ListComponent::new("t");
    list.set_items(numbered(0..20));
    let mut offset = 0;
    render_with_scroll(&mut list, &mut offset, 10);
    for _ in 0..18 {
        list.update(Action::MenuDown);
    }
    render_with_scroll(&mut list, &mut offset, 10);
    assert!(offset > 0);
    for _ in 0..18 {
        list.update(Action::MenuUp);
    }
    render_with_scroll(&mut list, &mut offset, 10);
    assert_eq!(offset, 0, "offset should reset to top when selection moves to top (got {})", offset);
}

#[test]
fn scroll_follow_does_not_override_manual_scroll() {
    let mut list = ListComponent::new("t");
    list.set_items(numbered(0..20));
    let mut offset = 0;
    render_with_scroll(&mut list, &mut offset, 10);
    // Manual scroll away (mouse), selection unchanged.
    offset = 6;
    render_with_scroll(&mut list, &mut offset, 10);
    assert_eq!(offset, 6, "manual scroll should be preserved when selection unchanged");
}

#[test]
fn scroll_follow_reengages_after_manual_scroll_when_selection_changes() {
    let mut list = ListComponent::new("t");
    list.set_items(numbered(0..20));
    let mut offset = 0;
    render_with_scroll(&mut list, &mut offset, 10);
    offset = 6;
    list.update(Action::MenuDown);
    render_with_scroll(&mut list, &mut offset, 10);
    assert!(offset > 0, "auto-scroll should engage again after selection changes");
}

#[test]
fn scroll_follow_reruns_on_viewport_shrink() {
    let mut list = ListComponent::new("t");
    list.set_items(numbered(0..20));
    let mut offset = 0;
    render_with_scroll(&mut list, &mut offset, 10);
    for _ in 0..15 {
        list.update(Action::MenuDown);
    }
    render_with_scroll(&mut list, &mut offset, 10);
    // Shrink the viewport: same selection, smaller viewport_rows -> re-follow.
    let before = offset;
    render_with_scroll(&mut list, &mut offset, 4);
    assert!(offset >= before, "offset should not move backward on viewport shrink with selection unchanged");
}

#[test]
fn render_focused_and_unfocused() {
    let mut list = ListComponent::new("test");
    list.set_items(strings(&["item1", "item2"]));
    let rows = list.visible_rows(0, 0, 40, 10);
    assert_eq!(rows, vec![("item1".to_string(), true), ("item2".to_string(), false)]);
}

#[test]
fn render_empty_list() {
    let list = ListComponent::new("empty");
    assert!(list.visible_rows(0, 0, 40, 10).is_empty());
    assert_eq!(list.content_size(), (0, 0));
}

#[test]
fn render_small_area_returns_early() {
    let mut list = ListComponent::new("test");
    list.set_items(strings(&["a"]));
    assert!(list.visible_rows(0, 0, 5, 0).is_empty());
    assert_eq!(list.visible_rows(0, 0, 5, 2), vec![("a".to_string(), true)]);
}

#[test]
fn set_items_resets_guard_fields() {
    let mut list = ListComponent::new("t");
    list.set_items(numbered(0..20));
    list.move_selection(5);
    let mut offset = 0;
    render_with_scroll(&mut list, &mut offset, 10);
    assert_eq!(list.selected(), 5);
    assert_eq!(list.last_selected(), 5);
    list.set_items(strings(&["new"]));
    assert_eq!(list.selected(), 0);
    assert_eq!(list.last_selected(), 0);
    assert_eq!(list.last_viewport_rows(), 0);
}

#[test]
fn update_items_preserves_selection_and_scroll() {
    let mut list = ListComponent::new("t");
    list.set_items(numbered(0..20));
    let mut offset = 0;
    render_with_scroll(&mut list, &mut offset, 10);
    list.move_selection(5);
    render_with_scroll(&mut list, &mut offset, 10);
    offset = 6;
    let last_selected = list.last_selected();
    let last_viewport_rows = list.last_viewport_rows();
    list.update_items(numbered(10..20));
    assert_eq!(list.selected(), 5, "selection preserved across update_items");
    assert_eq!(list.last_selected(), last_selected, "guard field preserved");
    assert_eq!(list.last_viewport_rows(), last_viewport_rows, "guard field preserved");
    render_with_scroll(&mut list, &mut offset, 10);
    assert_eq!(offset, 6, "manual scroll preserved after update_items");
}

#[test]
fn horizontal_scroll_slices_columns() {
    let mut list = ListComponent::new("t");
    list.set_items(strings(&["aa界bb"]));
    // "aa界bb" columns: a(0) a(1) 界(2-3) b(4) b(5).
    let rows = list.visible_rows(2, 0, 10, 3);
    assert_eq!(rows, vec![("界bb".to_string(), true)]);
    assert_eq!(list.content_size(), (7, 1));
}

#[test]
fn list_keys_map_to_navigation_actions() {
    let list = ListComponent::new("t");
    assert_eq!(list.on_key(true, &[Action::MenuNext]), EventResult::Action(Action::MenuDown));
    assert_eq!(list.on_key(true, &[Action::MenuPrev]), EventResult::Action(Action::MenuUp));
    assert_eq!(list.on_key(true, &[Action::ScrollEnd]), EventResult::Action(Action::ScrollEnd));
    // Up wins over a page binding on the same key.
    assert_eq!(list.on_key(true, &[Action::ScrollPageUp, Action::MenuUp]), EventResult::Action(Action::MenuUp));
    assert_eq!(list.on_key(true, &[Action::Help]), EventResult::Ignored);
    assert_eq!(list.on_key(false, &[Action::MenuUp]), EventResult::Ignored);
}
