use term_wm_ui_components::action::{Action, EventResult, KeyCode, KeyEvent, KeyKind, KeyModifiers};
use term_wm_ui_components::command_palette::{
    searchable_text, CommandPaletteComponent, PaletteDisplayNode, PaletteEntry, PaletteItem,
    PaletteSource,
};

fn item(id: &str, name: &str, action: Action, icon: Option<&'static str>, disabled: bool) -> PaletteItem {
    PaletteItem {
        stable_id: id.to_string(),
        display_name: name.to_string(),
        description: String::new(),
        action,
        icon,
        disabled,
    }
}

fn make_palette_with_items() -> CommandPaletteComponent {
    let mut palette = CommandPaletteComponent::new();
    palette.data_dirty = false;
    palette.query_dirty = false;
    palette.filtered_items = vec![
        item("core:new_terminal", "New Terminal", Action::NewTerminal, Some("+"), false),
        item("core:close_window", "Close Window", Action::CloseWindow(0), Some("x"), false),
        item("core:help", "Help", Action::Help, Some("?"), false),
    ];
    palette
}

fn make_palette_with_disabled_item() -> CommandPaletteComponent {
    let mut palette = CommandPaletteComponent::new();
    palette.data_dirty = false;
    palette.query_dirty = false;
    palette.filtered_items = vec![
        item("core:new_terminal", "New Terminal", Action::NewTerminal, Some("+"), false),
        item("core:paste", "Paste", Action::CloseHelp, None, true),
        item("core:help", "Help", Action::Help, Some("?"), false),
    ];
    palette
}

fn key(code: KeyCode) -> KeyEvent {
    KeyEvent { code, modifiers: KeyModifiers::none(), kind: KeyKind::Press }
}

fn ctrl(c: char) -> KeyEvent {
    KeyEvent {
        code: KeyCode::Char(c),
        modifiers: KeyModifiers { control: true, shift: false, alt: false },
        kind: KeyKind::Press,
    }
}

/// Whether the default keybindings bind `k` to clearing the query (Ctrl+C).
fn clears(k: &KeyEvent) -> bool {
    k.code == KeyCode::Char('c') && k.modifiers.control
}

fn press(palette: &mut CommandPaletteComponent, k: KeyEvent) -> EventResult<Action> {
    let c = clears(&k);
    palette.handle_key(k, c)
}

#[test]
fn empty_palette_has_no_items() {
    let palette = CommandPaletteComponent::new();
    assert!(palette.filtered_items.is_empty());
    assert_eq!(palette.selected, 0);
}

#[test]
fn initial_state_is_dirty() {
    let palette = CommandPaletteComponent::new();
    assert!(palette.data_dirty);
    assert!(palette.query_dirty);
}

#[test]
fn selected_action_returns_correct_action() {
    let palette = make_palette_with_items();
    assert_eq!(palette.selected_action(), Some(&Action::NewTerminal));
}

#[test]
fn down_arrow_returns_menu_down_action() {
    let mut palette = make_palette_with_items();
    let result = press(&mut palette, key(KeyCode::Down));
    assert!(matches!(result, EventResult::Action(Action::MenuDown)));
}

#[test]
fn up_arrow_returns_menu_up_action() {
    let mut palette = make_palette_with_items();
    let result = press(&mut palette, key(KeyCode::Up));
    assert!(matches!(result, EventResult::Action(Action::MenuUp)));
}

#[test]
fn update_menu_down_increments_selection() {
    let mut palette = make_palette_with_items();
    palette.update(Action::MenuDown);
    assert_eq!(palette.selected, 1);
}

#[test]
fn update_menu_up_decrements_selection() {
    let mut palette = make_palette_with_items();
    palette.selected = 1;
    palette.update(Action::MenuUp);
    assert_eq!(palette.selected, 0);
}

#[test]
fn update_menu_down_wraps() {
    let mut palette = make_palette_with_items();
    palette.selected = 2;
    palette.update(Action::MenuDown);
    assert_eq!(palette.selected, 0);
}

#[test]
fn update_menu_up_wraps() {
    let mut palette = make_palette_with_items();
    palette.update(Action::MenuUp);
    assert_eq!(palette.selected, 2);
}

#[test]
fn typing_char_appends_to_query() {
    let mut palette = make_palette_with_items();
    palette.query_dirty = false;
    press(&mut palette, key(KeyCode::Char('n')));
    assert!(palette.query_dirty);
    assert_eq!(palette.query, "n");
}

#[test]
fn backspace_removes_from_query() {
    let mut palette = make_palette_with_items();
    palette.query = "abc".to_string();
    palette.query_dirty = false;
    press(&mut palette, key(KeyCode::Backspace));
    assert_eq!(palette.query, "ab");
    assert!(palette.query_dirty);
}

#[test]
fn esc_returns_close_menu() {
    let mut palette = make_palette_with_items();
    let result = press(&mut palette, key(KeyCode::Esc));
    assert!(matches!(result, EventResult::Action(Action::CloseMenu)));
}

#[test]
fn enter_on_empty_list_is_ignored() {
    let mut palette = CommandPaletteComponent::new();
    let result = press(&mut palette, key(KeyCode::Enter));
    assert!(result.is_ignored());
}

#[test]
fn enter_on_populated_list_returns_menu_select() {
    let mut palette = make_palette_with_items();
    let result = press(&mut palette, key(KeyCode::Enter));
    assert!(matches!(result, EventResult::Action(Action::MenuSelect)));
}

#[test]
fn selected_stable_id_returns_correct_id() {
    let palette = make_palette_with_items();
    assert_eq!(palette.selected_stable_id(), Some("core:new_terminal"));
}

#[test]
fn ctrl_c_closes_when_query_empty() {
    let mut palette = make_palette_with_items();
    palette.query_dirty = false;
    let result = press(&mut palette, ctrl('c'));
    assert!(matches!(result, EventResult::Action(Action::CloseMenu)));
    assert!(palette.query.is_empty());
    assert!(!palette.query_dirty);
}

#[test]
fn ctrl_c_clears_populated_query() {
    let mut palette = make_palette_with_items();
    palette.query = "new t".to_string();
    palette.cursor = 6;
    palette.query_dirty = false;
    let result = press(&mut palette, ctrl('c'));
    assert!(result.is_consumed());
    assert!(palette.query.is_empty());
    assert_eq!(palette.cursor, 0);
    assert!(palette.query_dirty);
}

#[test]
fn control_chars_other_than_clear_binding_stay_ignored() {
    let mut palette = make_palette_with_items();
    palette.query = "new t".to_string();
    palette.query_dirty = false;
    let result = press(&mut palette, ctrl('x'));
    assert!(result.is_ignored());
    assert_eq!(palette.query, "new t");
    assert!(!palette.query_dirty);
}

#[test]
fn j_k_are_char_input_not_navigation() {
    let mut palette = make_palette_with_items();
    palette.query_dirty = false;
    press(&mut palette, key(KeyCode::Char('j')));
    assert_eq!(palette.query, "j");
    assert_eq!(palette.selected, 0);
    press(&mut palette, key(KeyCode::Char('k')));
    assert_eq!(palette.query, "jk");
    assert_eq!(palette.selected, 0);
}

#[test]
fn selected_action_returns_none_for_disabled_item() {
    let mut palette = make_palette_with_disabled_item();
    palette.selected = 1;
    assert_eq!(palette.selected_action(), None);
}

#[test]
fn selected_action_returns_action_for_enabled_item() {
    let palette = make_palette_with_disabled_item();
    assert_eq!(palette.selected_action(), Some(&Action::NewTerminal));
}

#[test]
fn enter_on_disabled_item_returns_ignored() {
    let mut palette = make_palette_with_disabled_item();
    palette.selected = 1;
    let result = press(&mut palette, key(KeyCode::Enter));
    assert!(result.is_ignored());
}

#[test]
fn enter_on_enabled_item_returns_menu_select() {
    let mut palette = make_palette_with_disabled_item();
    let result = press(&mut palette, key(KeyCode::Enter));
    assert!(matches!(result, EventResult::Action(Action::MenuSelect)));
}

#[test]
fn disabled_items_visible_in_filtered_list() {
    let palette = make_palette_with_disabled_item();
    assert_eq!(palette.filtered_items.len(), 3);
    assert!(!palette.filtered_items[0].disabled);
    assert!(palette.filtered_items[1].disabled);
    assert!(!palette.filtered_items[2].disabled);
}

#[test]
fn test_searchable_text_generation() {
    assert_eq!(searchable_text(Some("*"), "System Panel"), "* System Panel");
    assert_eq!(searchable_text(Some(""), "System Panel"), "System Panel");
    assert_eq!(searchable_text(None, "System Panel"), "System Panel");
}

// ── Further cases ──

fn entry(mask: u64, id: &str) -> PaletteSource {
    PaletteSource::Entry(PaletteEntry {
        required_context: mask,
        item: item(id, id, Action::Help, None, false),
    })
}

fn shape(p: &CommandPaletteComponent) -> String {
    p.display_nodes
        .iter()
        .map(|n| match n {
            PaletteDisplayNode::Item(it) => it.stable_id.clone(),
            PaletteDisplayNode::Separator => "|".to_string(),
        })
        .collect::<Vec<_>>()
        .join(" ")
}

#[test]
fn rebuild_collapses_separators_and_filters_by_context() {
    let mut palette = CommandPaletteComponent::new();
    palette.current_context_mask = 0b01;
    let sources = vec![
        PaletteSource::Separator,
        entry(0, "a"),
        PaletteSource::Separator,
        PaletteSource::Separator,
        entry(0b10, "hidden"),
        PaletteSource::Missing,
        entry(0b01, "b"),
        PaletteSource::Separator,
        entry(0b10, "gone"),
        PaletteSource::Separator,
    ];
    palette.rebuild_data_cache(&sources);
    assert!(!palette.data_dirty);
    assert!(palette.query_dirty);
    let ranked = palette.rerank_candidates(&vec![], true);
    palette.apply_ranking(ranked);
    assert_eq!(shape(&palette), "a | b");
    assert!(!palette.query_dirty);
}

#[test]
fn search_ranks_matches_and_clamps_selection() {
    let mut palette = CommandPaletteComponent::new();
    let sources = vec![entry(0, "a"), PaletteSource::Separator, entry(0, "b"), entry(0, "c")];
    palette.rebuild_data_cache(&sources);
    palette.selected = 2;
    palette.query = "b".to_string();
    // Matches by index into the cached commands; out of range ones skipped.
    let ranked = palette.rerank_candidates(&vec![1, 9], false);
    assert_eq!(ranked.len(), 1);
    assert_eq!(ranked[0].action, Action::CloseMenu);
    palette.apply_ranking(ranked);
    assert_eq!(shape(&palette), "b");
    assert_eq!(palette.selected, 0);
    let texts = palette.searchable_entries();
    assert_eq!(texts.len(), 3);
    assert_eq!(texts[1].2, "b");
}

#[test]
fn selection_maps_between_rows_and_commands() {
    let mut palette = CommandPaletteComponent::new();
    let sources = vec![entry(0, "a"), PaletteSource::Separator, entry(0, "b"), entry(0, "c")];
    palette.rebuild_data_cache(&sources);
    let ranked = palette.rerank_candidates(&vec![], true);
    palette.apply_ranking(ranked);
    // Rows: a | b c
    assert_eq!(palette.display_index(0), 0);
    assert_eq!(palette.display_index(1), 2);
    assert_eq!(palette.display_index(2), 3);
    assert_eq!(palette.display_index(7), 7);
    palette.sync_selected(3);
    assert_eq!(palette.selected, 2);
    palette.sync_selected(2);
    assert_eq!(palette.selected, 1);
    palette.sync_selected(99);
    assert_eq!(palette.selected, 2);
}

#[test]
fn down_then_up_round_trips() {
    let mut palette = make_palette_with_items();
    for start in 0..3 {
        palette.selected = start;
        palette.update(Action::MenuDown);
        palette.update(Action::MenuUp);
        assert_eq!(palette.selected, start);
    }
    assert!(palette.update(Action::ScrollView(1)));
}

#[test]
fn released_keys_are_ignored() {
    let mut palette = make_palette_with_items();
    let k = KeyEvent { code: KeyCode::Char('a'), modifiers: KeyModifiers::none(), kind: KeyKind::Release };
    assert!(palette.handle_key(k, false).is_ignored());
    assert!(palette.query.is_empty());
}

fn make_palette_with_many_items(n: usize) -> CommandPaletteComponent {
    let mut palette = CommandPaletteComponent::new();
    palette.data_dirty = false;
    palette.query_dirty = false;
    let make = |i: usize| item(&format!("core:item_{i}"), &format!("Item {i}"), Action::Other, None, false);
    palette.filtered_items = (0..n).map(make).collect();
    palette.display_nodes = (0..n).map(|i| PaletteDisplayNode::Item(make(i))).collect();
    palette
}

/// One frame of a palette `height` rows tall (a search row, then the list)
/// whose list was scrolled to `offset`: the list's offset after it.
fn render_palette(palette: &mut CommandPaletteComponent, height: usize, offset: usize) -> usize {
    palette.follow_selection(offset, height - 1)
}

#[test]
fn auto_scroll_starts_at_offset_zero() {
    let mut palette = make_palette_with_many_items(20);
    assert_eq!(render_palette(&mut palette, 6, 0), 0);
    assert_eq!(palette.display_nodes.len(), 20);
}

#[test]
fn auto_scroll_advances_when_selection_moves_past_viewport() {
    let mut palette = make_palette_with_many_items(20);
    // Navigate to item 7; the list shows 5 rows.
    palette.selected = 7;
    palette.update(Action::MenuDown);
    // update moved to 8
    assert_eq!(render_palette(&mut palette, 6, 0), 4, "offset should advance to keep item 8 visible at bottom");
}

#[test]
fn auto_scroll_goes_back_when_selection_moves_up() {
    let mut palette = make_palette_with_many_items(20);
    palette.selected = 15;
    let offset = render_palette(&mut palette, 6, 0);
    assert_eq!(offset, 11, "offset should be at 11 for item 15");
    palette.selected = 0;
    assert_eq!(render_palette(&mut palette, 6, offset), 0, "offset should reset to 0 when selection moves to top");
}

#[test]
fn auto_scroll_does_not_override_manual_scroll() {
    let mut palette = make_palette_with_many_items(20);
    palette.selected = 0;
    render_palette(&mut palette, 6, 0);
    // The user scrolls to 8; the selection stays.
    assert_eq!(render_palette(&mut palette, 6, 8), 8, "manual scroll should be preserved when selection unchanged");
}

#[test]
fn auto_scroll_engages_again_after_manual_scroll_when_selection_changes() {
    let mut palette = make_palette_with_many_items(20);
    palette.selected = 0;
    render_palette(&mut palette, 6, 0);
    palette.selected = 15;
    // display_sel=15, list_height=5, offset was 8. 15 >= 8 + 5 = 13 -> snap to 15 - 5 + 1 = 11
    assert_eq!(render_palette(&mut palette, 6, 8), 11, "auto-scroll should re-engage when selection changes");
}

#[test]
fn empty_results_keeps_search_bar_and_renders_placeholder() {
    let mut palette = CommandPaletteComponent::new();
    palette.data_dirty = false;
    palette.query_dirty = false;
    palette.query = "zzz".to_string();
    palette.display_nodes = Vec::new();
    let (prompt, text, placeholder) = palette.search_bar(80);
    assert!(prompt.contains('>'), "search bar must remain visible");
    assert_eq!(text, "zzz");
    assert!(!placeholder);
    // With no rows the hint is centred on the first list row.
    assert!(palette.display_nodes.is_empty());
    let list_row = term_wm_ui_components::geometry::Rect { x: 0, y: 1, width: 80, height: 4 };
    assert_eq!(CommandPaletteComponent::no_results_x(list_row), 30);
}

#[test]
fn search_bar_shows_placeholder_cut_to_the_room_left() {
    let palette = CommandPaletteComponent::new();
    assert_eq!(palette.search_bar(40), (" > ".to_string(), "[type to search]".to_string(), true));
    assert_eq!(palette.search_bar(8).1, "[type");
    let mut typed = CommandPaletteComponent::new();
    typed.query = "abcdefgh".to_string();
    assert_eq!(typed.search_bar(6).1, "abc");
}
