use term_wm_ui_components::action::{MouseButton, MouseEvent, MouseEventKind};
use term_wm_ui_components::geometry::Rect;
use term_wm_ui_components::panel::{KeyHint, PanelComponent, PanelLayer, PanelRole, PanelToggles};

fn rect(x: u16, y: u16, width: u16, height: u16) -> Rect {
    Rect { x, y, width, height }
}

fn press(column: u16, row: u16) -> MouseEvent {
    MouseEvent { kind: MouseEventKind::Press(MouseButton::Left), column, row }
}

/// The row a layer paints, as text (unpainted cells are spaces).
fn row_text(layer: &PanelLayer) -> String {
    let w = layer.bounds.width as usize;
    let mut cells: Vec<char> = vec![' '; w];
    for p in &layer.paints {
        for (i, ch) in p.text.chars().enumerate() {
            let x = p.x as usize + i;
            if x >= layer.bounds.x as usize && x < layer.bounds.x as usize + w {
                cells[x - layer.bounds.x as usize] = ch;
            }
        }
    }
    cells.into_iter().collect()
}

fn toggles() -> PanelToggles {
    PanelToggles {
        mouse_capture_enabled: true,
        clipboard_enabled: true,
        window_selection_enabled: false,
        selection_copy_available: false,
        selection_copied: false,
        menu_open: false,
    }
}

#[test]
fn panel_basic_methods_and_split_area() {
    let mut p: PanelComponent<u8> = PanelComponent::new("test-app", "1.0.0", Some("test-host"));
    assert!(p.visible());
    p.set_visible(false);
    assert!(!p.visible());
    p.set_height(0);
    assert!(p.height() >= 1);
    let area = rect(0, 0, 10, 5);
    let (panel_rect, bottom_rect, managed) = p.split_area(true, area);
    assert_eq!(panel_rect.width, 10);
    assert_eq!(bottom_rect.width, 10);
    assert_eq!(managed.width, 10);

    let ev = press(0, 0);
    assert!(!p.hit_test_mouse_capture(ev));
    assert!(p.hit_test_window(ev).is_none());
}

#[test]
fn render_bottom_renders_provided_hostname() {
    let mut p: PanelComponent<u8> = PanelComponent::new("app", "1.0", Some("my-machine"));
    assert_eq!(p.hostname, Some("my-machine".to_string()));
    let area = rect(0, 0, 80, 1);
    p.bottom_area = area;
    let layer = p.layout_bottom("linux", area).unwrap();
    assert!(row_text(&layer).contains("my-machine"), "bottom bar should include hostname");
}

#[test]
fn render_bottom_fills_background_and_right_aligns_text() {
    let mut p: PanelComponent<u8> = PanelComponent::new("test", "0.0.1", Some("h"));
    let area = rect(0, 0, 30, 1);
    p.bottom_area = area;
    let layer = p.layout_bottom("linux", area).unwrap();
    // The whole bar gets the bar's colours.
    assert_eq!(layer.bounds, area);
    // The info text ends at the bar's right edge.
    let text = row_text(&layer);
    assert!(!text.trim().is_empty(), "expected non-space text in bottom row");
    assert!(!text.ends_with(' '));
}

#[test]
fn render_bottom_includes_app_name_and_version() {
    let mut p: PanelComponent<u8> = PanelComponent::new("my-app", "2.0.0", Some("my-host"));
    let area = rect(0, 0, 80, 1);
    p.bottom_area = area;
    let layer = p.layout_bottom("linux", area).unwrap();
    let text = row_text(&layer);
    assert!(text.contains("my-app"));
    assert!(text.contains("2.0.0"));
    assert!(text.contains("my-host"));
}

// ── Further cases ──

#[test]
fn split_area_inactive_without_hints_manages_everything() {
    let mut p: PanelComponent<u8> = PanelComponent::new("a", "1", None);
    let area = rect(0, 0, 20, 6);
    let (top, bottom, managed) = p.split_area(false, area);
    assert_eq!(top.height, 0);
    assert_eq!(bottom.height, 0);
    assert_eq!(managed, area);
    p.set_height(3);
    let (top, bottom, managed) = p.split_area(true, area);
    assert_eq!(top, rect(0, 0, 20, 3));
    assert_eq!(bottom, rect(0, 5, 20, 1));
    assert_eq!(managed, rect(0, 3, 20, 2));
}

#[test]
fn top_panel_places_menu_windows_and_indicators() {
    let mut p: PanelComponent<u8> = PanelComponent::new("wm", "1", Some("h"));
    let screen = rect(0, 0, 80, 2);
    p.split_area(true, screen);
    p.begin_frame();
    let labels = vec!["one".to_string(), "two".to_string()];
    let plan = p.layout(true, 2, &vec![1, 2], &labels, None, toggles(), "linux", screen);
    let top = plan.top.unwrap();
    let text = row_text(&top);
    assert!(text.starts_with("≡ wm  one  two "), "{text:?}");
    // Menu icon "≡ wm" is 4 cells.
    assert_eq!(p.menu_icon_rect(), Some(rect(0, 0, 4, 1)));
    assert!(p.hit_test_menu(press(2, 0)));
    // Window chunks " one " at 5 and " two " at 10.
    assert_eq!(p.window_hits, vec![(1, rect(5, 0, 5, 1)), (2, rect(10, 0, 5, 1))]);
    assert_eq!(p.hit_test_window(press(11, 0)), Some(2));
    assert_eq!(p.hit_test_window(press(20, 0)), None);
    let focused: Vec<PanelRole> = top
        .paints
        .iter()
        .filter(|x| x.text == " two ")
        .map(|x| x.role)
        .collect();
    assert_eq!(focused, vec![PanelRole::WindowFocused]);
    // Indicators are right-aligned: 43 cells end at 80.
    assert_eq!(p.selection_rect, Some(rect(37, 0, 13, 1)));
    assert_eq!(p.copy_rect, None, "copy is only clickable when available");
    assert_eq!(p.mouse_capture_rect, Some(rect(58, 0, 9, 1)));
    assert_eq!(p.clipboard_rect, Some(rect(67, 0, 13, 1)));
    assert!(p.hit_test_clipboard(press(70, 0)));
    assert!(!p.hit_test_clipboard(MouseEvent { kind: MouseEventKind::Moved, column: 70, row: 0 }));
    // The bottom bar is laid out too.
    assert!(plan.bottom.is_some());
}

#[test]
fn status_line_replaces_window_chunks() {
    let mut p: PanelComponent<u8> = PanelComponent::new("wm", "1", None);
    let screen = rect(0, 0, 80, 2);
    p.split_area(true, screen);
    let labels = vec!["one".to_string()];
    let plan = p.layout(true, 1, &vec![1], &labels, Some("busy"), toggles(), "linux", screen);
    let text = row_text(&plan.top.unwrap());
    assert!(text.starts_with("≡ wm busy"), "{text:?}");
    assert!(p.window_hits.is_empty());
}

#[test]
fn hints_are_laid_out_and_hit() {
    let mut p: PanelComponent<u8> = PanelComponent::new("wm", "1", None);
    p.set_keybinding_hints(vec![
        KeyHint { action: 7, label: "Menu".to_string(), combos: vec!["F1".to_string(), "M-m".to_string()] },
        KeyHint { action: 9, label: "Quit".to_string(), combos: vec!["C-q".to_string()] },
    ]);
    let screen = rect(0, 0, 40, 3);
    p.split_area(false, screen);
    let plan = p.layout(false, 0, &vec![], &vec![], None, toggles(), "linux", screen);
    assert!(plan.top.is_none());
    let bottom = plan.bottom.unwrap();
    assert_eq!(row_text(&bottom).trim_end(), "F1/M-m Menu|C-q Quit|");
    assert_eq!(p.hint_rects, vec![(rect(0, 2, 11, 1), 7), (rect(12, 2, 8, 1), 9)]);
    assert_eq!(p.hit_test_hint(press(13, 2)), Some(9));
    assert_eq!(p.hit_test_hint(press(11, 2)), None);
}

#[test]
fn a_lone_wide_hint_is_cut_to_fit() {
    let mut p: PanelComponent<u8> = PanelComponent::new("wm", "1", None);
    p.set_keybinding_hints(vec![KeyHint {
        action: 1,
        label: "A very long description".to_string(),
        combos: vec!["C-x".to_string()],
    }]);
    let area = rect(0, 0, 10, 1);
    p.bottom_area = area;
    let layer = p.layout_hints(area).unwrap();
    assert_eq!(p.hint_rects, vec![(rect(0, 0, 10, 1), 1)]);
    assert_eq!(row_text(&layer), "C-x A very");
}
