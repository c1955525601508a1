use term_wm_ui_components::action::{InputEvent, KeyCode, KeyEvent, KeyKind, KeyModifiers, MouseButton, MouseEvent, MouseEventKind};
use term_wm_ui_components::geometry::Rect;
use term_wm_ui_components::sys::keybinding_overlay::{build_lines, BindingEntry, Category, KeybindingOverlayComponent};

fn entry(category: Category, action: &str, combos: &[&str]) -> BindingEntry {
    BindingEntry { category, action: action.to_string(), combos: combos.iter().map(|c| c.to_string()).collect() }
}

fn bindings() -> Vec<BindingEntry> {
    vec![
        entry(Category::Scrolling, "ScrollUp", &["Up", "k"]),
        entry(Category::System, "Quit", &["Ctrl+Q"]),
        entry(Category::Scrolling, "ScrollDown", &["Down"]),
    ]
}

#[test]
fn keybinding_lines_are_grouped_by_category_in_order() {
    let lines = build_lines(&bindings());
    let expected = vec![
        " System".to_string(),
        String::new(),
        format!("  {:30}  {}", "Quit", "Ctrl+Q"),
        String::new(),
        " Scrolling".to_string(),
        String::new(),
        format!("  {:30}  {}", "ScrollUp", "Up / k"),
        format!("  {:30}  {}", "ScrollDown", "Down"),
        String::new(),
    ];
    assert_eq!(lines, expected);
}

#[test]
fn keybinding_long_action_names_are_not_cut() {
    let name = "A".repeat(35);
    let lines = build_lines(&vec![entry(Category::Dialogs, &name, &[])]);
    assert_eq!(lines[0], " Dialogs & Menus");
    assert_eq!(lines[2], format!("  {}  ", name));
}

#[test]
fn keybinding_overlay_show_and_close() {
    let mut overlay = KeybindingOverlayComponent::new(bindings());
    assert!(!overlay.visible());
    overlay.show();
    assert!(overlay.visible());
    assert_eq!(overlay.lines.len(), 9);
    let key = InputEvent::Key(KeyEvent { code: KeyCode::Esc, modifiers: KeyModifiers::none(), kind: KeyKind::Press });
    // A key not bound to closing help stays with the list.
    assert!(!overlay.handle_close(key, false));
    assert!(overlay.visible());
    assert!(overlay.handle_close(key, true));
    assert!(!overlay.visible());
    // A hidden overlay takes nothing.
    assert!(!overlay.handle_close(key, true));
}

#[test]
fn keybinding_overlay_closes_on_click_outside() {
    let mut overlay = KeybindingOverlayComponent::new(bindings());
    overlay.area = Rect { x: 0, y: 0, width: 100, height: 50 };
    overlay.show();
    let click = |column, row| InputEvent::Mouse(MouseEvent { kind: MouseEventKind::Press(MouseButton::Left), column, row });
    // The middle of the screen is inside the dialog.
    assert!(!overlay.handle_close(click(50, 25), false));
    assert!(overlay.handle_close(click(0, 0), false));
    assert!(!overlay.visible());
}
