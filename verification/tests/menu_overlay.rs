use term_wm_ui_components::action::{
    Action, InputEvent, KeyCode, KeyEvent, KeyKind, KeyModifiers, MouseButton, MouseEvent, MouseEventKind,
};
use term_wm_ui_components::geometry::Rect;
use term_wm_ui_components::menu::{MenuItem, MenuKeys};
use term_wm_ui_components::menu_overlay::WmMenuOverlay;

fn items() -> Vec<MenuItem> {
    vec![
        MenuItem { icon: None, label: "First".to_string(), action: Action::Quit, disabled: false },
        MenuItem { icon: Some("→"), label: "Second".to_string(), action: Action::NewTerminal, disabled: false },
        MenuItem { icon: Some("●"), label: "Third".to_string(), action: Action::Help, disabled: false },
    ]
}

fn key_event(code: KeyCode) -> InputEvent {
    InputEvent::Key(KeyEvent { code, modifiers: KeyModifiers::none(), kind: KeyKind::Press })
}

/// The bindings of the arrow keys and Enter by default.
fn keys_for(code: KeyCode) -> MenuKeys {
    MenuKeys { up: code == KeyCode::Up, prev: false, down: code == KeyCode::Down, next: false, select: code == KeyCode::Enter }
}

fn mouse_click(x: u16, y: u16) -> InputEvent {
    InputEvent::Mouse(MouseEvent { kind: MouseEventKind::Press(MouseButton::Left), column: x, row: y })
}

fn area() -> Rect {
    Rect { x: 0, y: 0, width: 80, height: 25 }
}

fn anchored() -> WmMenuOverlay {
    let mut overlay = WmMenuOverlay::new();
    overlay.set_items(items());
    overlay.set_anchor(Some((0, 1)));
    overlay.set_managed_area(Rect { x: 0, y: 1, width: 80, height: 24 });
    overlay
}

#[test]
fn overlay_renders_dropdown_when_not_outlined() {
    let mut overlay = anchored();
    let drop = overlay.render_dropdown(area(), area()).expect("dropdown rect");
    // Widest label (6) + widest icon (1) + 6; three items and the frame.
    assert_eq!(drop, Rect { x: 0, y: 1, width: 13, height: 5 });
    // The first item sits on row 2, its text starting at column 1.
    assert_eq!(overlay.item_hits[0].1.y, 2);
    let (_, text) = overlay.menu.item_row(0, None, drop.width - 2);
    assert_eq!(text.chars().nth(4), Some('F'), "dropdown should render items");
}

#[test]
fn overlay_renders_nothing_when_no_items() {
    let mut overlay = WmMenuOverlay::new();
    overlay.set_anchor(Some((0, 1)));
    assert!(overlay.render_dropdown(area(), area()).is_none(), "should be empty when no items");
    assert!(overlay.item_hits.is_empty());
}

#[test]
fn overlay_outline_then_restore() {
    let mut overlay = anchored();
    let normal = overlay.render_dropdown(area(), area());
    overlay.outline();
    assert!(overlay.outlined, "outline mode should change rendering");
    overlay.restore();
    assert!(!overlay.outlined);
    assert_eq!(overlay.render_dropdown(area(), area()), normal, "restore should revert to dropdown");
}

#[test]
fn overlay_keyboard_navigation() {
    let mut overlay = WmMenuOverlay::new();
    overlay.set_items(items());
    assert!(overlay.handle_event(key_event(KeyCode::Down), keys_for(KeyCode::Down)), "Down should be handled");
    assert_eq!(overlay.menu.selected(), 1);
    assert!(overlay.handle_event(key_event(KeyCode::Down), keys_for(KeyCode::Down)));
    assert_eq!(overlay.menu.selected(), 2);
    // Wraps around
    assert!(overlay.handle_event(key_event(KeyCode::Down), keys_for(KeyCode::Down)));
    assert_eq!(overlay.menu.selected(), 0);
    assert!(overlay.handle_event(key_event(KeyCode::Up), keys_for(KeyCode::Up)));
    assert_eq!(overlay.menu.selected(), 2);
    assert!(overlay.handle_event(key_event(KeyCode::Enter), keys_for(KeyCode::Enter)));
    assert_eq!(overlay.selected_action(), Some(&Action::Help));
}

#[test]
fn overlay_mouse_click_on_item() {
    let mut overlay = anchored();
    overlay.render_dropdown(area(), area());
    // Click on first item (y=2 = anchor.y + 1)
    let handled = overlay.handle_event(mouse_click(1, 2), keys_for(KeyCode::Other));
    assert!(handled, "click on item should be handled");
    assert_eq!(overlay.selected_action(), Some(&Action::Quit));
}

#[test]
fn overlay_mouse_click_outside_returns_no_action() {
    let mut overlay = anchored();
    overlay.render_dropdown(area(), area());
    let handled = overlay.handle_event(mouse_click(50, 50), keys_for(KeyCode::Other));
    assert!(!handled, "click outside should not be handled by overlay");
    assert!(overlay.selected_action().is_none(), "no action should be stored");
}

#[test]
fn overlay_dropdown_is_cut_at_the_screen_edge() {
    let mut overlay = anchored();
    overlay.set_anchor(Some((75, 23)));
    let drop = overlay.render_dropdown(area(), area()).unwrap();
    assert_eq!((drop.width, drop.height), (5, 2));
    // Only the row inside the frame is clickable.
    assert_eq!(overlay.item_hits.len(), 1);
    overlay.set_anchor(Some((80, 1)));
    assert!(overlay.dropdown_rect(area()).is_none());
}
