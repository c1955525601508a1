use term_wm_ui_components::action::{
    Action, EventResult, InputEvent, KeyCode, KeyEvent, KeyKind, KeyModifiers, MouseButton, MouseEvent, MouseEventKind,
};
use term_wm_ui_components::geometry::{LayoutRect, Rect};
use term_wm_ui_components::menu::{MenuComponent, MenuItem, MenuKeys, MenuRowStyle};

fn key_event(code: KeyCode) -> InputEvent {
    InputEvent::Key(KeyEvent { code, modifiers: KeyModifiers::none(), kind: KeyKind::Press })
}

/// The bindings the arrow keys and Enter have by default.
fn keys_for(code: KeyCode) -> MenuKeys {
    MenuKeys {
        up: code == KeyCode::Up,
        prev: false,
        down: code == KeyCode::Down,
        next: false,
        select: code == KeyCode::Enter,
    }
}

fn process(menu: &mut MenuComponent, code: KeyCode) {
    let result = menu.handle_events(key_event(code), keys_for(code), None, 0);
    if let EventResult::Action(action) = result {
        menu.update(action);
    }
}

fn item(label: &str, action: Action) -> MenuItem {
    MenuItem { icon: None, label: label.to_string(), action, disabled: false }
}

#[test]
fn menu_navigation_cycles_selection() {
    let mut menu = MenuComponent::new();
    menu.set_items(vec![item("First", Action::Quit), item("Second", Action::NewTerminal), item("Third", Action::Help)]);
    assert_eq!(menu.selected(), 0);

    process(&mut menu, KeyCode::Down);
    assert_eq!(menu.selected(), 1);

    process(&mut menu, KeyCode::Down);
    assert_eq!(menu.selected(), 2);

    process(&mut menu, KeyCode::Down);
    assert_eq!(menu.selected(), 0);

    process(&mut menu, KeyCode::Up);
    assert_eq!(menu.selected(), 2);

    process(&mut menu, KeyCode::Up);
    assert_eq!(menu.selected(), 1);
}

#[test]
fn menu_jk_navigation() {
    let mut menu = MenuComponent::new();
    menu.set_items(vec![item("One", Action::Quit), item("Two", Action::NewTerminal)]);
    assert_eq!(menu.selected(), 0);

    // Down arrow = MenuDown
    process(&mut menu, KeyCode::Down);
    assert_eq!(menu.selected(), 1);

    // Up arrow = MenuUp
    process(&mut menu, KeyCode::Up);
    assert_eq!(menu.selected(), 0);
}

#[test]
fn menu_selected_action_returns_correct_action() {
    let mut menu = MenuComponent::new();
    menu.set_items(vec![item("Zero", Action::Quit), item("One", Action::NewTerminal)]);
    assert_eq!(menu.selected_action(), Some(&Action::Quit));
    menu.set_selected(1);
    assert_eq!(menu.selected_action(), Some(&Action::NewTerminal));
}

#[test]
fn empty_menu_does_nothing() {
    let menu = MenuComponent::new();
    assert_eq!(menu.selected_action(), None);
    let result = menu.handle_key_event(key_event(KeyCode::Down), keys_for(KeyCode::Down));
    assert!(result.is_ignored());
    assert_eq!(menu.selected(), 0);
}

#[test]
fn render_does_not_panic() {
    let mut menu = MenuComponent::new();
    menu.set_items(vec![
        item("Item A", Action::Quit),
        MenuItem { icon: Some("\u{2713}"), label: "Item B".to_string(), action: Action::NewTerminal, disabled: false },
    ]);
    let area = Rect { x: 0, y: 0, width: 30, height: 10 };
    assert_eq!(menu.visible_items(area, 0), 2);
    let (style, text) = menu.item_row(0, None, 28);
    assert_eq!(style, MenuRowStyle::Selected);
    assert_eq!(text, ">   Item A");
    let (style, text) = menu.item_row(1, Some(1), 28);
    assert_eq!(style, MenuRowStyle::Hovered);
    assert_eq!(text, "\u{25b8} \u{2713} Item B");
}

#[test]
fn menu_row_is_cut_to_width_and_disabled_rows_look_disabled() {
    let mut menu = MenuComponent::new();
    menu.set_items(vec![
        item("Zero", Action::Quit),
        MenuItem { icon: None, label: "Locked".to_string(), action: Action::Help, disabled: true },
    ]);
    let (style, text) = menu.item_row(1, Some(1), 6);
    assert_eq!(style, MenuRowStyle::Disabled);
    assert_eq!(text, "\u{25b8}   Lo");
}

#[test]
fn menu_click_selects_item_below_header() {
    let mut menu = MenuComponent::new();
    menu.set_items(vec![item("A", Action::Quit), item("B", Action::Help), item("C", Action::NewTerminal)]);
    let screen = Some(LayoutRect { x: 2, y: 3, width: 10, height: 6 });
    let click = |column: u16, row: u16| {
        InputEvent::Mouse(MouseEvent { kind: MouseEventKind::Press(MouseButton::Left), column, row })
    };
    let none = keys_for(KeyCode::Other);
    // Row 3 is the header.
    assert!(menu.handle_events(click(4, 3), none, screen, 0).is_ignored());
    // Row 5 is the second item.
    assert_eq!(menu.handle_events(click(4, 5), none, screen, 0), EventResult::Action(Action::MenuSelect));
    assert_eq!(menu.selected(), 1);
    // Scrolled by one row, the same cell holds the third item.
    assert_eq!(menu.handle_events(click(4, 5), none, screen, 1), EventResult::Action(Action::MenuSelect));
    assert_eq!(menu.selected(), 2);
    // Past the last item.
    assert!(menu.handle_events(click(4, 8), none, screen, 0).is_ignored());
}

#[test]
fn menu_set_items_clamps_selection() {
    let mut menu = MenuComponent::default();
    menu.set_items(vec![item("A", Action::Quit), item("B", Action::Help), item("C", Action::NewTerminal)]);
    menu.set_selected(9);
    assert_eq!(menu.selected(), 2);
    menu.set_items(vec![item("A", Action::Quit)]);
    assert_eq!(menu.selected(), 0);
    assert!(menu.handles_key_event(key_event(KeyCode::Enter), keys_for(KeyCode::Enter)));
    assert!(!menu.handles_key_event(key_event(KeyCode::Char('x')), keys_for(KeyCode::Char('x'))));
}

#[test]
fn menu_hover_names_the_item_under_the_pointer() {
    let mut menu = MenuComponent::new();
    menu.set_items(vec![item("A", Action::Quit), item("B", Action::Help)]);
    let area = Rect { x: 2, y: 3, width: 10, height: 6 };
    // Row 3 is the header; row 4 the first item, row 5 the second.
    assert_eq!(menu.hovered_index(area, Some((4, 3)), 0), None);
    assert_eq!(menu.hovered_index(area, Some((4, 4)), 0), Some(0));
    assert_eq!(menu.hovered_index(area, Some((4, 5)), 0), Some(1));
    assert_eq!(menu.hovered_index(area, Some((4, 6)), 0), None);
    assert_eq!(menu.hovered_index(area, Some((4, 4)), 1), Some(1));
    assert_eq!(menu.hovered_index(area, Some((20, 4)), 0), None);
    assert_eq!(menu.hovered_index(area, None, 0), None);
}
