use term_wm_ui_components::action::Action;
use term_wm_ui_components::toggle_list::{ToggleItem, ToggleListComponent};

fn make_items(n: usize) -> Vec<ToggleItem> {
    (0..n)
        .map(|i| ToggleItem { id: format!("id{}", i), label: format!("label{}", i), checked: i % 2 == 0 })
        .collect()
}

#[test]
fn bump_selection_bounds_and_toggle() {
    let mut t = ToggleListComponent::new("test");
    t.set_items(make_items(3));
    assert_eq!(t.selected(), 0);
    t.move_selection(1);
    assert_eq!(t.selected(), 1);
    t.move_selection(10);
    assert_eq!(t.selected(), 2);
    t.move_selection(-100);
    assert_eq!(t.selected(), 0);

    // toggle the first item
    assert!(t.toggle_selected());
    assert!(!t.items()[0].checked);
}

#[test]
fn handle_event_navigation() {
    let mut t = ToggleListComponent::new("s");
    t.set_items(make_items(5));
    t.update(Action::MenuDown);
    assert_eq!(t.selected(), 1);
    t.update(Action::ScrollHome);
    assert_eq!(t.selected(), 0);
    t.update(Action::ScrollEnd);
    assert_eq!(t.selected(), 4);
}

#[test]
fn toggle_twice_restores_and_empty_toggle_fails() {
    let mut t = ToggleListComponent::new("s");
    assert!(!t.toggle_selected());
    t.set_items(make_items(2));
    t.set_selected(1);
    let before = t.items()[1].checked;
    assert!(t.toggle_selected());
    assert!(t.toggle_selected());
    assert_eq!(t.items()[1].checked, before);
    t.update(Action::ToggleSelection);
    assert_eq!(t.items()[1].checked, !before);
}

#[test]
fn set_selected_and_set_items_clamp() {
    let mut t = ToggleListComponent::new("s");
    t.set_items(make_items(4));
    t.set_selected(10);
    assert_eq!(t.selected(), 3);
    t.set_items(make_items(2));
    assert_eq!(t.selected(), 1);
    t.set_items(Vec::new());
    assert_eq!(t.selected(), 0);
    t.items_mut().len();
}
