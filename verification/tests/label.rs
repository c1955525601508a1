use ratatui::style::Color;
use term_wm_ui_components::component::Component;
use term_wm_ui_components::label::LabelComponent;

#[test]
fn label_new_stores_text() {
    let label = LabelComponent::new("Hello");
    assert_eq!(label.text, "Hello");
    assert_eq!(label.color, Color::White);
}

#[test]
fn label_with_color_sets_color() {
    let label = LabelComponent::new("X").with_color(Color::Red);
    assert_eq!(label.color, Color::Red);
}

#[test]
fn label_desired_height_is_1() {
    let label = LabelComponent::new("X");
    assert_eq!(label.desired_height(0), 1);
    assert_eq!(label.desired_height(80), 1);
}

#[test]
fn label_destroy_is_noop() {
    let mut label = LabelComponent::new("X");
    label.destroy();
    assert_eq!(label.text, "X");
}
