use term_wm_ui_components::helpers::{style_to_role, ForegroundTone, SemanticRole, StyleFlags};

fn plain() -> StyleFlags {
    StyleFlags { bold: false, italic: false, underlined: false, dim: false, fg: ForegroundTone::Other }
}

#[test]
fn style_to_role_bold() {
    assert_eq!(style_to_role(&StyleFlags { bold: true, ..plain() }), SemanticRole::Bold);
}

#[test]
fn style_to_role_italic() {
    assert_eq!(style_to_role(&StyleFlags { italic: true, ..plain() }), SemanticRole::Italic);
}

#[test]
fn style_to_role_underlined() {
    assert_eq!(style_to_role(&StyleFlags { underlined: true, ..plain() }), SemanticRole::Underlined);
}

#[test]
fn style_to_role_dim() {
    assert_eq!(style_to_role(&StyleFlags { dim: true, ..plain() }), SemanticRole::Dimmed);
}

#[test]
fn style_to_role_yellow_is_warning() {
    assert_eq!(style_to_role(&StyleFlags { fg: ForegroundTone::Yellow, ..plain() }), SemanticRole::Warning);
}

#[test]
fn style_to_role_red_is_error() {
    assert_eq!(style_to_role(&StyleFlags { fg: ForegroundTone::Red, ..plain() }), SemanticRole::Error);
}

#[test]
fn style_to_role_plain_is_normal() {
    assert_eq!(style_to_role(&plain()), SemanticRole::Normal);
}

#[test]
fn style_to_role_modifiers_win_over_colour() {
    assert_eq!(style_to_role(&StyleFlags { dim: true, fg: ForegroundTone::Red, ..plain() }), SemanticRole::Dimmed);
    assert_eq!(style_to_role(&StyleFlags { bold: true, italic: true, ..plain() }), SemanticRole::Bold);
}
