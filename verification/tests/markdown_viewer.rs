use term_wm_ui_components::markdown_viewer::{slugify, MarkdownViewerComponent, MdFragment, PointerAction};
use term_wm_ui_components::text_renderer::TextRendererComponent;

const SAMPLE_HELP_MD: &str = "Lorem ipsum dolor sit amet, consectetur adipiscing elit. Integer nec odio.
Praesent libero. Sed cursus ante dapibus diam. Sed nisi. Nulla quis sem at nibh
elementum imperdiet. Duis sagittis ipsum. Praesent mauris.

- Alpha: first command example
- Beta: second command example with a bit more text to force wrapping
- Gamma: another brief example

Curabitur sodales ligula in libero. Sed dignissim lacinia nunc. Curabitur tortor.
Pellentesque nibh. Aenean quam. In scelerisque sem at dolor.

_Notes:_
- This is a lorem ipsum note used for tests.
- Another note to validate list rendering and wrapping behavior.
";

fn line_text(line: &[MdFragment]) -> String {
    line.iter().map(|f| f.text.as_str()).collect()
}

fn rendered(mv: &MarkdownViewerComponent) -> Vec<String> {
    mv.lines.iter().map(|l| line_text(l)).collect()
}

fn viewer(md: &str) -> MarkdownViewerComponent {
    let mut mv = MarkdownViewerComponent::new();
    mv.set_markdown(md);
    mv
}

#[test]
fn help_md_contains_notes_and_list_items() {
    let mv = viewer(SAMPLE_HELP_MD);
    let rendered = rendered(&mv);
    assert!(
        rendered.iter().any(|line| line.contains("Notes:")),
        "help.md should contain 'Notes:'"
    );
    assert!(
        rendered.iter().any(|line| line.to_lowercase().contains("lorem ipsum"))
            || rendered.iter().any(|line| line.to_lowercase().contains("lorem")),
        "help.md should contain lorem ipsum notes"
    );
    assert!(rendered.iter().any(|line| line.starts_with("- Alpha")));
}

#[test]
fn list_separates_from_following_paragraph() {
    let md = "- item one\n- item two\n\nNext paragraph begins here.\n";
    let mv = viewer(md);
    let rendered = rendered(&mv);
    let idx = rendered
        .iter()
        .position(|line| line.contains("item two"))
        .expect("list text present");
    assert_eq!(
        rendered.get(idx + 1).map(|s| s.as_str()),
        Some(""),
        "expected blank line after list"
    );
    assert!(
        rendered
            .get(idx + 2)
            .map(|s| s.contains("Next paragraph"))
            .unwrap_or(false),
        "paragraph should follow after blank line"
    );
}

#[test]
fn anchor_links_scroll_to_header() {
    let md = "[Go to section](#section-two)\n\n# Section One\nLine 1\nLine 2\nLine 3\n\n# Section Two\nTarget line.\n";
    let mv = viewer(md);
    // The link carries its destination.
    assert_eq!(mv.lines[0][0].link.as_deref(), Some("#section-two"));
    let target = mv.link_target("#section-two").expect("anchor present");
    assert!(target > 0, "Should jump down to Section Two");
    assert_eq!(line_text(&mv.lines[target]), "Section Two");
    assert!(mv.link_target("https://example.com").is_none());
    assert!(mv.link_target("#missing").is_none());
}

#[test]
fn horizontal_rule_renders_single_line() {
    let md = "Above paragraph\n\n---\n\nBelow paragraph\n";
    let mv = viewer(md);
    let rules = rendered(&mv).iter().filter(|l| l.contains("\0RULE\0")).count();
    assert_eq!(rules, 1, "rule should occupy a single line");
}

// ── Further cases ──

#[test]
fn slugify_lowercases_and_dashes() {
    assert_eq!(slugify("  Section Two "), "section-two");
    assert_eq!(slugify("A  b"), "a-b");
    assert_eq!(slugify("Hello, World!"), "hello-world");
    assert_eq!(slugify("snake_case-name"), "snake_case-name");
    assert_eq!(slugify("!!!"), "");
}

#[test]
fn ordered_and_nested_lists_get_numbers_and_indent() {
    let md = "3. three\n4. four\n   - inner\n";
    let mv = viewer(md);
    let r = rendered(&mv);
    assert!(r.iter().any(|l| l.starts_with("3.three")), "{r:?}");
    assert!(r.iter().any(|l| l.starts_with("4.four")), "{r:?}");
    assert!(r.iter().any(|l| l.contains("  - inner")), "{r:?}");
}

#[test]
fn emphasis_and_code_are_styled() {
    let mv = viewer("**bold** _it_ `code`\n");
    let line = &mv.lines[0];
    let bold = line.iter().find(|f| f.text == "bold").unwrap();
    assert!(bold.style.bold && !bold.style.italic && !bold.style.code);
    let it = line.iter().find(|f| f.text == "it").unwrap();
    assert!(it.style.italic && !it.style.bold);
    let code = line.iter().find(|f| f.text == "code").unwrap();
    assert!(code.style.code);
}

#[test]
fn empty_markdown_gives_one_blank_line() {
    let mv = viewer("");
    assert_eq!(rendered(&mv), vec![String::new()]);
    assert!(mv.anchors.is_empty());
}

#[test]
fn from_bytes_decodes_or_stays_empty() {
    let mv = MarkdownViewerComponent::from_bytes(b"# Title\n");
    assert_eq!(mv.anchor_line("title"), Some(0));
    let bad = MarkdownViewerComponent::from_bytes(&[0xff, 0xfe]);
    assert!(bad.lines.is_empty());
}

#[test]
fn slugify_is_idempotent_on_ascii() {
    for text in ["  Section Two ", "Hello, World!", "A\tB\nC", "x--y  z", "MiXeD_Case 42"] {
        let once = slugify(text);
        assert_eq!(slugify(&once), once);
        assert!(once.chars().all(|c| !c.is_whitespace()));
    }
}

#[test]
fn pointer_action_jumps_to_headings_and_hands_other_links_on() {
    let md = "[Go to section](#section-two)\n\n# Section One\nLine 1\nLine 2\nLine 3\n\n# Section Two\nTarget line.\n";
    let mv = viewer(md);
    let mut view = TextRendererComponent::new();
    view.set_text(mv.lines.iter().map(|l| l.iter().map(|f| f.text.clone()).collect()).collect());
    let line = mv.link_target("#section-two").unwrap();
    let row = view.jump_to_logical_line(line, 40);
    assert_eq!(mv.pointer_action(&view, true, Some("#section-two"), 40), Some(PointerAction::JumpTo(row)));
    assert_eq!(row, line, "no line wraps at 40 columns");
    assert_eq!(mv.pointer_action(&view, true, Some("#missing"), 40), Some(PointerAction::HandToHandler));
    assert_eq!(mv.pointer_action(&view, true, Some("https://example.com"), 40), Some(PointerAction::HandToHandler));
    assert_eq!(mv.pointer_action(&view, false, Some("#section-two"), 40), Some(PointerAction::Delegate));
    assert_eq!(mv.pointer_action(&view, true, None, 40), Some(PointerAction::Delegate));
    assert_eq!(mv.pointer_action(&view, true, Some("#section-two"), 0), Some(PointerAction::JumpTo(0)));
}
