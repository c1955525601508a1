use term_wm_ui_components::dialog_overlay::DialogOverlayComponent;
use term_wm_ui_components::geometry::LayoutRect;
use term_wm_ui_components::modal_container::modal_rect;

fn screen(width: u16, height: u16) -> LayoutRect {
    LayoutRect { x: 0, y: 0, width, height }
}

#[test]
fn centers_content_in_middle_of_screen() {
    let result = modal_rect(screen(100, 50), 40, 20);
    assert_eq!(result.x, 30);
    assert_eq!(result.y, 15);
    assert_eq!(result.width, 40);
    assert_eq!(result.height, 20);
}

#[test]
fn clamps_to_screen_when_target_exceeds_bounds() {
    let result = modal_rect(screen(50, 30), 200, 100);
    assert_eq!(result.x, 0);
    assert_eq!(result.y, 0);
    assert_eq!(result.width, 50);
    assert_eq!(result.height, 30);
}

#[test]
fn backdrop_dims_cells_outside_content() {
    let s = screen(10, 10);
    let result = modal_rect(s, 4, 4);
    let mut dialog = DialogOverlayComponent::new();
    dialog.set_dim_backdrop(true);
    assert!(dialog.backdrop_cell(s, Some(result), 0, 0), "cell outside content should be dimmed");
    assert!(
        !dialog.backdrop_cell(s, Some(result), result.x as u16, result.y as u16),
        "cell inside content should NOT be dimmed"
    );
}

#[test]
fn modal_target_of_zero_still_gets_one_cell() {
    let result = modal_rect(screen(10, 10), 0, 0);
    assert_eq!((result.width, result.height), (1, 1));
}
