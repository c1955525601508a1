use term_wm_ui_components::geometry::LayoutRect;
use term_wm_ui_components::placement_container::{Placement, PlacementContainerComponent};

struct DummyComponent {
    touched: bool,
}

fn screen() -> LayoutRect {
    LayoutRect { x: 0, y: 0, width: 80, height: 24 }
}

fn centered(width: u16, height: u16) -> PlacementContainerComponent<DummyComponent> {
    PlacementContainerComponent::new(DummyComponent { touched: false }, Placement::Centered { width, height })
}

fn anchored(x: u16, y: u16) -> PlacementContainerComponent<DummyComponent> {
    PlacementContainerComponent::new(
        DummyComponent { touched: false },
        Placement::Anchored { x, y, managed_area: screen(), content_width: 30, content_height: 10 },
    )
}

#[test]
fn centered_placement_in_middle_of_screen() {
    let rect = centered(10, 5).compute_content_rect(screen());
    assert_eq!(rect.width, 10);
    assert_eq!(rect.height, 5);
    assert_eq!(rect.x, 35);
    assert_eq!(rect.y, 10);
}

#[test]
fn centered_placement_clamps_to_area() {
    let rect = centered(200, 200).compute_content_rect(screen());
    assert_eq!(rect.width, 80);
    assert_eq!(rect.height, 24);
}

#[test]
fn anchored_placement_at_coordinates() {
    let rect = anchored(10, 5).compute_content_rect(screen());
    assert_eq!(rect.x, 10);
    assert_eq!(rect.y, 5);
    assert_eq!(rect.width, 30);
    assert_eq!(rect.height, 10);
}

#[test]
fn anchored_placement_clamps_to_managed_area() {
    let rect = anchored(70, 20).compute_content_rect(screen());
    assert_eq!(rect.x, 70);
    assert_eq!(rect.y, 20);
    assert_eq!(rect.width, 10);
    assert_eq!(rect.height, 4);
}

#[test]
fn render_delegates_to_content() {
    let mut container = centered(10, 5);
    assert!(container.content_rect().is_none());
    let planned = container.render_plan(screen());
    assert!(container.content_rect().is_some());
    let cr = container.content_rect().unwrap();
    assert_eq!(planned, Some(cr));
    assert_eq!(cr.width, 10);
    assert_eq!(cr.height, 5);
}

#[test]
fn handle_events_delegates_to_content() {
    let mut container = centered(10, 5);
    let outer = Some(screen());
    // Before a render every event sees the container's own area.
    assert_eq!(container.event_area(true, outer), outer);
    container.render_plan(screen());
    let cr = container.content_rect();
    // A mouse event then sees the content rect; a key event the outer area.
    assert_eq!(container.event_area(true, outer), cr);
    assert_eq!(container.event_area(false, outer), outer);
}

#[test]
fn inner_and_inner_mut_access_content() {
    let mut container = centered(10, 5);
    let _inner: &DummyComponent = container.inner();
    let inner_mut: &mut DummyComponent = container.inner_mut();
    inner_mut.touched = true;
    assert!(container.inner().touched);
}

#[test]
fn anchored_placement_past_the_managed_area_keeps_one_cell() {
    let rect = anchored(90, 30).compute_content_rect(screen());
    assert_eq!((rect.width, rect.height), (1, 1));
}

#[test]
fn set_placement_changes_the_rect() {
    let mut container = centered(10, 5);
    container.set_placement(Placement::Centered { width: 20, height: 4 });
    let rect = container.compute_content_rect(screen());
    assert_eq!((rect.width, rect.height), (20, 4));
}
