use term_wm_ui_components::component::Component;
use term_wm_ui_components::geometry::LayoutRect;
use term_wm_ui_components::grid::{
    cell_rects, grid_reflows, parse_grid_constraints, resolve_sizes, GridComponent, GridConstraint,
};

#[derive(Default)]
struct SpyChild {
    height: u16,
}

impl Component for SpyChild {
    fn desired_height(&self, _width: u16) -> u16 {
        self.height
    }
    fn spec_desired_height(&self, _width: u16) -> u16 {
        self.height
    }
    fn spec_destroys(&self, _after: &Self) -> bool {
        true
    }
    fn destroy(&mut self) {}
}

fn rect(x: i32, y: i32, w: u16, h: u16) -> LayoutRect {
    LayoutRect { x, y, width: w, height: h }
}

fn spy(height: u16) -> SpyChild {
    SpyChild { height }
}

/// The rects the grid renders its children into for `area` (cell per child).
fn child_rects(g: &GridComponent<SpyChild>, area: LayoutRect, n: usize) -> Vec<LayoutRect> {
    let cols = g.col_widths(area.width);
    let rows = g.row_heights(area.width, area.height);
    let cells = cell_rects(area, &cols, &rows);
    cells.into_iter().take(n).collect()
}

#[test]
fn resolve_sizes_fixed_and_fraction() {
    assert_eq!(
        resolve_sizes(
            100,
            &[GridConstraint::Fixed(20), GridConstraint::Fraction(1), GridConstraint::Fraction(1)]
        ),
        vec![20, 40, 40]
    );
}

#[test]
fn resolve_sizes_last_fraction_absorbs_remainder() {
    assert_eq!(
        resolve_sizes(100, &[GridConstraint::Fraction(1), GridConstraint::Fraction(2)]),
        vec![33, 67]
    );
}

#[test]
fn resolve_sizes_all_fixed() {
    assert_eq!(
        resolve_sizes(100, &[GridConstraint::Fixed(30), GridConstraint::Fixed(40)]),
        vec![30, 40]
    );
}

#[test]
fn resolve_sizes_fixed_exceeds_dim() {
    assert_eq!(
        resolve_sizes(50, &[GridConstraint::Fixed(100), GridConstraint::Fraction(1)]),
        vec![100, 0]
    );
}

#[test]
fn resolve_sizes_zero_weights_each_take_remaining() {
    assert_eq!(
        resolve_sizes(30, &[GridConstraint::Fixed(10), GridConstraint::Fraction(0), GridConstraint::Fraction(0)]),
        vec![10, 20, 20]
    );
}

#[test]
fn resolve_sizes_fills_dim_when_last_is_fraction() {
    let sizes = resolve_sizes(
        101,
        &[GridConstraint::Fraction(3), GridConstraint::Fixed(7), GridConstraint::Fraction(5)],
    );
    assert_eq!(sizes.iter().map(|s| u32::from(*s)).sum::<u32>(), 101);
    assert_eq!(sizes, vec![35, 7, 59]);
}

#[test]
fn grid_desired_height_fraction_row_stretches() {
    let g = GridComponent::<SpyChild>::new(Vec::new())
        .with_cols(vec![GridConstraint::Fraction(1)])
        .with_rows(vec![GridConstraint::Fixed(2), GridConstraint::Fraction(1)]);
    assert_eq!(g.desired_height(40), 0);
}

#[test]
fn grid_desired_height_empty_rows_stretches() {
    let g = GridComponent::<SpyChild>::new(Vec::new()).with_cols(vec![GridConstraint::Fraction(1)]);
    assert_eq!(g.desired_height(40), 0);
}

#[test]
fn grid_desired_height_all_fixed_rows_sums() {
    let g = GridComponent::<SpyChild>::new(Vec::new())
        .with_cols(vec![GridConstraint::Fraction(1)])
        .with_rows(vec![GridConstraint::Fixed(3), GridConstraint::Fixed(2)]);
    assert_eq!(g.desired_height(40), 5);
}

#[test]
fn grid_render_places_children_row_major_with_rebound_ctx() {
    let g = GridComponent::new(vec![spy(0), spy(0), spy(0), spy(0)])
        .with_cols(vec![GridConstraint::Fraction(1), GridConstraint::Fraction(1)])
        .with_rows(vec![GridConstraint::Fraction(1), GridConstraint::Fraction(1)]);
    let r = child_rects(&g, rect(0, 0, 40, 20), 4);
    assert_eq!(r[0], rect(0, 0, 20, 10));
    assert_eq!(r[1], rect(20, 0, 20, 10));
    assert_eq!(r[2], rect(0, 10, 20, 10));
    assert_eq!(r[3], rect(20, 10, 20, 10));
}

#[test]
fn grid_handle_mouse_routes_to_cell() {
    let g = GridComponent::new(vec![spy(0), spy(0)])
        .with_cols(vec![GridConstraint::Fraction(1), GridConstraint::Fraction(1)])
        .with_rows(vec![GridConstraint::Fraction(1)]);
    // Col 25 -> second cell.
    assert_eq!(g.child_at(rect(0, 0, 40, 20), 25, 5), Some(1));
    assert_eq!(g.child_at(rect(0, 0, 40, 20), 5, 5), Some(0));
    assert_eq!(g.child_at(rect(0, 0, 40, 20), 45, 5), None);
}

#[test]
fn grid_reflows_truth_table() {
    // Single column never reflows.
    assert!(!grid_reflows(&[GridConstraint::Fraction(1)], 5));
    // Fixed + Fraction needs 14 + 10 = 24 columns.
    let two = [GridConstraint::Fixed(14), GridConstraint::Fraction(1)];
    assert!(grid_reflows(&two, 23));
    assert!(!grid_reflows(&two, 24));
    // All-Fixed columns are exact.
    let fixed = [GridConstraint::Fixed(3), GridConstraint::Fixed(5)];
    assert!(grid_reflows(&fixed, 7));
    assert!(!grid_reflows(&fixed, 8));
}

#[test]
fn reflowed_grid_reports_sum_of_child_heights() {
    let g = GridComponent::new(vec![spy(1), spy(3), spy(1)])
        .with_cols(vec![GridConstraint::Fixed(14), GridConstraint::Fraction(1)])
        .with_rows(vec![GridConstraint::Fixed(3), GridConstraint::Fixed(3)]);
    // Narrow (below 24) => reflowed stack: 1 + 3 + 1 = 5.
    assert_eq!(g.desired_height(20), 5);
    // Wide (>= 24) => non-reflowed rows "3 3" = 6.
    assert_eq!(g.desired_height(30), 6);
}

#[test]
fn reflowed_grid_places_one_child_per_full_width_row() {
    let g = GridComponent::new(vec![spy(1), spy(3)])
        .with_cols(vec![GridConstraint::Fixed(14), GridConstraint::Fraction(1)])
        .with_rows(vec![GridConstraint::Fixed(3), GridConstraint::Fixed(3)]);
    let r = child_rects(&g, rect(0, 0, 20, 10), 2);
    // Reflowed: full-width rows at y=0 and y=1.
    assert_eq!(r[0], rect(0, 0, 20, 1));
    assert_eq!(r[1], rect(0, 1, 20, 3));
}

#[test]
fn reflowed_grid_stretch_child_propagates_stretch() {
    let g = GridComponent::new(vec![spy(1), spy(0)])
        .with_cols(vec![GridConstraint::Fixed(14), GridConstraint::Fraction(1)]);
    // A stretching child forces the reflowed grid to stretch.
    assert_eq!(g.desired_height(20), 0);
}

#[test]
fn reflowed_grid_gives_stretch_child_remaining_height() {
    let g = GridComponent::new(vec![spy(1), spy(0)])
        .with_cols(vec![GridConstraint::Fixed(14), GridConstraint::Fraction(1)]);
    let r = child_rects(&g, rect(0, 0, 20, 9), 2);
    // Fixed child (1) first, stretch child gets the remaining 8.
    assert_eq!(r[0], rect(0, 0, 20, 1));
    assert_eq!(r[1], rect(0, 1, 20, 8));
}

#[test]
fn render_geometry_stays_within_local_area() {
    let g = GridComponent::new(vec![spy(1), spy(3)])
        .with_cols(vec![GridConstraint::Fixed(14), GridConstraint::Fraction(1)]);
    for r in child_rects(&g, rect(0, 0, 30, 10), 2) {
        assert!(r.x >= 0 && r.x + i32::from(r.width) <= 30, "cell {r:?} must stay within the 30-col local area");
    }
}

#[test]
fn effective_rows_synthesize_one_fraction_row_per_child() {
    let g = GridComponent::new(vec![spy(1), spy(1), spy(1)])
        .with_cols(vec![GridConstraint::Fixed(10), GridConstraint::Fixed(10)]);
    assert_eq!(g.effective_rows(), vec![GridConstraint::Fraction(1); 3]);
    let two = GridComponent::new(vec![spy(1), spy(1)])
        .with_cols(vec![GridConstraint::Fraction(1), GridConstraint::Fraction(1)]);
    assert_eq!(two.effective_rows(), vec![GridConstraint::Fraction(1), GridConstraint::Fraction(1)]);
    assert_eq!(two.row_heights(40, 20), vec![10, 10]);
    let empty = GridComponent::<SpyChild>::new(Vec::new());
    assert_eq!(empty.effective_cols(), vec![GridConstraint::Fraction(1)]);
    assert_eq!(empty.effective_rows(), Vec::<GridConstraint>::new());
}

#[test]
fn resolve_sizes_last_fraction_absorbs_remainder_before_trailing_fixed() {
    let sizes = resolve_sizes(
        101,
        &[GridConstraint::Fraction(1), GridConstraint::Fraction(2), GridConstraint::Fixed(10)],
    );
    assert_eq!(sizes, vec![30, 61, 10]);
}

#[test]
fn destroy_reaches_every_child() {
    let mut g = GridComponent::new(vec![spy(1), spy(2)]);
    g.destroy();
}

#[test]
fn grid_constraints_parse_fixed_and_fraction() {
    let toks = parse_grid_constraints("200px 1fr").unwrap();
    assert_eq!(toks.len(), 2);
    assert_eq!(toks, vec![GridConstraint::Fixed(200), GridConstraint::Fraction(1)]);
}

#[test]
fn grid_constraints_reject_bad_token() {
    assert!(parse_grid_constraints("200px nonsense").is_err());
    assert!(parse_grid_constraints("").unwrap().is_empty());
}

#[test]
fn grid_constraints_messages_and_forms() {
    assert_eq!(parse_grid_constraints("  7\t+3fr  12px ").unwrap(), vec![
        GridConstraint::Fixed(7),
        GridConstraint::Fraction(3),
        GridConstraint::Fixed(12),
    ]);
    assert_eq!(parse_grid_constraints("1fr xpx 2").unwrap_err(), "invalid fixed size 'xpx' (expected like '200px')");
    assert_eq!(parse_grid_constraints("70000fr").unwrap_err(), "invalid fraction '70000fr' (expected like '1fr')");
    assert_eq!(
        parse_grid_constraints("1 -2").unwrap_err(),
        "invalid grid constraint '-2' (expected 'Npx', 'N' or 'Nfr')"
    );
    assert_eq!(parse_grid_constraints("65535px").unwrap(), vec![GridConstraint::Fixed(65535)]);
}
