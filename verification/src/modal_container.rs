//! Placement of a modal box centred on the screen.
use vstd::prelude::*;
use ratatui::layout::{Constraint, Flex, Layout};
use crate::geometry::{layout_rect_to_clipped_rect, spec_clipped_rect, LayoutRect, Rect};

verus! {

/// The rect the renderer's layout solver gives one row band `height` rows
/// tall centred (`Flex::Center`) in `area`.
pub uninterp spec fn flex_center_rows(area: Rect, height: u16) -> Rect;

/// The rect the renderer's layout solver gives one column band `width`
/// columns wide centred (`Flex::Center`) in `area`.
pub uninterp spec fn flex_center_columns(area: Rect, width: u16) -> Rect;

/// `ratatui::layout::Layout::vertical` with one `Constraint::Length(height)`
/// and `Flex::Center`, split over `area`: its one rect. Its rows come from
/// the layout solver and are named, not stated; its source keeps the
/// area's columns (`x` and `width`) for a vertical split.
#[verifier::external_body]
fn center_rows(area: Rect, height: u16) -> (r: Rect)
    ensures
        r == flex_center_rows(area, height),
        r.x == area.x,
        r.width == area.width,
{
    let a = ratatui::layout::Rect { x: area.x, y: area.y, width: area.width, height: area.height };
    let parts = Layout::vertical([Constraint::Length(height)]).flex(Flex::Center).split(a);
    Rect { x: parts[0].x, y: parts[0].y, width: parts[0].width, height: parts[0].height }
}

/// `ratatui::layout::Layout::horizontal` with one `Constraint::Length(width)`
/// and `Flex::Center`, split over `area`: its one rect. Its columns come
/// from the layout solver and are named, not stated; its source keeps the
/// area's rows (`y` and `height`) for a horizontal split.
#[verifier::external_body]
fn center_columns(area: Rect, width: u16) -> (r: Rect)
    ensures
        r == flex_center_columns(area, width),
        r.y == area.y,
        r.height == area.height,
{
    let a = ratatui::layout::Rect { x: area.x, y: area.y, width: area.width, height: area.height };
    let parts = Layout::horizontal([Constraint::Length(width)]).flex(Flex::Center).split(a);
    Rect { x: parts[0].x, y: parts[0].y, width: parts[0].width, height: parts[0].height }
}

/// `target` clamped to `limit`, and at least one.
pub open spec fn clamp_target(target: u16, limit: u16) -> u16 {
    let t = if target < limit { target } else { limit };
    if t > 1 { t } else { 1 }
}

/// The content rect of a modal `target_width`×`target_height` on `screen`:
/// the target clamped to the (clipped) screen and to at least one cell,
/// centred by the layout solver first in rows, then in columns.
pub open spec fn spec_modal_rect(screen: LayoutRect, target_width: u16, target_height: u16) -> LayoutRect {
    let s = spec_clipped_rect(screen);
    let rows = flex_center_rows(s, clamp_target(target_height, s.height));
    let r = flex_center_columns(rows, clamp_target(target_width, s.width));
    LayoutRect { x: r.x as i32, y: r.y as i32, width: r.width, height: r.height }
}

/// The content rect of a modal box (see [`spec_modal_rect`]); painting the
/// backdrop around it and clearing it is the renderer's part.
pub fn modal_rect(screen: LayoutRect, target_width: u16, target_height: u16) -> (r: LayoutRect)
    ensures
        r == spec_modal_rect(screen, target_width, target_height),
{
    let s = layout_rect_to_clipped_rect(screen);
    let w0 = if target_width < s.width { target_width } else { s.width };
    let width = if w0 > 1 { w0 } else { 1 };
    let h0 = if target_height < s.height { target_height } else { s.height };
    let height = if h0 > 1 { h0 } else { 1 };
    let rows = center_rows(s, height);
    let r = center_columns(rows, width);
    LayoutRect { x: r.x as i32, y: r.y as i32, width: r.width, height: r.height }
}

} // verus!
