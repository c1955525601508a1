//! Reusable horizontal tab bar: scrollable, drag-to-reorder, chevron overflow,
//! and per-tab close buttons.
//!
//! The host supplies an ordered list of `TabItem`s (key + label), the active
//! key and, each frame, the rect and the display width of every label; the
//! bar lays the tabs out, keeps the active (or clicked) tab in view, handles
//! its own mouse input (press/select, close glyph, drag-to-reorder, wheel and
//! edge scrolling) and emits `TabBarEvent`s.
use vstd::prelude::*;
use ratatui::style::Style;
use crate::action::{EventResult, MouseEvent, MouseEventKind};
use crate::geometry::{
    add_i32_sat, layout_rect_to_clipped_rect, rect_contains, rect_intersection, sat_add_i32, sat_add_u16,
    sat_sub, sat_sub_i32, spec_clipped_rect, spec_intersection, spec_rect_contains, sub_i32_sat, LayoutRect,
    Rect,
};
use crate::text::{str_width, truncate_with_ellipsis, truncated, unicode_str_width};

verus! {

/// The style type of the terminal renderer, carried through untouched.
#[verifier::external_type_specification]
#[verifier::external_body]
pub struct ExStyle(Style);

/// One space on each side of a tab label (`" {label} "`).
pub const ENTRY_PADDING: u16 = 2;
/// Horizontal scroll step (columns) for wheel / indicator / edge-pan scrolling.
pub const SCROLL_STEP: u16 = 8;
/// Horizontal gap (columns) between the tab viewport and each chevron.
pub const CHEVRON_GAP: u16 = 1;
/// Per-tab label cap (display columns) before ellipsis truncation.
pub const MAX_ENTRY_LABEL: u16 = 40;
/// Width (display columns) of the close affordance, `" ✕"`.
pub const CLOSE_BUTTON_WIDTH: u16 = 2;

/// A single tab: a key plus its display label.
#[derive(Debug, Clone)]
pub struct TabItem<K> {
    pub key: K,
    pub label: String,
    /// Render a close affordance (press → `TabBarEvent::Close`).
    pub closable: bool,
    /// Per-tab style override; `None` uses the theme defaults.
    pub style_override: Option<Style>,
}

/// Events emitted by [`TabBarComponent::handle_mouse`].
#[derive(Debug, Clone, PartialEq, Eq)]
pub enum TabBarEvent<K> {
    Select(K),
    Close(K),
    Reorder { key: K, target_index: usize },
}

/// An ongoing drag of a tab.
#[derive(Debug, Clone, Copy, PartialEq, Eq, Structural)]
pub struct DragState {
    pub source: usize,
    pub cursor_col: i32,
    pub grab_col: i32,
    pub drop_index: usize,
    pub moved: bool,
}

/// Hit data of a rendered tab (rebuilt each frame).
#[derive(Debug, Clone, Copy, PartialEq, Eq, Structural)]
pub struct TabHit {
    pub key: usize,
    pub rect: LayoutRect,
    pub closable: bool,
}

/// The logical placement of a tab: its key, its start column in the
/// scrollable strip and its width.
#[derive(Debug, Clone, Copy, PartialEq, Eq, Structural)]
pub struct TabGeometry {
    pub key: usize,
    pub lx: i32,
    pub width: u16,
}

/// Scrollable, drag-reorderable horizontal tab bar keyed by `usize`.
///
/// Besides the tab list and the active key, the bar keeps the geometry of
/// the last layout pass, which the mouse handlers read between frames.
pub struct TabBarComponent {
    pub items: Vec<TabItem<usize>>,
    pub active_key: Option<usize>,
    pub h_scroll: u16,
    pub drag_state: Option<DragState>,
    /// Screen column where the scrollable strip starts.
    pub entries_start_x: i32,
    /// Width of the scrollable strip.
    pub scroll_viewport_width: i32,
    pub max_scroll: u16,
    pub entry_geometry: Vec<TabGeometry>,
    pub left_indicator_rect: Option<LayoutRect>,
    pub right_indicator_rect: Option<LayoutRect>,
    pub item_hits: Vec<TabHit>,
    pub rect: LayoutRect,
    /// Auto-scroll guards: the active tab is only followed again when it,
    /// its logical bounds or the viewport width changed, so manual scrolls
    /// persist.
    pub last_auto_focus: Option<usize>,
    pub last_auto_viewport: i32,
    pub last_focused_logical_bounds: Option<(i32, i32)>,
    /// Tab clicked by the user; scrolled into view by the next layout pass
    /// that runs with no drag in progress.
    pub pending_scroll_to: Option<usize>,
}

/// The horizontal scroll that makes a tab at logical `lx` of `width` columns
/// fully visible in a viewport of `viewport_width` scrolled by `h`. Tabs
/// wider than the viewport, or clipped on the left, are left-aligned; tabs
/// clipped on the right have their right edge revealed; a visible tab keeps
/// the scroll. The result is clamped to `[0, max_scroll]`.
pub open spec fn spec_scroll_into_view(h: int, lx: int, width: int, viewport_width: int, max_scroll: int) -> int {
    let target = if width > viewport_width || lx < h {
        if lx > 0 { lx } else { 0 }
    } else if sat_add_i32(lx, width) > sat_add_i32(h, viewport_width) {
        let t = sat_add_i32(lx, width) - viewport_width;
        if t > 0 { t } else { 0 }
    } else {
        h
    };
    let m = if target < max_scroll { target } else { max_scroll };
    if m > 0 { m } else { 0 }
}

/// The text a tab shows: its label cut to forty columns (with an ellipsis)
/// between two spaces, then ` ✕` when it can be closed.
pub open spec fn spec_tab_chunk(label: Seq<char>, closable: bool) -> Seq<char> {
    let body = seq![' '] + truncated(label, 40) + seq![' '];
    if closable { body + seq![' ', '✕'] } else { body }
}

/// The text a tab shows (see [`spec_tab_chunk`]); what a render paints is
/// the slice of it that lies in the viewport.
pub fn tab_chunk(label: &str, closable: bool) -> (r: String)
    ensures
        r@ == spec_tab_chunk(label@, closable),
{
    let mut out = String::new();
    out.push(' ');
    let cut = truncate_with_ellipsis(label, 40);
    crate::text::push_str(&mut out, cut.as_str());
    out.push(' ');
    if closable {
        out.push(' ');
        out.push('✕');
    }
    proof {
        let body = seq![' '] + truncated(label@, 40) + seq![' '];
        if closable {
            assert(out@ =~= body + seq![' ', '✕']);
        } else {
            assert(out@ =~= body);
        }
    }
    out
}

/// Horizontal scroll that makes a tab fully visible (see
/// [`spec_scroll_into_view`]).
pub fn scroll_into_view_target(h: i32, lx: i32, width: i32, viewport_width: i32, max_scroll: i32) -> (r: i32)
    ensures
        r == spec_scroll_into_view(h as int, lx as int, width as int, viewport_width as int, max_scroll as int),
        0 <= r,
        max_scroll >= 0 ==> r <= max_scroll,
{
    let target: i32 = if width > viewport_width || lx < h {
        if lx > 0 { lx } else { 0 }
    } else if add_i32_sat(lx, width) > add_i32_sat(h, viewport_width) {
        let t: i64 = add_i32_sat(lx, width) as i64 - viewport_width as i64;
        if t > 0 { t as i32 } else { 0 }
    } else {
        h
    };
    let m = if target < max_scroll { target } else { max_scroll };
    if m > 0 { m } else { 0 }
}

/// The first index at or after `i` whose tab has key `key`.
pub open spec fn key_from(items: Seq<TabItem<usize>>, key: usize, i: int) -> Option<int>
    decreases items.len() - i,
{
    if i < 0 || i >= items.len() {
        None
    } else if items[i].key == key {
        Some(i)
    } else {
        key_from(items, key, i + 1)
    }
}

/// The first index whose tab has key `key`.
pub open spec fn key_position(items: Seq<TabItem<usize>>, key: usize) -> Option<int> {
    key_from(items, key, 0)
}

/// The first geometry entry at or after `i` for key `key`.
pub open spec fn geometry_from(geo: Seq<TabGeometry>, key: usize, i: int) -> Option<TabGeometry>
    decreases geo.len() - i,
{
    if i < 0 || i >= geo.len() {
        None
    } else if geo[i].key == key {
        Some(geo[i])
    } else {
        geometry_from(geo, key, i + 1)
    }
}

/// The rect of the close glyph of a hit: the rightmost columns of the tab.
pub open spec fn spec_close_rect(hit: TabHit) -> LayoutRect {
    LayoutRect {
        x: sat_add_i32(
            hit.rect.x as int,
            (if hit.rect.width >= CLOSE_BUTTON_WIDTH { hit.rect.width - CLOSE_BUTTON_WIDTH } else { 0 }) as int,
        ) as i32,
        y: hit.rect.y,
        width: CLOSE_BUTTON_WIDTH,
        height: hit.rect.height,
    }
}

/// The first hit at or after `i` that contains `(column, row)`; with
/// `close_only`, the first closable hit whose close glyph contains it.
pub open spec fn hit_from(hits: Seq<TabHit>, column: u16, row: u16, close_only: bool, i: int) -> Option<TabHit>
    decreases hits.len() - i,
{
    if i < 0 || i >= hits.len() {
        None
    } else if (close_only && hits[i].closable && spec_rect_contains(spec_close_rect(hits[i]), column as int, row as int))
        || (!close_only && spec_rect_contains(hits[i].rect, column as int, row as int)) {
        Some(hits[i])
    } else {
        hit_from(hits, column, row, close_only, i + 1)
    }
}

/// The insertion index a drag at `virtual_col` points to among the tabs
/// other than the dragged one, scanning from index `i` with `reduced` tabs
/// (excluding the source) already passed; the end when no tab lies past it.
pub open spec fn target_from(
    items: Seq<TabItem<usize>>,
    geo: Seq<TabGeometry>,
    source: Option<usize>,
    virtual_col: int,
    i: int,
    reduced: nat,
) -> nat
    decreases items.len() - i,
{
    if i < 0 || i >= items.len() {
        if items.len() == 0 { 0 } else { (items.len() - 1) as nat }
    } else if source == Some(items[i].key) {
        target_from(items, geo, source, virtual_col, i + 1, reduced)
    } else if geometry_from(geo, items[i].key, 0) matches Some(g) && virtual_col < g.lx + g.width {
        reduced
    } else {
        target_from(items, geo, source, virtual_col, i + 1, reduced + 1)
    }
}

/// `h + SCROLL_STEP` capped at `max`.
pub open spec fn scroll_right(h: u16, max: u16) -> u16 {
    let s = if h + SCROLL_STEP > u16::MAX { u16::MAX as int } else { h + SCROLL_STEP };
    (if s < max { s } else { max as int }) as u16
}

/// `h - SCROLL_STEP` floored at zero.
pub open spec fn scroll_left(h: u16) -> u16 {
    (if h >= SCROLL_STEP { h - SCROLL_STEP } else { 0 }) as u16
}

fn step_right(h: u16, max: u16) -> (r: u16)
    ensures
        r == scroll_right(h, max),
{
    let s = h.saturating_add(SCROLL_STEP);
    if s < max { s } else { max }
}

/// `h - SCROLL_STEP` floored at zero.
fn step_left(h: u16) -> (r: u16)
    ensures
        r == scroll_left(h),
{
    h.saturating_sub(SCROLL_STEP)
}

/// The display columns of a tab: its label cut to `MAX_ENTRY_LABEL`
/// columns, the padding, and the close glyph of a closable tab.
pub open spec fn entry_width(item: TabItem<usize>) -> u16 {
    let label_cols = unicode_str_width(truncated(item.label@, MAX_ENTRY_LABEL as nat)) as u16;
    let close: u16 = if item.closable { CLOSE_BUTTON_WIDTH } else { 0 };
    sat_add_u16(sat_add_u16(label_cols as int, ENTRY_PADDING as int), close as int) as u16
}

/// The logical start column of the `n`-th tab: the (saturated) sum of the
/// widths of the tabs before it.
pub open spec fn entry_x(items: Seq<TabItem<usize>>, n: int) -> int
    decreases n,
{
    if n <= 0 {
        0
    } else {
        sat_add_i32(entry_x(items, n - 1), entry_width(items[n - 1]) as int)
    }
}

/// The logical width of the whole strip.
pub open spec fn content_width(items: Seq<TabItem<usize>>) -> int {
    entry_x(items, items.len() as int)
}

/// The placement of every tab, in list order.
pub open spec fn spec_geometry(items: Seq<TabItem<usize>>) -> Seq<TabGeometry> {
    Seq::new(
        items.len(),
        |i: int| TabGeometry { key: items[i].key, lx: entry_x(items, i) as i32, width: entry_width(items[i]) },
    )
}

proof fn lemma_entry_x_range(items: Seq<TabItem<usize>>, n: int)
    ensures
        0 <= entry_x(items, n) <= i32::MAX,
    decreases n,
{
    if n > 0 {
        lemma_entry_x_range(items, n - 1);
    }
}

fn entry_width_of(item: &TabItem<usize>) -> (w: u16)
    ensures
        w == entry_width(*item),
{
    let label = truncate_with_ellipsis(item.label.as_str(), MAX_ENTRY_LABEL as usize);
    let cols = str_width(label.as_str()) as u16;
    let close: u16 = if item.closable { CLOSE_BUTTON_WIDTH } else { 0 };
    cols.saturating_add(ENTRY_PADDING).saturating_add(close)
}

/// Measure every tab: its placement in the strip and the strip's width.
fn measure_entries(items: &Vec<TabItem<usize>>) -> (r: (Vec<TabGeometry>, i32))
    ensures
        r.0@ == spec_geometry(items@),
        r.1 == content_width(items@),
{
    let mut geo: Vec<TabGeometry> = Vec::new();
    let mut x: i32 = 0;
    let mut i: usize = 0;
    while i < items.len()
        invariant
            i <= items@.len(),
            geo@.len() == i,
            x == entry_x(items@, i as int),
            forall|j: int| 0 <= j < i ==> #[trigger] geo@[j] == spec_geometry(items@)[j],
        decreases items@.len() - i,
    {
        let w = entry_width_of(&items[i]);
        geo.push(TabGeometry { key: items[i].key, lx: x, width: w });
        x = add_i32_sat(x, w as i32);
        i = i + 1;
    }
    proof {
        assert(geo@ =~= spec_geometry(items@));
    }
    (geo, x)
}

/// The scroll geometry of one layout pass.
#[derive(Debug, Clone, Copy, PartialEq, Eq, Structural)]
pub struct TabFrame {
    pub content_width: i32,
    /// The tabs do not fit: chevrons and gaps are shown.
    pub overflow: bool,
    pub viewport_width: i32,
    pub entries_start_x: i32,
    pub max_scroll: u16,
}

/// The scroll geometry for a strip of `content` columns in `rect`: on
/// overflow a chevron and a gap are taken from each side of the viewport,
/// and the strip starts after the left ones.
pub open spec fn spec_frame(content: int, rect: LayoutRect) -> TabFrame {
    let overflow = content > rect.width;
    let viewport = if overflow { sat_sub_i32(rect.width as int, 2 + 2 * CHEVRON_GAP) } else { rect.width as int };
    let start = if overflow { sat_add_i32(rect.x as int, 1 + CHEVRON_GAP) } else { rect.x as int };
    let d = sat_sub_i32(content, viewport);
    TabFrame {
        content_width: content as i32,
        overflow,
        viewport_width: viewport as i32,
        entries_start_x: start as i32,
        max_scroll: (if d > 0 { d } else { 0 }) as u16,
    }
}

/// The scroll geometry for a strip of `content` columns in `rect` (see
/// [`spec_frame`]).
pub fn frame_for(content: i32, rect: LayoutRect) -> (f: TabFrame)
    ensures
        f == spec_frame(content as int, rect),
{
    let max_entries_width = rect.width as i32;
    let overflow = content > max_entries_width;
    let viewport = if overflow {
        sub_i32_sat(max_entries_width, (2 + 2 * CHEVRON_GAP) as i32)
    } else {
        max_entries_width
    };
    let start = if overflow { add_i32_sat(rect.x, (1 + CHEVRON_GAP) as i32) } else { rect.x };
    let d = sub_i32_sat(content, viewport);
    TabFrame {
        content_width: content,
        overflow,
        viewport_width: viewport,
        entries_start_x: start,
        max_scroll: (if d > 0 { d } else { 0 }) as u16,
    }
}

/// The last index below `n` whose tab has key `key`.
pub open spec fn last_key_index(items: Seq<TabItem<usize>>, key: usize, n: int) -> Option<int>
    decreases n,
{
    if n <= 0 {
        None
    } else if items[n - 1].key == key {
        Some(n - 1)
    } else {
        last_key_index(items, key, n - 1)
    }
}

/// The placement of the active tab (the last one with the active key).
pub open spec fn focused_geometry(items: Seq<TabItem<usize>>, active: Option<usize>) -> Option<TabGeometry> {
    match active {
        None => None,
        Some(a) => match last_key_index(items, a, items.len() as int) {
            Some(i) => Some(spec_geometry(items)[i]),
            None => None,
        },
    }
}

/// The logical bounds `(start, width)` of a placement.
pub open spec fn bounds_of(g: Option<TabGeometry>) -> Option<(i32, i32)> {
    match g {
        Some(g) => Some((g.lx, g.width as i32)),
        None => None,
    }
}

/// The scroll that brings `g` into view from `h` within `frame`.
pub open spec fn reveal_tab(h: u16, g: TabGeometry, frame: TabFrame) -> u16 {
    spec_scroll_into_view(h as int, g.lx as int, g.width as int, frame.viewport_width as int, frame.max_scroll as int) as u16
}

/// The frame a layout pass of `c` in `rect` computes.
pub open spec fn frame_of(c: TabBarComponent, rect: LayoutRect) -> TabFrame {
    spec_frame(content_width(c.items@), rect)
}

/// The scroll after a layout pass with geometry `frame`: clamped to the new
/// maximum, then, with no drag in progress, following the active tab when
/// it, its bounds or the viewport changed, then revealing the tab clicked
/// last.
pub open spec fn followed_scroll_in(c: TabBarComponent, frame: TabFrame) -> u16 {
    let h1 = if c.h_scroll < frame.max_scroll { c.h_scroll } else { frame.max_scroll };
    let focused = focused_geometry(c.items@, c.active_key);
    let auto = c.last_auto_focus != c.active_key || c.last_auto_viewport != frame.viewport_width
        || c.last_focused_logical_bounds != bounds_of(focused);
    let h2 = if c.drag_state is None && auto && focused is Some { reveal_tab(h1, focused.unwrap(), frame) } else { h1 };
    if c.drag_state is None && c.pending_scroll_to is Some {
        match geometry_from(spec_geometry(c.items@), c.pending_scroll_to.unwrap(), 0) {
            Some(g) => reveal_tab(h2, g, frame),
            None => h2,
        }
    } else {
        h2
    }
}

/// The scroll after a layout pass of `c` in `rect`.
pub open spec fn followed_scroll(c: TabBarComponent, rect: LayoutRect) -> u16 {
    followed_scroll_in(c, frame_of(c, rect))
}


/// What a layout pass in `rect` leaves for the next one: it recorded the
/// active tab it followed, the viewport width and that tab's bounds.
pub open spec fn followed_last(c: TabBarComponent, rect: LayoutRect) -> bool {
    &&& c.last_auto_focus == c.active_key
    &&& c.last_auto_viewport == frame_of(c, rect).viewport_width
    &&& c.last_focused_logical_bounds == bounds_of(focused_geometry(c.items@, c.active_key))
}

/// A manual scroll persists: after a layout pass in `rect` (with no tab
/// queued to reveal), scrolling to `s` and laying out in the same rect again
/// keeps `s`, clamped to the maximum scroll, instead of scrolling back to
/// the active tab. Once the active tab changes to another listed tab (no
/// drag in progress), the next pass scrolls to reveal it instead.
pub proof fn lemma_manual_scroll_persists(c: TabBarComponent, rect: LayoutRect, s: u16, next_active: usize)
    requires
        followed_last(c, rect),
        c.pending_scroll_to is None,
    ensures
        ({
            let f = frame_of(c, rect);
            followed_scroll(TabBarComponent { h_scroll: s, ..c }, rect) == (if s < f.max_scroll {
                s
            } else {
                f.max_scroll
            })
        }),
        ({
            let c2 = TabBarComponent { h_scroll: s, active_key: Some(next_active), ..c };
            let f = frame_of(c2, rect);
            let h1 = if s < f.max_scroll { s } else { f.max_scroll };
            c.drag_state is None && c.active_key != Some(next_active) && focused_geometry(c.items@, Some(next_active))
                is Some ==> followed_scroll(c2, rect) == reveal_tab(
                h1,
                focused_geometry(c.items@, Some(next_active)).unwrap(),
                f,
            )
        }),
{
}

/// What a tab contributes to a frame: its hit rect and the first display
/// column of its text that is visible.
#[derive(Debug, Clone, Copy, PartialEq, Eq, Structural)]
pub struct TabPaint {
    pub hit: TabHit,
    pub slice_start: usize,
}

/// The paint of the placement `g` scrolled by `h`: `None` when it is being
/// dragged (drawn as a ghost) or lies wholly outside the viewport; else the
/// visible part, clipped to the viewport, at row `y`.
pub open spec fn spec_tab_paint(
    items: Seq<TabItem<usize>>,
    g: TabGeometry,
    frame: TabFrame,
    h: u16,
    y: i32,
    drag: Option<DragState>,
) -> Option<TabPaint> {
    let dragging = match drag {
        Some(s) => s.source == g.key && s.moved,
        None => false,
    };
    let vp_x = sat_sub_i32(g.lx as int, h as int);
    let vp_end = sat_add_i32(vp_x, g.width as int);
    if dragging || vp_end <= 0 || vp_x >= frame.viewport_width {
        None
    } else {
        let left = if vp_x > 0 { vp_x } else { 0 };
        let right = if (frame.viewport_width as int) < vp_end { frame.viewport_width as int } else { vp_end };
        let closable = match key_position(items, g.key) {
            Some(ix) => items[ix].closable,
            None => false,
        };
        Some(TabPaint {
            hit: TabHit {
                key: g.key,
                rect: LayoutRect {
                    x: sat_add_i32(frame.entries_start_x as int, left) as i32,
                    y,
                    width: (right - left) as u16,
                    height: 1,
                },
                closable,
            },
            slice_start: (if vp_x < 0 { -vp_x } else { 0 }) as usize,
        })
    }
}

/// The paints of the first `n` placements, in order.
pub open spec fn spec_paints(
    items: Seq<TabItem<usize>>,
    geo: Seq<TabGeometry>,
    n: int,
    frame: TabFrame,
    h: u16,
    y: i32,
    drag: Option<DragState>,
) -> Seq<TabPaint>
    decreases n,
{
    if n <= 0 {
        seq![]
    } else {
        let before = spec_paints(items, geo, n - 1, frame, h, y, drag);
        match spec_tab_paint(items, geo[n - 1], frame, h, y, drag) {
            Some(p) => before.push(p),
            None => before,
        }
    }
}

/// The hits of a run of paints.
pub open spec fn hits_of(paints: Seq<TabPaint>) -> Seq<TabHit> {
    paints.map_values(|p: TabPaint| p.hit)
}

/// The paints of every tab of `c` in a layout pass in `rect`.
pub open spec fn frame_paints(c: TabBarComponent, rect: LayoutRect) -> Seq<TabPaint> {
    spec_paints(
        c.items@,
        spec_geometry(c.items@),
        c.items@.len() as int,
        frame_of(c, rect),
        followed_scroll(c, rect),
        rect.y,
        c.drag_state,
    )
}

/// The width of the placement of `key` (zero when there is none).
pub open spec fn width_of_key(geo: Seq<TabGeometry>, key: usize) -> int {
    match geometry_from(geo, key, 0) {
        Some(g) => g.width as int,
        None => 0,
    }
}

/// The ghost of the dragged tab once the cursor moved: the tab glides with
/// the cursor (keeping its grab offset), held inside the viewport.
pub open spec fn spec_ghost(items: Seq<TabItem<usize>>, frame: TabFrame, y: i32, drag: Option<DragState>) -> Option<TabPaint> {
    match drag {
        Some(s) if s.moved => {
            let dw = width_of_key(spec_geometry(items), s.source);
            let vp_start = frame.entries_start_x as int;
            let far = vp_start + frame.viewport_width - dw;
            let max_thumb = if far > vp_start { far } else { vp_start };
            let thumb = clamp_to(s.cursor_col - s.grab_col, vp_start, max_thumb);
            let gv_x = thumb - vp_start;
            let gv_end = gv_x + dw;
            if gv_end > 0 && gv_x < frame.viewport_width {
                let right = if (frame.viewport_width as int) < gv_end { frame.viewport_width as int } else { gv_end };
                let closable = match key_position(items, s.source) {
                    Some(ix) => items[ix].closable,
                    None => false,
                };
                Some(TabPaint {
                    hit: TabHit {
                        key: s.source,
                        rect: LayoutRect { x: sat_add_i32(vp_start, gv_x) as i32, y, width: (right - gv_x) as u16, height: 1 },
                        closable,
                    },
                    slice_start: 0,
                })
            } else {
                None
            }
        },
        _ => None,
    }
}

/// `v` clamped into `[lo, hi]`.
pub open spec fn clamp_to(v: int, lo: int, hi: int) -> int {
    if v < lo { lo } else if v > hi { hi } else { v }
}

/// The logical column of the gap before the `drop_index`-th tab other than
/// `source`, scanning from placement `i` with `acc` columns and `reduced`
/// such tabs passed; `None` when the list ends first.
pub open spec fn gap_from(geo: Seq<TabGeometry>, source: usize, drop_index: usize, i: int, acc: int, reduced: int) -> Option<int>
    decreases geo.len() - i,
{
    if i < 0 || i >= geo.len() {
        None
    } else if geo[i].key == source {
        gap_from(geo, source, drop_index, i + 1, acc, reduced)
    } else if reduced == drop_index {
        Some(acc)
    } else {
        gap_from(geo, source, drop_index, i + 1, sat_add_i32(acc, geo[i].width as int), reduced + 1)
    }
}

/// The screen column of the drop indicator while a tab is dragged: the gap
/// at the drop index among the other tabs (the end of the strip without the
/// dragged tab when the index is past them), when it is in view.
pub open spec fn spec_drop_x(items: Seq<TabItem<usize>>, frame: TabFrame, h: u16, drag: Option<DragState>) -> Option<i32> {
    match drag {
        Some(s) if s.moved => {
            let geo = spec_geometry(items);
            let gap = match gap_from(geo, s.source, s.drop_index, 0, 0, 0) {
                Some(a) => a,
                None => sat_sub_i32(frame.content_width as int, width_of_key(geo, s.source)),
            };
            let vp_gap = sat_sub_i32(gap, h as int);
            if 0 <= vp_gap < frame.viewport_width {
                Some(sat_add_i32(frame.entries_start_x as int, vp_gap) as i32)
            } else {
                None
            }
        },
        _ => None,
    }
}

/// The left chevron: shown on overflow when the strip is scrolled.
pub open spec fn spec_left_chevron(frame: TabFrame, rect: LayoutRect, h: u16) -> Option<LayoutRect> {
    if frame.overflow && h > 0 {
        Some(LayoutRect { x: rect.x, y: rect.y, width: 1, height: 1 })
    } else {
        None
    }
}

/// The right chevron: shown on overflow when the strip can scroll further.
pub open spec fn spec_right_chevron(frame: TabFrame, rect: LayoutRect, h: u16) -> Option<LayoutRect> {
    if frame.overflow && h < frame.max_scroll {
        Some(LayoutRect {
            x: sat_add_i32(rect.x as int, sat_sub(rect.width as int, 1)) as i32,
            y: rect.y,
            width: 1,
            height: 1,
        })
    } else {
        None
    }
}

/// Whether a layout pass in `rect` on a screen of `screen` draws anything.
pub open spec fn drawable(rect: LayoutRect, screen: Rect) -> bool {
    let b = spec_intersection(spec_clipped_rect(rect), screen);
    rect.width > 0 && rect.height > 0 && b.width > 0 && b.height > 0
}

/// A moved drag whose source tab has left the list would still show its
/// ghost in `frame`: the one case a layout pass cannot paint.
pub open spec fn ghost_of_unlisted_tab(items: Seq<TabItem<usize>>, frame: TabFrame, drag: Option<DragState>) -> bool {
    match drag {
        Some(s) => s.moved && key_position(items, s.source) is None && spec_ghost(items, frame, 0, drag) is Some,
        None => false,
    }
}

/// What a layout pass hands to the painter: the visible tabs in order, the
/// ghost of a dragged tab, and the column of the drop indicator.
pub struct TabLayout {
    pub tabs: Vec<TabPaint>,
    pub drag_ghost: Option<TabPaint>,
    pub drop_x: Option<i32>,
}

fn opt_key_eq(a: Option<usize>, b: Option<usize>) -> (r: bool)
    ensures
        r == (a == b),
{
    match (a, b) {
        (Some(x), Some(y)) => x == y,
        (None, None) => true,
        _ => false,
    }
}

fn opt_bounds_eq(a: Option<(i32, i32)>, b: Option<(i32, i32)>) -> (r: bool)
    ensures
        r == (a == b),
{
    match (a, b) {
        (Some(x), Some(y)) => x.0 == y.0 && x.1 == y.1,
        (None, None) => true,
        _ => false,
    }
}

/// The first index of `key` in `items`.
fn position_of(items: &Vec<TabItem<usize>>, key: usize) -> (r: Option<usize>)
    ensures
        r matches Some(i) ==> i < items@.len(),
        match r {
            Some(i) => key_position(items@, key) == Some(i as int),
            None => key_position(items@, key) is None,
        },
{
    let mut i: usize = 0;
    while i < items.len()
        invariant
            i <= items@.len(),
            key_position(items@, key) == key_from(items@, key, i as int),
        decreases items@.len() - i,
    {
        if items[i].key == key {
            return Some(i);
        }
        i = i + 1;
    }
    None
}

/// The first placement of `key` in `geo`.
fn find_geometry(geo: &Vec<TabGeometry>, key: usize) -> (r: Option<TabGeometry>)
    ensures
        r == geometry_from(geo@, key, 0),
{
    let mut i: usize = 0;
    while i < geo.len()
        invariant
            i <= geo@.len(),
            geometry_from(geo@, key, 0) == geometry_from(geo@, key, i as int),
        decreases geo@.len() - i,
    {
        if geo[i].key == key {
            return Some(geo[i]);
        }
        i = i + 1;
    }
    None
}

/// The last placement whose key is `key`.
fn last_geometry(geo: &Vec<TabGeometry>, items: Ghost<Seq<TabItem<usize>>>, key: usize) -> (r: Option<TabGeometry>)
    requires
        geo@ == spec_geometry(items@),
    ensures
        r == (match last_key_index(items@, key, items@.len() as int) {
            Some(i) => Some(spec_geometry(items@)[i]),
            None => None,
        }),
{
    let mut n: usize = geo.len();
    while n > 0
        invariant
            n <= geo@.len(),
            geo@ == spec_geometry(items@),
            last_key_index(items@, key, items@.len() as int) == last_key_index(items@, key, n as int),
        decreases n,
    {
        if geo[n - 1].key == key {
            return Some(geo[n - 1]);
        }
        n = n - 1;
    }
    None
}

proof fn lemma_key_from_found(items: Seq<TabItem<usize>>, key: usize, i: int, j: int)
    requires
        0 <= i <= j < items.len(),
        items[j].key == key,
    ensures
        key_from(items, key, i) matches Some(p) && i <= p <= j && items[p].key == key,
    decreases j - i,
{
    if items[i].key != key {
        lemma_key_from_found(items, key, i + 1, j);
    }
}

proof fn lemma_key_from_bounds(items: Seq<TabItem<usize>>, key: usize, i: int)
    ensures
        key_from(items, key, i) matches Some(p) ==> 0 <= p < items.len() && items[p].key == key,
    decreases items.len() - i,
{
    if 0 <= i < items.len() && items[i].key != key {
        lemma_key_from_bounds(items, key, i + 1);
    }
}

proof fn lemma_geometry_from_member(geo: Seq<TabGeometry>, key: usize, i: int)
    ensures
        geometry_from(geo, key, i) matches Some(g) ==> exists|j: int| 0 <= j < geo.len() && #[trigger] geo[j] == g,
    decreases geo.len() - i,
{
    if 0 <= i < geo.len() && geo[i].key != key {
        lemma_geometry_from_member(geo, key, i + 1);
    }
}

proof fn lemma_last_key_bounds(items: Seq<TabItem<usize>>, key: usize, n: int)
    requires
        n <= items.len(),
    ensures
        last_key_index(items, key, n) matches Some(i) ==> 0 <= i < n,
    decreases n,
{
    if n > 0 {
        lemma_last_key_bounds(items, key, n - 1);
    }
}



/// The source of a drag, if any.
pub open spec fn drag_source(drag: Option<DragState>) -> Option<usize> {
    match drag {
        Some(s) => Some(s.source),
        None => None,
    }
}

/// Whether `(column, row)` falls on the chevron `r`.
pub open spec fn on_chevron(r: Option<LayoutRect>, column: u16, row: u16) -> bool {
    r matches Some(rect) && spec_rect_contains(rect, column as int, row as int)
}

/// The active key kept by a new tab list: the old one when a tab still has
/// it, else none.
pub open spec fn kept_active(active: Option<usize>, items: Seq<TabItem<usize>>) -> Option<usize> {
    match active {
        Some(a) => if key_position(items, a) is Some { Some(a) } else { None },
        None => None,
    }
}

/// The index of `key` in `items`, zero when absent.
pub open spec fn index_or_zero(items: Seq<TabItem<usize>>, key: usize) -> usize {
    match key_position(items, key) {
        Some(i) => i as usize,
        None => 0,
    }
}

/// The scroll after a drag to `column`: nudged a step when the cursor
/// reaches either edge of the viewport.
pub open spec fn drag_scroll(c: TabBarComponent, column: u16) -> u16 {
    if column <= c.entries_start_x {
        scroll_left(c.h_scroll)
    } else if column >= c.entries_start_x + c.scroll_viewport_width {
        scroll_right(c.h_scroll, c.max_scroll)
    } else {
        c.h_scroll
    }
}

/// The drop index of a drag to `column` once the scroll is `h`.
pub open spec fn drag_target(c: TabBarComponent, column: u16, h: u16) -> usize {
    target_from(c.items@, c.entry_geometry@, drag_source(c.drag_state), column - c.entries_start_x + h, 0, 0) as usize
}

proof fn lemma_hit_from_contains(hits: Seq<TabHit>, column: u16, row: u16, i: int)
    ensures
        hit_from(hits, column, row, false, i) matches Some(h) ==> spec_rect_contains(h.rect, column as int, row as int),
    decreases hits.len() - i,
{
    if 0 <= i < hits.len() && !spec_rect_contains(hits[i].rect, column as int, row as int) {
        lemma_hit_from_contains(hits, column, row, i + 1);
    }
}

proof fn lemma_target_from_bound(
    items: Seq<TabItem<usize>>,
    geo: Seq<TabGeometry>,
    source: Option<usize>,
    virtual_col: int,
    i: int,
    reduced: nat,
)
    requires
        0 <= i,
        reduced <= i,
    ensures
        target_from(items, geo, source, virtual_col, i, reduced) <= items.len(),
    decreases items.len() - i,
{
    if i < items.len() {
        if source == Some(items[i].key) {
            lemma_target_from_bound(items, geo, source, virtual_col, i + 1, reduced);
        } else if geometry_from(geo, items[i].key, 0) matches Some(g) && virtual_col < g.lx + g.width {
        } else {
            lemma_target_from_bound(items, geo, source, virtual_col, i + 1, reduced + 1);
        }
    }
}

/// What a press at a cell of the bar lands on, in order of precedence.
pub enum PressTarget {
    LeftChevron,
    RightChevron,
    CloseGlyph(TabHit),
    Tab(TabHit),
    Nothing,
}

/// What a press at `(column, row)` lands on: a chevron, then a close
/// glyph, then a tab.
pub open spec fn press_target(c: TabBarComponent, column: u16, row: u16) -> PressTarget {
    if on_chevron(c.left_indicator_rect, column, row) {
        PressTarget::LeftChevron
    } else if on_chevron(c.right_indicator_rect, column, row) {
        PressTarget::RightChevron
    } else if hit_from(c.item_hits@, column, row, true, 0) is Some {
        PressTarget::CloseGlyph(hit_from(c.item_hits@, column, row, true, 0).unwrap())
    } else if hit_from(c.item_hits@, column, row, false, 0) is Some {
        PressTarget::Tab(hit_from(c.item_hits@, column, row, false, 0).unwrap())
    } else {
        PressTarget::Nothing
    }
}

/// The bar and the answer after a press at `(column, row)`: a chevron
/// scrolls a step, a close glyph asks to close its tab (and drops any
/// drag), a tab is selected, arms a drag and is queued to be revealed by
/// the next layout pass; a press elsewhere is ignored.
pub open spec fn after_press(c: TabBarComponent, column: u16, row: u16) -> (TabBarComponent, EventResult<TabBarEvent<usize>>) {
    match press_target(c, column, row) {
        PressTarget::LeftChevron => (TabBarComponent { h_scroll: scroll_left(c.h_scroll), ..c }, EventResult::Consumed),
        PressTarget::RightChevron => (
            TabBarComponent { h_scroll: scroll_right(c.h_scroll, c.max_scroll), ..c },
            EventResult::Consumed,
        ),
        PressTarget::CloseGlyph(h) => (
            TabBarComponent { drag_state: None, ..c },
            EventResult::Action(TabBarEvent::Close(h.key)),
        ),
        PressTarget::Tab(h) => (
            TabBarComponent {
                pending_scroll_to: Some(h.key),
                drag_state: Some(DragState {
                    source: h.key,
                    cursor_col: column as i32,
                    grab_col: (column - h.rect.x) as i32,
                    drop_index: index_or_zero(c.items@, h.key),
                    moved: false,
                }),
                ..c
            },
            EventResult::Action(TabBarEvent::Select(h.key)),
        ),
        PressTarget::Nothing => (c, EventResult::Ignored),
    }
}

/// The bar after a drag to `column`: with a drag in progress, the strip
/// pans at the viewport edges and the drag records the cursor and the drop
/// index under it; the event is always consumed.
pub open spec fn after_drag(c: TabBarComponent, column: u16) -> (TabBarComponent, EventResult<TabBarEvent<usize>>) {
    match c.drag_state {
        Some(s) => (
            TabBarComponent {
                h_scroll: drag_scroll(c, column),
                drag_state: Some(DragState {
                    moved: true,
                    cursor_col: column as i32,
                    drop_index: drag_target(c, column, drag_scroll(c, column)),
                    ..s
                }),
                ..c
            },
            EventResult::Consumed,
        ),
        None => (c, EventResult::Consumed),
    }
}

/// The bar and the answer after a release: the drag ends, and a tab that
/// was dragged to another index is reordered there.
pub open spec fn after_release(c: TabBarComponent) -> (TabBarComponent, EventResult<TabBarEvent<usize>>) {
    (
        TabBarComponent { drag_state: None, ..c },
        match c.drag_state {
            Some(s) => if s.moved && key_position(c.items@, s.source) != Some(s.drop_index as int) {
                EventResult::Action(TabBarEvent::Reorder { key: s.source, target_index: s.drop_index })
            } else {
                EventResult::Consumed
            },
            None => EventResult::Consumed,
        },
    )
}

/// The bar after a wheel event: a horizontal one scrolls a step; the event
/// is consumed.
pub open spec fn after_scroll(c: TabBarComponent, kind: MouseEventKind) -> (TabBarComponent, EventResult<TabBarEvent<usize>>) {
    match kind {
        MouseEventKind::ScrollLeft => (TabBarComponent { h_scroll: scroll_left(c.h_scroll), ..c }, EventResult::Consumed),
        MouseEventKind::ScrollRight => (
            TabBarComponent { h_scroll: scroll_right(c.h_scroll, c.max_scroll), ..c },
            EventResult::Consumed,
        ),
        _ => (c, EventResult::Consumed),
    }
}

/// The bar and the answer after any mouse event: presses, drags, releases
/// and horizontal wheel events go to their handlers; the rest is consumed
/// with nothing changed.
pub open spec fn after_mouse(c: TabBarComponent, mouse: MouseEvent) -> (TabBarComponent, EventResult<TabBarEvent<usize>>) {
    match mouse.kind {
        MouseEventKind::Press(_) => after_press(c, mouse.column, mouse.row),
        MouseEventKind::Drag(_) => after_drag(c, mouse.column),
        MouseEventKind::Release(_) => after_release(c),
        MouseEventKind::ScrollLeft | MouseEventKind::ScrollRight => after_scroll(c, mouse.kind),
        _ => (c, EventResult::Consumed),
    }
}

/// A horizontal wheel scrolls the strip by eight columns and is consumed:
/// to the left down to zero at most, to the right up to the maximum scroll
/// at most; nothing else about the bar changes. So a wheel to the left
/// always moves a scrolled strip back, and one to the right moves it on
/// until the maximum.
pub proof fn lemma_wheel_scrolls_strip(c: TabBarComponent, column: u16, row: u16)
    ensures
        ({
            let (after, r) = after_mouse(c, MouseEvent { kind: MouseEventKind::ScrollLeft, column, row });
            &&& r == EventResult::<TabBarEvent<usize>>::Consumed
            &&& after.h_scroll == (if c.h_scroll >= 8 { c.h_scroll - 8 } else { 0 })
            &&& c.h_scroll > 0 ==> after.h_scroll < c.h_scroll
            &&& after == (TabBarComponent { h_scroll: after.h_scroll, ..c })
        }),
        ({
            let (after, r) = after_mouse(c, MouseEvent { kind: MouseEventKind::ScrollRight, column, row });
            let ahead = if c.h_scroll + 8 > u16::MAX { u16::MAX as int } else { c.h_scroll + 8 };
            &&& r == EventResult::<TabBarEvent<usize>>::Consumed
            &&& after.h_scroll == (if ahead < c.max_scroll { ahead } else { c.max_scroll as int })
            &&& c.h_scroll < c.max_scroll ==> after.h_scroll > c.h_scroll
            &&& after == (TabBarComponent { h_scroll: after.h_scroll, ..c })
        }),
{
}

fn close_rect(hit: TabHit) -> (r: LayoutRect)
    ensures
        r == spec_close_rect(hit),
{
    LayoutRect {
        x: add_i32_sat(hit.rect.x, hit.rect.width.saturating_sub(CLOSE_BUTTON_WIDTH) as i32),
        y: hit.rect.y,
        width: CLOSE_BUTTON_WIDTH,
        height: hit.rect.height,
    }
}

impl TabBarComponent {
    /// An empty bar.
    pub fn new() -> (r: Self)
        ensures
            r.items@.len() == 0,
            r.active_key is None,
            r.h_scroll == 0,
            r.drag_state is None,
            r.entries_start_x == 0,
            r.scroll_viewport_width == 0,
            r.max_scroll == 0,
            r.entry_geometry@.len() == 0,
            r.left_indicator_rect is None,
            r.right_indicator_rect is None,
            r.item_hits@.len() == 0,
            r.rect == (LayoutRect { x: 0, y: 0, width: 0, height: 0 }),
            r.last_auto_focus is None,
            r.last_auto_viewport == 0,
            r.last_focused_logical_bounds is None,
            r.pending_scroll_to is None,
    {
        TabBarComponent {
            items: Vec::new(),
            active_key: None,
            h_scroll: 0,
            drag_state: None,
            entries_start_x: 0,
            scroll_viewport_width: 0,
            max_scroll: 0,
            entry_geometry: Vec::new(),
            left_indicator_rect: None,
            right_indicator_rect: None,
            item_hits: Vec::new(),
            rect: LayoutRect { x: 0, y: 0, width: 0, height: 0 },
            last_auto_focus: None,
            last_auto_viewport: 0,
            last_focused_logical_bounds: None,
            pending_scroll_to: None,
        }
    }

    /// Forget the hits and chevrons of the previous frame.
    pub fn begin_frame(&mut self)
        ensures
            *final(self) == (TabBarComponent {
                item_hits: final(self).item_hits,
                left_indicator_rect: None,
                right_indicator_rect: None,
                ..*old(self)
            }),
            final(self).item_hits@.len() == 0,
    {
        self.item_hits.clear();
        self.left_indicator_rect = None;
        self.right_indicator_rect = None;
    }

    /// Drop any drag in progress.
    pub fn clear_drag_state(&mut self)
        ensures
            *final(self) == (TabBarComponent { drag_state: None, ..*old(self) }),
    {
        self.drag_state = None;
    }

    /// Replace the ordered tab list. The active key is kept if a tab still
    /// has it.
    pub fn set_items(&mut self, items: Vec<TabItem<usize>>)
        ensures
            *final(self) == (TabBarComponent {
                items: items,
                active_key: kept_active(old(self).active_key, items@),
                ..*old(self)
            }),
    {
        let kept = match self.active_key {
            Some(a) => match position_of(&items, a) {
                Some(_) => Some(a),
                None => None,
            },
            None => None,
        };
        self.active_key = kept;
        self.items = items;
    }

    /// Set (or clear) the active tab.
    pub fn set_active(&mut self, key: Option<usize>)
        ensures
            *final(self) == (TabBarComponent { active_key: key, ..*old(self) }),
    {
        self.active_key = key;
    }

    /// The active tab's key.
    pub fn active(&self) -> (r: Option<usize>)
        ensures
            r == self.active_key,
    {
        self.active_key
    }

    /// The tabs, in order.
    pub fn items(&self) -> (r: &[TabItem<usize>])
        ensures
            r@ == self.items@,
    {
        self.items.as_slice()
    }

    /// The first hit of the last frame containing `(column, row)`; with
    /// `close_only`, the first closable hit whose close glyph contains it.
    fn find_hit(&self, column: u16, row: u16, close_only: bool) -> (r: Option<TabHit>)
        ensures
            r == hit_from(self.item_hits@, column, row, close_only, 0),
    {
        let mut i: usize = 0;
        while i < self.item_hits.len()
            invariant
                i <= self.item_hits@.len(),
                hit_from(self.item_hits@, column, row, close_only, 0) == hit_from(
                    self.item_hits@,
                    column,
                    row,
                    close_only,
                    i as int,
                ),
            decreases self.item_hits@.len() - i,
        {
            let hit = self.item_hits[i];
            let matched = if close_only {
                hit.closable && rect_contains(close_rect(hit), column, row)
            } else {
                rect_contains(hit.rect, column, row)
            };
            if matched {
                return Some(hit);
            }
            i = i + 1;
        }
        None
    }

    /// Hit-test a tab by screen coordinates.
    pub fn hit_test(&self, column: u16, row: u16) -> (r: Option<usize>)
        ensures
            r == (match hit_from(self.item_hits@, column, row, false, 0) {
                Some(h) => Some(h.key),
                None => None,
            }),
    {
        match self.find_hit(column, row, false) {
            Some(h) => Some(h.key),
            None => None,
        }
    }

    /// Insertion index for `virtual_col` in the list without the dragged
    /// tab, defaulting to the end.
    fn target_index(&self, virtual_col: i64) -> (r: usize)
        ensures
            r == target_from(self.items@, self.entry_geometry@, drag_source(self.drag_state), virtual_col as int, 0, 0),
    {
        let source: Option<usize> = match self.drag_state {
            Some(s) => Some(s.source),
            None => None,
        };
        let mut reduced: usize = 0;
        let mut i: usize = 0;
        while i < self.items.len()
            invariant
                i <= self.items@.len(),
                reduced <= i,
                source == drag_source(self.drag_state),
                target_from(self.items@, self.entry_geometry@, source, virtual_col as int, 0, 0) == target_from(
                    self.items@,
                    self.entry_geometry@,
                    source,
                    virtual_col as int,
                    i as int,
                    reduced as nat,
                ),
            decreases self.items@.len() - i,
        {
            let key = self.items[i].key;
            let is_source = match source {
                Some(s) => s == key,
                None => false,
            };
            if !is_source {
                match find_geometry(&self.entry_geometry, key) {
                    Some(g) => {
                        if virtual_col < g.lx as i64 + g.width as i64 {
                            return reduced;
                        }
                    },
                    None => {},
                }
                reduced = reduced + 1;
            }
            i = i + 1;
        }
        if self.items.len() == 0 {
            0
        } else {
            self.items.len() - 1
        }
    }

    /// Press within the bar: scroll by a chevron, close a tab from its close
    /// glyph, or select a tab (arming a drag and queueing a scroll that
    /// reveals it on the next layout pass); elsewhere the press is ignored.
    pub fn handle_press(&mut self, column: u16, row: u16) -> (r: EventResult<TabBarEvent<usize>>)
        ensures
            (*final(self), r) == after_press(*old(self), column, row),
    {
        let on_left = match self.left_indicator_rect {
            Some(rect) => rect_contains(rect, column, row),
            None => false,
        };
        if on_left {
            self.h_scroll = step_left(self.h_scroll);
            return EventResult::Consumed;
        }
        let on_right = match self.right_indicator_rect {
            Some(rect) => rect_contains(rect, column, row),
            None => false,
        };
        if on_right {
            self.h_scroll = step_right(self.h_scroll, self.max_scroll);
            return EventResult::Consumed;
        }
        // The close glyph wins: never arm a drag from the close button.
        if let Some(hit) = self.find_hit(column, row, true) {
            self.drag_state = None;
            return EventResult::Action(TabBarEvent::Close(hit.key));
        }
        if let Some(hit) = self.find_hit(column, row, false) {
            proof {
                lemma_hit_from_contains(self.item_hits@, column, row, 0);
            }
            // The scroll itself waits for the next layout pass, so the grab
            // column stays consistent with this frame's hit rects.
            self.pending_scroll_to = Some(hit.key);
            let grab_col: i32 = (column as i64 - hit.rect.x as i64) as i32;
            let drop_index = match position_of(&self.items, hit.key) {
                Some(i) => i,
                None => 0,
            };
            self.drag_state = Some(DragState {
                source: hit.key,
                cursor_col: column as i32,
                grab_col,
                drop_index,
                moved: false,
            });
            return EventResult::Action(TabBarEvent::Select(hit.key));
        }
        EventResult::Ignored
    }

    /// Drag (mouse captured): pan at the viewport's edges and track the
    /// cursor and the drop target. The reorder is committed on release.
    pub fn handle_drag(&mut self, column: u16) -> (r: EventResult<TabBarEvent<usize>>)
        ensures
            (*final(self), r) == after_drag(*old(self), column),
    {
        if let Some(state) = self.drag_state {
            let col: i64 = column as i64;
            if col <= self.entries_start_x as i64 {
                self.h_scroll = step_left(self.h_scroll);
            } else if col >= self.entries_start_x as i64 + self.scroll_viewport_width as i64 {
                self.h_scroll = step_right(self.h_scroll, self.max_scroll);
            }
            let virtual_col: i64 = col - self.entries_start_x as i64 + self.h_scroll as i64;
            let drop_index = self.target_index(virtual_col);
            proof {
                lemma_target_from_bound(
                    self.items@,
                    self.entry_geometry@,
                    drag_source(self.drag_state),
                    virtual_col as int,
                    0,
                    0,
                );
            }
            self.drag_state = Some(DragState { moved: true, cursor_col: column as i32, drop_index, ..state });
        }
        EventResult::Consumed
    }

    /// Release: end the drag, committing a reorder when the tab moved to
    /// another index.
    pub fn handle_release(&mut self) -> (r: EventResult<TabBarEvent<usize>>)
        ensures
            (*final(self), r) == after_release(*old(self)),
    {
        let taken = self.drag_state;
        self.drag_state = None;
        match taken {
            None => EventResult::Consumed,
            Some(state) => {
                if state.moved {
                    let same = match position_of(&self.items, state.source) {
                        Some(i) => i == state.drop_index,
                        None => false,
                    };
                    if !same {
                        return EventResult::Action(
                            TabBarEvent::Reorder { key: state.source, target_index: state.drop_index },
                        );
                    }
                }
                EventResult::Consumed
            },
        }
    }

    /// Horizontal wheel: scroll a step left or right.
    pub fn handle_scroll(&mut self, kind: MouseEventKind) -> (r: EventResult<TabBarEvent<usize>>)
        ensures
            (*final(self), r) == after_scroll(*old(self), kind),
    {
        match kind {
            MouseEventKind::ScrollLeft => {
                self.h_scroll = step_left(self.h_scroll);
            },
            MouseEventKind::ScrollRight => {
                self.h_scroll = step_right(self.h_scroll, self.max_scroll);
            },
            _ => {},
        }
        EventResult::Consumed
    }

    /// Route a mouse event: press, drag, release and horizontal wheel go to
    /// their handlers; every other mouse event is consumed, as the bar owns
    /// the mouse while it is over it.
    pub fn handle_mouse(&mut self, mouse: MouseEvent) -> (r: EventResult<TabBarEvent<usize>>)
        ensures
            (*final(self), r) == after_mouse(*old(self), mouse),
    {
        match mouse.kind {
            MouseEventKind::Press(_) => self.handle_press(mouse.column, mouse.row),
            MouseEventKind::Drag(_) => self.handle_drag(mouse.column),
            MouseEventKind::Release(_) => self.handle_release(),
            MouseEventKind::ScrollLeft | MouseEventKind::ScrollRight => self.handle_scroll(mouse.kind),
            _ => EventResult::Consumed,
        }
    }
}


impl TabBarComponent {
    /// The paint of placement `g` in this frame (see [`spec_tab_paint`]).
    fn tab_paint(&self, g: TabGeometry, frame: TabFrame, y: i32) -> (r: Option<TabPaint>)
        ensures
            r == spec_tab_paint(self.items@, g, frame, self.h_scroll, y, self.drag_state),
    {
        // The dragged tab is drawn as a gliding ghost instead, once the
        // cursor has actually moved.
        let dragging = match self.drag_state {
            Some(s) => s.source == g.key && s.moved,
            None => false,
        };
        let vp_x = sub_i32_sat(g.lx, self.h_scroll as i32);
        let vp_end = add_i32_sat(vp_x, g.width as i32);
        if dragging || vp_end <= 0 || vp_x >= frame.viewport_width {
            return None;
        }
        let left: i32 = if vp_x > 0 { vp_x } else { 0 };
        let right: i32 = if frame.viewport_width < vp_end { frame.viewport_width } else { vp_end };
        let closable = match position_of(&self.items, g.key) {
            Some(ix) => self.items[ix].closable,
            None => false,
        };
        let slice_start: usize = if vp_x < 0 { (0i64 - vp_x as i64) as usize } else { 0 };
        Some(TabPaint {
            hit: TabHit {
                key: g.key,
                rect: LayoutRect {
                    x: add_i32_sat(frame.entries_start_x, left),
                    y,
                    width: (right as i64 - left as i64) as u16,
                    height: 1,
                },
                closable,
            },
            slice_start,
        })
    }

    /// The paints of every placement of `geo`, in order.
    fn paint_tabs(&self, geo: &Vec<TabGeometry>, frame: TabFrame, y: i32) -> (r: Vec<TabPaint>)
        ensures
            r@ == spec_paints(self.items@, geo@, geo@.len() as int, frame, self.h_scroll, y, self.drag_state),
    {
        let mut out: Vec<TabPaint> = Vec::new();
        let mut i: usize = 0;
        while i < geo.len()
            invariant
                i <= geo@.len(),
                out@ == spec_paints(self.items@, geo@, i as int, frame, self.h_scroll, y, self.drag_state),
            decreases geo@.len() - i,
        {
            match self.tab_paint(geo[i], frame, y) {
                Some(p) => out.push(p),
                None => {},
            }
            i = i + 1;
        }
        out
    }

    /// The ghost of the dragged tab (see [`spec_ghost`]); the geometry of
    /// this frame is already stored.
    fn ghost_paint(&self, frame: TabFrame, y: i32) -> (r: Option<TabPaint>)
        requires
            self.entry_geometry@ == spec_geometry(self.items@),
        ensures
            r == spec_ghost(self.items@, frame, y, self.drag_state),
    {
        let state = match self.drag_state {
            Some(s) => s,
            None => return None,
        };
        if !state.moved {
            return None;
        }
        let drag_width: i64 = match find_geometry(&self.entry_geometry, state.source) {
            Some(g) => g.width as i64,
            None => 0,
        };
        let vp_start: i64 = frame.entries_start_x as i64;
        let far: i64 = vp_start + frame.viewport_width as i64 - drag_width;
        let max_thumb: i64 = if far > vp_start { far } else { vp_start };
        let want: i64 = state.cursor_col as i64 - state.grab_col as i64;
        let thumb: i64 = if want < vp_start { vp_start } else if want > max_thumb { max_thumb } else { want };
        let gv_x: i64 = thumb - vp_start;
        let gv_end: i64 = gv_x + drag_width;
        if gv_end > 0 && gv_x < frame.viewport_width as i64 {
            let right: i64 = if (frame.viewport_width as i64) < gv_end { frame.viewport_width as i64 } else { gv_end };
            let closable = match position_of(&self.items, state.source) {
                Some(ix) => self.items[ix].closable,
                None => false,
            };
            let draw: i64 = vp_start + gv_x;
            let draw_x: i32 = if draw > i32::MAX as i64 { i32::MAX } else { draw as i32 };
            Some(TabPaint {
                hit: TabHit {
                    key: state.source,
                    rect: LayoutRect { x: draw_x, y, width: (right - gv_x) as u16, height: 1 },
                    closable,
                },
                slice_start: 0,
            })
        } else {
            None
        }
    }

    /// The column of the drop indicator (see [`spec_drop_x`]).
    fn drop_indicator(&self, geo: &Vec<TabGeometry>, frame: TabFrame) -> (r: Option<i32>)
        requires
            geo@ == spec_geometry(self.items@),
        ensures
            r == spec_drop_x(self.items@, frame, self.h_scroll, self.drag_state),
    {
        let state = match self.drag_state {
            Some(s) => s,
            None => return None,
        };
        if !state.moved {
            return None;
        }
        let drag_width: i32 = match find_geometry(geo, state.source) {
            Some(g) => g.width as i32,
            None => 0,
        };
        let mut acc: i32 = 0;
        let mut reduced: usize = 0;
        let mut found: Option<i32> = None;
        let mut i: usize = 0;
        proof {
            lemma_geometry_lx_nonneg(self.items@);
        }
        while i < geo.len() && found.is_none()
            invariant
                i <= geo@.len(),
                reduced <= i,
                found is None ==> gap_from(geo@, state.source, state.drop_index, 0, 0, 0) == gap_from(
                    geo@,
                    state.source,
                    state.drop_index,
                    i as int,
                    acc as int,
                    reduced as int,
                ),
                found matches Some(a) ==> gap_from(geo@, state.source, state.drop_index, 0, 0, 0) == Some(a as int),
            decreases geo@.len() - i, if found is None { 1int } else { 0int },
        {
            if geo[i].key != state.source {
                if reduced == state.drop_index {
                    found = Some(acc);
                } else {
                    acc = add_i32_sat(acc, geo[i].width as i32);
                    reduced = reduced + 1;
                    i = i + 1;
                }
            } else {
                i = i + 1;
            }
        }
        let gap: i32 = match found {
            Some(a) => a,
            None => sub_i32_sat(frame.content_width, drag_width),
        };
        let vp_gap = sub_i32_sat(gap, self.h_scroll as i32);
        if 0 <= vp_gap && vp_gap < frame.viewport_width {
            Some(add_i32_sat(frame.entries_start_x, vp_gap))
        } else {
            None
        }
    }

    /// Lay the bar out in `rect` on a screen of `screen` cells: measure the
    /// tabs, decide the scroll geometry (keeping the active tab, then the
    /// tab clicked last, in view), record the hit rects and chevrons the
    /// mouse handlers use, and return what to paint. Nothing is laid out in
    /// an empty rect; a rect wholly off screen only records the rect.
    pub fn layout(&mut self, rect: LayoutRect, screen: Rect) -> (plan: Option<TabLayout>)
        requires
            drawable(rect, screen) ==> !ghost_of_unlisted_tab(
                old(self).items@,
                frame_of(*old(self), rect),
                old(self).drag_state,
            ),
        ensures
            !(rect.width > 0 && rect.height > 0) ==> plan is None && *final(self) == *old(self),
            rect.width > 0 && rect.height > 0 && !drawable(rect, screen) ==> plan is None && *final(self) == (
            TabBarComponent { rect: rect, ..*old(self) }),
            drawable(rect, screen) ==> {
                &&& final(self).items == old(self).items
                &&& final(self).active_key == old(self).active_key
                &&& final(self).drag_state == old(self).drag_state
                &&& final(self).rect == rect
                &&& final(self).entries_start_x == frame_of(*old(self), rect).entries_start_x
                &&& final(self).scroll_viewport_width == frame_of(*old(self), rect).viewport_width
                &&& final(self).max_scroll == frame_of(*old(self), rect).max_scroll
                &&& final(self).entry_geometry@ == spec_geometry(old(self).items@)
                &&& final(self).h_scroll == followed_scroll(*old(self), rect)
                &&& final(self).pending_scroll_to == (if old(self).drag_state is None {
                    None
                } else {
                    old(self).pending_scroll_to
                })
                &&& final(self).last_auto_focus == old(self).active_key
                &&& followed_last(*final(self), rect)
                &&& final(self).last_auto_viewport == frame_of(*old(self), rect).viewport_width
                &&& final(self).last_focused_logical_bounds == bounds_of(
                    focused_geometry(old(self).items@, old(self).active_key),
                )
                &&& final(self).item_hits@ == old(self).item_hits@ + hits_of(frame_paints(*old(self), rect))
                &&& final(self).left_indicator_rect == spec_left_chevron(
                    frame_of(*old(self), rect),
                    rect,
                    final(self).h_scroll,
                )
                &&& final(self).right_indicator_rect == spec_right_chevron(
                    frame_of(*old(self), rect),
                    rect,
                    final(self).h_scroll,
                )
                &&& plan matches Some(p) && p.tabs@ == frame_paints(*old(self), rect) && p.drag_ghost == spec_ghost(
                    old(self).items@,
                    frame_of(*old(self), rect),
                    rect.y,
                    old(self).drag_state,
                ) && p.drop_x == spec_drop_x(
                    old(self).items@,
                    frame_of(*old(self), rect),
                    final(self).h_scroll,
                    old(self).drag_state,
                )
            },
    {
        if rect.width == 0 || rect.height == 0 {
            return None;
        }
        self.rect = rect;
        let bounds = rect_intersection(layout_rect_to_clipped_rect(rect), screen);
        if bounds.width == 0 || bounds.height == 0 {
            return None;
        }
        let ghost start = *self;
        // Phase 1: measure the tabs and decide the scroll geometry.
        let (geo, content) = measure_entries(&self.items);
        let frame = frame_for(content, rect);
        self.follow(&geo, frame);
        self.entries_start_x = frame.entries_start_x;
        self.scroll_viewport_width = frame.viewport_width;
        self.max_scroll = frame.max_scroll;
        self.entry_geometry = geo.clone();
        proof {
            assert(self.entry_geometry@ == geo@);
        }
        // Phase 2: what to paint, with the scroll fixed.
        let tabs = self.paint_tabs(&geo, frame, rect.y);
        let mut k: usize = 0;
        while k < tabs.len()
            invariant
                k <= tabs@.len(),
                self.item_hits@ == start.item_hits@ + hits_of(tabs@.take(k as int)),
                self.items == start.items,
                self.drag_state == start.drag_state,
                self.active_key == start.active_key,
                self.rect == rect,
                self.entries_start_x == frame.entries_start_x,
                self.scroll_viewport_width == frame.viewport_width,
                self.max_scroll == frame.max_scroll,
                self.entry_geometry@ == geo@,
                self.h_scroll == followed_scroll(start, rect),
                self.pending_scroll_to == (if start.drag_state is None { None } else { start.pending_scroll_to }),
                self.last_auto_focus == start.active_key,
                self.last_auto_viewport == frame.viewport_width,
                self.last_focused_logical_bounds == bounds_of(focused_geometry(start.items@, start.active_key)),
            decreases tabs@.len() - k,
        {
            self.item_hits.push(tabs[k].hit);
            k = k + 1;
            proof {
                assert(hits_of(tabs@.take(k as int)) =~= hits_of(tabs@.take(k - 1)).push(tabs@[k - 1].hit));
                assert(self.item_hits@ =~= start.item_hits@ + hits_of(tabs@.take(k as int)));
            }
        }
        proof {
            assert(tabs@.take(k as int) =~= tabs@);
        }
        let drag_ghost = self.ghost_paint(frame, rect.y);
        let drop_x = self.drop_indicator(&geo, frame);
        // Chevrons at the bar's edges.
        self.left_indicator_rect = if frame.overflow && self.h_scroll > 0 {
            Some(LayoutRect { x: rect.x, y: rect.y, width: 1, height: 1 })
        } else {
            None
        };
        self.right_indicator_rect = if frame.overflow && self.h_scroll < frame.max_scroll {
            Some(LayoutRect {
                x: add_i32_sat(rect.x, rect.width.saturating_sub(1) as i32),
                y: rect.y,
                width: 1,
                height: 1,
            })
        } else {
            None
        };
        Some(TabLayout { tabs, drag_ghost, drop_x })
    }

    /// Settle the scroll for this frame: clamp it, follow the active tab when
    /// the guards say so, reveal the tab clicked last (only with no drag in
    /// progress, so the grab stays consistent), and update the guards.
    fn follow(&mut self, geo: &Vec<TabGeometry>, frame: TabFrame)
        requires
            geo@ == spec_geometry(old(self).items@),
        ensures
            final(self).h_scroll == followed_scroll_in(*old(self), frame),
            final(self).pending_scroll_to == (if old(self).drag_state is None {
                None
            } else {
                old(self).pending_scroll_to
            }),
            *final(self) == (TabBarComponent {
                h_scroll: final(self).h_scroll,
                pending_scroll_to: final(self).pending_scroll_to,
                last_auto_focus: old(self).active_key,
                last_auto_viewport: frame.viewport_width,
                last_focused_logical_bounds: bounds_of(focused_geometry(old(self).items@, old(self).active_key)),
                ..*old(self)
            }),
    {
        let h1: u16 = if self.h_scroll < frame.max_scroll { self.h_scroll } else { frame.max_scroll };
        let focused = match self.active_key {
            Some(a) => last_geometry(geo, Ghost(self.items@), a),
            None => None,
        };
        let focused_bounds: Option<(i32, i32)> = match focused {
            Some(g) => Some((g.lx, g.width as i32)),
            None => None,
        };
        let auto = !opt_key_eq(self.last_auto_focus, self.active_key) || self.last_auto_viewport != frame.viewport_width
            || !opt_bounds_eq(self.last_focused_logical_bounds, focused_bounds);
        let mut h: u16 = h1;
        if self.drag_state.is_none() && auto {
            if let Some(g) = focused {
                h = scroll_into_view_target(
                    h as i32,
                    g.lx,
                    g.width as i32,
                    frame.viewport_width,
                    frame.max_scroll as i32,
                ) as u16;
            }
        }
        self.last_auto_focus = self.active_key;
        self.last_auto_viewport = frame.viewport_width;
        self.last_focused_logical_bounds = focused_bounds;
        // A drag in progress keeps the pending target for a later frame.
        if self.drag_state.is_none() {
            let pending = self.pending_scroll_to;
            self.pending_scroll_to = None;
            if let Some(key) = pending {
                if let Some(g) = find_geometry(geo, key) {
                    proof {
                        lemma_geometry_from_member(geo@, key, 0);
                    }
                    h = scroll_into_view_target(
                        h as i32,
                        g.lx,
                        g.width as i32,
                        frame.viewport_width,
                        frame.max_scroll as i32,
                    ) as u16;
                }
            }
        }
        self.h_scroll = h;
    }
}

proof fn lemma_geometry_lx_nonneg(items: Seq<TabItem<usize>>)
    ensures
        forall|i: int| 0 <= i < items.len() ==> #[trigger] spec_geometry(items)[i].lx >= 0,
{
    assert forall|i: int| 0 <= i < items.len() implies #[trigger] spec_geometry(items)[i].lx >= 0 by {
        lemma_entry_x_range(items, i);
    }
}

} // verus!
