use vstd::prelude::*;
use crate::action::{Action, MouseEventKind};
use crate::geometry::{add_i32_sat, sat_add_i32, sat_sub, LayoutRect, Rect};

verus! {

/// Drag state of one scrollbar.
#[derive(Debug, Default, Clone)]
pub struct ScrollbarDrag {
    pub dragging: bool,
    /// Distance (in cells) from the top/left of the thumb to the cursor when
    /// the drag started.
    drag_anchor: i32,
}

/// Which scrollbar a drag belongs to.
#[derive(Debug, Clone, Copy, PartialEq, Eq, Structural)]
pub enum ScrollbarAxis {
    Vertical,
    Horizontal,
}

/// What a mouse event on a scrollbar track asks for once the track geometry
/// is known.
#[derive(Debug, Clone, Copy, PartialEq, Eq, Structural)]
pub enum TrackOutcome {
    /// Nothing scrolls.
    NoScroll,
    /// The press grabbed the thumb where it is: the offset stays.
    KeepOffset,
    /// The thumb's leading edge moves to this cell of the available track
    /// (`0..=available`); the caller maps it to a content offset.
    ThumbAt(i32),
}

/// `v` clamped into `[lo, hi]` (`lo <= hi`).
pub open spec fn clamp_i(v: int, lo: int, hi: int) -> int {
    if v < lo { lo } else if v > hi { hi } else { v }
}

/// The position, track start and track length of a mouse event along `axis`
/// of a scrollbar `area`.
pub open spec fn spec_track_geometry(mouse_col: u16, mouse_row: u16, area: LayoutRect, axis: ScrollbarAxis) -> (int, int, int) {
    match axis {
        ScrollbarAxis::Vertical => (mouse_row as int, area.y as int, area.height as int),
        ScrollbarAxis::Horizontal => (mouse_col as int, area.x as int, area.width as int),
    }
}

impl ScrollbarDrag {
    pub closed spec fn is_dragging(self) -> bool {
        self.dragging
    }

    pub closed spec fn anchor_view(self) -> i32 {
        self.drag_anchor
    }

    pub fn new() -> (r: Self)
        ensures
            !r.is_dragging(),
            r.anchor_view() == 0,
    {
        ScrollbarDrag { dragging: false, drag_anchor: 0 }
    }

    /// The first step of a scrollbar mouse event: with nothing to scroll
    /// (`total <= view`), an empty view or an empty bar, any drag ends and
    /// the event is not a scroll (`true`).
    pub fn reset_if_idle(&mut self, total: usize, view: usize, area: LayoutRect) -> (idle: bool)
        ensures
            idle == (sat_sub(total as int, view as int) == 0 || view == 0 || area.width == 0
                || area.height == 0),
            idle ==> !final(self).is_dragging() && final(self).anchor_view() == old(self).anchor_view(),
            !idle ==> *final(self) == *old(self),
    {
        let max_offset = total.saturating_sub(view);
        if max_offset == 0 || view == 0 || area.width == 0 || area.height == 0 {
            self.dragging = false;
            return true;
        }
        false
    }

    /// The pointer position, track start and track length along `axis`.
    pub fn track_geometry(mouse_col: u16, mouse_row: u16, area: LayoutRect, axis: ScrollbarAxis) -> (r: (i32, i32, i32))
        ensures
            (r.0 as int, r.1 as int, r.2 as int) == spec_track_geometry(mouse_col, mouse_row, area, axis),
    {
        match axis {
            ScrollbarAxis::Vertical => (mouse_row as i32, area.y, area.height as i32),
            ScrollbarAxis::Horizontal => (mouse_col as i32, area.x, area.width as i32),
        }
    }

    /// The drag decision on a track of `track_len` cells whose thumb is
    /// `thumb_size` cells long and starts at `current_thumb_rel`; the pointer
    /// is `mouse_rel` cells into the track.
    ///
    /// A press inside the thumb grabs it where it is; a press elsewhere on
    /// the track jumps the thumb's middle to the pointer; a drag moves the
    /// grabbed point with the pointer; a release ends the drag.
    pub fn track_event(
        &mut self,
        kind: MouseEventKind,
        mouse_rel: i32,
        track_len: i32,
        thumb_size: i32,
        current_thumb_rel: i32,
    ) -> (r: TrackOutcome)
        requires
            1 <= thumb_size < track_len,
            kind is Press && 0 <= mouse_rel < track_len && current_thumb_rel <= mouse_rel
                ==> current_thumb_rel + thumb_size <= i32::MAX,
        ensures
            ({
                let available = track_len - thumb_size;
                match kind {
                    MouseEventKind::Press(_) => if 0 <= mouse_rel < track_len {
                        &&& final(self).is_dragging()
                        &&& if current_thumb_rel <= mouse_rel < current_thumb_rel + thumb_size {
                            &&& final(self).anchor_view() == mouse_rel - current_thumb_rel
                            &&& r == TrackOutcome::KeepOffset
                        } else {
                            &&& final(self).anchor_view() == thumb_size / 2
                            &&& r == TrackOutcome::ThumbAt(
                                clamp_i(mouse_rel - thumb_size / 2, 0, available) as i32,
                            )
                        }
                    } else {
                        *final(self) == *old(self) && r == TrackOutcome::NoScroll
                    },
                    MouseEventKind::Drag(_) => if old(self).is_dragging() {
                        &&& *final(self) == *old(self)
                        &&& r == TrackOutcome::ThumbAt(
                            clamp_i(mouse_rel - old(self).anchor_view(), 0, available) as i32,
                        )
                    } else {
                        *final(self) == *old(self) && r == TrackOutcome::NoScroll
                    },
                    MouseEventKind::Release(_) => {
                        &&& !final(self).is_dragging()
                        &&& final(self).anchor_view() == old(self).anchor_view()
                        &&& r == TrackOutcome::NoScroll
                    },
                    _ => *final(self) == *old(self) && r == TrackOutcome::NoScroll,
                }
            }),
    {
        let available = track_len - thumb_size;
        match kind {
            MouseEventKind::Press(_) => {
                if mouse_rel >= 0 && mouse_rel < track_len {
                    if mouse_rel >= current_thumb_rel && (mouse_rel as i64) < current_thumb_rel as i64
                        + thumb_size as i64 {
                        self.dragging = true;
                        self.drag_anchor = mouse_rel - current_thumb_rel;
                        TrackOutcome::KeepOffset
                    } else {
                        self.dragging = true;
                        self.drag_anchor = thumb_size / 2;
                        let t = mouse_rel - self.drag_anchor;
                        TrackOutcome::ThumbAt(if t < 0 { 0 } else if t > available { available } else { t })
                    }
                } else {
                    TrackOutcome::NoScroll
                }
            },
            MouseEventKind::Drag(_) => {
                if self.dragging {
                    let t: i64 = mouse_rel as i64 - self.drag_anchor as i64;
                    let c: i32 = if t < 0 { 0 } else if t > available as i64 { available } else { t as i32 };
                    TrackOutcome::ThumbAt(c)
                } else {
                    TrackOutcome::NoScroll
                }
            },
            MouseEventKind::Release(_) => {
                self.dragging = false;
                TrackOutcome::NoScroll
            },
            _ => TrackOutcome::NoScroll,
        }
    }
}

} // verus!

verus! {

/// Controls which keyboard scroll events the scroll view intercepts.
#[derive(Debug, Clone, Copy, PartialEq, Eq, Structural)]
pub enum ScrollKeyMode {
    /// No keyboard scroll interception — all keys fall through to the child.
    Off,
    /// Only PageUp/PageDown/Home/End are intercepted for scrolling.
    PaginationOnly,
    /// Full keyboard scroll: Up/Down/PageUp/PageDown/Home/End.
    Full,
}

/// The scroll state a scroll view shares with its content: offsets, the
/// content's measured size, the viewport size, offsets requested for the
/// next frame, and whether the view follows the bottom as content grows.
#[derive(Debug, Default, Clone, Copy, PartialEq, Eq, Structural)]
pub struct ScrollBounds {
    pub offset_x: usize,
    pub offset_y: usize,
    pub content_width: usize,
    pub content_height: usize,
    pub width: usize,
    pub height: usize,
    pub pending_offset_x: Option<usize>,
    pub pending_offset_y: Option<usize>,
    pub sticky_bottom: bool,
}

/// Wraps a content component in a scrollable viewport with scrollbars.
pub struct ScrollViewComponent<C> {
    pub content: C,
    scroll_state: ScrollBounds,
    v_drag: ScrollbarDrag,
    h_drag: ScrollbarDrag,
    keyboard_mode: ScrollKeyMode,
}

/// The viewport left for content in `area`: a column is reserved for the
/// vertical scrollbar when the content is taller than the area, then a row
/// for the horizontal one when the content is wider than what is left.
pub open spec fn spec_compute_layout(area: LayoutRect, content_w: usize, content_h: usize) -> LayoutRect {
    if content_w == 0 && content_h == 0 {
        area
    } else {
        let needs_v = content_h > area.height;
        let view_w = if needs_v && area.width > 0 { (area.width - 1) as u16 } else { area.width };
        let needs_h = content_w > view_w;
        let view_h = if needs_h && area.height > 0 { (area.height - 1) as u16 } else { area.height };
        LayoutRect { x: area.x, y: area.y, width: view_w, height: view_h }
    }
}

/// The scroll state once the viewport is `inner`: its size is recorded and
/// the offsets (a pending request first) are clamped to the scrollable range.
pub open spec fn spec_fit_viewport(st: ScrollBounds, inner: LayoutRect) -> ScrollBounds {
    let max_x = sat_sub(st.content_width as int, inner.width as int);
    let max_y = sat_sub(st.content_height as int, inner.height as int);
    let want_x = match st.pending_offset_x { Some(o) => o as int, None => st.offset_x as int };
    let want_y = match st.pending_offset_y { Some(o) => o as int, None => st.offset_y as int };
    ScrollBounds {
        width: inner.width as usize,
        height: inner.height as usize,
        offset_x: (if want_x < max_x { want_x } else { max_x }) as usize,
        offset_y: (if want_y < max_y { want_y } else { max_y }) as usize,
        pending_offset_x: None,
        pending_offset_y: None,
        ..st
    }
}

/// The furthest vertical offset: the content height past the viewport.
pub open spec fn max_offset_y(st: ScrollBounds) -> int {
    sat_sub(st.content_height as int, st.height as int)
}

/// The vertical offset after scrolling by `delta` rows: up to the top at
/// most, down to the last full page at most.
pub open spec fn scrolled_offset(st: ScrollBounds, delta: int) -> int {
    if delta < 0 {
        sat_sub(st.offset_y as int, -delta)
    } else if st.offset_y + delta > max_offset_y(st) {
        max_offset_y(st)
    } else {
        st.offset_y + delta
    }
}

/// The scroll state after a scroll action (`None` for actions the view
/// passes to its content). Each scroll records the new offset as pending so
/// the next frame keeps it.
pub open spec fn spec_scroll_update(st: ScrollBounds, action: Action) -> Option<ScrollBounds> {
    match action {
        Action::ScrollView(delta) => {
            let off = scrolled_offset(st, delta as int) as usize;
            Some(ScrollBounds { offset_y: off, pending_offset_y: Some(off), ..st })
        },
        Action::ScrollToTop => Some(ScrollBounds { offset_y: 0, pending_offset_y: Some(0), ..st }),
        Action::ScrollToBottom => {
            let off = max_offset_y(st) as usize;
            Some(ScrollBounds { offset_y: off, pending_offset_y: Some(off), ..st })
        },
        _ => None,
    }
}

/// The action a key press becomes in a scroll view: page keys scroll by a
/// viewport height, Home/End jump to the top/bottom and, in full mode only,
/// the arrow keys scroll by one line. Nothing is intercepted in `Off` mode,
/// when unfocused, in direct mode, or for a key release. `matched` holds the
/// bindings the key matches; the first of the listed checks that matches
/// wins.
pub open spec fn spec_scroll_key(
    mode: ScrollKeyMode,
    focused: bool,
    direct_mode: bool,
    is_press: bool,
    page: int,
    matched: Seq<Action>,
) -> Option<Action> {
    if mode == ScrollKeyMode::Off || !focused || direct_mode || !is_press {
        None
    } else if matched.contains(Action::ScrollPageUp) {
        Some(Action::ScrollView((-page) as isize))
    } else if matched.contains(Action::ScrollPageDown) {
        Some(Action::ScrollView(page as isize))
    } else if matched.contains(Action::ScrollHome) {
        Some(Action::ScrollToTop)
    } else if matched.contains(Action::ScrollEnd) {
        Some(Action::ScrollToBottom)
    } else if mode == ScrollKeyMode::Full && matched.contains(Action::ScrollUp) {
        Some(Action::ScrollView(-1isize))
    } else if mode == ScrollKeyMode::Full && matched.contains(Action::ScrollDown) {
        Some(Action::ScrollView(1isize))
    } else {
        None
    }
}

/// Home and End jump: when a focused scroll view intercepts a key press
/// (any mode but `Off`, not in direct mode) that matches no page key, a key
/// bound to Home scrolls to the top and one bound only to End scrolls so
/// that the last page shows, whatever the state it is applied to; so Home
/// and End never land on the same row while the content is taller than the
/// view.
pub proof fn lemma_home_end_jump(
    mode: ScrollKeyMode,
    page: int,
    matched: Seq<Action>,
    st: ScrollBounds,
)
    requires
        mode != ScrollKeyMode::Off,
        !matched.contains(Action::ScrollPageUp),
        !matched.contains(Action::ScrollPageDown),
    ensures
        matched.contains(Action::ScrollHome) ==> match spec_scroll_key(mode, true, false, true, page, matched) {
            Some(a) => match spec_scroll_update(st, a) {
                Some(after) => after.offset_y == 0,
                None => false,
            },
            None => false,
        },
        matched.contains(Action::ScrollEnd) && !matched.contains(Action::ScrollHome) ==> match spec_scroll_key(
            mode,
            true,
            false,
            true,
            page,
            matched,
        ) {
            Some(a) => match spec_scroll_update(st, a) {
                Some(after) => after.offset_y == (if st.content_height > st.height {
                    st.content_height - st.height
                } else {
                    0
                }),
                None => false,
            },
            None => false,
        },
{
}

/// Page keys move by a viewport height: when a focused scroll view with a
/// non-empty viewport intercepts a key press, Page Up moves the offset back by `page` rows (to
/// the top at most) and Page Down, unless Page Up is matched too, moves it
/// on by `page` rows (to the last page at most); in full mode, with no page,
/// Home or End key matched, the arrow keys move it by one row the same way.
pub proof fn lemma_page_keys_scroll(mode: ScrollKeyMode, page: int, matched: Seq<Action>, st: ScrollBounds)
    requires
        mode != ScrollKeyMode::Off,
        0 < page <= isize::MAX,
    ensures
        ({
            let last = if st.content_height > st.height { st.content_height - st.height } else { 0 };
            let back = |n: int| if st.offset_y > n { st.offset_y - n } else { 0 };
            let on = |n: int| if st.offset_y + n > last { last } else { st.offset_y + n };
            let moved_to = |o: int| match spec_scroll_key(mode, true, false, true, page, matched) {
                Some(a) => match spec_scroll_update(st, a) {
                    Some(after) => after.offset_y == o,
                    None => false,
                },
                None => false,
            };
            let no_jump = !matched.contains(Action::ScrollPageUp) && !matched.contains(Action::ScrollPageDown)
                && !matched.contains(Action::ScrollHome) && !matched.contains(Action::ScrollEnd);
            &&& matched.contains(Action::ScrollPageUp) ==> moved_to(back(page))
            &&& matched.contains(Action::ScrollPageDown) && !matched.contains(Action::ScrollPageUp) ==> moved_to(
                on(page),
            )
            &&& mode == ScrollKeyMode::Full && no_jump && matched.contains(Action::ScrollUp) ==> moved_to(back(1))
            &&& mode == ScrollKeyMode::Full && no_jump && matched.contains(Action::ScrollDown) && !matched.contains(
                Action::ScrollUp,
            ) ==> moved_to(on(1))
        }),
{
}

pub(crate) fn contains_action(matched: &[Action], a: Action) -> (r: bool)
    ensures
        r == matched@.contains(a),
{
    let mut i: usize = 0;
    while i < matched.len()
        invariant
            i <= matched@.len(),
            forall|k: int| 0 <= k < i ==> matched@[k] != a,
        decreases matched@.len() - i,
    {
        if matched[i] == a {
            proof {
                assert(matched@[i as int] == a);
            }
            return true;
        }
        i = i + 1;
    }
    false
}

/// The key decision of a scroll view (see [`spec_scroll_key`]); `None`
/// means the key goes to the content.
pub fn scroll_key_action(
    mode: ScrollKeyMode,
    focused: bool,
    direct_mode: bool,
    is_press: bool,
    page: usize,
    matched: &[Action],
) -> (r: Option<Action>)
    requires
        page <= isize::MAX,
    ensures
        r == spec_scroll_key(mode, focused, direct_mode, is_press, page as int, matched@),
{
    if mode == ScrollKeyMode::Off || !focused || direct_mode || !is_press {
        return None;
    }
    let is_full = mode == ScrollKeyMode::Full;
    let height = page as isize;
    if contains_action(matched, Action::ScrollPageUp) {
        Some(Action::ScrollView(-height))
    } else if contains_action(matched, Action::ScrollPageDown) {
        Some(Action::ScrollView(height))
    } else if contains_action(matched, Action::ScrollHome) {
        Some(Action::ScrollToTop)
    } else if contains_action(matched, Action::ScrollEnd) {
        Some(Action::ScrollToBottom)
    } else if is_full && contains_action(matched, Action::ScrollUp) {
        Some(Action::ScrollView(-1isize))
    } else if is_full && contains_action(matched, Action::ScrollDown) {
        Some(Action::ScrollView(1isize))
    } else {
        None
    }
}

/// The action a mouse wheel becomes: three lines up or down, except in
/// direct mode where the wheel goes to the content.
pub fn wheel_action(kind: MouseEventKind, direct_mode: bool) -> (r: Option<Action>)
    ensures
        r == if direct_mode {
            None
        } else {
            match kind {
                MouseEventKind::ScrollUp => Some(Action::ScrollView(-3isize)),
                MouseEventKind::ScrollDown => Some(Action::ScrollView(3isize)),
                _ => None,
            }
        },
{
    if direct_mode {
        return None;
    }
    match kind {
        MouseEventKind::ScrollUp => Some(Action::ScrollView(-3isize)),
        MouseEventKind::ScrollDown => Some(Action::ScrollView(3isize)),
        _ => None,
    }
}

impl<C> ScrollViewComponent<C> {
    pub closed spec fn content_view(self) -> C {
        self.content
    }

    pub closed spec fn bounds_view(self) -> ScrollBounds {
        self.scroll_state
    }

    pub closed spec fn mode_view(self) -> ScrollKeyMode {
        self.keyboard_mode
    }

    pub closed spec fn v_drag_view(self) -> ScrollbarDrag {
        self.v_drag
    }

    pub closed spec fn h_drag_view(self) -> ScrollbarDrag {
        self.h_drag
    }

    /// A scroll view at the origin with full keyboard scrolling.
    pub fn new(content: C) -> (r: Self)
        ensures
            r.content_view() == content,
            r.bounds_view() == (ScrollBounds {
                offset_x: 0,
                offset_y: 0,
                content_width: 0,
                content_height: 0,
                width: 0,
                height: 0,
                pending_offset_x: None,
                pending_offset_y: None,
                sticky_bottom: false,
            }),
            r.mode_view() == ScrollKeyMode::Full,
            !r.v_drag_view().is_dragging(),
            !r.h_drag_view().is_dragging(),
    {
        Self {
            content,
            scroll_state: ScrollBounds {
                offset_x: 0,
                offset_y: 0,
                content_width: 0,
                content_height: 0,
                width: 0,
                height: 0,
                pending_offset_x: None,
                pending_offset_y: None,
                sticky_bottom: false,
            },
            v_drag: ScrollbarDrag::new(),
            h_drag: ScrollbarDrag::new(),
            keyboard_mode: ScrollKeyMode::Full,
        }
    }

    pub fn set_keyboard_mode(&mut self, mode: ScrollKeyMode)
        ensures
            final(self).mode_view() == mode,
            final(self).bounds_view() == old(self).bounds_view(),
            final(self).content_view() == old(self).content_view(),
    {
        self.keyboard_mode = mode;
    }

    pub fn keyboard_mode(&self) -> (r: ScrollKeyMode)
        ensures
            r == self.mode_view(),
    {
        self.keyboard_mode
    }

    pub fn set_sticky_bottom(&mut self, sticky: bool)
        ensures
            final(self).bounds_view() == (ScrollBounds { sticky_bottom: sticky, ..old(self).bounds_view() }),
            final(self).mode_view() == old(self).mode_view(),
            final(self).content_view() == old(self).content_view(),
    {
        self.scroll_state.sticky_bottom = sticky;
    }

    /// The current scroll state.
    pub fn bounds(&self) -> (r: ScrollBounds)
        ensures
            r == self.bounds_view(),
    {
        self.scroll_state
    }

    /// Replace the scroll state (what the content reports through its
    /// scroll handle: its measured size and follow-scroll offsets).
    pub fn set_bounds(&mut self, bounds: ScrollBounds)
        ensures
            final(self).bounds_view() == bounds,
            final(self).mode_view() == old(self).mode_view(),
            final(self).content_view() == old(self).content_view(),
    {
        self.scroll_state = bounds;
    }

    /// The viewport left for content in `area` after reserving room for the
    /// scrollbars the last measured content size needs.
    pub fn compute_layout(&self, area: LayoutRect) -> (r: LayoutRect)
        ensures
            r == spec_compute_layout(area, self.bounds_view().content_width, self.bounds_view().content_height),
            r.x == area.x && r.y == area.y,
            r.width <= area.width && r.height <= area.height,
    {
        let content_w = self.scroll_state.content_width;
        let content_h = self.scroll_state.content_height;
        if content_w == 0 && content_h == 0 {
            return area;
        }
        let mut view_w = area.width;
        let mut view_h = area.height;
        let needs_v = content_h > view_h as usize;
        if needs_v && view_w > 0 {
            view_w = view_w - 1;
        }
        let needs_h = content_w > view_w as usize;
        if needs_h && view_h > 0 {
            view_h = view_h - 1;
        }
        LayoutRect { x: area.x, y: area.y, width: view_w, height: view_h }
    }

    /// Record the viewport size and clamp the offsets (taking any pending
    /// request) into the scrollable range; done before each content render.
    pub fn fit_viewport(&mut self, inner: LayoutRect)
        ensures
            final(self).bounds_view() == spec_fit_viewport(old(self).bounds_view(), inner),
            final(self).bounds_view().offset_x <= sat_sub(
                final(self).bounds_view().content_width as int,
                final(self).bounds_view().width as int,
            ),
            final(self).bounds_view().offset_y <= max_offset_y(final(self).bounds_view()),
            final(self).mode_view() == old(self).mode_view(),
            final(self).content_view() == old(self).content_view(),
    {
        let st = &mut self.scroll_state;
        st.width = inner.width as usize;
        st.height = inner.height as usize;
        let max_x = st.content_width.saturating_sub(st.width);
        let max_y = st.content_height.saturating_sub(st.height);
        let want_x = match st.pending_offset_x {
            Some(off) => off,
            None => st.offset_x,
        };
        let want_y = match st.pending_offset_y {
            Some(off) => off,
            None => st.offset_y,
        };
        st.pending_offset_x = None;
        st.pending_offset_y = None;
        st.offset_x = if want_x < max_x { want_x } else { max_x };
        st.offset_y = if want_y < max_y { want_y } else { max_y };
    }

    /// Apply a scroll action; `false` for actions the view passes on to its
    /// content (the state is then unchanged).
    pub fn apply_scroll(&mut self, action: Action) -> (handled: bool)
        ensures
            handled == spec_scroll_update(old(self).bounds_view(), action) is Some,
            handled ==> final(self).bounds_view() == spec_scroll_update(old(self).bounds_view(), action)->0,
            !handled ==> final(self).bounds_view() == old(self).bounds_view(),
            final(self).mode_view() == old(self).mode_view(),
            final(self).content_view() == old(self).content_view(),
    {
        match action {
            Action::ScrollView(delta) => {
                let st = &mut self.scroll_state;
                if delta < 0 {
                    let back: i128 = 0i128 - delta as i128;
                    st.offset_y = if back > st.offset_y as i128 { 0 } else { st.offset_y - back as usize };
                } else {
                    let max = st.content_height.saturating_sub(st.height);
                    let ahead = delta as usize;
                    st.offset_y = if ahead > max || st.offset_y > max - ahead { max } else { st.offset_y + ahead };
                }
                st.pending_offset_y = Some(st.offset_y);
                true
            },
            Action::ScrollToTop => {
                self.scroll_state.offset_y = 0;
                self.scroll_state.pending_offset_y = Some(0);
                true
            },
            Action::ScrollToBottom => {
                let st = &mut self.scroll_state;
                st.offset_y = st.content_height.saturating_sub(st.height);
                st.pending_offset_y = Some(st.offset_y);
                true
            },
            _ => false,
        }
    }

    /// Record a new content size. A view that follows the bottom
    /// (`sticky_bottom`) and was at the bottom moves to the new bottom; any
    /// other offset stays.
    pub fn set_content_size(&mut self, width: usize, height: usize)
        ensures
            final(self).bounds_view() == (ScrollBounds {
                content_width: width,
                content_height: height,
                offset_y: if old(self).bounds_view().sticky_bottom && old(self).bounds_view().offset_y >= max_offset_y(
                    old(self).bounds_view(),
                ) {
                    sat_sub(height as int, old(self).bounds_view().height as int) as usize
                } else {
                    old(self).bounds_view().offset_y
                },
                ..old(self).bounds_view()
            }),
            final(self).mode_view() == old(self).mode_view(),
            final(self).content_view() == old(self).content_view(),
    {
        let st = &mut self.scroll_state;
        let at_bottom = st.offset_y >= st.content_height.saturating_sub(st.height);
        st.content_width = width;
        st.content_height = height;
        if st.sticky_bottom && at_bottom {
            st.offset_y = height.saturating_sub(st.height);
        }
    }

    /// Scroll to vertical offset `offset`, clamped to the last full page;
    /// the offset is kept for the next frame.
    pub fn scroll_vertical_to(&mut self, offset: usize)
        ensures
            ({
                let off = if offset < max_offset_y(old(self).bounds_view()) {
                    offset
                } else {
                    max_offset_y(old(self).bounds_view()) as usize
                };
                final(self).bounds_view() == (ScrollBounds {
                    offset_y: off,
                    pending_offset_y: Some(off),
                    ..old(self).bounds_view()
                })
            }),
            final(self).mode_view() == old(self).mode_view(),
            final(self).content_view() == old(self).content_view(),
    {
        let st = &mut self.scroll_state;
        let max = st.content_height.saturating_sub(st.height);
        st.offset_y = if offset < max { offset } else { max };
        st.pending_offset_y = Some(st.offset_y);
    }

    /// The scroll view's key decision for its current mode and page height.
    pub fn key_action(&self, focused: bool, direct_mode: bool, is_press: bool, matched: &[Action]) -> (r: Option<Action>)
        requires
            self.bounds_view().height <= isize::MAX,
        ensures
            r == spec_scroll_key(
                self.mode_view(),
                focused,
                direct_mode,
                is_press,
                self.bounds_view().height as int,
                matched@,
            ),
    {
        scroll_key_action(self.keyboard_mode, focused, direct_mode, is_press, self.scroll_state.height, matched)
    }
}

} // verus!

verus! {

/// A scrollbar to hit-test or draw: its track rect, the content length, the
/// viewport length and the current offset along its axis.
#[derive(Debug, Clone, Copy, PartialEq, Eq, Structural)]
pub struct ScrollbarSpan {
    pub area: LayoutRect,
    pub total: usize,
    pub view: usize,
    pub offset: usize,
}

/// The scrollbar state a track shows: the number of scroll positions, the
/// current one and the viewport length.
#[derive(Debug, Clone, Copy, PartialEq, Eq, Structural)]
pub struct ScrollbarMetrics {
    pub content_len: usize,
    pub position: usize,
    pub viewport: usize,
}

/// Whether a scrollbar is drawn for `total` content cells in a `view`-cell
/// viewport on a track of the given size (`width` only counts when
/// `check_width`).
pub open spec fn spec_scrollbar_drawn(total: usize, view: usize, width: u16, height: u16, check_width: bool) -> bool {
    !(total <= view || view == 0 || (check_width && width == 0) || height == 0)
}

/// Whether a scrollbar is drawn (see [`spec_scrollbar_drawn`]).
pub fn scrollbar_drawn(total: usize, view: usize, width: u16, height: u16, check_width: bool) -> (r: bool)
    ensures
        r == spec_scrollbar_drawn(total, view, width, height, check_width),
{
    !(total <= view || view == 0 || (check_width && width == 0) || height == 0)
}

/// The scrollbar state for `total` content cells in a `view`-cell viewport
/// at `offset`: one position per possible offset, the offset clamped into
/// them, and a viewport of at least one cell.
pub fn scrollbar_metrics(total: usize, view: usize, offset: usize) -> (r: ScrollbarMetrics)
    ensures
        ({
            let n = sat_sub(total as int, view as int) + 1;
            let len = if n > usize::MAX { usize::MAX as int } else { n };
            &&& r.content_len == len
            &&& r.position == if offset < len - 1 { offset as int } else { len - 1 }
            &&& r.viewport == if view < 1 { 1 } else { view as int }
        }),
{
    let n = total.saturating_sub(view).saturating_add(1);
    let content_len = if n < 1 { 1 } else { n };
    let last = content_len.saturating_sub(1);
    ScrollbarMetrics {
        content_len,
        position: if offset < last { offset } else { last },
        viewport: if view < 1 { 1 } else { view },
    }
}

/// Whether a render pass must run again: the content's measurement moved
/// the offsets, or a scrollbar the content now needs has no room reserved
/// yet, or a reserved one is no longer needed; at most `max_attempts` passes.
pub open spec fn spec_needs_rerender(
    area: LayoutRect,
    inner: LayoutRect,
    before: (usize, usize),
    after: ScrollBounds,
    attempt: nat,
    max_attempts: nat,
) -> bool {
    let offset_changed = after.offset_x != before.0 || after.offset_y != before.1;
    let needs_v = inner.height > 0 && after.content_height > inner.height;
    let has_v = inner.width < area.width;
    let needs_h = inner.width > 0 && after.content_width > inner.width;
    let has_h = inner.height < area.height;
    let retry_v = (needs_v && !has_v && area.width > 0) || (has_v && !needs_v && area.width > 0);
    let retry_h = (needs_h && !has_h && area.height > 0) || (has_h && !needs_h && area.height > 0);
    (retry_v || retry_h || offset_changed) && attempt + 1 < max_attempts
}

/// The re-render decision of a scroll view's render loop.
pub fn needs_rerender(
    area: LayoutRect,
    inner: LayoutRect,
    before: (usize, usize),
    after: ScrollBounds,
    attempt: usize,
    max_attempts: usize,
) -> (r: bool)
    ensures
        r == spec_needs_rerender(area, inner, before, after, attempt as nat, max_attempts as nat),
{
    let offset_changed = after.offset_x != before.0 || after.offset_y != before.1;
    let needs_vertical = inner.height > 0 && after.content_height > inner.height as usize;
    let has_vertical_reserved = inner.width < area.width;
    let needs_horizontal = inner.width > 0 && after.content_width > inner.width as usize;
    let has_horizontal_reserved = inner.height < area.height;
    let drop_vertical = has_vertical_reserved && !needs_vertical && area.width > 0;
    let drop_horizontal = has_horizontal_reserved && !needs_horizontal && area.height > 0;
    let retry_vertical = (needs_vertical && !has_vertical_reserved && area.width > 0) || drop_vertical;
    let retry_horizontal = (needs_horizontal && !has_horizontal_reserved && area.height > 0)
        || drop_horizontal;
    (retry_vertical || retry_horizontal || offset_changed) && attempt < max_attempts.saturating_sub(1)
}

/// The scrollbars of a rendered viewport `inner` inside `area` (drawn at the
/// right edge and the bottom edge of the clipped area) with what they show;
/// none in direct mode.
pub fn rendered_scrollbars(area: LayoutRect, inner: LayoutRect, st: ScrollBounds, direct_mode: bool) -> (r: (
    Option<(Rect, usize, usize, usize)>,
    Option<(Rect, usize, usize, usize)>,
))
    requires
        crate::geometry::spec_clipped_rect(area).x + crate::geometry::spec_clipped_rect(area).width <= u16::MAX + 1,
        crate::geometry::spec_clipped_rect(area).y + crate::geometry::spec_clipped_rect(area).height <= u16::MAX + 1,
    ensures
        ({
            let ar = crate::geometry::spec_clipped_rect(area);
            let needs_v = inner.height > 0 && st.content_height > inner.height;
            let needs_h = inner.width > 0 && st.content_width > inner.width;
            &&& r.0 == if !direct_mode && needs_v {
                Some((
                    Rect { x: (ar.x + sat_sub(ar.width as int, 1)) as u16, y: ar.y, width: 1, height: inner.height },
                    st.content_height,
                    inner.height as usize,
                    st.offset_y,
                ))
            } else {
                None
            }
            &&& r.1 == if !direct_mode && needs_h {
                Some((
                    Rect { x: ar.x, y: (ar.y + sat_sub(ar.height as int, 1)) as u16, width: inner.width, height: 1 },
                    st.content_width,
                    inner.width as usize,
                    st.offset_x,
                ))
            } else {
                None
            }
        }),
{
    if direct_mode {
        return (None, None);
    }
    let ar = crate::geometry::layout_rect_to_clipped_rect(area);
    let needs_vertical = inner.height > 0 && st.content_height > inner.height as usize;
    let needs_horizontal = inner.width > 0 && st.content_width > inner.width as usize;
    let v = if needs_vertical {
        Some((
            Rect { x: ar.x + ar.width.saturating_sub(1), y: ar.y, width: 1, height: inner.height },
            st.content_height,
            inner.height as usize,
            st.offset_y,
        ))
    } else {
        None
    };
    let h = if needs_horizontal {
        Some((
            Rect { x: ar.x, y: ar.y + ar.height.saturating_sub(1), width: inner.width, height: 1 },
            st.content_width,
            inner.width as usize,
            st.offset_x,
        ))
    } else {
        None
    };
    (v, h)
}

impl<C> ScrollViewComponent<C> {
    /// The scrollbar tracks a mouse event can hit when the view occupies
    /// `screen`: the vertical one right of the viewport when the content is
    /// taller than the view, the horizontal one below it when it is wider.
    pub fn scrollbar_spans(&self, screen: LayoutRect) -> (r: (Option<ScrollbarSpan>, Option<ScrollbarSpan>))
        ensures
            ({
                let st = self.bounds_view();
                let va = spec_compute_layout(screen, st.content_width, st.content_height);
                &&& r.0 == if st.content_height > screen.height {
                    Some(ScrollbarSpan {
                        area: LayoutRect {
                            x: sat_add_i32(va.x as int, va.width as int) as i32,
                            y: va.y,
                            width: 1,
                            height: va.height,
                        },
                        total: st.content_height,
                        view: screen.height as usize,
                        offset: st.offset_y,
                    })
                } else {
                    None
                }
                &&& r.1 == if st.content_width > screen.width {
                    Some(ScrollbarSpan {
                        area: LayoutRect {
                            x: va.x,
                            y: sat_add_i32(va.y as int, va.height as int) as i32,
                            width: va.width,
                            height: 1,
                        },
                        total: st.content_width,
                        view: screen.width as usize,
                        offset: st.offset_x,
                    })
                } else {
                    None
                }
            }),
    {
        let va = self.compute_layout(screen);
        let st = self.scroll_state;
        let v = if st.content_height > screen.height as usize {
            Some(ScrollbarSpan {
                area: LayoutRect { x: add_i32_sat(va.x, va.width as i32), y: va.y, width: 1, height: va.height },
                total: st.content_height,
                view: screen.height as usize,
                offset: st.offset_y,
            })
        } else {
            None
        };
        let h = if st.content_width > screen.width as usize {
            Some(ScrollbarSpan {
                area: LayoutRect { x: va.x, y: add_i32_sat(va.y, va.height as i32), width: va.width, height: 1 },
                total: st.content_width,
                view: screen.width as usize,
                offset: st.offset_x,
            })
        } else {
            None
        };
        (v, h)
    }

    /// The drag state of the scrollbar along `axis`.
    pub fn drag_mut(&mut self, axis: ScrollbarAxis) -> (r: &mut ScrollbarDrag)
        ensures
            *r == match axis {
                ScrollbarAxis::Vertical => old(self).v_drag_view(),
                ScrollbarAxis::Horizontal => old(self).h_drag_view(),
            },
            match axis {
                ScrollbarAxis::Vertical => final(self).v_drag_view() == *final(r)
                    && final(self).h_drag_view() == old(self).h_drag_view(),
                ScrollbarAxis::Horizontal => final(self).h_drag_view() == *final(r)
                    && final(self).v_drag_view() == old(self).v_drag_view(),
            },
            final(self).bounds_view() == old(self).bounds_view(),
            final(self).mode_view() == old(self).mode_view(),
            final(self).content_view() == old(self).content_view(),
    {
        match axis {
            ScrollbarAxis::Vertical => &mut self.v_drag,
            ScrollbarAxis::Horizontal => &mut self.h_drag,
        }
    }

    /// Move to the offset a scrollbar drag asked for along `axis`, recorded
    /// as pending so the next frame keeps it.
    pub fn apply_drag_offset(&mut self, axis: ScrollbarAxis, new_off: usize)
        ensures
            final(self).bounds_view() == match axis {
                ScrollbarAxis::Vertical => ScrollBounds {
                    offset_y: new_off,
                    pending_offset_y: Some(new_off),
                    ..old(self).bounds_view()
                },
                ScrollbarAxis::Horizontal => ScrollBounds {
                    offset_x: new_off,
                    pending_offset_x: Some(new_off),
                    ..old(self).bounds_view()
                },
            },
            final(self).mode_view() == old(self).mode_view(),
            final(self).content_view() == old(self).content_view(),
    {
        match axis {
            ScrollbarAxis::Vertical => {
                self.scroll_state.offset_y = new_off;
                self.scroll_state.pending_offset_y = Some(new_off);
            },
            ScrollbarAxis::Horizontal => {
                self.scroll_state.offset_x = new_off;
                self.scroll_state.pending_offset_x = Some(new_off);
            },
        }
    }
}

} // verus!
