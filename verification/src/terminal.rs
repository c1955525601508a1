//! The scroll bookkeeping of a terminal pane shown in a scrollable
//! viewport: which of the two scroll positions (the pane's own scrollback
//! and the viewport's offset) leads on each frame.
use vstd::prelude::*;
use crate::action::KeyCode;
use crate::geometry::{sat_add_u16, sat_sub, Rect};

verus! {

/// What a frame does to reconcile the pane's scrollback with the viewport.
#[derive(Debug, Clone, Copy, PartialEq, Eq, Structural)]
pub enum ScrollSyncStep {
    /// Scroll the pane back by this many rows.
    SetScrollback(usize),
    /// Scroll the viewport to this offset (clamped by the viewport).
    ViewportTo(usize),
    /// Nothing to do.
    Keep,
}

/// The scroll positions a terminal remembers from its last frame.
#[derive(Debug, Clone, Copy, PartialEq, Eq, Structural)]
pub struct TerminalScrollSync {
    /// The pane's scrollback at the end of the last frame.
    pub last_scrollback: usize,
    /// The pane's scrollback capacity in use at the last sync.
    pub last_max_scrollback: usize,
}

/// The step a frame takes, with `used` rows of scrollback in use, the pane
/// scrolled back `current_sb` rows and the viewport at `view_offset`:
/// - the pane at its bottom follows the viewport when the viewport was
///   scrolled up from the last bottom, else the viewport follows the tail;
/// - a pane scrolled since the last frame moves the viewport to match;
/// - else the pane follows the viewport, if they differ.
pub open spec fn spec_sync_step(
    used: usize,
    current_sb: usize,
    last_sb: usize,
    last_max: usize,
    view_offset: usize,
) -> ScrollSyncStep {
    if current_sb == 0 {
        if view_offset < sat_sub(last_max as int, 1) {
            ScrollSyncStep::SetScrollback(sat_sub(used as int, view_offset as int) as usize)
        } else {
            ScrollSyncStep::ViewportTo(usize::MAX)
        }
    } else if current_sb != last_sb {
        ScrollSyncStep::ViewportTo(sat_sub(used as int, current_sb as int) as usize)
    } else {
        let target = sat_sub(used as int, view_offset as int) as usize;
        if target != current_sb {
            ScrollSyncStep::SetScrollback(target)
        } else {
            ScrollSyncStep::Keep
        }
    }
}

/// Once the pane and the viewport agree (the pane scrolled back `sb` rows,
/// as on the last frame, and the viewport `sb` rows above the bottom of
/// `used`), a frame changes nothing.
pub proof fn lemma_sync_settles(used: usize, sb: usize, last_max: usize, view_offset: usize)
    requires
        0 < sb <= used,
        view_offset == used - sb,
    ensures
        spec_sync_step(used, sb, sb, last_max, view_offset) == ScrollSyncStep::Keep,
{
}

/// A pane at its bottom whose viewport is at (or past) the last bottom keeps
/// following the tail: the viewport goes to the end, the pane stays put.
pub proof fn lemma_bottom_follows_tail(used: usize, last_sb: usize, last_max: usize, view_offset: usize)
    requires
        view_offset + 1 >= last_max,
    ensures
        spec_sync_step(used, 0, last_sb, last_max, view_offset) == ScrollSyncStep::ViewportTo(usize::MAX),
{
}

/// The scrollback after scrolling `delta` rows (up is positive) from
/// `current`, kept within `[0, len]`.
pub open spec fn spec_scrolled_scrollback(current: int, delta: int, len: int) -> int {
    let next = current + delta;
    if next < 0 { 0 } else if next > len { len } else { next }
}

/// The sync step of a frame (see [`spec_sync_step`]).
pub fn sync_step(used: usize, current_sb: usize, last_sb: usize, last_max: usize, view_offset: usize) -> (r: ScrollSyncStep)
    ensures
        r == spec_sync_step(used, current_sb, last_sb, last_max, view_offset),
{
    if current_sb == 0 {
        if view_offset < last_max.saturating_sub(1) {
            ScrollSyncStep::SetScrollback(used.saturating_sub(view_offset))
        } else {
            ScrollSyncStep::ViewportTo(usize::MAX)
        }
    } else if current_sb != last_sb {
        ScrollSyncStep::ViewportTo(used.saturating_sub(current_sb))
    } else {
        let target = used.saturating_sub(view_offset);
        if target != current_sb {
            ScrollSyncStep::SetScrollback(target)
        } else {
            ScrollSyncStep::Keep
        }
    }
}

/// The scrollback after a scroll of `delta` rows (see
/// [`spec_scrolled_scrollback`]).
pub fn scrolled_scrollback(current: usize, delta: isize, len: usize) -> (r: usize)
    requires
        current <= isize::MAX,
        len <= isize::MAX,
        isize::MIN <= current + delta <= isize::MAX,
    ensures
        r == spec_scrolled_scrollback(current as int, delta as int, len as int),
{
    let next: isize = current as isize + delta;
    if next < 0 {
        0
    } else if next > len as isize {
        len
    } else {
        next as usize
    }
}

/// The logical `(row, column)` of the cell `(column, row)` of a terminal
/// drawn at `area` with `used` rows of scrollback, scrolled back
/// `scrollback` rows: the point is clamped into the area, and rows count
/// from the top of the scrollback. None for an empty area.
pub open spec fn spec_logical_position(area: Rect, column: u16, row: u16, used: usize, scrollback: usize) -> Option<(int, int)> {
    if area.width == 0 || area.height == 0 {
        None
    } else {
        let max_x = sat_add_u16(area.x as int, area.width as int) - 1;
        let max_y = sat_add_u16(area.y as int, area.height as int) - 1;
        let c = if column < area.x { area.x as int } else if column > max_x { max_x } else { column as int };
        let r = if row < area.y { area.y as int } else if row > max_y { max_y } else { row as int };
        let base = sat_sub(used as int, scrollback as int);
        let logical_row = if base + (r - area.y) > usize::MAX { usize::MAX as int } else { base + (r - area.y) };
        Some((logical_row, c - area.x))
    }
}

/// The logical position of a screen cell (see [`spec_logical_position`]).
pub fn logical_position(area: Rect, column: u16, row: u16, used: usize, scrollback: usize) -> (r: Option<(usize, usize)>)
    requires
        area.width == 0 || area.height == 0 || (area.x < u16::MAX && area.y < u16::MAX),
    ensures
        r == (match spec_logical_position(area, column, row, used, scrollback) {
            Some((lr, lc)) => Some((lr as usize, lc as usize)),
            None => None,
        }),
{
    if area.width == 0 || area.height == 0 {
        return None;
    }
    let max_x = area.x.saturating_add(area.width) - 1;
    let max_y = area.y.saturating_add(area.height) - 1;
    let c = if column < area.x { area.x } else if column > max_x { max_x } else { column };
    let r = if row < area.y { area.y } else if row > max_y { max_y } else { row };
    let local_col = (c - area.x) as usize;
    let local_row = (r - area.y) as usize;
    let base = used.saturating_sub(scrollback);
    Some((base.saturating_add(local_row), local_col))
}

/// The scroll a key asks of a terminal: Shift with PageUp scrolls ten rows
/// back, with PageDown ten rows forward, unless the alternate screen is
/// showing (it has no scrollback); any other key goes to the program.
pub fn shift_page_scroll(code: KeyCode, shift: bool, alternate_screen: bool) -> (r: Option<isize>)
    ensures
        r == (if shift && !alternate_screen && code == KeyCode::PageUp {
            Some(10isize)
        } else if shift && !alternate_screen && code == KeyCode::PageDown {
            Some(-10isize)
        } else {
            None
        }),
{
    if !shift || alternate_screen {
        return None;
    }
    match code {
        KeyCode::PageUp => Some(10isize),
        KeyCode::PageDown => Some(-10isize),
        _ => None,
    }
}

impl TerminalScrollSync {
    /// Nothing remembered yet.
    pub fn new() -> (r: Self)
        ensures
            r.last_scrollback == 0,
            r.last_max_scrollback == 0,
    {
        TerminalScrollSync { last_scrollback: 0, last_max_scrollback: 0 }
    }

    pub fn set_last_scrollback(&mut self, val: usize)
        ensures
            *final(self) == (TerminalScrollSync { last_scrollback: val, ..*old(self) }),
    {
        self.last_scrollback = val;
    }

    pub fn set_last_max_scrollback(&mut self, val: usize)
        ensures
            *final(self) == (TerminalScrollSync { last_max_scrollback: val, ..*old(self) }),
    {
        self.last_max_scrollback = val;
    }

    /// Plan the scroll sync of a frame `view_height` rows tall: the content
    /// height to report to the viewport (the scrollback in use and the
    /// screen) and the step to take. There is nothing to do on the
    /// alternate screen or without a viewport; else the capacity in use is
    /// remembered.
    pub fn sync(
        &mut self,
        alternate_screen: bool,
        has_viewport: bool,
        used: usize,
        view_height: u16,
        current_sb: usize,
        view_offset: usize,
    ) -> (r: Option<(usize, ScrollSyncStep)>)
        requires
            used + view_height <= usize::MAX,
        ensures
            alternate_screen || !has_viewport ==> r is None && *final(self) == *old(self),
            !alternate_screen && has_viewport ==> r == Some(
                (
                    (used + view_height) as usize,
                    spec_sync_step(used, current_sb, old(self).last_scrollback, old(self).last_max_scrollback, view_offset),
                ),
            ) && *final(self) == (TerminalScrollSync { last_max_scrollback: used, ..*old(self) }),
    {
        if alternate_screen || !has_viewport {
            return None;
        }
        let total = used + view_height as usize;
        let step = sync_step(used, current_sb, self.last_scrollback, self.last_max_scrollback, view_offset);
        self.last_max_scrollback = used;
        Some((total, step))
    }

    /// End a frame with the pane scrolled back `scrollback` rows: it is
    /// remembered, and the cursor shows only at the bottom.
    pub fn finish_frame(&mut self, scrollback: usize) -> (show_cursor: bool)
        ensures
            show_cursor == (scrollback == 0),
            *final(self) == (TerminalScrollSync { last_scrollback: scrollback, ..*old(self) }),
    {
        self.last_scrollback = scrollback;
        scrollback == 0
    }
}

impl Default for TerminalScrollSync {
    /// The same as [`TerminalScrollSync::new`].
    fn default() -> (r: Self)
        ensures
            r.last_scrollback == 0,
            r.last_max_scrollback == 0,
    {
        Self::new()
    }
}

} // verus!
