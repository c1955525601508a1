use vstd::prelude::*;
use crate::action::{Action, EventResult, MouseButton};
use crate::scroll_view::contains_action;
use crate::text::{slice_by_columns, slice_cols};

verus! {

/// A selectable list of text rows with a title.
pub struct ListComponent {
    items: Vec<String>,
    selected: usize,
    title: String,
    last_selected: usize,
    last_viewport_rows: usize,
}

/// The selection rule of a list of `len` items: inside the list, or `0` when
/// the list is empty.
pub open spec fn selection_in_range(selected: int, len: int) -> bool {
    selected < len || (len == 0 && selected == 0)
}

/// `selected + delta` clamped into `[0, len - 1]` (for `len > 0`).
pub open spec fn clamped_step(selected: int, delta: int, len: int) -> int {
    if selected + delta < 0 {
        0
    } else if selected + delta > len - 1 {
        len - 1
    } else {
        selected + delta
    }
}

impl ListComponent {
    #[verifier::type_invariant]
    spec fn well_formed(self) -> bool {
        selection_in_range(self.selected as int, self.items@.len() as int)
    }

    /// The rows of the list.
    pub closed spec fn items_view(self) -> Seq<String> {
        self.items@
    }

    /// The index of the selected row.
    pub closed spec fn selected_view(self) -> nat {
        self.selected as nat
    }

    /// The title text.
    pub closed spec fn title_view(self) -> Seq<char> {
        self.title@
    }

    /// The selection index at which scroll-follow last ran.
    pub closed spec fn last_selected_view(self) -> nat {
        self.last_selected as nat
    }

    /// The viewport height at which scroll-follow last ran.
    pub closed spec fn last_viewport_rows_view(self) -> nat {
        self.last_viewport_rows as nat
    }

    pub fn new(title: &str) -> (r: Self)
        ensures
            r.items_view().len() == 0,
            r.selected_view() == 0,
            r.title_view() == title@,
            r.last_selected_view() == 0,
            r.last_viewport_rows_view() == 0,
    {
        Self {
            items: Vec::new(),
            selected: 0,
            title: title.to_string(),
            last_selected: 0,
            last_viewport_rows: 0,
        }
    }

    /// Replace the rows, resetting the selection and the scroll-follow guard.
    pub fn set_items(&mut self, items: Vec<String>)
        ensures
            final(self).items_view() == items@,
            final(self).selected_view() == 0,
            final(self).last_selected_view() == 0,
            final(self).last_viewport_rows_view() == 0,
            final(self).title_view() == old(self).title_view(),
    {
        self.selected = 0;
        self.items = items;
        self.last_selected = 0;
        self.last_viewport_rows = 0;
    }

    /// Replace the rows in place WITHOUT resetting the selection or the
    /// scroll-follow guard; a selection past the new end moves to the last row.
    pub fn update_items(&mut self, items: Vec<String>)
        ensures
            final(self).items_view() == items@,
            final(self).selected_view() == if old(self).selected_view() >= items@.len() {
                if items@.len() == 0 { 0 } else { (items@.len() - 1) as nat }
            } else {
                old(self).selected_view()
            },
            final(self).last_selected_view() == old(self).last_selected_view(),
            final(self).last_viewport_rows_view() == old(self).last_viewport_rows_view(),
            final(self).title_view() == old(self).title_view(),
    {
        proof {
            use_type_invariant(&*self);
        }
        let mut selected = self.selected;
        if selected >= items.len() {
            selected = items.len().saturating_sub(1);
        }
        self.selected = selected;
        self.items = items;
    }

    /// Append a row; the selection is unchanged.
    pub fn add_item(&mut self, item: String)
        ensures
            final(self).items_view() == old(self).items_view().push(item),
            final(self).selected_view() == old(self).selected_view(),
            final(self).title_view() == old(self).title_view(),
            final(self).last_selected_view() == old(self).last_selected_view(),
            final(self).last_viewport_rows_view() == old(self).last_viewport_rows_view(),
    {
        proof {
            use_type_invariant(&*self);
        }
        // The invariant must hold at every step, so the rows are moved out
        // (with the selection parked at 0) and moved back once extended.
        let selected = self.selected;
        self.selected = 0;
        let mut items: Vec<String> = Vec::new();
        std::mem::swap(&mut items, &mut self.items);
        items.push(item);
        self.items = items;
        self.selected = selected;
    }

    pub fn items(&self) -> (r: &[String])
        ensures
            r@ == self.items_view(),
    {
        self.items.as_slice()
    }

    /// The selected index; it always lies inside the list, or is `0` for an
    /// empty list.
    pub fn selected(&self) -> (r: usize)
        ensures
            r == self.selected_view(),
            selection_in_range(r as int, self.items_view().len() as int),
    {
        proof {
            use_type_invariant(self);
        }
        self.selected
    }

    /// The selected row, or `None` for an empty list.
    pub fn selected_item(&self) -> (r: Option<&String>)
        ensures
            r matches Some(s) ==> self.selected_view() < self.items_view().len()
                && *s == self.items_view()[self.selected_view() as int],
            r is None <==> self.items_view().len() == 0,
    {
        proof {
            use_type_invariant(self);
        }
        if self.selected < self.items.len() {
            Some(&self.items[self.selected])
        } else {
            None
        }
    }

    /// Move the selection by `delta` rows, clamped to the list.
    pub fn move_selection(&mut self, delta: isize)
        ensures
            final(self).selected_view() == if old(self).items_view().len() == 0 {
                old(self).selected_view() as int
            } else {
                clamped_step(old(self).selected_view() as int, delta as int, old(self).items_view().len() as int)
            },
            final(self).items_view() == old(self).items_view(),
            final(self).title_view() == old(self).title_view(),
            final(self).last_selected_view() == old(self).last_selected_view(),
            final(self).last_viewport_rows_view() == old(self).last_viewport_rows_view(),
    {
        self.bump_selection(delta);
    }

    pub fn bump_selection(&mut self, delta: isize)
        ensures
            final(self).selected_view() == if old(self).items_view().len() == 0 {
                old(self).selected_view() as int
            } else {
                clamped_step(old(self).selected_view() as int, delta as int, old(self).items_view().len() as int)
            },
            final(self).items_view() == old(self).items_view(),
            final(self).title_view() == old(self).title_view(),
            final(self).last_selected_view() == old(self).last_selected_view(),
            final(self).last_viewport_rows_view() == old(self).last_viewport_rows_view(),
    {
        proof {
            use_type_invariant(&*self);
        }
        if self.items.len() == 0 {
            return;
        }
        let max = self.items.len() - 1;
        let next: usize = if delta < 0 {
            let back: i128 = 0i128 - delta as i128;
            if back > self.selected as i128 { 0 } else { self.selected - back as usize }
        } else {
            let ahead = delta as usize;
            if ahead > max - self.selected { max } else { self.selected + ahead }
        };
        self.selected = next;
    }

    pub fn title(&self) -> (r: &str)
        ensures
            r@ == self.title_view(),
    {
        self.title.as_str()
    }

    /// Apply a navigation action: up/down by one, page up/down by five,
    /// home/end to the first/last row; other actions change nothing.
    pub fn update(&mut self, action: Action)
        ensures
            final(self).items_view() == old(self).items_view(),
            final(self).title_view() == old(self).title_view(),
            final(self).selected_view() == list_action_target(
                old(self).selected_view() as int,
                old(self).items_view().len() as int,
                action,
            ),
    {
        proof {
            use_type_invariant(&*self);
        }
        match action {
            Action::MenuUp | Action::MenuPrev => self.bump_selection(-1),
            Action::MenuDown | Action::MenuNext => self.bump_selection(1),
            Action::ScrollPageUp => self.bump_selection(-5),
            Action::ScrollPageDown => self.bump_selection(5),
            Action::ScrollHome => self.selected = 0,
            Action::ScrollEnd => {
                if self.items.len() > 0 {
                    self.selected = self.items.len() - 1;
                }
            },
            _ => {},
        }
    }

    /// The action a key asks of the list, given the bindings it matches:
    /// up or previous, down or next, page up, page down, home or end, the
    /// first that matches in that order; anything else (and any other event)
    /// is ignored.
    pub fn on_key(&self, is_key: bool, matched: &[Action]) -> (r: EventResult<Action>)
        ensures
            r == (if !is_key {
                EventResult::Ignored
            } else if matched@.contains(Action::MenuUp) || matched@.contains(Action::MenuPrev) {
                EventResult::Action(Action::MenuUp)
            } else if matched@.contains(Action::MenuDown) || matched@.contains(Action::MenuNext) {
                EventResult::Action(Action::MenuDown)
            } else if matched@.contains(Action::ScrollPageUp) {
                EventResult::Action(Action::ScrollPageUp)
            } else if matched@.contains(Action::ScrollPageDown) {
                EventResult::Action(Action::ScrollPageDown)
            } else if matched@.contains(Action::ScrollHome) {
                EventResult::Action(Action::ScrollHome)
            } else if matched@.contains(Action::ScrollEnd) {
                EventResult::Action(Action::ScrollEnd)
            } else {
                EventResult::Ignored
            }),
    {
        if !is_key {
            EventResult::Ignored
        } else if contains_action(matched, Action::MenuUp) || contains_action(matched, Action::MenuPrev) {
            EventResult::Action(Action::MenuUp)
        } else if contains_action(matched, Action::MenuDown) || contains_action(matched, Action::MenuNext) {
            EventResult::Action(Action::MenuDown)
        } else if contains_action(matched, Action::ScrollPageUp) {
            EventResult::Action(Action::ScrollPageUp)
        } else if contains_action(matched, Action::ScrollPageDown) {
            EventResult::Action(Action::ScrollPageDown)
        } else if contains_action(matched, Action::ScrollHome) {
            EventResult::Action(Action::ScrollHome)
        } else if contains_action(matched, Action::ScrollEnd) {
            EventResult::Action(Action::ScrollEnd)
        } else {
            EventResult::Ignored
        }
    }

    /// A left press on visible row `local_y` (under a vertical scroll of
    /// `offset_y` rows) selects that row when the list is focused and the row
    /// exists.
    pub fn on_mouse_press(
        &mut self,
        local_y: u16,
        button: MouseButton,
        focused: bool,
        offset_y: usize,
    ) -> (r: EventResult<Action>)
        ensures
            ({
                let hit = button == MouseButton::Left && focused
                    && offset_y + local_y < old(self).items_view().len();
                &&& hit ==> r == EventResult::<Action>::Consumed
                    && final(self).selected_view() == offset_y + local_y
                &&& !hit ==> r == EventResult::<Action>::Ignored
                    && final(self).selected_view() == old(self).selected_view()
            }),
            final(self).items_view() == old(self).items_view(),
            final(self).title_view() == old(self).title_view(),
    {
        if button == MouseButton::Left && focused && self.items.len() > 0 {
            if offset_y < self.items.len() && (local_y as usize) < self.items.len() - offset_y {
                self.selected = offset_y + local_y as usize;
                return EventResult::Consumed;
            }
        }
        EventResult::Ignored
    }
}

/// The selection a list of `len` rows moves to under `action`.
pub open spec fn list_action_target(selected: int, len: int, action: Action) -> int {
    let step = |d: int| if len == 0 { selected } else { clamped_step(selected, d, len) };
    match action {
        Action::MenuUp | Action::MenuPrev => step(-1),
        Action::MenuDown | Action::MenuNext => step(1),
        Action::ScrollPageUp => step(-5),
        Action::ScrollPageDown => step(5),
        Action::ScrollHome => 0,
        Action::ScrollEnd => if len > 0 { len - 1 } else { selected },
        _ => selected,
    }
}


/// The vertical offset that keeps row `selected` in a viewport of `rows`
/// rows scrolled to `offset`: scrolled up to a row above, down just enough
/// for a row below, unchanged for a visible row.
pub open spec fn followed_offset(offset: int, selected: int, rows: int) -> int {
    if selected < offset {
        selected
    } else if rows > 0 && selected >= offset + rows {
        selected - rows + 1
    } else {
        offset
    }
}

/// Following the selection leaves it visible in a non-empty viewport, and
/// moves the offset no further than needed.
pub proof fn lemma_follow_shows_selection(offset: int, selected: int, rows: int)
    requires
        rows > 0,
        0 <= offset,
        0 <= selected,
    ensures
        followed_offset(offset, selected, rows) <= selected < followed_offset(offset, selected, rows) + rows,
        offset <= selected < offset + rows ==> followed_offset(offset, selected, rows) == offset,
        0 <= followed_offset(offset, selected, rows),
{
}

/// The widest row in bytes among the first `n` rows.
pub open spec fn max_row_bytes(items: Seq<String>, n: int) -> nat
    decreases n,
{
    if n <= 0 {
        0
    } else {
        let w = (vstd::utf8::encode_utf8(items[n - 1]@).len() as usize) as nat;
        let m = max_row_bytes(items, n - 1);
        if w > m { w } else { m }
    }
}

/// The rows shown in a viewport: from row `offset_y`, at most `height`
/// rows, each cut to the `width` columns from `offset_x`, with whether it
/// is the selected row.
pub open spec fn shown_rows(items: Seq<String>, selected: int, offset_x: int, offset_y: int, width: int, height: int) -> Seq<(Seq<char>, bool)> {
    let avail = if items.len() > offset_y { items.len() - offset_y } else { 0 };
    let n = if avail < height { avail } else { height };
    Seq::new(
        n as nat,
        |i: int| (slice_cols(items[offset_y + i]@, 0, offset_x, offset_x + width), offset_y + i == selected),
    )
}

impl ListComponent {
    /// The selection at which scroll-follow last ran.
    pub fn last_selected(&self) -> (r: usize)
        ensures
            r == self.last_selected_view(),
    {
        self.last_selected
    }

    /// The viewport height at which scroll-follow last ran.
    pub fn last_viewport_rows(&self) -> (r: usize)
        ensures
            r == self.last_viewport_rows_view(),
    {
        self.last_viewport_rows
    }

    /// Scroll-follow for a frame: when the selection or the viewport height
    /// changed since the last frame, return the offset that shows the
    /// selection; otherwise keep `offset_y`, so a manual scroll persists.
    pub fn follow_selection(&mut self, offset_y: usize, viewport_rows: usize) -> (r: usize)
        ensures
            (old(self).selected_view() != old(self).last_selected_view() || viewport_rows
                != old(self).last_viewport_rows_view()) ==> r == followed_offset(
                offset_y as int,
                old(self).selected_view() as int,
                viewport_rows as int,
            ),
            (old(self).selected_view() == old(self).last_selected_view() && viewport_rows
                == old(self).last_viewport_rows_view()) ==> r == offset_y,
            final(self).last_selected_view() == old(self).selected_view(),
            final(self).last_viewport_rows_view() == viewport_rows,
            final(self).items_view() == old(self).items_view(),
            final(self).selected_view() == old(self).selected_view(),
            final(self).title_view() == old(self).title_view(),
    {
        proof {
            use_type_invariant(&*self);
        }
        let changed = self.selected != self.last_selected || viewport_rows != self.last_viewport_rows;
        let mut off = offset_y;
        if changed {
            if self.selected < offset_y {
                off = self.selected;
            } else if viewport_rows > 0 && self.selected - offset_y >= viewport_rows {
                off = self.selected - viewport_rows + 1;
            }
        }
        self.last_selected = self.selected;
        self.last_viewport_rows = viewport_rows;
        off
    }

    /// The content size the list reports: its widest row in bytes, and its
    /// number of rows.
    pub fn content_size(&self) -> (r: (usize, usize))
        ensures
            r.0 == max_row_bytes(self.items_view(), self.items_view().len() as int),
            r.1 == self.items_view().len(),
    {
        let mut w: usize = 0;
        let mut i: usize = 0;
        while i < self.items.len()
            invariant
                i <= self.items@.len(),
                w == max_row_bytes(self.items@, i as int),
            decreases self.items@.len() - i,
        {
            let b = self.items[i].as_str().len();
            if b > w {
                w = b;
            }
            i = i + 1;
        }
        (w, self.items.len())
    }

    /// The rows to draw in a viewport of `width` x `height` scrolled to
    /// `(offset_x, offset_y)` (see [`shown_rows`]).
    pub fn visible_rows(&self, offset_x: usize, offset_y: usize, width: usize, height: usize) -> (r: Vec<(String, bool)>)
        requires
            offset_x + width <= usize::MAX,
        ensures
            r@.map_values(|e: (String, bool)| (e.0@, e.1)) == shown_rows(
                self.items_view(),
                self.selected_view() as int,
                offset_x as int,
                offset_y as int,
                width as int,
                height as int,
            ),
    {
        let mut out: Vec<(String, bool)> = Vec::new();
        let mut i: usize = 0;
        let n: usize = if self.items.len() > offset_y {
            let avail = self.items.len() - offset_y;
            if avail < height { avail } else { height }
        } else {
            0
        };
        proof {
            assert(n == 0 || offset_y + n <= self.items@.len());
        }
        while i < n
            invariant
                i <= n,
                n <= self.items@.len(),
                n == 0 || offset_y + n <= self.items@.len(),
                out@.map_values(|e: (String, bool)| (e.0@, e.1)) == shown_rows(
                    self.items@,
                    self.selected as int,
                    offset_x as int,
                    offset_y as int,
                    width as int,
                    height as int,
                ).take(i as int),
                n == shown_rows(self.items@, self.selected as int, offset_x as int, offset_y as int, width as int, height as int).len(),
            decreases n - i,
        {
            let len = self.items.len();
            assert(offset_y + i < len);
            let row = offset_y + i;
            let text = slice_by_columns(self.items[row].as_str(), offset_x, width);
            let ghost before = out@;
            out.push((text, row == self.selected));
            i = i + 1;
            proof {
                let rows = shown_rows(
                    self.items@,
                    self.selected as int,
                    offset_x as int,
                    offset_y as int,
                    width as int,
                    height as int,
                );
                assert(rows[i - 1] == (text@, row == self.selected));
                assert(rows.take(i as int) =~= rows.take(i - 1).push(rows[i - 1]));
                assert(out@.map_values(|e: (String, bool)| (e.0@, e.1)) =~= before.map_values(|e: (String, bool)| (e.0@, e.1)).push((text@, row == self.selected)));
                assert(out@.map_values(|e: (String, bool)| (e.0@, e.1)) =~= shown_rows(
                    self.items@,
                    self.selected as int,
                    offset_x as int,
                    offset_y as int,
                    width as int,
                    height as int,
                ).take(i as int));
            }
        }
        proof {
            assert(shown_rows(self.items@, self.selected as int, offset_x as int, offset_y as int, width as int, height as int).take(
                n as int,
            ) =~= shown_rows(self.items@, self.selected as int, offset_x as int, offset_y as int, width as int, height as int));
        }
        out
    }
}

} // verus!
