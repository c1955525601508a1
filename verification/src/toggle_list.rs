use vstd::prelude::*;
use crate::action::{Action, EventResult};
use crate::list::{clamped_step, selection_in_range};

verus! {

/// One row of a toggle list: an identifier, a label and a check mark.
#[derive(Clone)]
pub struct ToggleItem {
    pub id: String,
    pub label: String,
    pub checked: bool,
}

/// A list of check-box rows with one selected row.
pub struct ToggleListComponent {
    items: Vec<ToggleItem>,
    selected: usize,
    title: String,
}

impl ToggleListComponent {
    /// The selection lies inside the list, or is `0` for an empty list.
    pub closed spec fn wf(self) -> bool {
        selection_in_range(self.selected as int, self.items@.len() as int)
    }

    /// The rows of the list.
    pub closed spec fn items_view(self) -> Seq<ToggleItem> {
        self.items@
    }

    /// The index of the selected row.
    pub closed spec fn selected_view(self) -> nat {
        self.selected as nat
    }

    /// The title text.
    pub closed spec fn title_view(self) -> Seq<char> {
        self.title@
    }

    pub fn new(title: &str) -> (r: Self)
        ensures
            r.wf(),
            r.items_view().len() == 0,
            r.selected_view() == 0,
            r.title_view() == title@,
    {
        Self { items: Vec::new(), selected: 0, title: title.to_string() }
    }

    /// Replace the rows; a selection past the new end moves to the last row.
    pub fn set_items(&mut self, items: Vec<ToggleItem>)
        ensures
            final(self).wf(),
            final(self).items_view() == items@,
            final(self).selected_view() == if old(self).selected_view() >= items@.len() {
                if items@.len() == 0 { 0 } else { (items@.len() - 1) as nat }
            } else {
                old(self).selected_view()
            },
            final(self).title_view() == old(self).title_view(),
    {
        self.items = items;
        if self.selected >= self.items.len() {
            self.selected = self.items.len().saturating_sub(1);
        }
    }

    pub fn items(&self) -> (r: &[ToggleItem])
        ensures
            r@ == self.items_view(),
    {
        self.items.as_slice()
    }

    /// Mutable access to the rows (their number cannot change through it).
    pub fn items_mut(&mut self) -> (r: &mut [ToggleItem])
        ensures
            r@ == old(self).items_view(),
            final(self).items_view() == final(r)@,
            final(self).selected_view() == old(self).selected_view(),
            final(self).title_view() == old(self).title_view(),
    {
        self.items.as_mut_slice()
    }

    pub fn selected(&self) -> (r: usize)
        ensures
            r == self.selected_view(),
    {
        self.selected
    }

    /// Select `selected`, clamped to the last row (`0` for an empty list).
    pub fn set_selected(&mut self, selected: usize)
        ensures
            final(self).wf(),
            final(self).selected_view() == if old(self).items_view().len() == 0 {
                0
            } else if selected >= old(self).items_view().len() {
                (old(self).items_view().len() - 1) as nat
            } else {
                selected as nat
            },
            final(self).items_view() == old(self).items_view(),
            final(self).title_view() == old(self).title_view(),
    {
        let last = self.items.len().saturating_sub(1);
        self.selected = if selected < last { selected } else { last };
    }

    /// Move the selection by `delta` rows, clamped to the list.
    pub fn move_selection(&mut self, delta: isize)
        ensures
            old(self).wf() ==> final(self).wf(),
            final(self).selected_view() == toggle_step(
                old(self).selected_view() as int,
                delta as int,
                old(self).items_view().len() as int,
            ),
            final(self).items_view() == old(self).items_view(),
            final(self).title_view() == old(self).title_view(),
    {
        self.bump_selection(delta);
    }

    pub fn bump_selection(&mut self, delta: isize)
        ensures
            old(self).wf() ==> final(self).wf(),
            final(self).selected_view() == toggle_step(
                old(self).selected_view() as int,
                delta as int,
                old(self).items_view().len() as int,
            ),
            final(self).items_view() == old(self).items_view(),
            final(self).title_view() == old(self).title_view(),
    {
        if self.items.len() == 0 {
            self.selected = 0;
            return;
        }
        if delta < 0 {
            let back: i128 = 0i128 - delta as i128;
            self.selected = if back > self.selected as i128 { 0 } else { self.selected - back as usize };
        } else {
            let max = self.items.len() - 1;
            let ahead = delta as usize;
            self.selected = if ahead > max || self.selected > max - ahead {
                max
            } else {
                self.selected + ahead
            };
        }
    }

    /// Flip the check mark of the selected row; `false` when there is none.
    pub fn toggle_selected(&mut self) -> (r: bool)
        ensures
            r == (old(self).selected_view() < old(self).items_view().len()),
            r ==> final(self).items_view() == old(self).items_view().update(
                old(self).selected_view() as int,
                ToggleItem {
                    checked: !old(self).items_view()[old(self).selected_view() as int].checked,
                    ..old(self).items_view()[old(self).selected_view() as int]
                },
            ),
            !r ==> final(self).items_view() == old(self).items_view(),
            final(self).selected_view() == old(self).selected_view(),
            final(self).title_view() == old(self).title_view(),
            old(self).wf() ==> final(self).wf(),
    {
        if self.selected < self.items.len() {
            let checked = self.items[self.selected].checked;
            self.items[self.selected].checked = !checked;
            return true;
        }
        false
    }

    /// Apply a navigation or toggle action: up/down by one, page up/down by
    /// five, home/end to the first/last row, toggle the selected row.
    pub fn update(&mut self, action: Action)
        ensures
            old(self).wf() ==> final(self).wf(),
            final(self).title_view() == old(self).title_view(),
            action != Action::ToggleSelection ==> final(self).items_view() == old(self).items_view(),
            action == Action::ToggleSelection ==> final(self).selected_view() == old(self).selected_view(),
            action != Action::ToggleSelection ==> final(self).selected_view() == toggle_action_target(
                old(self).selected_view() as int,
                old(self).items_view().len() as int,
                action,
            ),
    {
        match action {
            Action::MenuUp | Action::MenuPrev => self.bump_selection(-1),
            Action::MenuDown | Action::MenuNext => self.bump_selection(1),
            Action::ScrollPageUp => self.bump_selection(-5),
            Action::ScrollPageDown => self.bump_selection(5),
            Action::ScrollHome => self.selected = 0,
            Action::ScrollEnd => {
                if self.items.len() > 0 {
                    self.selected = self.items.len() - 1;
                }
            },
            Action::ToggleSelection => {
                self.toggle_selected();
            },
            _ => {},
        }
    }
}

/// The selection of a toggle list of `len` rows after a step of `delta`:
/// clamped into the list, and `0` for an empty list.
pub open spec fn toggle_step(selected: int, delta: int, len: int) -> int {
    if len == 0 {
        0
    } else if delta < 0 {
        if selected + delta < 0 { 0 } else { selected + delta }
    } else {
        if selected + delta > len - 1 { len - 1 } else { selected + delta }
    }
}

/// Within a well-formed toggle list a step is the plain clamped step.
pub proof fn lemma_toggle_step_clamps(selected: int, delta: int, len: int)
    requires
        len > 0,
        0 <= selected < len,
    ensures
        toggle_step(selected, delta, len) == clamped_step(selected, delta, len),
        0 <= toggle_step(selected, delta, len) < len,
{
}

/// The selection a toggle list of `len` rows moves to under a navigation
/// action.
pub open spec fn toggle_action_target(selected: int, len: int, action: Action) -> int {
    match action {
        Action::MenuUp | Action::MenuPrev => toggle_step(selected, -1, len),
        Action::MenuDown | Action::MenuNext => toggle_step(selected, 1, len),
        Action::ScrollPageUp => toggle_step(selected, -5, len),
        Action::ScrollPageDown => toggle_step(selected, 5, len),
        Action::ScrollHome => 0,
        Action::ScrollEnd => if len > 0 { len - 1 } else { selected },
        _ => selected,
    }
}

} // verus!
