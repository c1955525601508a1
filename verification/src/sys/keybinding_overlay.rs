//! The keybinding help overlay: every bound action with its key
//! combinations, grouped by category, in a dialog.
use vstd::prelude::*;
use crate::action::InputEvent;
use crate::dialog_overlay::DialogOverlayComponent;
use crate::geometry::Rect;
use crate::text::{char_count, push_str, spaces};

verus! {

/// The groups the bindings are listed in, in display order.
#[derive(Debug, Clone, Copy, PartialEq, Eq, Structural)]
pub enum Category {
    System,
    Navigation,
    Windows,
    Scrolling,
    Dialogs,
    Selection,
}

/// One bound action: its group, its name and the display of each key
/// combination bound to it.
pub struct BindingEntry {
    pub category: Category,
    pub action: String,
    pub combos: Vec<String>,
}

/// The keybinding overlay.
pub struct KeybindingOverlayComponent {
    pub dialog: DialogOverlayComponent,
    pub visible: bool,
    /// The lines listed.
    pub lines: Vec<String>,
    /// The area of the last frame.
    pub area: Rect,
    pub bindings: Vec<BindingEntry>,
}

/// The category at position `i` of the display order.
pub open spec fn category_at(i: int) -> Category {
    if i == 0 {
        Category::System
    } else if i == 1 {
        Category::Navigation
    } else if i == 2 {
        Category::Windows
    } else if i == 3 {
        Category::Scrolling
    } else if i == 4 {
        Category::Dialogs
    } else {
        Category::Selection
    }
}

/// The heading of a category.
pub open spec fn heading(c: Category) -> Seq<char> {
    match c {
        Category::System => " System"@,
        Category::Navigation => " Navigation"@,
        Category::Windows => " Windows & Panes"@,
        Category::Scrolling => " Scrolling"@,
        Category::Dialogs => " Dialogs & Menus"@,
        Category::Selection => " Selection"@,
    }
}

/// `parts` joined with `" / "` between them.
pub open spec fn joined_combos(parts: Seq<String>) -> Seq<char>
    decreases parts.len(),
{
    if parts.len() == 0 {
        Seq::empty()
    } else if parts.len() == 1 {
        parts[0]@
    } else {
        joined_combos(parts.drop_last()) + " / "@ + parts.last()@
    }
}

/// The line of one binding: indented, the action name padded to thirty
/// characters, then its combinations.
pub open spec fn entry_line(e: BindingEntry) -> Seq<char> {
    let name = e.action@;
    let pad = if name.len() < 30 { 30 - name.len() } else { 0 };
    "  "@ + name + spaces(pad as nat) + "  "@ + joined_combos(e.combos@)
}

/// The lines of the entries of category `c` among the first `n`, in order.
pub open spec fn category_lines(entries: Seq<BindingEntry>, c: Category, n: int) -> Seq<Seq<char>>
    decreases n,
{
    if n <= 0 {
        Seq::empty()
    } else {
        let before = category_lines(entries, c, n - 1);
        if entries[n - 1].category == c { before.push(entry_line(entries[n - 1])) } else { before }
    }
}

/// The listing of the first `k` categories: for each that has bindings, its
/// heading, a blank line, its bindings and a blank line.
pub open spec fn listing(entries: Seq<BindingEntry>, k: int) -> Seq<Seq<char>>
    decreases k,
{
    if k <= 0 {
        Seq::empty()
    } else {
        let c = category_at(k - 1);
        let body = category_lines(entries, c, entries.len() as int);
        if body.len() == 0 {
            listing(entries, k - 1)
        } else {
            listing(entries, k - 1) + seq![heading(c), Seq::empty()] + body + seq![Seq::<char>::empty()]
        }
    }
}

/// The lines of strings.
pub open spec fn views(lines: Seq<String>) -> Seq<Seq<char>> {
    Seq::new(lines.len(), |i: int| lines[i]@)
}

fn heading_of(c: Category) -> (r: String)
    ensures
        r@ == heading(c),
{
    let text = match c {
        Category::System => " System",
        Category::Navigation => " Navigation",
        Category::Windows => " Windows & Panes",
        Category::Scrolling => " Scrolling",
        Category::Dialogs => " Dialogs & Menus",
        Category::Selection => " Selection",
    };
    let mut s = String::new();
    push_str(&mut s, text);
    s
}

fn category_of(i: usize) -> (c: Category)
    ensures
        c == category_at(i as int),
{
    if i == 0 {
        Category::System
    } else if i == 1 {
        Category::Navigation
    } else if i == 2 {
        Category::Windows
    } else if i == 3 {
        Category::Scrolling
    } else if i == 4 {
        Category::Dialogs
    } else {
        Category::Selection
    }
}

fn format_entry(e: &BindingEntry) -> (r: String)
    ensures
        r@ == entry_line(*e),
{
    let mut s = String::new();
    push_str(&mut s, "  ");
    push_str(&mut s, e.action.as_str());
    let len = char_count(e.action.as_str());
    let mut pad: usize = if len < 30 { 30 - len } else { 0 };
    let ghost before = s@;
    let mut k: usize = 0;
    while k < pad
        invariant
            k <= pad,
            s@ == before + spaces(k as nat),
        decreases pad - k,
    {
        s.push(' ');
        k = k + 1;
        proof {
            assert(s@ =~= before + spaces(k as nat));
        }
    }
    push_str(&mut s, "  ");
    let mut j: usize = 0;
    let ghost head = s@;
    while j < e.combos.len()
        invariant
            j <= e.combos@.len(),
            s@ == head + joined_combos(e.combos@.take(j as int)),
        decreases e.combos@.len() - j,
    {
        proof {
            assert(e.combos@.take(j + 1).drop_last() =~= e.combos@.take(j as int));
        }
        if j > 0 {
            push_str(&mut s, " / ");
        }
        push_str(&mut s, e.combos[j].as_str());
        j = j + 1;
        proof {
            if j == 1 {
                assert(joined_combos(e.combos@.take(0)) =~= Seq::<char>::empty());
            }
            assert(s@ =~= head + joined_combos(e.combos@.take(j as int)));
        }
    }
    proof {
        reveal_strlit("  ");
        assert(e.combos@.take(j as int) =~= e.combos@);
        assert(s@ =~= entry_line(*e));
    }
    s
}

fn lines_of_category(entries: &Vec<BindingEntry>, c: Category) -> (r: Vec<String>)
    ensures
        views(r@) == category_lines(entries@, c, entries@.len() as int),
{
    let mut out: Vec<String> = Vec::new();
    let mut i: usize = 0;
    while i < entries.len()
        invariant
            i <= entries@.len(),
            views(out@) == category_lines(entries@, c, i as int),
        decreases entries@.len() - i,
    {
        if entries[i].category == c {
            let line = format_entry(&entries[i]);
            out.push(line);
        }
        i = i + 1;
        proof {
            assert(views(out@) =~= category_lines(entries@, c, i as int));
        }
    }
    out
}

/// The overlay's listing of `entries` (see [`listing`]).
pub fn build_lines(entries: &Vec<BindingEntry>) -> (r: Vec<String>)
    ensures
        views(r@) == listing(entries@, 6),
{
    let mut out: Vec<String> = Vec::new();
    let mut k: usize = 0;
    while k < 6
        invariant
            k <= 6,
            views(out@) == listing(entries@, k as int),
        decreases 6 - k,
    {
        let c = category_of(k);
        let body = lines_of_category(entries, c);
        if body.len() > 0 {
            let ghost prev = out@;
            out.push(heading_of(c));
            out.push(String::new());
            let mut j: usize = 0;
            while j < body.len()
                invariant
                    j <= body@.len(),
                    out@.len() == prev.len() + 2 + j,
                    views(out@) == views(prev) + seq![heading(c), Seq::<char>::empty()] + views(body@).take(j as int),
                decreases body@.len() - j,
            {
                let mut line = String::new();
                push_str(&mut line, body[j].as_str());
                let ghost before = out@;
                out.push(line);
                proof {
                    assert(views(out@) =~= views(before).push(body@[j as int]@));
                    assert(views(body@).take(j + 1) =~= views(body@).take(j as int).push(body@[j as int]@));
                }
                j = j + 1;
                proof {
                    assert(views(out@) =~= views(prev) + seq![heading(c), Seq::<char>::empty()] + views(body@).take(j as int));
                }
            }
            out.push(String::new());
            proof {
                reveal_strlit("");
                assert(views(body@).take(j as int) =~= views(body@));
                assert(views(out@) =~= listing(entries@, k + 1));
            }
        } else {
            proof {
                assert(views(body@).len() == 0);
            }
        }
        k = k + 1;
    }
    out
}

impl KeybindingOverlayComponent {
    /// A hidden overlay listing `bindings` in a dimming dialog that closes on
    /// a click outside.
    pub fn new(bindings: Vec<BindingEntry>) -> (r: Self)
        ensures
            !r.visible,
            r.bindings == bindings,
            views(r.lines@) == listing(bindings@, 6),
            r.dialog.width == 60 && r.dialog.height == 80,
            r.dialog.dim_backdrop,
            r.dialog.auto_close_on_outside_click,
            !r.dialog.visible,
    {
        let mut dialog = DialogOverlayComponent::new();
        dialog.set_size(60, 80);
        dialog.set_dim_backdrop(true);
        dialog.set_auto_close_on_outside_click(true);
        let lines = build_lines(&bindings);
        KeybindingOverlayComponent { dialog, visible: false, lines, area: Rect { x: 0, y: 0, width: 0, height: 0 }, bindings }
    }

    /// Show the overlay, listing the bindings afresh.
    pub fn show(&mut self)
        ensures
            final(self).visible,
            final(self).dialog.visible,
            views(final(self).lines@) == listing(old(self).bindings@, 6),
            final(self).bindings == old(self).bindings,
    {
        self.visible = true;
        self.dialog.set_visible(true);
        self.lines = build_lines(&self.bindings);
    }

    /// Hide the overlay.
    pub fn close(&mut self)
        ensures
            !final(self).visible,
            !final(self).dialog.visible,
            final(self).lines == old(self).lines,
            final(self).bindings == old(self).bindings,
    {
        self.visible = false;
        self.dialog.set_visible(false);
    }

    pub fn visible(&self) -> (r: bool)
        ensures
            r == self.visible,
    {
        self.visible
    }

    /// The overlay's own answer to an event: a key press bound to closing
    /// help closes it, and so does a press outside the dialog; `true` when
    /// it closed. A hidden overlay does nothing; other events go to the list.
    pub fn handle_close(&mut self, event: InputEvent, closes_help: bool) -> (closed: bool)
        ensures
            !old(self).visible ==> !closed && *final(self) == *old(self),
            closed ==> !final(self).visible,
            !closed ==> final(self).visible == old(self).visible,
            final(self).lines == old(self).lines,
            final(self).bindings == old(self).bindings,
            old(self).visible ==> closed == match event {
                InputEvent::Key(k) => closes_help,
                InputEvent::Mouse(m) => old(self).dialog.visible && old(self).dialog.auto_close_on_outside_click
                    && m.kind is Press && !crate::dialog_overlay::holds_cell(
                    crate::dialog_overlay::spec_rect_for(old(self).area, old(self).dialog.width, old(self).dialog.height),
                    m.column as int,
                    m.row as int,
                ),
                InputEvent::Other => false,
            },
    {
        if !self.visible {
            return false;
        }
        match event {
            InputEvent::Key(_) => {
                if closes_help {
                    self.close();
                    true
                } else {
                    false
                }
            },
            InputEvent::Mouse(_) => {
                if self.dialog.handle_click_outside(event, self.area) {
                    self.close();
                    true
                } else {
                    false
                }
            },
            InputEvent::Other => false,
        }
    }
}

} // verus!
