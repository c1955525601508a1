//! A text view: lines of styled spans, optionally wrapped to the viewport
//! width, with links found by painting link ids as colours.
use vstd::prelude::*;
use crate::text::{push_str, str_width, unicode_str_width};

verus! {

/// A text renderer's content and settings: each line is a list of spans
/// (their styles stay with the renderer that paints them).
pub struct TextRendererComponent {
    pub lines: Vec<Vec<String>>,
    pub wrap: bool,
    pub selection_enabled: bool,
}

/// The columns a line of `spans` occupies: the sum of its spans' widths.
pub open spec fn line_width(spans: Seq<String>) -> int
    decreases spans.len(),
{
    if spans.len() == 0 {
        0
    } else {
        line_width(spans.drop_last()) + unicode_str_width(spans.last()@)
    }
}

/// The rows a line `w` columns wide takes when wrapped at `usable` columns
/// (an empty line still takes one).
pub open spec fn wrapped_rows(w: int, usable: int) -> int {
    if w == 0 { 1 } else { (w + usable - 1) / usable }
}

/// The rows the first `n` lines take: wrapped at `usable` columns, or one
/// each without wrapping.
pub open spec fn rows_before(widths: Seq<int>, wrap: bool, usable: int, n: int) -> int
    decreases n,
{
    if n <= 0 {
        0
    } else {
        rows_before(widths, wrap, usable, n - 1) + if wrap { wrapped_rows(widths[n - 1], usable) } else { 1 }
    }
}

/// The widths of `lines`.
pub open spec fn line_widths(lines: Seq<Vec<String>>) -> Seq<int> {
    Seq::new(lines.len(), |i: int| line_width(lines[i]@))
}

/// The concatenation of `spans`.
pub open spec fn joined(spans: Seq<String>) -> Seq<char>
    decreases spans.len(),
{
    if spans.len() == 0 {
        Seq::empty()
    } else {
        joined(spans.drop_last()) + spans.last()@
    }
}

/// The colour channels a link id is painted with: its three low bytes,
/// high to low.
pub open spec fn spec_link_rgb(id: u32) -> (u8, u8, u8) {
    (((id >> 16u32) & 0xFFu32) as u8, ((id >> 8u32) & 0xFFu32) as u8, (id & 0xFFu32) as u8)
}

/// The link id a colour stands for (`None` for black, which no link has).
pub open spec fn spec_link_id(r: u8, g: u8, b: u8) -> Option<u32> {
    let id = ((r as u32) << 16u32) | ((g as u32) << 8u32) | (b as u32);
    if id == 0 { None } else { Some(id) }
}

/// The colour channels link `id` is painted with (see [`spec_link_rgb`]).
pub fn encode_link_color(id: u32) -> (r: (u8, u8, u8))
    requires
        0 < id <= 0x00FF_FFFF,
    ensures
        r == spec_link_rgb(id),
{
    (((id >> 16) & 0xFF) as u8, ((id >> 8) & 0xFF) as u8, (id & 0xFF) as u8)
}

/// The link id a painted colour stands for (see [`spec_link_id`]).
pub fn decode_link_color(r: u8, g: u8, b: u8) -> (id: Option<u32>)
    ensures
        id == spec_link_id(r, g, b),
{
    let id = ((r as u32) << 16) | ((g as u32) << 8) | (b as u32);
    if id == 0 { None } else { Some(id) }
}

/// Painting a link id and reading the colour back gives the id again, and
/// every id read back from a colour paints that colour: the encoding loses
/// nothing for the ids it is used with.
pub proof fn lemma_link_color_round_trip(id: u32, r: u8, g: u8, b: u8)
    ensures
        0 < id <= 0x00FF_FFFF ==> ({
            let c = spec_link_rgb(id);
            spec_link_id(c.0, c.1, c.2) == Some(id)
        }),
        spec_link_id(r, g, b) matches Some(i) ==> spec_link_rgb(i) == (r, g, b) && 0 < i <= 0x00FF_FFFF,
{
    let c = spec_link_rgb(id);
    assert(0 < id <= 0x00FF_FFFF ==> ((((id >> 16u32) & 0xFFu32) as u8) as u32) << 16u32 | ((((id >> 8u32)
        & 0xFFu32) as u8) as u32) << 8u32 | (((id & 0xFFu32) as u8) as u32) == id) by (bit_vector);
    let i = ((r as u32) << 16u32) | ((g as u32) << 8u32) | (b as u32);
    assert((((i >> 16u32) & 0xFFu32) as u8) == r && (((i >> 8u32) & 0xFFu32) as u8) == g && ((i & 0xFFu32) as u8)
        == b && i <= 0x00FF_FFFF) by (bit_vector)
        requires
            i == ((r as u32) << 16u32) | ((g as u32) << 8u32) | (b as u32),
    ;
}

fn span_width(spans: &Vec<String>) -> (r: usize)
    requires
        line_width(spans@) <= usize::MAX,
    ensures
        r == line_width(spans@),
{
    let mut total: usize = 0;
    let mut k: usize = 0;
    while k < spans.len()
        invariant
            k <= spans@.len(),
            total == line_width(spans@.take(k as int)),
            line_width(spans@) <= usize::MAX,
        decreases spans@.len() - k,
    {
        proof {
            assert(spans@.take(k + 1).drop_last() =~= spans@.take(k as int));
            lemma_line_width_prefix(spans@, k as int + 1);
        }
        let w = str_width(spans[k].as_str());
        total = total + w;
        k = k + 1;
    }
    proof {
        assert(spans@.take(k as int) =~= spans@);
    }
    total
}

proof fn lemma_line_width_prefix(spans: Seq<String>, k: int)
    requires
        0 <= k <= spans.len(),
    ensures
        0 <= line_width(spans.take(k)) <= line_width(spans),
    decreases spans.len(),
{
    if spans.len() > 0 {
        if k == spans.len() {
            assert(spans.take(k) =~= spans);
            lemma_line_width_prefix(spans.drop_last(), spans.len() - 1);
            assert(spans.drop_last().take(spans.len() - 1) =~= spans.drop_last());
        } else {
            lemma_line_width_prefix(spans.drop_last(), k);
            assert(spans.drop_last().take(k) =~= spans.take(k));
        }
    }
}

impl TextRendererComponent {
    /// One empty line, wrapped, selection off.
    pub fn new() -> (r: Self)
        ensures
            r.lines@.len() == 1,
            r.lines@[0]@.len() == 1,
            r.lines@[0]@[0]@ == Seq::<char>::empty(),
            r.wrap,
            !r.selection_enabled,
    {
        let mut first: Vec<String> = Vec::new();
        first.push(String::new());
        let mut lines: Vec<Vec<String>> = Vec::new();
        lines.push(first);
        proof {
            reveal_strlit("");
        }
        TextRendererComponent { lines, wrap: true, selection_enabled: false }
    }

    /// Replace the text.
    pub fn set_text(&mut self, lines: Vec<Vec<String>>)
        ensures
            final(self).lines == lines,
            final(self).wrap == old(self).wrap,
            final(self).selection_enabled == old(self).selection_enabled,
    {
        self.lines = lines;
    }

    /// Wrap long lines at the viewport width, or not.
    pub fn set_wrap(&mut self, wrap: bool)
        ensures
            final(self).wrap == wrap,
            final(self).lines == old(self).lines,
            final(self).selection_enabled == old(self).selection_enabled,
    {
        self.wrap = wrap;
    }

    /// Turn text selection on or off; `true` when a selection in progress
    /// must be cleared (it was on and is now off).
    pub fn set_selection_enabled(&mut self, enabled: bool) -> (clear: bool)
        ensures
            final(self).selection_enabled == enabled,
            final(self).lines == old(self).lines,
            final(self).wrap == old(self).wrap,
            clear == (old(self).selection_enabled && !enabled),
    {
        if self.selection_enabled == enabled {
            return false;
        }
        self.selection_enabled = enabled;
        !enabled
    }

    /// The text of each line, its spans joined.
    pub fn rendered_lines(&self) -> (r: Vec<String>)
        ensures
            r@.len() == self.lines@.len(),
            forall|i: int| 0 <= i < r@.len() ==> #[trigger] r@[i]@ == joined(self.lines@[i]@),
    {
        let mut out: Vec<String> = Vec::new();
        let mut i: usize = 0;
        while i < self.lines.len()
            invariant
                i <= self.lines@.len(),
                out@.len() == i,
                forall|j: int| 0 <= j < i ==> #[trigger] out@[j]@ == joined(self.lines@[j]@),
            decreases self.lines@.len() - i,
        {
            let spans = &self.lines[i];
            let mut s = String::new();
            let mut k: usize = 0;
            while k < spans.len()
                invariant
                    k <= spans@.len(),
                    s@ == joined(spans@.take(k as int)),
                decreases spans@.len() - k,
            {
                proof {
                    assert(spans@.take(k + 1).drop_last() =~= spans@.take(k as int));
                }
                push_str(&mut s, spans[k].as_str());
                k = k + 1;
            }
            proof {
                assert(spans@.take(k as int) =~= spans@);
            }
            out.push(s);
            i = i + 1;
        }
        out
    }

    /// The viewport row where logical line `line_idx` starts in a view
    /// `width` columns wide (see [`Self::jump_to_logical_line`]).
    pub open spec fn jump_offset(self, line_idx: usize, width: u16) -> int {
        if self.lines@.len() == 0 || width == 0 {
            0
        } else {
            rows_before(
                line_widths(self.lines@),
                self.wrap,
                if width > 1 { width as int } else { 1 },
                if line_idx < self.lines@.len() { line_idx as int } else { self.lines@.len() as int },
            )
        }
    }

    /// The row [`Self::jump_to_logical_line`] gives, after checking that the
    /// text's widths and wrapped rows can be counted in `usize`; `None` when
    /// they cannot.
    pub fn checked_jump_to_logical_line(&self, line_idx: usize, width: u16) -> (offset: Option<usize>)
        ensures
            self.lines@.len() == 0 || width == 0 ==> offset == Some(0usize),
            self.lines@.len() > 0 && width > 0 ==> offset == (if measures_fit(self.lines@, self.wrap, width as int) {
                Some(self.jump_offset(line_idx, width) as usize)
            } else {
                None::<usize>
            }),
    {
        if self.lines.len() == 0 || width == 0 {
            return Some(0);
        }
        if !self.measures_fit(width as usize) {
            return None;
        }
        Some(self.jump_to_logical_line(line_idx, width))
    }

    /// The viewport row where logical line `line_idx` starts in a view
    /// `width` columns wide: the rows of the lines before it (at most all of
    /// them); `0` for no text or no width.
    pub fn jump_to_logical_line(&self, line_idx: usize, width: u16) -> (offset: usize)
        requires
            self.lines@.len() > 0 && width > 0 ==> measures_fit(
                self.lines@,
                self.wrap,
                if width > 1 { width as int } else { 1 },
            ),
        ensures
            offset == self.jump_offset(line_idx, width),
    {
        if self.lines.len() == 0 || width == 0 {
            return 0;
        }
        let usable: usize = if width > 1 { width as usize } else { 1 };
        let ghost widths = line_widths(self.lines@);
        let n = if line_idx < self.lines.len() { line_idx } else { self.lines.len() };
        let mut offset: usize = 0;
        let mut i: usize = 0;
        proof {
            assert forall|j: int| 0 <= j < widths.len() implies widths[j] >= 0 by {
                lemma_line_width_prefix(self.lines@[j]@, 0);
            }
        }
        while i < n
            invariant
                n <= self.lines@.len(),
                i <= n,
                usable >= 1,
                usable == (if width > 1 { width as int } else { 1 }),
                widths == line_widths(self.lines@),
                forall|j: int| 0 <= j < self.lines@.len() ==> line_width(#[trigger] self.lines@[j]@) <= usize::MAX,
                offset == rows_before(widths, self.wrap, usable as int, i as int),
                forall|j: int| 0 <= j < widths.len() ==> widths[j] >= 0,
                rows_before(widths, self.wrap, usable as int, self.lines@.len() as int) <= usize::MAX,
            decreases n - i,
        {
            proof {
                lemma_rows_mono(widths, self.wrap, usable as int, i + 1, self.lines@.len() as int);
            }
            if self.wrap {
                let w = span_width(&self.lines[i]);
                proof {
                    assert(widths[i as int] == w);
                }
                if w == 0 {
                    offset = offset + 1;
                } else {
                    proof {
                        lemma_wrapped_rows_fit(w as int, usable as int);
                    }
                    offset = offset + (w - 1) / usable + 1;
                }
            } else {
                offset = offset + 1;
            }
            i = i + 1;
        }
        offset
    }
}

/// The text a horizontal rule line carries in place of its content.
pub open spec fn rule_text() -> Seq<char> {
    "\0RULE\0"@
}

/// Whether a line of `spans` is a horizontal rule (one of its spans is the
/// rule placeholder).
pub open spec fn is_rule_line(spans: Seq<String>) -> bool {
    exists|k: int| 0 <= k < spans.len() && #[trigger] spans[k]@ == rule_text()
}

/// Which lines are rules.
pub open spec fn rule_lines(lines: Seq<Vec<String>>) -> Seq<bool> {
    Seq::new(lines.len(), |i: int| is_rule_line(lines[i]@))
}

/// The rows one line `w` columns wide takes in the view.
pub open spec fn line_rows(w: int, wrap: bool, usable: int) -> int {
    if wrap { wrapped_rows(w, usable) } else { 1 }
}

/// Where one line lands in the view: `rows` rows from view row `y` down,
/// showing the line from its wrapped row `skip` on; a rule takes one row.
#[derive(Debug, Clone, Copy, PartialEq, Eq, Structural)]
pub struct LineSlot {
    pub line: usize,
    pub skip: usize,
    pub y: u16,
    pub rows: u16,
    pub rule: bool,
}

/// What a render pass draws and reports: the content size it tells the
/// scroll host and where each shown line lands.
pub struct TextPlan {
    pub content_width: usize,
    pub content_height: usize,
    pub slots: Vec<LineSlot>,
}

/// The slots of the lines from `i` on, scrolled down `v_off` rows, in a
/// view `height` rows tall of which `used` rows are taken: lines wholly
/// above the view are passed over; the first line that reaches into the
/// view is shown from the row the view starts at, each further one from
/// its top, each as far as the view has rows left; a rule shows as one row
/// and only when its first row is in view; the pass stops once the view is
/// full.
pub open spec fn slots_from(
    widths: Seq<int>,
    rules: Seq<bool>,
    wrap: bool,
    usable: int,
    v_off: int,
    height: int,
    i: int,
    used: int,
) -> Seq<LineSlot>
    decreases widths.len() - i,
{
    if i < 0 || i >= widths.len() {
        seq![]
    } else {
        let cum = rows_before(widths, wrap, usable, i);
        let vh = line_rows(widths[i], wrap, usable);
        if cum + vh <= v_off {
            slots_from(widths, rules, wrap, usable, v_off, height, i + 1, used)
        } else if used >= height {
            seq![]
        } else {
            let start = if v_off > cum { v_off - cum } else { 0 };
            let rows = if vh - start < height - used { vh - start } else { height - used };
            if rules[i] {
                if start == 0 {
                    seq![LineSlot { line: i as usize, skip: 0, y: used as u16, rows: 1, rule: true }]
                        + slots_from(widths, rules, wrap, usable, v_off, height, i + 1, used + 1)
                } else {
                    slots_from(widths, rules, wrap, usable, v_off, height, i + 1, used)
                }
            } else {
                seq![LineSlot { line: i as usize, skip: start as usize, y: used as u16, rows: rows as u16, rule: false }]
                    + slots_from(widths, rules, wrap, usable, v_off, height, i + 1, used + rows)
            }
        }
    }
}

/// The widest of the first `n` widths (`0` for none).
pub open spec fn max_width(widths: Seq<int>, n: int) -> int
    decreases n,
{
    if n <= 0 {
        0
    } else {
        let m = max_width(widths, n - 1);
        if widths[n - 1] > m { widths[n - 1] } else { m }
    }
}

/// Whether the widths of `lines`, and the rows they take at `usable`
/// columns, can be counted in `usize`.
pub open spec fn measures_fit(lines: Seq<Vec<String>>, wrap: bool, usable: int) -> bool {
    &&& forall|i: int| 0 <= i < lines.len() ==> line_width(#[trigger] lines[i]@) <= usize::MAX
    &&& rows_before(line_widths(lines), wrap, usable, lines.len() as int) <= usize::MAX
}

/// The width of a line of `spans`, `None` when it does not fit `usize`.
fn checked_span_width(spans: &Vec<String>) -> (r: Option<usize>)
    ensures
        r == (if line_width(spans@) <= usize::MAX { Some(line_width(spans@) as usize) } else { None::<usize> }),
{
    let mut total: usize = 0;
    let mut k: usize = 0;
    while k < spans.len()
        invariant
            k <= spans@.len(),
            total == line_width(spans@.take(k as int)),
        decreases spans@.len() - k,
    {
        proof {
            assert(spans@.take(k + 1).drop_last() =~= spans@.take(k as int));
            lemma_line_width_prefix(spans@, k as int + 1);
        }
        let w = str_width(spans[k].as_str());
        match total.checked_add(w) {
            Some(t) => total = t,
            None => return None,
        }
        k = k + 1;
    }
    proof {
        assert(spans@.take(k as int) =~= spans@);
    }
    Some(total)
}

fn is_rule_spans(spans: &Vec<String>) -> (r: bool)
    ensures
        r == is_rule_line(spans@),
{
    let mut k: usize = 0;
    while k < spans.len()
        invariant
            k <= spans@.len(),
            forall|j: int| 0 <= j < k ==> #[trigger] spans@[j]@ != rule_text(),
        decreases spans@.len() - k,
    {
        if crate::markdown_viewer::str_eq(spans[k].as_str(), "\0RULE\0") {
            return true;
        }
        k = k + 1;
    }
    false
}

impl TextRendererComponent {
    /// Whether `p` is the plan of a render pass in a `width`×`height` view
    /// scrolled down `offset_y` rows (see [`Self::render_plan`]).
    pub open spec fn is_plan(self, width: u16, height: u16, offset_y: usize, p: TextPlan) -> bool {
        let widths = line_widths(self.lines@);
        let n = self.lines@.len() as int;
        let total = rows_before(widths, self.wrap, width as int, n);
        &&& p.content_width == (if self.wrap { width as int } else { max_width(widths, n) })
        &&& p.content_height == (if total > 1 { total } else { 1 })
        &&& p.slots@ == slots_from(
            widths,
            rule_lines(self.lines@),
            self.wrap,
            width as int,
            offset_y as int,
            height as int,
            0,
            0,
        )
    }

    /// The plan of a render pass (see [`Self::render_plan`]) after checking
    /// that the text's widths and wrapped rows can be counted in `usize`:
    /// `None` for an empty view, and `None` when they cannot.
    pub fn checked_render_plan(&self, width: u16, height: u16, offset_y: usize) -> (plan: Option<TextPlan>)
        ensures
            width == 0 || height == 0 ==> plan is None,
            width > 0 && height > 0 && !measures_fit(self.lines@, self.wrap, width as int) ==> plan is None,
            width > 0 && height > 0 && measures_fit(self.lines@, self.wrap, width as int) ==> match plan {
                None => false,
                Some(p) => self.is_plan(width, height, offset_y, p),
            },
    {
        if width == 0 || height == 0 {
            return None;
        }
        if !self.measures_fit(width as usize) {
            return None;
        }
        self.render_plan(width, height, offset_y)
    }

    /// Whether the widths of the lines, and the rows they take at `usable`
    /// columns, can be counted in `usize`.
    pub fn measures_fit(&self, usable: usize) -> (r: bool)
        requires
            usable >= 1,
        ensures
            r == measures_fit(self.lines@, self.wrap, usable as int),
    {
        let ghost widths = line_widths(self.lines@);
        let ghost n = self.lines@.len() as int;
        let mut total: usize = 0;
        let mut i: usize = 0;
        while i < self.lines.len()
            invariant
                i <= self.lines@.len(),
                n == self.lines@.len(),
                usable >= 1,
                widths == line_widths(self.lines@),
                forall|j: int| 0 <= j < i ==> line_width(#[trigger] self.lines@[j]@) <= usize::MAX,
                total == rows_before(widths, self.wrap, usable as int, i as int),
            decreases self.lines@.len() - i,
        {
            let w = match checked_span_width(&self.lines[i]) {
                Some(w) => w,
                None => return false,
            };
            proof {
                lemma_line_width_prefix(self.lines@[i as int]@, 0);
                assert(widths[i as int] == w);
            }
            let vh: usize = if self.wrap {
                if w == 0 {
                    1
                } else {
                    proof {
                        lemma_wrapped_rows_fit(w as int, usable as int);
                    }
                    (w - 1) / usable + 1
                }
            } else {
                1
            };
            assert(total + vh == rows_before(widths, self.wrap, usable as int, i + 1));
            match total.checked_add(vh) {
                Some(t) => total = t,
                None => {
                    proof {
                        assert forall|j: int| 0 <= j < widths.len() implies widths[j] >= 0 by {
                            lemma_line_width_prefix(self.lines@[j]@, 0);
                        }
                        lemma_rows_mono(widths, self.wrap, usable as int, i + 1, n);
                    }
                    return false;
                },
            }
            i = i + 1;
        }
        true
    }

    /// What a render pass in a `width`×`height` view scrolled down
    /// `offset_y` rows draws: nothing in an empty view; otherwise the content
    /// size (wrapped: the view width and the wrapped rows, at least one;
    /// unwrapped: the widest line and the line count, at least one) and the
    /// slot of each line shown (see [`slots_from`]), lines wrapping at the
    /// view width.
    pub fn render_plan(&self, width: u16, height: u16, offset_y: usize) -> (plan: Option<TextPlan>)
        requires
            width > 0 && height > 0 ==> measures_fit(self.lines@, self.wrap, width as int),
        ensures
            width == 0 || height == 0 ==> plan is None,
            width > 0 && height > 0 ==> match plan {
                None => false,
                Some(p) => self.is_plan(width, height, offset_y, p),
            },
    {
        if width == 0 || height == 0 {
            return None;
        }
        let usable: usize = width as usize;
        let ghost widths = line_widths(self.lines@);
        let ghost rules = rule_lines(self.lines@);
        let ghost n = self.lines@.len() as int;
        let ghost whole = slots_from(widths, rules, self.wrap, usable as int, offset_y as int, height as int, 0, 0);
        proof {
            assert forall|j: int| 0 <= j < widths.len() implies widths[j] >= 0 by {
                lemma_line_width_prefix(self.lines@[j]@, 0);
            }
        }
        let mut slots: Vec<LineSlot> = Vec::new();
        let mut cum: usize = 0;
        let mut widest: usize = 0;
        let mut used: u16 = 0;
        let mut full = false;
        let mut i: usize = 0;
        while i < self.lines.len()
            invariant
                i <= self.lines@.len(),
                n == self.lines@.len(),
                usable == width as int,
                usable >= 1,
                height >= 1,
                widths == line_widths(self.lines@),
                rules == rule_lines(self.lines@),
                whole == slots_from(widths, rules, self.wrap, usable as int, offset_y as int, height as int, 0, 0),
                forall|j: int| 0 <= j < n ==> line_width(#[trigger] self.lines@[j]@) <= usize::MAX,
                forall|j: int| 0 <= j < widths.len() ==> widths[j] >= 0,
                rows_before(widths, self.wrap, usable as int, n) <= usize::MAX,
                cum == rows_before(widths, self.wrap, usable as int, i as int),
                widest == max_width(widths, i as int),
                used <= height,
                !full ==> slots@ + slots_from(widths, rules, self.wrap, usable as int, offset_y as int, height as int, i as int, used as int) == whole,
                full ==> slots@ == whole,
            decreases self.lines@.len() - i,
        {
            proof {
                lemma_rows_mono(widths, self.wrap, usable as int, i + 1, n);
            }
            let w = span_width(&self.lines[i]);
            proof {
                assert(widths[i as int] == w);
            }
            let vh: usize = if self.wrap {
                if w == 0 {
                    1
                } else {
                    proof {
                        lemma_wrapped_rows_fit(w as int, usable as int);
                    }
                    (w - 1) / usable + 1
                }
            } else {
                1
            };
            assert(vh == line_rows(widths[i as int], self.wrap, usable as int));
            assert(cum + vh == rows_before(widths, self.wrap, usable as int, i + 1));
            if w > widest {
                widest = w;
            }
            if !full {
                let ghost rest = slots_from(widths, rules, self.wrap, usable as int, offset_y as int, height as int, i as int, used as int);
                if cum + vh <= offset_y {
                    // Wholly above the view.
                } else if used >= height {
                    full = true;
                    proof {
                        assert(rest =~= Seq::<LineSlot>::empty());
                        assert(slots@ + rest =~= slots@);
                    }
                } else {
                    let start: usize = if offset_y > cum { offset_y - cum } else { 0 };
                    let left: usize = (height - used) as usize;
                    let rows: usize = if vh - start < left { vh - start } else { left };
                    let rule = is_rule_spans(&self.lines[i]);
                    assert(rule == rules[i as int]);
                    if rule {
                        if start == 0 {
                            let slot = LineSlot { line: i, skip: 0, y: used, rows: 1, rule: true };
                            slots.push(slot);
                            used = used + 1;
                            proof {
                                assert(slots@ + slots_from(widths, rules, self.wrap, usable as int, offset_y as int, height as int, i + 1, used as int) =~= whole);
                            }
                        }
                    } else {
                        let slot = LineSlot { line: i, skip: start, y: used, rows: rows as u16, rule: false };
                        slots.push(slot);
                        used = used + rows as u16;
                        proof {
                            assert(slots@ + slots_from(widths, rules, self.wrap, usable as int, offset_y as int, height as int, i + 1, used as int) =~= whole);
                        }
                    }
                }
            }
            cum = cum + vh;
            i = i + 1;
        }
        proof {
            if !full {
                assert(slots_from(widths, rules, self.wrap, usable as int, offset_y as int, height as int, i as int, used as int) =~= Seq::<LineSlot>::empty());
                assert(slots@ + Seq::<LineSlot>::empty() =~= slots@);
            }
        }
        let content_width = if self.wrap { usable } else { widest };
        let content_height = if cum > 1 { cum } else { 1 };
        Some(TextPlan { content_width, content_height, slots })
    }
}

proof fn lemma_wrapped_rows_fit(w: int, usable: int)
    requires
        w >= 1,
        usable >= 1,
    ensures
        (w - 1) / usable + 1 == (w + usable - 1) / usable,
{
    vstd::arithmetic::div_mod::lemma_div_plus_one(w - 1, usable);
    assert(usable + (w - 1) == w + usable - 1);
}

proof fn lemma_rows_mono(widths: Seq<int>, wrap: bool, usable: int, k: int, m: int)
    requires
        usable >= 1,
        0 <= k <= m <= widths.len(),
        forall|i: int| 0 <= i < widths.len() ==> widths[i] >= 0,
    ensures
        rows_before(widths, wrap, usable, k) <= rows_before(widths, wrap, usable, m),
    decreases m - k,
{
    if k < m {
        lemma_rows_mono(widths, wrap, usable, k, m - 1);
        let w = widths[m - 1];
        if wrap && w > 0 {
            assert((w + usable - 1) / usable >= 0) by (nonlinear_arith)
                requires
                    w >= 1,
                    usable >= 1,
            ;
        }
    }
}

} // verus!
