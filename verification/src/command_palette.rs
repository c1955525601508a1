//! A universal, fuzzy-searchable command palette: a search bar over a list
//! of commands, with separators between groups when no search is active.
//!
//! The host resolves the palette's command nodes (each a command with the
//! context it requires, or a separator) and, while a search is active, the
//! fuzzy ranking of the candidates; the palette filters by context, keeps
//! the separators tidy, tracks the query and the selection and answers keys.
use vstd::prelude::*;
use crate::list::followed_offset;
use crate::action::{no_modifiers, Action, EventResult, KeyCode, KeyEvent, KeyKind};
use crate::geometry::{sat_add_u16, sat_sub, Rect};
use crate::text::{char_count, chars_of, push_str};

verus! {

/// Removing the last character of a `String` returns it, and the text loses
/// it; an empty `String` gives `None` and stays empty.
pub assume_specification[ String::pop ](s: &mut String) -> (r: Option<char>)
    ensures
        old(s)@.len() == 0 ==> r is None && final(s)@ == old(s)@,
        old(s)@.len() > 0 ==> r == Some(old(s)@.last()) && final(s)@ == old(s)@.drop_last(),
;

/// A command as the palette lists it.
pub struct PaletteItem {
    pub stable_id: String,
    pub display_name: String,
    pub description: String,
    pub action: Action,
    pub icon: Option<&'static str>,
    pub disabled: bool,
}

/// A copy of `item`.
pub fn clone_item(item: &PaletteItem) -> (r: PaletteItem)
    ensures
        r == *item,
{
    PaletteItem {
        stable_id: item.stable_id.clone(),
        display_name: item.display_name.clone(),
        description: item.description.clone(),
        action: item.action,
        icon: item.icon,
        disabled: item.disabled,
    }
}

/// A resolved command node: the command, with its display name already
/// formatted for the current context, and the context bits it requires.
pub struct PaletteEntry {
    pub required_context: u64,
    pub item: PaletteItem,
}

/// One node of the palette's active sequence, as resolved by the host.
pub enum PaletteSource {
    Entry(PaletteEntry),
    Separator,
    /// A node the registry no longer knows.
    Missing,
}

/// One row of the palette's display list.
pub enum PaletteDisplayNode {
    Item(PaletteItem),
    Separator,
}

/// One entry of the cache the palette ranks from: a command available in
/// the current context, or a separator. The text a command is searched by
/// follows from it (see [`searchable_text`]).
pub enum PaletteCacheEntry {
    Item(PaletteItem),
    Separator,
}

/// The text a command is searched by: its icon, a space and its name, or
/// the name alone when it has no icon.
pub open spec fn spec_searchable(icon: Option<&'static str>, name: Seq<char>) -> Seq<char> {
    match icon {
        Some(i) => if i@.len() == 0 { name } else { i@ + seq![' '] + name },
        None => name,
    }
}

/// The text a command is searched by (see [`spec_searchable`]).
pub fn searchable_text(icon: Option<&'static str>, display_name: &str) -> (r: String)
    ensures
        r@ == spec_searchable(icon, display_name@),
{
    let mut out = String::new();
    match icon {
        Some(i) if !i.is_empty() => {
            push_str(&mut out, i);
            out.push(' ');
            push_str(&mut out, display_name);
            proof {
                assert(out@ =~= i@ + seq![' '] + display_name@);
            }
        },
        _ => {
            push_str(&mut out, display_name);
            proof {
                assert(out@ =~= display_name@);
            }
        },
    }
    out
}

/// Whether a command requiring `required` context bits is available under
/// `mask`.
pub open spec fn context_allows(mask: u64, required: u64) -> bool {
    mask & required == required
}

/// The cache after taking in one more node: a command available under
/// `mask` is appended; a separator is appended unless the cache is empty or
/// already ends in one; anything else leaves the cache as it was.
pub open spec fn collapse_step(acc: Seq<PaletteCacheEntry>, s: PaletteSource, mask: u64) -> Seq<PaletteCacheEntry> {
    match s {
        PaletteSource::Entry(e) => if context_allows(mask, e.required_context) {
            acc.push(PaletteCacheEntry::Item(e.item))
        } else {
            acc
        },
        PaletteSource::Separator => if acc.len() == 0 || acc.last() is Separator {
            acc
        } else {
            acc.push(PaletteCacheEntry::Separator)
        },
        PaletteSource::Missing => acc,
    }
}

/// The cache built from the first `n` nodes.
pub open spec fn collapse_prefix(src: Seq<PaletteSource>, n: int, mask: u64) -> Seq<PaletteCacheEntry>
    decreases n,
{
    if n <= 0 {
        seq![]
    } else {
        collapse_step(collapse_prefix(src, n - 1, mask), src[n - 1], mask)
    }
}

/// The cache built from all nodes, without a trailing separator.
pub open spec fn spec_cache(src: Seq<PaletteSource>, mask: u64) -> Seq<PaletteCacheEntry> {
    let c = collapse_prefix(src, src.len() as int, mask);
    if c.len() > 0 && c.last() is Separator { c.drop_last() } else { c }
}


/// A cache is tidy: it neither starts nor ends with a separator, and no two
/// separators are adjacent.
pub open spec fn tidy(c: Seq<PaletteCacheEntry>) -> bool {
    &&& (c.len() > 0 ==> !(c[0] is Separator))
    &&& (c.len() > 0 ==> !(c.last() is Separator))
    &&& forall|i: int| 0 <= i < c.len() - 1 ==> !(#[trigger] c[i] is Separator && c[i + 1] is Separator)
}

/// No leading separator and no two adjacent ones.
pub open spec fn prefix_tidy(c: Seq<PaletteCacheEntry>) -> bool {
    &&& (c.len() > 0 ==> !(c[0] is Separator))
    &&& forall|i: int| 0 <= i < c.len() - 1 ==> !(#[trigger] c[i] is Separator && c[i + 1] is Separator)
}

/// The commands of a cache, in order.
pub open spec fn cache_items(c: Seq<PaletteCacheEntry>) -> Seq<PaletteItem>
    decreases c.len(),
{
    if c.len() == 0 {
        seq![]
    } else {
        let r = cache_items(c.drop_last());
        match c.last() {
            PaletteCacheEntry::Item(it) => r.push(it),
            PaletteCacheEntry::Separator => r,
        }
    }
}

/// The commands among the first `n` nodes that are available under `mask`,
/// in order.
pub open spec fn available_items(src: Seq<PaletteSource>, n: int, mask: u64) -> Seq<PaletteItem>
    decreases n,
{
    if n <= 0 {
        seq![]
    } else {
        let r = available_items(src, n - 1, mask);
        match src[n - 1] {
            PaletteSource::Entry(e) => if context_allows(mask, e.required_context) { r.push(e.item) } else { r },
            _ => r,
        }
    }
}

proof fn lemma_collapse_prefix(src: Seq<PaletteSource>, n: int, mask: u64)
    requires
        0 <= n <= src.len(),
    ensures
        prefix_tidy(collapse_prefix(src, n, mask)),
        cache_items(collapse_prefix(src, n, mask)) == available_items(src, n, mask),
    decreases n,
{
    if n > 0 {
        lemma_collapse_prefix(src, n - 1, mask);
        let acc = collapse_prefix(src, n - 1, mask);
        let next = collapse_prefix(src, n, mask);
        match src[n - 1] {
            PaletteSource::Entry(e) => {
                if context_allows(mask, e.required_context) {
                    assert(next.drop_last() =~= acc);
                }
            },
            PaletteSource::Separator => {
                if !(acc.len() == 0 || acc.last() is Separator) {
                    assert(next.drop_last() =~= acc);
                    assert forall|i: int| 0 <= i < next.len() - 1 implies !(#[trigger] next[i] is Separator
                        && next[i + 1] is Separator) by {
                        if i == next.len() - 2 {
                            assert(next[i] == acc.last());
                        }
                    }
                }
            },
            PaletteSource::Missing => {},
        }
    }
}

/// The cache rebuilt from the host's nodes is tidy: separators only stand
/// between commands, one at a time.
pub proof fn lemma_cache_tidy(src: Seq<PaletteSource>, mask: u64)
    ensures
        tidy(spec_cache(src, mask)),
{
    lemma_collapse_prefix(src, src.len() as int, mask);
    let c = collapse_prefix(src, src.len() as int, mask);
    if c.len() > 0 && c.last() is Separator {
        let d = c.drop_last();
        if d.len() > 0 {
            assert(d.last() == c[c.len() - 2]);
        }
        assert forall|i: int| 0 <= i < d.len() - 1 implies !(#[trigger] d[i] is Separator && d[i + 1] is Separator) by {
            assert(d[i] == c[i] && d[i + 1] == c[i + 1]);
        }
    }
}

/// Rebuilding the cache keeps exactly the commands available in the
/// current context, in the host's order: separators are the only thing it
/// drops besides unavailable and missing commands.
pub proof fn lemma_cache_keeps_available_commands(src: Seq<PaletteSource>, mask: u64)
    ensures
        cache_items(spec_cache(src, mask)) == available_items(src, src.len() as int, mask),
{
    lemma_collapse_prefix(src, src.len() as int, mask);
    let c = collapse_prefix(src, src.len() as int, mask);
    if c.len() > 0 && c.last() is Separator {
        assert(cache_items(c) == cache_items(c.drop_last()));
    }
}

/// The display rows of a cache: each command as an item, each separator as
/// a separator.
pub open spec fn cache_rows(c: Seq<PaletteCacheEntry>) -> Seq<PaletteDisplayNode> {
    c.map_values(
        |e: PaletteCacheEntry|
            match e {
                PaletteCacheEntry::Item(it) => PaletteDisplayNode::Item(it),
                PaletteCacheEntry::Separator => PaletteDisplayNode::Separator,
            },
    )
}

/// The display rows of a ranked list: one item per command.
pub open spec fn item_rows(items: Seq<PaletteItem>) -> Seq<PaletteDisplayNode> {
    items.map_values(|it: PaletteItem| PaletteDisplayNode::Item(it))
}

/// `item` with its action replaced by closing the menu, unless `keep`.
pub open spec fn candidate_of(item: PaletteItem, keep: bool) -> PaletteItem {
    if keep { item } else { PaletteItem { action: Action::CloseMenu, ..item } }
}

/// The commands a ranking starts from: every command of the cache when no
/// query is typed, else the fuzzy matches `matched` (indices into the
/// cache's commands, those out of range skipped), in the matcher's order.
pub open spec fn spec_candidates(items: Seq<PaletteItem>, no_query: bool, matched: Seq<usize>, keep: bool) -> Seq<PaletteItem>
    decreases (if no_query { items.len() } else { matched.len() }),
{
    if no_query {
        items.map_values(|it: PaletteItem| candidate_of(it, keep))
    } else if matched.len() == 0 {
        seq![]
    } else {
        let r = spec_candidates(items, false, matched.drop_last(), keep);
        if (matched.last() as int) < items.len() { r.push(candidate_of(items[matched.last() as int], keep)) } else { r }
    }
}

/// The number of items among the first `k` rows.
pub open spec fn items_before(nodes: Seq<PaletteDisplayNode>, k: int) -> nat
    decreases k,
{
    if k <= 0 {
        0
    } else {
        items_before(nodes, k - 1) + if nodes[k - 1] is Item { 1nat } else { 0nat }
    }
}

/// The row of the `n`-th item, scanning from row `i` with `seen` items
/// passed.
pub open spec fn item_row_from(nodes: Seq<PaletteDisplayNode>, n: int, i: int, seen: int) -> Option<int>
    decreases nodes.len() - i,
{
    if i < 0 || i >= nodes.len() {
        None
    } else if nodes[i] is Item {
        if seen == n { Some(i) } else { item_row_from(nodes, n, i + 1, seen + 1) }
    } else {
        item_row_from(nodes, n, i + 1, seen)
    }
}

/// `(s + t - 1) mod t`: one step up, wrapping to the last.
pub open spec fn wrap_up(s: int, t: int) -> int {
    (s + t - 1) % t
}

/// `(s + 1) mod t`: one step down, wrapping to the first.
pub open spec fn wrap_down(s: int, t: int) -> int {
    (s + 1) % t
}

/// Moving the selection down and then up (or up and then down) lands where
/// it started.
pub proof fn lemma_wrap_round_trip(s: int, t: int)
    requires
        0 <= s < t,
    ensures
        wrap_up(wrap_down(s, t), t) == s,
        wrap_down(wrap_up(s, t), t) == s,
        0 <= wrap_down(s, t) < t,
        0 <= wrap_up(s, t) < t,
{
    if s + 1 < t {
        assert((s + 1) % t == s + 1) by (nonlinear_arith) requires 0 <= s + 1 < t;
        assert((s + 1 + t - 1) % t == s) by (nonlinear_arith) requires 0 <= s < t;
    } else {
        assert((s + 1) % t == 0) by (nonlinear_arith) requires s + 1 == t, s >= 0;
        assert((0 + t - 1) % t == s) by (nonlinear_arith) requires s == t - 1, t > 0;
    }
    if s > 0 {
        assert((s + t - 1) % t == s - 1) by (nonlinear_arith) requires 0 < s < t;
        assert((s - 1 + 1) % t == s) by (nonlinear_arith) requires 0 <= s < t;
    } else {
        assert((s + t - 1) % t == t - 1) by (nonlinear_arith) requires s == 0, t > 0;
        assert((t - 1 + 1) % t == 0) by (nonlinear_arith) requires t > 0;
    }
}

/// The palette's state: the query, the ranked commands and their display
/// rows, the selection, and the cache it ranks from.
pub struct CommandPaletteComponent {
    pub query: String,
    pub cursor: usize,
    pub filtered_items: Vec<PaletteItem>,
    /// The rows to display: the whole cache, separators included, when no
    /// query is typed; the ranked commands while searching.
    pub display_nodes: Vec<PaletteDisplayNode>,
    pub selected: usize,
    pub data_dirty: bool,
    pub query_dirty: bool,
    pub current_context_mask: u64,
    pub display_cache: Vec<PaletteCacheEntry>,
    /// Guards of the list's follow-the-selection scrolling.
    pub last_display_sel: usize,
    pub last_viewport_rows: usize,
}

/// The first `n` characters of `s` (all of it when shorter).
fn take_chars(s: &str, n: usize) -> (r: String)
    ensures
        r@ == s@.take(if s@.len() < n { s@.len() as int } else { n as int }),
{
    let chars = chars_of(s);
    let mut out = String::new();
    let mut k: usize = 0;
    while k < chars.len() && k < n
        invariant
            chars@ == s@,
            k <= chars@.len(),
            k <= n,
            out@ == chars@.take(k as int),
        decreases chars@.len() - k,
    {
        out.push(chars[k]);
        k = k + 1;
        proof {
            assert(chars@.take(k as int) =~= chars@.take(k - 1).push(chars@[k - 1]));
        }
    }
    out
}

fn ends_with_separator(c: &Vec<PaletteCacheEntry>) -> (r: bool)
    ensures
        r == (c@.len() > 0 && c@.last() is Separator),
{
    if c.len() == 0 {
        false
    } else {
        match &c[c.len() - 1] {
            PaletteCacheEntry::Separator => true,
            _ => false,
        }
    }
}

impl CommandPaletteComponent {
    /// An empty palette whose data and ranking are still to be built.
    pub fn new() -> (r: Self)
        ensures
            r.query@.len() == 0,
            r.cursor == 0,
            r.filtered_items@.len() == 0,
            r.display_nodes@.len() == 0,
            r.selected == 0,
            r.data_dirty,
            r.query_dirty,
            r.current_context_mask == 0,
            r.display_cache@.len() == 0,
            r.last_display_sel == 0,
            r.last_viewport_rows == 0,
    {
        CommandPaletteComponent {
            query: String::new(),
            cursor: 0,
            filtered_items: Vec::new(),
            display_nodes: Vec::new(),
            selected: 0,
            data_dirty: true,
            query_dirty: true,
            current_context_mask: 0,
            display_cache: Vec::new(),
            last_display_sel: 0,
            last_viewport_rows: 0,
        }
    }

    /// Ask for the cache to be rebuilt.
    pub fn mark_data_dirty(&mut self)
        ensures
            *final(self) == (CommandPaletteComponent { data_dirty: true, ..*old(self) }),
    {
        self.data_dirty = true;
    }

    /// Rebuild the cache from the host's resolved nodes: commands not
    /// available in the current context and nodes the registry lost are
    /// left out, and separators are collapsed (none leading, none trailing,
    /// never two in a row). The ranking is then due.
    pub fn rebuild_data_cache(&mut self, sources: &Vec<PaletteSource>)
        ensures
            final(self).display_cache@ == spec_cache(sources@, old(self).current_context_mask),
            *final(self) == (CommandPaletteComponent {
                display_cache: final(self).display_cache,
                data_dirty: false,
                query_dirty: true,
                ..*old(self)
            }),
    {
        let mask = self.current_context_mask;
        let mut collapsed: Vec<PaletteCacheEntry> = Vec::new();
        let mut i: usize = 0;
        while i < sources.len()
            invariant
                i <= sources@.len(),
                collapsed@ == collapse_prefix(sources@, i as int, mask),
            decreases sources@.len() - i,
        {
            match &sources[i] {
                PaletteSource::Entry(e) => {
                    if mask & e.required_context == e.required_context {
                        collapsed.push(PaletteCacheEntry::Item(clone_item(&e.item)));
                    }
                },
                PaletteSource::Separator => {
                    if collapsed.len() > 0 && !ends_with_separator(&collapsed) {
                        collapsed.push(PaletteCacheEntry::Separator);
                    }
                },
                PaletteSource::Missing => {},
            }
            i = i + 1;
        }
        if ends_with_separator(&collapsed) {
            collapsed.pop();
        }
        self.display_cache = collapsed;
        self.data_dirty = false;
        self.query_dirty = true;
    }

    /// The commands of the cache, in order.
    fn cached_items(&self) -> (r: Vec<PaletteItem>)
        ensures
            r@ == cache_items(self.display_cache@),
    {
        let mut out: Vec<PaletteItem> = Vec::new();
        let mut i: usize = 0;
        while i < self.display_cache.len()
            invariant
                i <= self.display_cache@.len(),
                out@ == cache_items(self.display_cache@.take(i as int)),
            decreases self.display_cache@.len() - i,
        {
            proof {
                assert(self.display_cache@.take(i + 1).drop_last() =~= self.display_cache@.take(i as int));
            }
            match &self.display_cache[i] {
                PaletteCacheEntry::Item(it) => out.push(clone_item(it)),
                PaletteCacheEntry::Separator => {},
            }
            i = i + 1;
        }
        proof {
            assert(self.display_cache@.take(i as int) =~= self.display_cache@);
        }
        out
    }

    /// What the fuzzy matcher searches, one tuple per cached command in
    /// cache order: its name, its description, the text it is searched by
    /// and whether it is disabled.
    pub fn searchable_entries(&self) -> (r: Vec<(String, String, String, bool)>)
        ensures
            r@.len() == cache_items(self.display_cache@).len(),
            forall|i: int| 0 <= i < r@.len() ==> {
                let it = #[trigger] cache_items(self.display_cache@)[i];
                &&& r@[i].0 == it.display_name
                &&& r@[i].1 == it.description
                &&& r@[i].2@ == spec_searchable(it.icon, it.display_name@)
                &&& r@[i].3 == it.disabled
            },
    {
        let items = self.cached_items();
        let mut out: Vec<(String, String, String, bool)> = Vec::new();
        let mut i: usize = 0;
        while i < items.len()
            invariant
                i <= items@.len(),
                items@ == cache_items(self.display_cache@),
                out@.len() == i,
                forall|j: int| 0 <= j < i ==> {
                    let it = #[trigger] items@[j];
                    &&& out@[j].0 == it.display_name
                    &&& out@[j].1 == it.description
                    &&& out@[j].2@ == spec_searchable(it.icon, it.display_name@)
                    &&& out@[j].3 == it.disabled
                },
            decreases items@.len() - i,
        {
            let it = &items[i];
            let text = searchable_text(it.icon, it.display_name.as_str());
            out.push((it.display_name.clone(), it.description.clone(), text, it.disabled));
            i = i + 1;
        }
        out
    }

    /// The commands a ranking starts from (see [`spec_candidates`]); with
    /// `keep_actions` false each carries the close-menu action, as the
    /// ranked list of the plain rerank does.
    pub fn rerank_candidates(&self, matched: &Vec<usize>, keep_actions: bool) -> (r: Vec<PaletteItem>)
        ensures
            r@ == spec_candidates(cache_items(self.display_cache@), self.query@.len() == 0, matched@, keep_actions),
    {
        let items = self.cached_items();
        let mut out: Vec<PaletteItem> = Vec::new();
        if self.query.as_str().is_empty() {
            let mut i: usize = 0;
            while i < items.len()
                invariant
                    i <= items@.len(),
                    out@ == items@.take(i as int).map_values(|it: PaletteItem| candidate_of(it, keep_actions)),
                decreases items@.len() - i,
            {
                let mut it = clone_item(&items[i]);
                if !keep_actions {
                    it.action = Action::CloseMenu;
                }
                out.push(it);
                i = i + 1;
                proof {
                    assert(out@ =~= items@.take(i as int).map_values(|it: PaletteItem| candidate_of(it, keep_actions)));
                }
            }
            proof {
                assert(items@.take(i as int) =~= items@);
            }
        } else {
            let mut k: usize = 0;
            while k < matched.len()
                invariant
                    k <= matched@.len(),
                    self.query@.len() > 0,
                    out@ == spec_candidates(items@, false, matched@.take(k as int), keep_actions),
                decreases matched@.len() - k,
            {
                proof {
                    assert(matched@.take(k + 1).drop_last() =~= matched@.take(k as int));
                }
                let idx = matched[k];
                if idx < items.len() {
                    let mut it = clone_item(&items[idx]);
                    if !keep_actions {
                        it.action = Action::CloseMenu;
                    }
                    out.push(it);
                }
                k = k + 1;
            }
            proof {
                assert(matched@.take(k as int) =~= matched@);
            }
        }
        out
    }

    /// Take a ranked list of commands: the selection is clamped to it and
    /// the display rows are rebuilt (the whole cache when no query is typed,
    /// else the ranked commands).
    pub fn apply_ranking(&mut self, ranked: Vec<PaletteItem>)
        ensures
            final(self).filtered_items@ == ranked@,
            final(self).selected == (if old(self).selected < ranked@.len() { old(self).selected as int } else if ranked@.len()
                == 0 { 0 } else { ranked@.len() - 1 }),
            final(self).display_nodes@ == (if old(self).query@.len() == 0 {
                cache_rows(old(self).display_cache@)
            } else {
                item_rows(ranked@)
            }),
            *final(self) == (CommandPaletteComponent {
                filtered_items: final(self).filtered_items,
                selected: final(self).selected,
                display_nodes: final(self).display_nodes,
                query_dirty: false,
                ..*old(self)
            }),
    {
        let n = ranked.len();
        let last: usize = if n == 0 { 0 } else { n - 1 };
        if self.selected > last {
            self.selected = last;
        }
        let mut rows: Vec<PaletteDisplayNode> = Vec::new();
        if self.query.as_str().is_empty() {
            let mut i: usize = 0;
            while i < self.display_cache.len()
                invariant
                    i <= self.display_cache@.len(),
                    rows@ == cache_rows(self.display_cache@.take(i as int)),
                decreases self.display_cache@.len() - i,
            {
                let row = match &self.display_cache[i] {
                    PaletteCacheEntry::Item(it) => PaletteDisplayNode::Item(clone_item(it)),
                    PaletteCacheEntry::Separator => PaletteDisplayNode::Separator,
                };
                rows.push(row);
                i = i + 1;
                proof {
                    assert(rows@ =~= cache_rows(self.display_cache@.take(i as int)));
                }
            }
            proof {
                assert(self.display_cache@.take(i as int) =~= self.display_cache@);
            }
        } else {
            let mut i: usize = 0;
            while i < ranked.len()
                invariant
                    i <= ranked@.len(),
                    rows@ == item_rows(ranked@.take(i as int)),
                decreases ranked@.len() - i,
            {
                rows.push(PaletteDisplayNode::Item(clone_item(&ranked[i])));
                i = i + 1;
                proof {
                    assert(rows@ =~= item_rows(ranked@.take(i as int)));
                }
            }
            proof {
                assert(ranked@.take(i as int) =~= ranked@);
            }
        }
        self.filtered_items = ranked;
        self.display_nodes = rows;
        self.query_dirty = false;
    }

    /// The action of the selected command, unless it is disabled.
    pub fn selected_action(&self) -> (r: Option<&Action>)
        ensures
            r == (if self.selected < self.filtered_items@.len() && !self.filtered_items@[self.selected as int].disabled {
                Some(&self.filtered_items@[self.selected as int].action)
            } else {
                None
            }),
    {
        if self.selected < self.filtered_items.len() {
            let item = &self.filtered_items[self.selected];
            if item.disabled {
                None
            } else {
                Some(&item.action)
            }
        } else {
            None
        }
    }

    /// The stable id of the selected command.
    pub fn selected_stable_id(&self) -> (r: Option<&str>)
        ensures
            match r {
                Some(s) => self.selected < self.filtered_items@.len() && s@
                    == self.filtered_items@[self.selected as int].stable_id@,
                None => self.selected >= self.filtered_items@.len(),
            },
    {
        if self.selected < self.filtered_items.len() {
            Some(self.filtered_items[self.selected].stable_id.as_str())
        } else {
            None
        }
    }

    /// Take the selection from the list's row `menu_selected`: the number of
    /// items above that row, clamped to the ranked commands.
    pub fn sync_selected(&mut self, menu_selected: usize)
        ensures
            final(self).selected == ({
                let k = if menu_selected < old(self).display_nodes@.len() {
                    menu_selected as int
                } else {
                    old(self).display_nodes@.len() as int
                };
                let c = items_before(old(self).display_nodes@, k);
                let last = if old(self).filtered_items@.len() == 0 { 0 } else { old(self).filtered_items@.len() - 1 };
                if c < last { c as int } else { last }
            }),
            *final(self) == (CommandPaletteComponent { selected: final(self).selected, ..*old(self) }),
    {
        let mut count: usize = 0;
        let mut i: usize = 0;
        while i < self.display_nodes.len() && i < menu_selected
            invariant
                i <= self.display_nodes@.len(),
                i <= menu_selected,
                count == items_before(self.display_nodes@, i as int),
                count <= i,
            decreases self.display_nodes@.len() - i,
        {
            match &self.display_nodes[i] {
                PaletteDisplayNode::Item(_) => count = count + 1,
                PaletteDisplayNode::Separator => {},
            }
            i = i + 1;
        }
        let n = self.filtered_items.len();
        let last: usize = if n == 0 { 0 } else { n - 1 };
        self.selected = if count < last { count } else { last };
    }

    /// The display row of the `item_idx`-th command; `item_idx` itself when
    /// the rows hold fewer commands.
    pub fn display_index(&self, item_idx: usize) -> (r: usize)
        ensures
            r == (match item_row_from(self.display_nodes@, item_idx as int, 0, 0) {
                Some(p) => p,
                None => item_idx as int,
            }),
    {
        let mut seen: usize = 0;
        let mut i: usize = 0;
        while i < self.display_nodes.len()
            invariant
                i <= self.display_nodes@.len(),
                seen <= i,
                seen <= item_idx,
                item_row_from(self.display_nodes@, item_idx as int, 0, 0) == item_row_from(
                    self.display_nodes@,
                    item_idx as int,
                    i as int,
                    seen as int,
                ),
            decreases self.display_nodes@.len() - i,
        {
            match &self.display_nodes[i] {
                PaletteDisplayNode::Item(_) => {
                    if seen == item_idx {
                        return i;
                    }
                    seen = seen + 1;
                },
                PaletteDisplayNode::Separator => {},
            }
            i = i + 1;
        }
        item_idx
    }

    /// The search row of a palette `width` cells wide: the prompt ` > `
    /// and, after it, the query cut to the room left, or the placeholder
    /// (so cut) when no query is typed; the flag tells which it is.
    pub fn search_bar(&self, width: u16) -> (r: (String, String, bool))
        ensures
            ({
                let room = if width >= 3 { width - 3 } else { 0 };
                let q = self.query@;
                let shown = q.take(if q.len() < room { q.len() as int } else { room as int });
                &&& r.0@ == " > "@
                &&& r.2 == (shown.len() == 0)
                &&& r.2 ==> r.1@ == "[type to search]"@.take(if room < 16 { room as int } else { 16 })
                &&& !r.2 ==> r.1@ == shown
            }),
    {
        let room: usize = if width >= 3 { (width - 3) as usize } else { 0 };
        let shown = take_chars(self.query.as_str(), room);
        let mut prompt = String::new();
        push_str(&mut prompt, " > ");
        let empty = char_count(shown.as_str()) == 0;
        proof {
            reveal_strlit("[type to search]");
        }
        if empty {
            (prompt, take_chars("[type to search]", room), true)
        } else {
            (prompt, shown, false)
        }
    }

    /// Where the no-results hint starts on the first list row `area`:
    /// centred, or at the left edge when it does not fit.
    pub fn no_results_x(area: Rect) -> (r: u16)
        ensures
            r == sat_add_u16(area.x as int, sat_sub(area.width as int, 19) / 2),
    {
        proof {
            reveal_strlit("[no search results]");
        }
        let text_w = char_count("[no search results]") as u16;
        area.x.saturating_add(area.width.saturating_sub(text_w) / 2)
    }

    /// Scroll-follow for a frame whose list shows `list_height` rows scrolled
    /// to `offset_y`: when the selected row or the height changed since the
    /// last frame, the offset that shows the selected row (see
    /// [`followed_offset`]); otherwise `offset_y`, so a manual scroll stays.
    pub fn follow_selection(&mut self, offset_y: usize, list_height: usize) -> (r: usize)
        ensures
            ({
                let sel = match item_row_from(old(self).display_nodes@, old(self).selected as int, 0, 0) {
                    Some(p) => p,
                    None => old(self).selected as int,
                };
                &&& (sel != old(self).last_display_sel || list_height != old(self).last_viewport_rows) ==> r
                    == followed_offset(offset_y as int, sel, list_height as int)
                &&& (sel == old(self).last_display_sel && list_height == old(self).last_viewport_rows) ==> r
                    == offset_y
                &&& *final(self) == (CommandPaletteComponent {
                    last_display_sel: sel as usize,
                    last_viewport_rows: list_height,
                    ..*old(self)
                })
            }),
    {
        let sel = self.display_index(self.selected);
        let changed = sel != self.last_display_sel || list_height != self.last_viewport_rows;
        let mut off = offset_y;
        if changed {
            if sel < offset_y {
                off = sel;
            } else if list_height > 0 && sel - offset_y >= list_height {
                off = sel - list_height + 1;
            }
        }
        self.last_display_sel = sel;
        self.last_viewport_rows = list_height;
        off
    }

    /// React to an action: menu up/down move the selection with wrap-around;
    /// a view scroll belongs to the list and is handed back (`true`);
    /// anything else is ignored.
    pub fn update(&mut self, action: Action) -> (to_list: bool)
        ensures
            to_list == (action is ScrollView),
            action == Action::MenuUp && old(self).filtered_items@.len() > 0 ==> final(self).selected == wrap_up(
                old(self).selected as int,
                old(self).filtered_items@.len() as int,
            ),
            action == Action::MenuDown && old(self).filtered_items@.len() > 0 ==> final(self).selected == wrap_down(
                old(self).selected as int,
                old(self).filtered_items@.len() as int,
            ),
            !((action == Action::MenuUp || action == Action::MenuDown) && old(self).filtered_items@.len() > 0)
                ==> final(self).selected == old(self).selected,
            *final(self) == (CommandPaletteComponent { selected: final(self).selected, ..*old(self) }),
    {
        let total = self.filtered_items.len();
        match action {
            Action::MenuUp => {
                if total > 0 {
                    let s: u128 = (self.selected as u128 + total as u128 - 1) % (total as u128);
                    self.selected = s as usize;
                }
                false
            },
            Action::MenuDown => {
                if total > 0 {
                    let s: u128 = (self.selected as u128 + 1) % (total as u128);
                    self.selected = s as usize;
                }
                false
            },
            Action::ScrollView(_) => true,
            _ => false,
        }
    }

    /// Answer a key: arrows navigate, Enter selects an enabled command, the
    /// clear-query binding (`clears_query`: whether the key is bound to it)
    /// clears a typed query or else closes the palette, Esc closes it,
    /// plain characters and Backspace edit the query. Keys that are not
    /// presses, and any other key, are ignored.
    pub fn handle_key(&mut self, key: KeyEvent, clears_query: bool) -> (r: EventResult<Action>)
        ensures
            r == (match key_effect(*old(self), key, clears_query) {
                PaletteKeyEffect::Answer(res) => res,
                _ => EventResult::Consumed,
            }),
            final(self).query@ == query_after(old(self).query@, key_effect(*old(self), key, clears_query)),
            *final(self) == (CommandPaletteComponent {
                query: final(self).query,
                cursor: if key_effect(*old(self), key, clears_query) is Clear { 0 } else { old(self).cursor },
                query_dirty: old(self).query_dirty || !(key_effect(*old(self), key, clears_query) is Answer),
                ..*old(self)
            }),
    {
        if key.kind != KeyKind::Press {
            return EventResult::Ignored;
        }
        let plain = !key.modifiers.control && !key.modifiers.shift && !key.modifiers.alt;
        if plain && key.code == KeyCode::Up {
            return EventResult::Action(Action::MenuUp);
        }
        if plain && key.code == KeyCode::Down {
            return EventResult::Action(Action::MenuDown);
        }
        if plain && key.code == KeyCode::Enter && self.filtered_items.len() > 0 {
            let disabled = if self.selected < self.filtered_items.len() {
                self.filtered_items[self.selected].disabled
            } else {
                true
            };
            if disabled {
                return EventResult::Ignored;
            }
            return EventResult::Action(Action::MenuSelect);
        }
        if clears_query {
            if self.query.as_str().is_empty() {
                return EventResult::Action(Action::CloseMenu);
            }
            self.query = String::new();
            self.cursor = 0;
            self.query_dirty = true;
            return EventResult::Consumed;
        }
        match key.code {
            KeyCode::Esc => EventResult::Action(Action::CloseMenu),
            KeyCode::Char(ch) => {
                if key.modifiers.control {
                    EventResult::Ignored
                } else {
                    self.query.push(ch);
                    self.query_dirty = true;
                    EventResult::Consumed
                }
            },
            KeyCode::Backspace => {
                self.query.pop();
                self.query_dirty = true;
                EventResult::Consumed
            },
            _ => EventResult::Ignored,
        }
    }
}

/// What a key does to the palette.
pub enum PaletteKeyEffect {
    /// The query is left alone and the key is answered so.
    Answer(EventResult<Action>),
    /// The typed query is cleared.
    Clear,
    /// A character is appended to the query.
    Type(char),
    /// The last character of the query is removed.
    Erase,
}

/// What a key does to palette `p` (see
/// [`CommandPaletteComponent::handle_key`]).
pub open spec fn key_effect(p: CommandPaletteComponent, key: KeyEvent, clears_query: bool) -> PaletteKeyEffect {
    let plain = no_modifiers(key.modifiers);
    if key.kind != KeyKind::Press {
        PaletteKeyEffect::Answer(EventResult::Ignored)
    } else if plain && key.code == KeyCode::Up {
        PaletteKeyEffect::Answer(EventResult::Action(Action::MenuUp))
    } else if plain && key.code == KeyCode::Down {
        PaletteKeyEffect::Answer(EventResult::Action(Action::MenuDown))
    } else if plain && key.code == KeyCode::Enter && p.filtered_items@.len() > 0 {
        if p.selected >= p.filtered_items@.len() || p.filtered_items@[p.selected as int].disabled {
            PaletteKeyEffect::Answer(EventResult::Ignored)
        } else {
            PaletteKeyEffect::Answer(EventResult::Action(Action::MenuSelect))
        }
    } else if clears_query {
        if p.query@.len() == 0 {
            PaletteKeyEffect::Answer(EventResult::Action(Action::CloseMenu))
        } else {
            PaletteKeyEffect::Clear
        }
    } else {
        match key.code {
            KeyCode::Esc => PaletteKeyEffect::Answer(EventResult::Action(Action::CloseMenu)),
            KeyCode::Char(ch) => if key.modifiers.control {
                PaletteKeyEffect::Answer(EventResult::Ignored)
            } else {
                PaletteKeyEffect::Type(ch)
            },
            KeyCode::Backspace => PaletteKeyEffect::Erase,
            _ => PaletteKeyEffect::Answer(EventResult::Ignored),
        }
    }
}

/// Typing into the palette: a press of a character without Control,
/// when the key is not the clear-query binding, appends that character to
/// the query and is consumed, whatever Shift or Alt say; with Control the
/// character is refused and the query stays. Backspace removes the last
/// character of a typed query.
pub proof fn lemma_palette_typing(p: CommandPaletteComponent, key: KeyEvent, c: char)
    requires
        key.kind == KeyKind::Press,
    ensures
        key.code == KeyCode::Char(c) && !key.modifiers.control ==> {
            let e = key_effect(p, key, false);
            &&& query_after(p.query@, e) == p.query@.push(c)
            &&& !(e is Answer)
        },
        key.code == KeyCode::Char(c) && key.modifiers.control ==> key_effect(p, key, false) == PaletteKeyEffect::Answer(
            EventResult::Ignored,
        ),
        key.code == KeyCode::Backspace && p.query@.len() > 0 ==> {
            let e = key_effect(p, key, false);
            &&& query_after(p.query@, e) == p.query@.drop_last()
            &&& !(e is Answer)
        },
{
}

/// The query after a key's effect.
pub open spec fn query_after(q: Seq<char>, e: PaletteKeyEffect) -> Seq<char> {
    match e {
        PaletteKeyEffect::Answer(_) => q,
        PaletteKeyEffect::Clear => seq![],
        PaletteKeyEffect::Type(c) => q.push(c),
        PaletteKeyEffect::Erase => if q.len() > 0 { q.drop_last() } else { q },
    }
}

} // verus!
