use vstd::prelude::*;
use unicode_width::{UnicodeWidthChar, UnicodeWidthStr};

verus! {

/// Appending a character to a `String` extends its text by that character.
pub assume_specification[ String::push ](s: &mut String, ch: char)
    ensures
        final(s)@ == old(s)@.push(ch),
;

/// The characters of `s`, in order.
pub fn chars_of(s: &str) -> (r: Vec<char>)
    ensures
        r@ == s@,
{
    let mut out: Vec<char> = Vec::new();
    for c in it: s.chars()
        invariant
            out@ == it.seq().take(it.index() as int),
    {
        out.push(c);
        proof {
            assert(out@ =~= it.seq().take(it.index() as int + 1));
        }
    }
    out
}


/// The display width `unicode_width` gives a character: `None` for control
/// characters, else the number of terminal columns.
pub uninterp spec fn unicode_char_width(c: char) -> Option<usize>;

/// `UnicodeWidthChar::width` (unicode-width 0.2): the columns a character
/// occupies, `None` for a control character. Its table lookup is named by
/// [`unicode_char_width`]; the source also shows that printable ASCII is one
/// column wide, that C0/C1 control characters have no width, and that no
/// character is wider than three columns.
#[verifier::external_body]
fn char_width_raw(c: char) -> (r: Option<usize>)
    ensures
        r == unicode_char_width(c),
        (' ' <= c && c <= '~') ==> r == Some(1usize),
        (c < ' ' || ('\u{7f}' <= c && c < '\u{a0}')) ==> r is None,
        r matches Some(w) ==> w <= 3,
{
    UnicodeWidthChar::width(c)
}

/// The columns a character takes in a row, control characters taking none.
pub open spec fn char_cols(c: char) -> nat {
    match unicode_char_width(c) {
        Some(w) => w as nat,
        None => 0,
    }
}

/// Columns taken by a character (control characters count as zero).
pub fn char_columns(c: char) -> (r: usize)
    ensures
        r == char_cols(c),
        r <= 3,
        (' ' <= c && c <= '~') ==> r == 1,
{
    match char_width_raw(c) {
        Some(w) => w,
        None => 0,
    }
}

/// The display width of a run of characters: the sum of their columns.
pub open spec fn display_width(s: Seq<char>) -> nat
    decreases s.len(),
{
    if s.len() == 0 { 0 } else { char_cols(s[0]) + display_width(s.drop_first()) }
}

/// `n` spaces.
pub open spec fn spaces(n: nat) -> Seq<char> {
    Seq::new(n, |i: int| ' ')
}

/// The text of `s` (whose first character sits at column `col`) visible in
/// columns `[start, end)`. Characters wholly inside are kept; a wide
/// character cut by either edge is replaced by spaces for its visible
/// columns, so the result stays column-aligned; the walk stops at `end`.
pub open spec fn slice_cols(s: Seq<char>, col: int, start: int, end: int) -> Seq<char>
    decreases s.len(),
{
    if s.len() == 0 || col >= end {
        seq![]
    } else {
        let next = col + char_cols(s[0]);
        if col < start && next <= start {
            slice_cols(s.drop_first(), next, start, end)
        } else if col < start {
            let visible = (if next < end { next } else { end }) - start;
            spaces(visible as nat) + if next > end {
                seq![]
            } else {
                slice_cols(s.drop_first(), next, start, end)
            }
        } else if next > end {
            spaces((end - col) as nat)
        } else {
            seq![s[0]] + slice_cols(s.drop_first(), next, start, end)
        }
    }
}

proof fn lemma_display_width_concat(a: Seq<char>, b: Seq<char>)
    ensures
        display_width(a + b) == display_width(a) + display_width(b),
    decreases a.len(),
{
    if a.len() == 0 {
        assert(a + b =~= b);
    } else {
        assert((a + b).drop_first() =~= a.drop_first() + b);
        lemma_display_width_concat(a.drop_first(), b);
    }
}

pub(crate) proof fn lemma_display_width_push(s: Seq<char>, c: char)
    ensures
        display_width(s.push(c)) == display_width(s) + char_cols(c),
{
    lemma_display_width_concat(s, seq![c]);
    assert(s + seq![c] =~= s.push(c));
    assert(seq![c].drop_first() =~= Seq::<char>::empty());
    assert(display_width(Seq::<char>::empty()) == 0);
}

proof fn lemma_spaces_width(n: nat)
    requires
        char_cols(' ') == 1,
    ensures
        display_width(spaces(n)) == n,
    decreases n,
{
    if n > 0 {
        assert(spaces(n).drop_first() =~= spaces((n - 1) as nat));
        lemma_spaces_width((n - 1) as nat);
    }
}

proof fn lemma_slice_cols_width(s: Seq<char>, col: int, start: int, end: int)
    requires
        char_cols(' ') == 1,
        start <= end,
        col <= end,
    ensures
        display_width(slice_cols(s, col, start, end)) <= end - (if col > start { col } else { start }),
    decreases s.len(),
{
    if s.len() == 0 || col >= end {
        assert(display_width(Seq::<char>::empty()) == 0);
    } else {
        let next = col + char_cols(s[0]);
        if col < start && next <= start {
            lemma_slice_cols_width(s.drop_first(), next, start, end);
        } else if col < start {
            let visible = (if next < end { next } else { end }) - start;
            lemma_spaces_width(visible as nat);
            if next > end {
                assert(spaces(visible as nat) + seq![] =~= spaces(visible as nat));
                assert(slice_cols(s, col, start, end) == spaces(visible as nat));
            } else {
                lemma_slice_cols_width(s.drop_first(), next, start, end);
                lemma_display_width_concat(spaces(visible as nat), slice_cols(s.drop_first(), next, start, end));
                assert(slice_cols(s, col, start, end) == spaces(visible as nat) + slice_cols(s.drop_first(), next, start, end));
            }
        } else if next > end {
            lemma_spaces_width((end - col) as nat);
            assert(slice_cols(s, col, start, end) == spaces((end - col) as nat));
        } else {
            lemma_slice_cols_width(s.drop_first(), next, start, end);
            lemma_display_width_concat(seq![s[0]], slice_cols(s.drop_first(), next, start, end));
            assert(seq![s[0]].drop_first() =~= Seq::<char>::empty());
            assert(display_width(Seq::<char>::empty()) == 0);
            assert(display_width(seq![s[0]]) == char_cols(s[0]));
            assert(slice_cols(s, col, start, end) == seq![s[0]] + slice_cols(s.drop_first(), next, start, end));
        }
    }
}

fn push_spaces(out: &mut String, n: u128)
    requires
        n <= usize::MAX,
    ensures
        final(out)@ == old(out)@ + spaces(n as nat),
{
    let mut k: u128 = 0;
    while k < n
        invariant
            k <= n,
            out@ == old(out)@ + spaces(k as nat),
        decreases n - k,
    {
        out.push(' ');
        k = k + 1;
        proof {
            assert(out@ =~= old(out)@ + spaces(k as nat));
        }
    }
}

/// The part of `s` visible in the `width` display columns starting at column
/// `start_col`, column-aligned: a wide character cut by either edge becomes
/// spaces for its visible columns. The result is never wider than `width`.
pub fn slice_by_columns(s: &str, start_col: usize, width: usize) -> (r: String)
    ensures
        r@ == slice_cols(s@, 0, start_col as int, start_col + width),
        display_width(r@) <= width,
{
    let space_w = char_columns(' ');
    let chars = chars_of(s);
    let start: u128 = start_col as u128;
    let end: u128 = start_col as u128 + width as u128;
    let mut out = String::new();
    let mut col: u128 = 0;
    let mut i: usize = 0;
    let mut done = false;
    let ghost whole = s@;
    let ghost total = slice_cols(whole, 0, start as int, end as int);
    proof {
        assert(whole.skip(0) =~= whole);
        assert(out@ + total =~= total);
    }
    while i < chars.len() && !done
        invariant
            chars@ == whole,
            whole == s@,
            total == slice_cols(whole, 0, start as int, end as int),
            i <= chars@.len(),
            start == start_col,
            end == start_col + width,
            col <= 3 * i,
            done ==> out@ == total,
            !done ==> out@ + slice_cols(whole.skip(i as int), col as int, start as int, end as int) == total,
        decreases chars@.len() - i, if done { 0int } else { 1int },
    {
        let ghost rest = whole.skip(i as int);
        proof {
            assert(rest.drop_first() =~= whole.skip(i + 1));
            assert(rest[0] == chars@[i as int]);
        }
        if col >= end {
            proof {
                assert(out@ + seq![] =~= out@);
            }
            done = true;
        } else {
            let c = chars[i];
            let next: u128 = col + char_columns(c) as u128;
            if col < start && next <= start {
                col = next;
                i = i + 1;
            } else if col < start {
                let visible: u128 = (if next < end { next } else { end }) - start;
                let ghost before = out@;
                push_spaces(&mut out, visible);
                if next > end {
                    proof {
                        assert(spaces(visible as nat) + seq![] =~= spaces(visible as nat));
                    }
                    done = true;
                } else {
                    proof {
                        assert(before + (spaces(visible as nat) + slice_cols(whole.skip(i + 1), next as int, start as int, end as int))
                            =~= out@ + slice_cols(whole.skip(i + 1), next as int, start as int, end as int));
                    }
                    col = next;
                    i = i + 1;
                }
            } else if next > end {
                push_spaces(&mut out, end - col);
                done = true;
            } else {
                let ghost before = out@;
                out.push(c);
                proof {
                    assert(before + (seq![c] + slice_cols(whole.skip(i + 1), next as int, start as int, end as int))
                        =~= out@ + slice_cols(whole.skip(i + 1), next as int, start as int, end as int));
                }
                col = next;
                i = i + 1;
            }
        }
    }
    proof {
        if !done {
            assert(whole.skip(i as int) =~= Seq::<char>::empty());
            assert(out@ + seq![] =~= out@);
        }
        lemma_slice_cols_width(whole, 0, start_col as int, start_col + width);
    }
    out
}


/// The display width `unicode_width` gives a whole string.
pub uninterp spec fn unicode_str_width(s: Seq<char>) -> usize;

/// `UnicodeWidthStr::width` (unicode-width 0.2): the columns a string
/// occupies, taking emoji, ligature and line-break sequences into account.
/// Its result is named by [`unicode_str_width`]; the source also shows that
/// a string of printable ASCII characters is as wide as it is long.
#[verifier::external_body]
pub(crate) fn str_width(s: &str) -> (r: usize)
    ensures
        r == unicode_str_width(s@),
        (forall|i: int| 0 <= i < s@.len() ==> ' ' <= #[trigger] s@[i] && s@[i] <= '~') ==> r == s@.len(),
{
    UnicodeWidthStr::width(s)
}

/// The longest prefix of `s` whose display width fits in `budget` columns.
pub open spec fn prefix_within(s: Seq<char>, budget: int) -> Seq<char>
    decreases s.len(),
{
    if s.len() == 0 || char_cols(s[0]) > budget {
        seq![]
    } else {
        seq![s[0]] + prefix_within(s.drop_first(), budget - char_cols(s[0]))
    }
}

/// `s` cut to at most `max` display columns: kept whole when it fits, else
/// its longest prefix of at most `max - 1` columns followed by `…`.
pub open spec fn truncated(s: Seq<char>, max: nat) -> Seq<char> {
    if display_width(s) <= max {
        s
    } else if max == 0 {
        seq![]
    } else {
        prefix_within(s, max - 1).push('…')
    }
}

/// The display width of `s`.
fn width_of(s: &Vec<char>) -> (r: u128)
    ensures
        r == display_width(s@),
{
    let mut acc: u128 = 0;
    let mut i: usize = 0;
    proof {
        assert(s@.skip(0) =~= s@);
    }
    while i < s.len()
        invariant
            i <= s@.len(),
            acc <= 3 * i,
            acc + display_width(s@.skip(i as int)) == display_width(s@),
        decreases s@.len() - i,
    {
        proof {
            assert(s@.skip(i as int).drop_first() =~= s@.skip(i + 1));
            assert(s@.skip(i as int)[0] == s@[i as int]);
        }
        let w = char_columns(s[i]);
        acc = acc + w as u128;
        i = i + 1;
    }
    proof {
        assert(s@.skip(i as int) =~= Seq::<char>::empty());
    }
    acc
}

/// `s` cut to at most `max` display columns, ending in `…` when it was
/// cut (see [`truncated`]).
pub fn truncate_with_ellipsis(s: &str, max: usize) -> (r: String)
    ensures
        r@ == truncated(s@, max as nat),
{
    let chars = chars_of(s);
    let total = width_of(&chars);
    let mut out = String::new();
    if total <= max as u128 {
        let mut i: usize = 0;
        while i < chars.len()
            invariant
                i <= chars@.len(),
                out@ == chars@.take(i as int),
            decreases chars@.len() - i,
        {
            out.push(chars[i]);
            i = i + 1;
            proof {
                assert(out@ =~= chars@.take(i as int));
            }
        }
        proof {
            assert(chars@.take(i as int) =~= chars@);
        }
        return out;
    }
    if max == 0 {
        proof {
            assert(out@ =~= Seq::<char>::empty());
        }
        return out;
    }
    let budget: usize = max - 1;
    let mut used: usize = 0;
    let mut i: usize = 0;
    let mut done = false;
    let ghost whole = chars@;
    proof {
        assert(whole.skip(0) =~= whole);
        assert(out@ + prefix_within(whole, budget as int) =~= prefix_within(whole, budget as int));
    }
    while i < chars.len() && !done
        invariant
            whole == chars@,
            i <= chars@.len(),
            used <= budget,
            done ==> out@ == prefix_within(whole, budget as int),
            !done ==> out@ + prefix_within(whole.skip(i as int), budget - used) == prefix_within(whole, budget as int),
        decreases chars@.len() - i, if done { 0int } else { 1int },
    {
        let ghost rest = whole.skip(i as int);
        proof {
            assert(rest.drop_first() =~= whole.skip(i + 1));
            assert(rest[0] == chars@[i as int]);
        }
        let w = char_columns(chars[i]);
        if w > budget - used {
            proof {
                assert(out@ + seq![] =~= out@);
            }
            done = true;
        } else {
            let ghost before = out@;
            out.push(chars[i]);
            proof {
                assert(before + (seq![chars@[i as int]] + prefix_within(whole.skip(i + 1), budget - used - w))
                    =~= out@ + prefix_within(whole.skip(i + 1), budget - used - w));
            }
            used = used + w;
            i = i + 1;
        }
    }
    proof {
        if !done {
            assert(whole.skip(i as int) =~= Seq::<char>::empty());
            assert(out@ + seq![] =~= out@);
        }
    }
    out.push('…');
    out
}


/// Append the characters of `s` to `out`.
pub fn push_str(out: &mut String, s: &str)
    ensures
        final(out)@ == old(out)@ + s@,
{
    let chars = chars_of(s);
    let mut i: usize = 0;
    while i < chars.len()
        invariant
            i <= chars@.len(),
            chars@ == s@,
            out@ == old(out)@ + chars@.take(i as int),
        decreases chars@.len() - i,
    {
        out.push(chars[i]);
        i = i + 1;
        proof {
            assert(chars@.take(i as int) =~= chars@.take(i - 1).push(chars@[i - 1]));
        }
    }
    proof {
        assert(chars@.take(i as int) =~= chars@);
    }
}

/// The longest prefix of `s` that fits in `width` display columns (see
/// [`prefix_within`]).
pub fn truncate_to_width(s: &str, width: usize) -> (r: String)
    ensures
        r@ == prefix_within(s@, width as int),
{
    let chars = chars_of(s);
    let mut out = String::new();
    let mut used: usize = 0;
    let mut i: usize = 0;
    let mut done = false;
    let ghost whole = chars@;
    proof {
        assert(whole.skip(0) =~= whole);
        assert(out@ + prefix_within(whole, width as int) =~= prefix_within(whole, width as int));
    }
    while i < chars.len() && !done
        invariant
            whole == chars@,
            whole == s@,
            i <= chars@.len(),
            used <= width,
            done ==> out@ == prefix_within(whole, width as int),
            !done ==> out@ + prefix_within(whole.skip(i as int), width - used) == prefix_within(whole, width as int),
        decreases chars@.len() - i, if done { 0int } else { 1int },
    {
        let ghost rest = whole.skip(i as int);
        proof {
            assert(rest.drop_first() =~= whole.skip(i + 1));
            assert(rest[0] == chars@[i as int]);
        }
        let w = char_columns(chars[i]);
        if w > width - used {
            proof {
                assert(out@ + seq![] =~= out@);
            }
            done = true;
        } else {
            let ghost before = out@;
            out.push(chars[i]);
            proof {
                assert(before + (seq![chars@[i as int]] + prefix_within(whole.skip(i + 1), width - used - w))
                    =~= out@ + prefix_within(whole.skip(i + 1), width - used - w));
            }
            used = used + w;
            i = i + 1;
        }
    }
    proof {
        if !done {
            assert(whole.skip(i as int) =~= Seq::<char>::empty());
            assert(out@ + seq![] =~= out@);
        }
    }
    out
}

/// The number of characters of `s`.
pub fn char_count(s: &str) -> (r: usize)
    ensures
        r == s@.len(),
{
    let chars = chars_of(s);
    chars.len()
}

} // verus!
