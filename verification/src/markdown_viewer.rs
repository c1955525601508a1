//! Markdown to styled lines.
//!
//! The markdown is parsed into events by `pulldown-cmark`; a small state
//! machine turns the events into lines of styled text fragments (bold,
//! italic, code, links), with bullets for list items, blank lines after
//! paragraphs, headings and top-level lists, and an anchor (the heading's
//! slug) for each heading, pointing at its line.
use vstd::prelude::*;
use pulldown_cmark::{Options, Parser, Tag};
use crate::text::push_str;
use crate::text_renderer::{measures_fit, TextRendererComponent};

verus! {

/// How a fragment of text is styled.
#[derive(Debug, Clone, Copy, PartialEq, Eq, Structural)]
pub struct FragmentStyle {
    pub bold: bool,
    pub italic: bool,
    /// Code: drawn in the code colour, without bold or italic.
    pub code: bool,
}

/// The style of plain text.
pub open spec fn plain_style() -> FragmentStyle {
    FragmentStyle { bold: false, italic: false, code: false }
}

/// A run of text in one style, possibly part of a link.
pub struct MdFragment {
    pub text: String,
    pub style: FragmentStyle,
    pub link: Option<String>,
}

/// The tags of the markdown events this viewer tells apart.
pub enum MdTag {
    Strong,
    Emphasis,
    /// A list, numbered from the given start when ordered.
    List(Option<u64>),
    Item,
    CodeBlock,
    Paragraph,
    /// A link to the given destination.
    Link(String),
    Heading,
    Other,
}

/// The markdown events this viewer tells apart.
pub enum MdEvent {
    Start(MdTag),
    End,
    Text(String),
    Html(String),
    Code(String),
    SoftBreak,
    HardBreak,
    Rule,
    Other,
}

/// The open tags the builder tracks.
#[derive(Debug, Clone, Copy, PartialEq, Eq, Structural)]
pub enum TagKind {
    Strong,
    Emphasis,
    Heading,
    List,
    Item,
    CodeBlock,
    Paragraph,
    Link,
    Other,
}

/// The event sequence `pulldown-cmark` gives for a text, with every
/// extension enabled, as the events of this module.
pub uninterp spec fn markdown_events(raw: Seq<char>) -> Seq<MdEvent>;

/// `pulldown_cmark::Event`: a parser event.
#[verifier::external_type_specification]
#[verifier::external_body]
pub struct ExMdEvent<'a>(pulldown_cmark::Event<'a>);

/// `pulldown_cmark::Tag`: the tag of a start event.
#[verifier::external_type_specification]
#[verifier::external_body]
pub struct ExMdTag<'a>(Tag<'a>);

/// `pulldown_cmark::Parser::new_ext` with every extension enabled, its
/// events collected; each is converted by [`event_of`]. The sequence is
/// named by [`markdown_events`].
#[verifier::external_body]
fn parse_markdown(raw: &str) -> (r: Vec<MdEvent>)
    ensures
        r@ == markdown_events(raw@),
{
    Parser::new_ext(raw, Options::all()).map(event_of).collect()
}

/// One parser event as an event of this module: the variants the viewer
/// tells apart keep their text, the rest become `Other`.
#[verifier::external_body]
fn event_of(ev: pulldown_cmark::Event<'_>) -> MdEvent {
    match ev {
        pulldown_cmark::Event::Start(tag) => MdEvent::Start(tag_of(tag)),
        pulldown_cmark::Event::End(_) => MdEvent::End,
        pulldown_cmark::Event::Text(t) => MdEvent::Text(t.to_string()),
        pulldown_cmark::Event::Html(t) => MdEvent::Html(t.to_string()),
        pulldown_cmark::Event::Code(t) => MdEvent::Code(t.to_string()),
        pulldown_cmark::Event::SoftBreak => MdEvent::SoftBreak,
        pulldown_cmark::Event::HardBreak => MdEvent::HardBreak,
        pulldown_cmark::Event::Rule => MdEvent::Rule,
        _ => MdEvent::Other,
    }
}

/// One parser tag as a tag of this module: the link keeps its
/// destination, the ordered list its start.
#[verifier::external_body]
fn tag_of(tag: Tag<'_>) -> MdTag {
    match tag {
        Tag::Strong => MdTag::Strong,
        Tag::Emphasis => MdTag::Emphasis,
        Tag::List(start) => MdTag::List(start),
        Tag::Item => MdTag::Item,
        Tag::CodeBlock(_) => MdTag::CodeBlock,
        Tag::Paragraph => MdTag::Paragraph,
        Tag::Link { dest_url, .. } => MdTag::Link(dest_url.to_string()),
        Tag::Heading { .. } => MdTag::Heading,
        _ => MdTag::Other,
    }
}


/// Whether `c` is an ASCII character.
pub open spec fn is_ascii_char(c: char) -> bool {
    c <= '\u{7f}'
}

/// Whether every character of `s` is ASCII.
pub open spec fn all_ascii(s: Seq<char>) -> bool {
    forall|i: int| 0 <= i < s.len() ==> is_ascii_char(#[trigger] s[i])
}

/// Whether `char::is_alphanumeric` holds of a character beyond ASCII (the
/// Unicode `Alphabetic` and numeric properties).
pub uninterp spec fn unicode_alphanumeric(c: char) -> bool;

/// Whether `char::is_whitespace` holds of a character beyond ASCII (the
/// Unicode `White_Space` property).
pub uninterp spec fn unicode_white_space(c: char) -> bool;

/// `str::to_lowercase` of a string that is not all ASCII (the Unicode case
/// mappings).
pub uninterp spec fn unicode_lowercased(s: Seq<char>) -> Seq<char>;

/// Whether `c` is an ASCII letter or digit.
pub open spec fn ascii_alphanumeric(c: char) -> bool {
    'a' <= c <= 'z' || 'A' <= c <= 'Z' || '0' <= c <= '9'
}

/// Whether `char::is_alphanumeric` holds of `c`: among ASCII characters,
/// exactly the letters and digits.
pub open spec fn alphanumeric(c: char) -> bool {
    if is_ascii_char(c) { ascii_alphanumeric(c) } else { unicode_alphanumeric(c) }
}

/// Whether `char::is_whitespace` holds of `c`: among ASCII characters,
/// exactly the space and `\t` to `\r`.
pub open spec fn white_space(c: char) -> bool {
    if is_ascii_char(c) { c == ' ' || '\t' <= c <= '\r' } else { unicode_white_space(c) }
}

/// `c` with an ASCII capital turned into its small letter.
pub open spec fn ascii_lower(c: char) -> char {
    if 'A' <= c <= 'Z' { ((c as int) + 32) as char } else { c }
}

/// `s` in lower case, as `str::to_lowercase` gives it: an ASCII string has
/// each capital turned into its small letter.
pub open spec fn lowercased(s: Seq<char>) -> Seq<char> {
    if all_ascii(s) { s.map_values(|c: char| ascii_lower(c)) } else { unicode_lowercased(s) }
}

/// `s` without its leading white space.
pub open spec fn trim_start(s: Seq<char>) -> Seq<char>
    decreases s.len(),
{
    if s.len() > 0 && white_space(s[0]) { trim_start(s.drop_first()) } else { s }
}

/// `s` without its trailing white space.
pub open spec fn trim_end(s: Seq<char>) -> Seq<char>
    decreases s.len(),
{
    if s.len() > 0 && white_space(s.last()) { trim_end(s.drop_last()) } else { s }
}

/// `s` without its leading and trailing white space, as `str::trim` gives it.
pub open spec fn trimmed(s: Seq<char>) -> Seq<char> {
    trim_end(trim_start(s))
}

proof fn lemma_trim_start_at(s: Seq<char>, i: int)
    requires
        0 <= i <= s.len(),
        forall|k: int| 0 <= k < i ==> white_space(#[trigger] s[k]),
        i == s.len() || !white_space(s[i]),
    ensures
        trim_start(s) == s.subrange(i, s.len() as int),
    decreases i,
{
    if i == 0 {
        assert(s.subrange(0, s.len() as int) =~= s);
    } else {
        let d = s.drop_first();
        assert forall|k: int| 0 <= k < i - 1 implies white_space(#[trigger] d[k]) by {
            assert(d[k] == s[k + 1]);
        }
        assert(i - 1 == d.len() || d[i - 1] == s[i]);
        lemma_trim_start_at(d, i - 1);
        assert(d.subrange(i - 1, d.len() as int) =~= s.subrange(i, s.len() as int));
    }
}

proof fn lemma_trim_end_at(t: Seq<char>, j: int)
    requires
        0 <= j <= t.len(),
        forall|k: int| j <= k < t.len() ==> white_space(#[trigger] t[k]),
        j == 0 || !white_space(t[j - 1]),
    ensures
        trim_end(t) == t.subrange(0, j),
    decreases t.len() - j,
{
    if j == t.len() {
        assert(t.subrange(0, j) =~= t);
    } else {
        let d = t.drop_last();
        assert(white_space(t[t.len() - 1]));
        assert forall|k: int| j <= k < d.len() implies white_space(#[trigger] d[k]) by {
            assert(d[k] == t[k]);
        }
        assert(j == 0 || d[j - 1] == t[j - 1]);
        lemma_trim_end_at(d, j);
        assert(d.subrange(0, j) =~= t.subrange(0, j));
    }
}

/// `s` without leading and trailing white space, as `str::trim` gives it.
fn trim_chars(s: &str) -> (r: String)
    ensures
        r@ == trimmed(s@),
{
    let chars = crate::text::chars_of(s);
    let n = chars.len();
    let mut i: usize = 0;
    while i < n && is_whitespace_char(chars[i])
        invariant
            i <= n,
            n == chars@.len(),
            forall|k: int| 0 <= k < i ==> white_space(#[trigger] chars@[k]),
        decreases n - i,
    {
        i = i + 1;
    }
    let mut j: usize = n;
    while j > i && is_whitespace_char(chars[j - 1])
        invariant
            i <= j <= n,
            n == chars@.len(),
            forall|k: int| j <= k < n ==> white_space(#[trigger] chars@[k]),
        decreases j - i,
    {
        j = j - 1;
    }
    let mut out = String::new();
    let mut k: usize = i;
    while k < j
        invariant
            i <= k <= j <= n,
            n == chars@.len(),
            out@ == chars@.subrange(i as int, k as int),
        decreases j - k,
    {
        out.push(chars[k]);
        k = k + 1;
        proof {
            assert(out@ =~= chars@.subrange(i as int, k as int));
        }
    }
    proof {
        let sv = chars@;
        lemma_trim_start_at(sv, i as int);
        let t = sv.subrange(i as int, n as int);
        assert forall|q: int| j - i <= q < t.len() implies white_space(#[trigger] t[q]) by {
            assert(t[q] == sv[q + i]);
        }
        if j > i {
            assert(t[j - i - 1] == sv[j - 1]);
        }
        lemma_trim_end_at(t, j - i);
        assert(t.subrange(0, j - i) =~= sv.subrange(i as int, j as int));
    }
    out
}

/// `str::to_lowercase`: `s` in lower case by the Unicode case mappings,
/// which on ASCII turn each capital into its small letter; beyond ASCII the
/// result is named by [`unicode_lowercased`].
#[verifier::external_body]
fn lowercase_str(s: &str) -> (r: String)
    ensures
        r@ == lowercased(s@),
        !all_ascii(s@) ==> r@ == unicode_lowercased(s@),
{
    s.to_lowercase()
}

/// `char::is_alphanumeric`: on ASCII exactly the letters and digits; beyond
/// ASCII named by [`unicode_alphanumeric`].
#[verifier::external_body]
fn is_alphanumeric_char(c: char) -> (r: bool)
    ensures
        r == alphanumeric(c),
        !is_ascii_char(c) ==> r == unicode_alphanumeric(c),
{
    c.is_alphanumeric()
}

/// `char::is_whitespace`: on ASCII exactly the space and `\t` to `\r`;
/// beyond ASCII named by [`unicode_white_space`].
#[verifier::external_body]
pub(crate) fn is_whitespace_char(c: char) -> (r: bool)
    ensures
        r == white_space(c),
        !is_ascii_char(c) ==> r == unicode_white_space(c),
{
    c.is_whitespace()
}

/// The slug of the first `n` characters of `t`: letters, digits, `_` and
/// `-` are kept, a white space becomes `-` unless the slug already ends
/// with one, anything else is dropped.
pub open spec fn slug_prefix(t: Seq<char>, n: int) -> Seq<char>
    decreases n,
{
    if n <= 0 {
        seq![]
    } else {
        let r = slug_prefix(t, n - 1);
        let c = t[n - 1];
        if alphanumeric(c) || c == '_' || c == '-' {
            r.push(c)
        } else if white_space(c) && !(r.len() > 0 && r.last() == '-') {
            r.push('-')
        } else {
            r
        }
    }
}

/// The anchor slug of a heading's text: its trimmed, lower-cased text
/// reduced as [`slug_prefix`] says.
pub open spec fn slug_of(s: Seq<char>) -> Seq<char> {
    let t = lowercased(trimmed(s));
    slug_prefix(t, t.len() as int)
}

/// The anchor slug of a heading's text (see [`slug_of`]).
pub fn slugify(text: &str) -> (r: String)
    ensures
        r@ == slug_of(text@),
{
    let trimmed_text = trim_chars(text);
    let lower = lowercase_str(trimmed_text.as_str());
    let chars = crate::text::chars_of(lower.as_str());
    let mut out = String::new();
    let mut i: usize = 0;
    while i < chars.len()
        invariant
            i <= chars@.len(),
            chars@ == lower@,
            out@ == slug_prefix(chars@, i as int),
        decreases chars@.len() - i,
    {
        let c = chars[i];
        if is_alphanumeric_char(c) || c == '_' || c == '-' {
            out.push(c);
        } else if is_whitespace_char(c) {
            let ends_dash = crate::text::char_count(out.as_str()) > 0 && last_char(&out) == '-';
            if !ends_dash {
                out.push('-');
            }
        }
        i = i + 1;
    }
    out
}

fn last_char(s: &String) -> (c: char)
    requires
        s@.len() > 0,
    ensures
        c == s@.last(),
{
    let chars = crate::text::chars_of(s.as_str());
    chars[chars.len() - 1]
}

/// Every character of a slug is a letter, a digit, `_` or `-`.
pub proof fn lemma_slug_alphabet(s: Seq<char>)
    ensures
        forall|i: int| 0 <= i < slug_of(s).len() ==> {
            let c = #[trigger] slug_of(s)[i];
            alphanumeric(c) || c == '_' || c == '-'
        },
{
    let t = lowercased(trimmed(s));
    lemma_slug_prefix_alphabet(t, t.len() as int);
}

proof fn lemma_slug_prefix_alphabet(t: Seq<char>, n: int)
    requires
        n <= t.len(),
    ensures
        forall|i: int| 0 <= i < slug_prefix(t, n).len() ==> {
            let c = #[trigger] slug_prefix(t, n)[i];
            alphanumeric(c) || c == '_' || c == '-'
        },
    decreases n,
{
    if n > 0 {
        lemma_slug_prefix_alphabet(t, n - 1);
        let r = slug_prefix(t, n - 1);
        assert forall|i: int| 0 <= i < slug_prefix(t, n).len() implies {
            let c = #[trigger] slug_prefix(t, n)[i];
            alphanumeric(c) || c == '_' || c == '-'
        } by {
            if i < r.len() {
                assert(slug_prefix(t, n)[i] == r[i]);
            }
        }
    }
}

/// A slug never holds two `-` in a row that white space made: a white
/// space after a `-` adds nothing.
pub proof fn lemma_slug_space_after_dash(t: Seq<char>, n: int)
    requires
        0 < n <= t.len(),
        white_space(t[n - 1]),
        !alphanumeric(t[n - 1]),
        t[n - 1] != '_' && t[n - 1] != '-',
        slug_prefix(t, n - 1).len() > 0,
        slug_prefix(t, n - 1).last() == '-',
    ensures
        slug_prefix(t, n) == slug_prefix(t, n - 1),
{
}

/// A character a slug of ASCII text is made of: a small letter, a digit,
/// `_` or `-`.
pub open spec fn slug_char(c: char) -> bool {
    'a' <= c <= 'z' || '0' <= c <= '9' || c == '_' || c == '-'
}

/// No slug holds ASCII white space: every ASCII character of a slug is a
/// letter, a digit, `_` or `-`.
pub proof fn lemma_slug_no_ascii_white_space(s: Seq<char>)
    ensures
        forall|i: int| 0 <= i < slug_of(s).len() ==> {
            let c = #[trigger] slug_of(s)[i];
            is_ascii_char(c) ==> !white_space(c) && (ascii_alphanumeric(c) || c == '_' || c == '-')
        },
{
    lemma_slug_alphabet(s);
    assert forall|i: int| 0 <= i < slug_of(s).len() implies {
        let c = #[trigger] slug_of(s)[i];
        is_ascii_char(c) ==> !white_space(c) && (ascii_alphanumeric(c) || c == '_' || c == '-')
    } by {
        let c = slug_of(s)[i];
        assert(alphanumeric(c) || c == '_' || c == '-');
    }
}

proof fn lemma_trim_start_ascii(s: Seq<char>)
    requires
        all_ascii(s),
    ensures
        all_ascii(trim_start(s)),
    decreases s.len(),
{
    if s.len() > 0 && white_space(s[0]) {
        let d = s.drop_first();
        assert forall|i: int| 0 <= i < d.len() implies is_ascii_char(#[trigger] d[i]) by {
            assert(d[i] == s[i + 1]);
        }
        lemma_trim_start_ascii(d);
    }
}

proof fn lemma_trim_end_ascii(s: Seq<char>)
    requires
        all_ascii(s),
    ensures
        all_ascii(trim_end(s)),
    decreases s.len(),
{
    if s.len() > 0 && white_space(s.last()) {
        let d = s.drop_last();
        assert forall|i: int| 0 <= i < d.len() implies is_ascii_char(#[trigger] d[i]) by {
            assert(d[i] == s[i]);
        }
        lemma_trim_end_ascii(d);
    }
}

/// Lower-casing ASCII text leaves ASCII without capitals.
proof fn lemma_lowercased_ascii(t: Seq<char>)
    requires
        all_ascii(t),
    ensures
        lowercased(t).len() == t.len(),
        forall|i: int| 0 <= i < t.len() ==> {
            let c = #[trigger] lowercased(t)[i];
            is_ascii_char(c) && !('A' <= c <= 'Z')
        },
{
    assert forall|i: int| 0 <= i < t.len() implies {
        let c = #[trigger] lowercased(t)[i];
        is_ascii_char(c) && !('A' <= c <= 'Z')
    } by {
        let c = t[i];
        assert(lowercased(t)[i] == ascii_lower(c));
        if 'A' <= c <= 'Z' {
            assert('a' <= ((c as int) + 32) as char <= 'z');
        }
    }
}

/// The characters a slug keeps from ASCII text without capitals are small
/// letters, digits, `_` and `-`.
proof fn lemma_slug_prefix_chars(t: Seq<char>, n: int)
    requires
        n <= t.len(),
        forall|i: int| 0 <= i < t.len() ==> {
            let c = #[trigger] t[i];
            is_ascii_char(c) && !('A' <= c <= 'Z')
        },
    ensures
        forall|i: int| 0 <= i < slug_prefix(t, n).len() ==> slug_char(#[trigger] slug_prefix(t, n)[i]),
    decreases n,
{
    if n > 0 {
        lemma_slug_prefix_chars(t, n - 1);
        let r = slug_prefix(t, n - 1);
        let c = t[n - 1];
        assert(is_ascii_char(c) && !('A' <= c <= 'Z'));
        assert forall|i: int| 0 <= i < slug_prefix(t, n).len() implies slug_char(
            #[trigger] slug_prefix(t, n)[i],
        ) by {
            if i < r.len() {
                assert(slug_prefix(t, n)[i] == r[i]);
            }
        }
    }
}

/// A slug keeps every character of text made of slug characters.
proof fn lemma_slug_prefix_keeps(t: Seq<char>, n: int)
    requires
        0 <= n <= t.len(),
        forall|i: int| 0 <= i < t.len() ==> slug_char(#[trigger] t[i]),
    ensures
        slug_prefix(t, n) == t.take(n),
    decreases n,
{
    if n > 0 {
        lemma_slug_prefix_keeps(t, n - 1);
        let c = t[n - 1];
        assert(slug_char(c));
        assert(alphanumeric(c) || c == '_' || c == '-');
        assert(t.take(n) =~= t.take(n - 1).push(c));
    } else {
        assert(t.take(0) =~= Seq::<char>::empty());
    }
}

/// The slug of ASCII text is its own slug: a slug is already trimmed,
/// lower case and made only of the characters a slug keeps.
pub proof fn lemma_slug_idempotent(s: Seq<char>)
    requires
        all_ascii(s),
    ensures
        slug_of(slug_of(s)) == slug_of(s),
{
    lemma_trim_start_ascii(s);
    lemma_trim_end_ascii(trim_start(s));
    let t = lowercased(trimmed(s));
    lemma_lowercased_ascii(trimmed(s));
    lemma_slug_prefix_chars(t, t.len() as int);
    let r = slug_of(s);
    assert(r == slug_prefix(t, t.len() as int));
    assert forall|i: int| 0 <= i < r.len() implies is_ascii_char(#[trigger] r[i]) by {
        assert(slug_char(r[i]));
    }
    // `r` has no white space at either end, so trimming keeps it.
    assert(trim_start(r) == r) by {
        if r.len() > 0 {
            assert(slug_char(r[0]));
        }
    }
    assert(trim_end(r) == r) by {
        if r.len() > 0 {
            assert(slug_char(r[r.len() - 1]));
        }
    }
    // `r` has no capitals, so lower-casing keeps it.
    assert(lowercased(r) =~= r) by {
        let m = r.map_values(|c: char| ascii_lower(c));
        assert forall|i: int| 0 <= i < r.len() implies #[trigger] m[i] == r[i] by {
            assert(slug_char(r[i]));
        }
    }
    lemma_slug_prefix_keeps(r, r.len() as int);
    assert(r.take(r.len() as int) =~= r);
}

/// The decimal digits of `n`.
pub open spec fn decimal(n: nat) -> Seq<char>
    decreases n,
{
    if n < 10 {
        seq![digit_char(n)]
    } else {
        decimal(n / 10).push(digit_char(n % 10))
    }
}

/// The digit character for `d < 10`.
pub open spec fn digit_char(d: nat) -> char {
    if d == 0 { '0' } else if d == 1 { '1' } else if d == 2 { '2' } else if d == 3 { '3' } else if d == 4 { '4' }
    else if d == 5 { '5' } else if d == 6 { '6' } else if d == 7 { '7' } else if d == 8 { '8' } else { '9' }
}

fn digit(d: u128) -> (c: char)
    requires
        d < 10,
    ensures
        c == digit_char(d as nat),
{
    if d == 0 { '0' } else if d == 1 { '1' } else if d == 2 { '2' } else if d == 3 { '3' } else if d == 4 { '4' }
    else if d == 5 { '5' } else if d == 6 { '6' } else if d == 7 { '7' } else if d == 8 { '8' } else { '9' }
}

/// Append the decimal digits of `n` to `out`.
fn push_decimal(out: &mut String, n: u128)
    ensures
        final(out)@ == old(out)@ + decimal(n as nat),
    decreases n,
{
    if n < 10 {
        out.push(digit(n));
        proof {
            assert(final(out)@ =~= old(out)@ + decimal(n as nat)) by {
                assert(decimal(n as nat) == seq![digit_char(n as nat)]);
            }
        }
    } else {
        push_decimal(out, n / 10);
        out.push(digit(n % 10));
        proof {
            assert(decimal(n as nat) == decimal((n / 10) as nat).push(digit_char((n % 10) as nat)));
            assert(final(out)@ =~= old(out)@ + decimal(n as nat));
        }
    }
}


/// A fragment as plain values.
#[verifier::ext_equal]
pub struct FragView {
    pub text: Seq<char>,
    pub style: FragmentStyle,
    pub link: Option<Seq<char>>,
}

/// The text of an optional string.
pub open spec fn opt_text(o: Option<String>) -> Option<Seq<char>> {
    match o {
        Some(s) => Some(s@),
        None => None,
    }
}

/// A fragment as plain values.
pub open spec fn frag_view(f: MdFragment) -> FragView {
    FragView { text: f.text@, style: f.style, link: opt_text(f.link) }
}

/// A line as plain values.
pub open spec fn line_view(l: Seq<MdFragment>) -> Seq<FragView> {
    l.map_values(|f: MdFragment| frag_view(f))
}

/// Lines as plain values.
pub open spec fn lines_view(ls: Seq<Vec<MdFragment>>) -> Seq<Seq<FragView>> {
    ls.map_values(|l: Vec<MdFragment>| line_view(l@))
}

/// Anchors as plain values.
pub open spec fn anchors_view(a: Seq<(String, usize)>) -> Seq<(Seq<char>, usize)> {
    a.map_values(|e: (String, usize)| (e.0@, e.1))
}

/// The state of the line builder as plain values.
#[verifier::ext_equal]
pub struct MdState {
    pub lines: Seq<Seq<FragView>>,
    pub current: Seq<FragView>,
    pub anchors: Seq<(Seq<char>, usize)>,
    pub list_start: Seq<Option<u64>>,
    pub list_count: Seq<usize>,
    pub stack: Seq<TagKind>,
    pub bold: bool,
    pub italic: bool,
    pub in_code: bool,
    pub link: Option<Seq<char>>,
    pub gathering: bool,
    pub anchor_text: Seq<char>,
}

/// The builder before any event.
pub open spec fn initial_state() -> MdState {
    MdState {
        lines: seq![],
        current: seq![],
        anchors: seq![],
        list_start: seq![],
        list_count: seq![],
        stack: seq![],
        bold: false,
        italic: false,
        in_code: false,
        link: None,
        gathering: false,
        anchor_text: seq![],
    }
}

/// The current line ends (when it holds anything).
pub open spec fn flushed(s: MdState) -> MdState {
    if s.current.len() > 0 { MdState { lines: s.lines.push(s.current), current: seq![], ..s } } else { s }
}

/// An empty line.
pub open spec fn blank_line() -> Seq<FragView> {
    seq![FragView { text: seq![], style: plain_style(), link: None }]
}

/// A blank line is added.
pub open spec fn with_blank(s: MdState) -> MdState {
    MdState { lines: s.lines.push(blank_line()), ..s }
}

/// `2 * n` spaces.
pub open spec fn indent(n: nat) -> Seq<char> {
    Seq::new(2 * n, |i: int| ' ')
}

/// The bullet of a list item, once the item is counted: indented two
/// spaces per enclosing list, the item's number and a dot in an ordered
/// list, else a dash and a space.
pub open spec fn bullet(list_start: Seq<Option<u64>>, list_count: Seq<usize>) -> Seq<char> {
    let depth: nat = if list_count.len() > 0 { (list_count.len() - 1) as nat } else { 0 };
    let idx: int = if list_count.len() > 0 { list_count.last() as int } else { 1 };
    match (if list_start.len() > 0 { list_start.last() } else { None }) {
        Some(start) => indent(depth) + decimal((start + idx - 1) as nat) + seq!['.'],
        None => indent(depth) + seq!['-', ' '],
    }
}

/// The builder after a start tag.
pub open spec fn start_step(s: MdState, tag: MdTag) -> MdState {
    match tag {
        MdTag::Strong => MdState { stack: s.stack.push(TagKind::Strong), bold: true, ..s },
        MdTag::Emphasis => MdState { stack: s.stack.push(TagKind::Emphasis), italic: true, ..s },
        MdTag::List(start) => MdState {
            stack: s.stack.push(TagKind::List),
            list_start: s.list_start.push(start),
            list_count: s.list_count.push(0),
            ..s
        },
        MdTag::Item => {
            let counts = if s.list_count.len() > 0 {
                s.list_count.update(
                    s.list_count.len() - 1,
                    (if s.list_count.last() < usize::MAX { s.list_count.last() + 1 } else { usize::MAX as int }) as usize,
                )
            } else {
                s.list_count
            };
            MdState {
                stack: s.stack.push(TagKind::Item),
                list_count: counts,
                current: s.current.push(
                    FragView { text: bullet(s.list_start, counts), style: plain_style(), link: None },
                ),
                ..s
            }
        },
        MdTag::CodeBlock => MdState { stack: s.stack.push(TagKind::CodeBlock), in_code: true, ..s },
        MdTag::Paragraph => MdState { stack: s.stack.push(TagKind::Paragraph), ..s },
        MdTag::Link(url) => MdState { stack: s.stack.push(TagKind::Link), link: Some(url@), ..s },
        MdTag::Heading => MdState {
            stack: s.stack.push(TagKind::Heading),
            bold: true,
            gathering: true,
            anchor_text: seq![],
            ..s
        },
        MdTag::Other => MdState { stack: s.stack.push(TagKind::Other), ..s },
    }
}

/// `s` without its last element (empty stays empty).
pub open spec fn drop_last_of<T>(s: Seq<T>) -> Seq<T> {
    if s.len() > 0 { s.drop_last() } else { s }
}

/// The builder after an end tag: the innermost open tag closes. An item
/// ends its line; a paragraph ends its line and, outside list items, adds a
/// blank line; a list adds one when it is not nested in an item; a heading
/// records its anchor at the line it is about to end, ends it and adds a
/// blank line.
pub open spec fn end_step(s: MdState) -> MdState {
    if s.stack.len() == 0 {
        s
    } else {
        let kind = s.stack.last();
        let s1 = MdState { stack: s.stack.drop_last(), ..s };
        let in_item = s1.stack.contains(TagKind::Item);
        match kind {
            TagKind::Strong => MdState { bold: false, ..s1 },
            TagKind::Emphasis => MdState { italic: false, ..s1 },
            TagKind::Item => flushed(s1),
            TagKind::List => {
                let s2 = MdState { list_start: drop_last_of(s1.list_start), list_count: drop_last_of(s1.list_count), ..s1 };
                if in_item { s2 } else { with_blank(s2) }
            },
            TagKind::CodeBlock => MdState { in_code: false, ..s1 },
            TagKind::Paragraph => if in_item { flushed(s1) } else { with_blank(flushed(s1)) },
            TagKind::Heading => {
                let slug = slug_of(s1.anchor_text);
                let s2 = MdState {
                    bold: false,
                    gathering: false,
                    anchors: if slug.len() > 0 { s1.anchors.push((slug, s1.lines.len() as usize)) } else { s1.anchors },
                    ..s1
                };
                with_blank(flushed(s2))
            },
            TagKind::Link => MdState { link: None, ..s1 },
            TagKind::Other => s1,
        }
    }
}

/// The style of text in state `s`.
pub open spec fn text_style(s: MdState) -> FragmentStyle {
    if s.in_code {
        FragmentStyle { bold: false, italic: false, code: true }
    } else {
        FragmentStyle { bold: s.bold, italic: s.italic, code: false }
    }
}

/// The builder after one event.
pub open spec fn md_step(s: MdState, ev: MdEvent) -> MdState {
    match ev {
        MdEvent::Start(tag) => start_step(s, tag),
        MdEvent::End => end_step(s),
        MdEvent::Text(t) => MdState {
            anchor_text: if s.gathering { s.anchor_text + t@ } else { s.anchor_text },
            current: s.current.push(FragView { text: t@, style: text_style(s), link: s.link }),
            ..s
        },
        MdEvent::Html(t) => MdState { current: s.current.push(FragView { text: t@, style: plain_style(), link: s.link }), ..s },
        MdEvent::Code(t) => MdState {
            anchor_text: if s.gathering { s.anchor_text + t@ } else { s.anchor_text },
            current: s.current.push(
                FragView { text: t@, style: FragmentStyle { bold: false, italic: false, code: true }, link: s.link },
            ),
            ..s
        },
        MdEvent::SoftBreak => if s.in_code {
            flushed(s)
        } else {
            MdState { current: s.current.push(FragView { text: seq![' '], style: plain_style(), link: None }), ..s }
        },
        MdEvent::HardBreak => flushed(s),
        MdEvent::Rule => MdState {
            lines: s.lines.push(seq![FragView { text: "\0RULE\0"@, style: plain_style(), link: None }]),
            ..s
        },
        MdEvent::Other => s,
    }
}

/// The builder after a run of events.
pub open spec fn md_run(s: MdState, evs: Seq<MdEvent>) -> MdState
    decreases evs.len(),
{
    if evs.len() == 0 { s } else { md_step(md_run(s, evs.drop_last()), evs.last()) }
}

/// The lines of a finished run: the last line ended, and one blank line
/// when there would be none.
pub open spec fn finished_lines(s: MdState) -> Seq<Seq<FragView>> {
    let f = flushed(s);
    if f.lines.len() == 0 { seq![blank_line()] } else { f.lines }
}

/// Turns markdown events into styled lines and heading anchors.
pub struct MarkdownBuilder {
    pub lines: Vec<Vec<MdFragment>>,
    pub current: Vec<MdFragment>,
    /// Heading slugs and their lines; a later heading with the same slug
    /// takes precedence.
    pub anchors: Vec<(String, usize)>,
    pub list_start: Vec<Option<u64>>,
    pub list_count: Vec<usize>,
    pub tag_stack: Vec<TagKind>,
    pub bold: bool,
    pub italic: bool,
    pub in_code_block: bool,
    pub current_link: Option<String>,
    pub gathering_anchor: bool,
    pub anchor_text: String,
}

impl MarkdownBuilder {
    /// The builder's state as plain values.
    pub open spec fn state(self) -> MdState {
        MdState {
            lines: lines_view(self.lines@),
            current: line_view(self.current@),
            anchors: anchors_view(self.anchors@),
            list_start: self.list_start@,
            list_count: self.list_count@,
            stack: self.tag_stack@,
            bold: self.bold,
            italic: self.italic,
            in_code: self.in_code_block,
            link: opt_text(self.current_link),
            gathering: self.gathering_anchor,
            anchor_text: self.anchor_text@,
        }
    }
}



fn clone_opt(o: &Option<String>) -> (r: Option<String>)
    ensures
        r == *o,
{
    match o {
        Some(s) => Some(s.clone()),
        None => None,
    }
}

fn fragment(text: String, style: FragmentStyle, link: Option<String>) -> (f: MdFragment)
    ensures
        f.text == text,
        f.style == style,
        f.link == link,
{
    MdFragment { text, style, link }
}

fn has_item(stack: &Vec<TagKind>) -> (r: bool)
    ensures
        r == stack@.contains(TagKind::Item),
{
    let mut i: usize = 0;
    while i < stack.len()
        invariant
            i <= stack@.len(),
            forall|j: int| 0 <= j < i ==> stack@[j] != TagKind::Item,
        decreases stack@.len() - i,
    {
        if stack[i] == TagKind::Item {
            return true;
        }
        i = i + 1;
    }
    false
}

fn push_indent(out: &mut String, depth: usize)
    ensures
        final(out)@ == old(out)@ + indent(depth as nat),
{
    let total: u128 = 2 * depth as u128;
    let mut k: u128 = 0;
    while k < total
        invariant
            k <= total,
            total == 2 * depth,
            out@ == old(out)@ + Seq::new(k as nat, |i: int| ' '),
        decreases total - k,
    {
        out.push(' ');
        k = k + 1;
        proof {
            assert(out@ =~= old(out)@ + Seq::new(k as nat, |i: int| ' '));
        }
    }
    proof {
        assert(out@ =~= old(out)@ + indent(depth as nat));
    }
}

impl MarkdownBuilder {
    /// A builder before any event.
    pub fn new() -> (r: Self)
        ensures
            r.state() == initial_state(),
    {
        let r = MarkdownBuilder {
            lines: Vec::new(),
            current: Vec::new(),
            anchors: Vec::new(),
            list_start: Vec::new(),
            list_count: Vec::new(),
            tag_stack: Vec::new(),
            bold: false,
            italic: false,
            in_code_block: false,
            current_link: None,
            gathering_anchor: false,
            anchor_text: String::new(),
        };
        proof {
            assert(lines_view(r.lines@) =~= Seq::<Seq<FragView>>::empty());
            assert(line_view(r.current@) =~= Seq::<FragView>::empty());
            assert(anchors_view(r.anchors@) =~= Seq::<(Seq<char>, usize)>::empty());
            assert(r.state() =~= initial_state());
        }
        r
    }

    fn flush(&mut self)
        ensures
            final(self).state() == flushed(old(self).state()),
    {
        if self.current.len() > 0 {
            let mut line: Vec<MdFragment> = Vec::new();
            std::mem::swap(&mut line, &mut self.current);
            self.lines.push(line);
            proof {
                assert(lines_view(self.lines@) =~= lines_view(old(self).lines@).push(line_view(line@)));
                assert(line_view(self.current@) =~= Seq::<FragView>::empty());
                assert(self.state() =~= flushed(old(self).state()));
            }
        }
    }

    fn push_blank(&mut self)
        ensures
            final(self).state() == with_blank(old(self).state()),
    {
        let mut line: Vec<MdFragment> = Vec::new();
        line.push(fragment(String::new(), FragmentStyle { bold: false, italic: false, code: false }, None));
        self.lines.push(line);
        proof {
            assert(line_view(line@) =~= blank_line());
            assert(lines_view(self.lines@) =~= lines_view(old(self).lines@).push(blank_line()));
            assert(self.state() =~= with_blank(old(self).state()));
        }
    }

    fn push_current(&mut self, f: MdFragment)
        ensures
            final(self).state() == (MdState { current: old(self).state().current.push(frag_view(f)), ..old(self).state() }),
    {
        self.current.push(f);
        proof {
            assert(line_view(self.current@) =~= line_view(old(self).current@).push(frag_view(f)));
        }
    }

    /// The bullet of the item that starts now (counted already).
    fn bullet_text(&self) -> (r: String)
        requires
            self.list_count@.len() > 0 ==> self.list_count@.last() >= 1,
        ensures
            r@ == bullet(self.list_start@, self.list_count@),
    {
        let n = self.list_count.len();
        let depth: usize = if n > 0 { n - 1 } else { 0 };
        let mut out = String::new();
        push_indent(&mut out, depth);
        let idx: u128 = if n > 0 { self.list_count[n - 1] as u128 } else { 1 };
        let start: Option<u64> = if self.list_start.len() > 0 { self.list_start[self.list_start.len() - 1] } else { None };
        match start {
            Some(st) => {
                let number: u128 = st as u128 + idx - 1;
                push_decimal(&mut out, number);
                out.push('.');
            },
            None => {
                out.push('-');
                out.push(' ');
            },
        }
        proof {
            assert(out@ =~= bullet(self.list_start@, self.list_count@));
        }
        out
    }

    fn start_tag(&mut self, tag: MdTag)
        ensures
            final(self).state() == start_step(old(self).state(), tag),
    {
        let ghost s = self.state();
        match tag {
            MdTag::Strong => {
                self.tag_stack.push(TagKind::Strong);
                self.bold = true;
            },
            MdTag::Emphasis => {
                self.tag_stack.push(TagKind::Emphasis);
                self.italic = true;
            },
            MdTag::List(start) => {
                self.tag_stack.push(TagKind::List);
                self.list_start.push(start);
                self.list_count.push(0);
            },
            MdTag::Item => {
                self.tag_stack.push(TagKind::Item);
                let n = self.list_count.len();
                if n > 0 {
                    let v = self.list_count[n - 1];
                    self.list_count.set(n - 1, v.saturating_add(1));
                }
                let b = self.bullet_text();
                self.push_current(fragment(b, FragmentStyle { bold: false, italic: false, code: false }, None));
            },
            MdTag::CodeBlock => {
                self.tag_stack.push(TagKind::CodeBlock);
                self.in_code_block = true;
            },
            MdTag::Paragraph => {
                self.tag_stack.push(TagKind::Paragraph);
            },
            MdTag::Link(url) => {
                self.tag_stack.push(TagKind::Link);
                self.current_link = Some(url);
            },
            MdTag::Heading => {
                self.tag_stack.push(TagKind::Heading);
                self.bold = true;
                self.gathering_anchor = true;
                self.anchor_text = String::new();
            },
            MdTag::Other => {
                self.tag_stack.push(TagKind::Other);
            },
        }
        proof {
            assert(self.state() =~= start_step(s, tag));
        }
    }

    fn end_tag(&mut self)
        ensures
            final(self).state() == end_step(old(self).state()),
    {
        let ghost s = self.state();
        let kind = match self.tag_stack.pop() {
            Some(k) => k,
            None => return,
        };
        let ghost s1 = self.state();
        proof {
            assert(s1 =~= MdState { stack: s.stack.drop_last(), ..s });
        }
        match kind {
            TagKind::Strong => {
                self.bold = false;
            },
            TagKind::Emphasis => {
                self.italic = false;
            },
            TagKind::Item => {
                self.flush();
            },
            TagKind::List => {
                self.list_start.pop();
                self.list_count.pop();
                proof {
                    assert(self.state() =~= MdState {
                        list_start: drop_last_of(s1.list_start),
                        list_count: drop_last_of(s1.list_count),
                        ..s1
                    });
                }
                if !has_item(&self.tag_stack) {
                    self.push_blank();
                }
            },
            TagKind::CodeBlock => {
                self.in_code_block = false;
            },
            TagKind::Paragraph => {
                self.flush();
                if !has_item(&self.tag_stack) {
                    self.push_blank();
                }
            },
            TagKind::Heading => {
                self.bold = false;
                self.gathering_anchor = false;
                let slug = slugify(self.anchor_text.as_str());
                if crate::text::char_count(slug.as_str()) > 0 {
                    let at = self.lines.len();
                    self.anchors.push((slug, at));
                    proof {
                        assert(anchors_view(self.anchors@) =~= s1.anchors.push((slug@, at)));
                    }
                }
                let ghost s2 = self.state();
                proof {
                    let slug_s = slug_of(s1.anchor_text);
                    assert(s2 =~= MdState {
                        bold: false,
                        gathering: false,
                        anchors: if slug_s.len() > 0 { s1.anchors.push((slug_s, s1.lines.len() as usize)) } else { s1.anchors },
                        ..s1
                    });
                }
                self.flush();
                self.push_blank();
            },
            TagKind::Link => {
                self.current_link = None;
            },
            TagKind::Other => {},
        }
        proof {
            assert(self.state() =~= end_step(s));
        }
    }

    /// Take one event.
    pub fn feed(&mut self, ev: MdEvent)
        ensures
            final(self).state() == md_step(old(self).state(), ev),
    {
        let ghost s = self.state();
        match ev {
            MdEvent::Start(tag) => self.start_tag(tag),
            MdEvent::End => self.end_tag(),
            MdEvent::Text(t) => {
                let style = if self.in_code_block {
                    FragmentStyle { bold: false, italic: false, code: true }
                } else {
                    FragmentStyle { bold: self.bold, italic: self.italic, code: false }
                };
                if self.gathering_anchor {
                    push_str(&mut self.anchor_text, t.as_str());
                }
                let link = clone_opt(&self.current_link);
                self.push_current(fragment(t, style, link));
                proof {
                    assert(self.state() =~= md_step(s, ev));
                }
            },
            MdEvent::Html(t) => {
                let link = clone_opt(&self.current_link);
                self.push_current(fragment(t, FragmentStyle { bold: false, italic: false, code: false }, link));
            },
            MdEvent::Code(t) => {
                if self.gathering_anchor {
                    push_str(&mut self.anchor_text, t.as_str());
                }
                let link = clone_opt(&self.current_link);
                self.push_current(fragment(t, FragmentStyle { bold: false, italic: false, code: true }, link));
                proof {
                    assert(self.state() =~= md_step(s, ev));
                }
            },
            MdEvent::SoftBreak => {
                if self.in_code_block {
                    self.flush();
                } else {
                    let mut sp = String::new();
                    sp.push(' ');
                    self.push_current(fragment(sp, FragmentStyle { bold: false, italic: false, code: false }, None));
                    proof {
                        assert(sp@ =~= seq![' ']);
                    }
                }
            },
            MdEvent::HardBreak => self.flush(),
            MdEvent::Rule => {
                let mut text = String::new();
                push_str(&mut text, "\0RULE\0");
                let mut line: Vec<MdFragment> = Vec::new();
                line.push(fragment(text, FragmentStyle { bold: false, italic: false, code: false }, None));
                self.lines.push(line);
                proof {
                    assert(text@ =~= "\0RULE\0"@);
                    assert(line_view(line@) =~= seq![FragView { text: "\0RULE\0"@, style: plain_style(), link: None }]);
                    assert(lines_view(self.lines@) =~= lines_view(old(self).lines@).push(line_view(line@)));
                    assert(self.state() =~= md_step(s, ev));
                }
            },
            MdEvent::Other => {},
        }
    }
}


fn clone_tag(t: &MdTag) -> (r: MdTag)
    ensures
        r == *t,
{
    match t {
        MdTag::Strong => MdTag::Strong,
        MdTag::Emphasis => MdTag::Emphasis,
        MdTag::List(n) => MdTag::List(*n),
        MdTag::Item => MdTag::Item,
        MdTag::CodeBlock => MdTag::CodeBlock,
        MdTag::Paragraph => MdTag::Paragraph,
        MdTag::Link(u) => MdTag::Link(u.clone()),
        MdTag::Heading => MdTag::Heading,
        MdTag::Other => MdTag::Other,
    }
}

fn clone_event(e: &MdEvent) -> (r: MdEvent)
    ensures
        r == *e,
{
    match e {
        MdEvent::Start(t) => MdEvent::Start(clone_tag(t)),
        MdEvent::End => MdEvent::End,
        MdEvent::Text(t) => MdEvent::Text(t.clone()),
        MdEvent::Html(t) => MdEvent::Html(t.clone()),
        MdEvent::Code(t) => MdEvent::Code(t.clone()),
        MdEvent::SoftBreak => MdEvent::SoftBreak,
        MdEvent::HardBreak => MdEvent::HardBreak,
        MdEvent::Rule => MdEvent::Rule,
        MdEvent::Other => MdEvent::Other,
    }
}

impl MarkdownBuilder {
    /// End the last line and hand over the lines (one blank line when there
    /// would be none) and the anchors.
    pub fn finish(self) -> (r: (Vec<Vec<MdFragment>>, Vec<(String, usize)>))
        ensures
            lines_view(r.0@) == finished_lines(self.state()),
            anchors_view(r.1@) == self.state().anchors,
    {
        let mut b = self;
        b.flush();
        if b.lines.len() == 0 {
            b.push_blank();
        }
        (b.lines, b.anchors)
    }
}

/// The styled lines and heading anchors of a run of markdown events.
pub fn lines_from_events(events: &Vec<MdEvent>) -> (r: (Vec<Vec<MdFragment>>, Vec<(String, usize)>))
    ensures
        lines_view(r.0@) == finished_lines(md_run(initial_state(), events@)),
        anchors_view(r.1@) == md_run(initial_state(), events@).anchors,
{
    let mut b = MarkdownBuilder::new();
    let mut i: usize = 0;
    while i < events.len()
        invariant
            i <= events@.len(),
            b.state() == md_run(initial_state(), events@.take(i as int)),
        decreases events@.len() - i,
    {
        proof {
            assert(events@.take(i + 1).drop_last() =~= events@.take(i as int));
        }
        b.feed(clone_event(&events[i]));
        i = i + 1;
    }
    proof {
        assert(events@.take(i as int) =~= events@);
    }
    b.finish()
}

/// The line of the anchor `slug`: the last heading with that slug.
pub open spec fn anchor_lookup(anchors: Seq<(Seq<char>, usize)>, slug: Seq<char>) -> Option<usize>
    decreases anchors.len(),
{
    if anchors.len() == 0 {
        None
    } else if anchors.last().0 == slug {
        Some(anchors.last().1)
    } else {
        anchor_lookup(anchors.drop_last(), slug)
    }
}

/// The bytes of UTF-8 text as characters, `None` when they are not UTF-8.
pub uninterp spec fn utf8_text(bytes: Seq<u8>) -> Option<Seq<char>>;

/// `std::str::from_utf8`: the text the bytes encode, when they are valid
/// UTF-8; named by [`utf8_text`].
#[verifier::external_body]
fn decode_utf8(bytes: &[u8]) -> (r: Option<&str>)
    ensures
        match r {
            Some(s) => utf8_text(bytes@) == Some(s@),
            None => utf8_text(bytes@) is None,
        },
{
    std::str::from_utf8(bytes).ok()
}

/// A markdown document as styled lines, with the line of each heading
/// anchor.
pub struct MarkdownViewerComponent {
    pub lines: Vec<Vec<MdFragment>>,
    pub anchors: Vec<(String, usize)>,
}

impl MarkdownViewerComponent {
    /// An empty viewer.
    pub fn new() -> (r: Self)
        ensures
            r.lines@.len() == 0,
            r.anchors@.len() == 0,
    {
        MarkdownViewerComponent { lines: Vec::new(), anchors: Vec::new() }
    }

    /// A viewer of the markdown that `bytes` encode; empty when they are not
    /// UTF-8.
    pub fn from_bytes(bytes: &[u8]) -> (r: Self)
        ensures
            match utf8_text(bytes@) {
                Some(text) => lines_view(r.lines@) == finished_lines(md_run(initial_state(), markdown_events(text)))
                    && anchors_view(r.anchors@) == md_run(initial_state(), markdown_events(text)).anchors,
                None => r.lines@.len() == 0 && r.anchors@.len() == 0,
            },
    {
        let mut mv = Self::new();
        mv.set_markdown_bytes(bytes);
        mv
    }

    /// Show the markdown `raw`: its lines and anchors replace the old ones.
    pub fn set_markdown(&mut self, raw: &str)
        ensures
            lines_view(final(self).lines@) == finished_lines(md_run(initial_state(), markdown_events(raw@))),
            anchors_view(final(self).anchors@) == md_run(initial_state(), markdown_events(raw@)).anchors,
    {
        let events = parse_markdown(raw);
        let (lines, anchors) = lines_from_events(&events);
        self.lines = lines;
        self.anchors = anchors;
    }

    /// Show the markdown that `bytes` encode; bytes that are not UTF-8 leave
    /// the viewer as it was.
    pub fn set_markdown_bytes(&mut self, bytes: &[u8])
        ensures
            match utf8_text(bytes@) {
                Some(text) => lines_view(final(self).lines@) == finished_lines(
                    md_run(initial_state(), markdown_events(text)),
                ) && anchors_view(final(self).anchors@) == md_run(initial_state(), markdown_events(text)).anchors,
                None => final(self).lines == old(self).lines && final(self).anchors == old(self).anchors,
            },
    {
        if let Some(s) = decode_utf8(bytes) {
            self.set_markdown(s);
        }
    }

    /// The line of the heading whose slug is `slug`.
    pub fn anchor_line(&self, slug: &str) -> (r: Option<usize>)
        ensures
            r == anchor_lookup(anchors_view(self.anchors@), slug@),
    {
        let mut n: usize = self.anchors.len();
        proof {
            assert(self.anchors@.take(n as int) =~= self.anchors@);
        }
        while n > 0
            invariant
                n <= self.anchors@.len(),
                anchor_lookup(anchors_view(self.anchors@), slug@) == anchor_lookup(
                    anchors_view(self.anchors@.take(n as int)),
                    slug@,
                ),
            decreases n,
        {
            proof {
                assert(anchors_view(self.anchors@.take(n as int)).drop_last() =~= anchors_view(
                    self.anchors@.take(n - 1),
                ));
            }
            if str_eq(self.anchors[n - 1].0.as_str(), slug) {
                return Some(self.anchors[n - 1].1);
            }
            n = n - 1;
        }
        proof {
            assert(anchors_view(self.anchors@.take(0)) =~= Seq::<(Seq<char>, usize)>::empty());
        }
        None
    }

    /// The line a link to `url` jumps to: for `#slug`, the line of that
    /// heading anchor, when there is one.
    pub fn link_target(&self, url: &str) -> (r: Option<usize>)
        ensures
            r == (if url@.len() > 0 && url@[0] == '#' {
                anchor_lookup(anchors_view(self.anchors@), url@.drop_first())
            } else {
                None
            }),
    {
        let chars = crate::text::chars_of(url);
        if chars.len() == 0 || chars[0] != '#' {
            return None;
        }
        let mut rest = String::new();
        let mut i: usize = 1;
        while i < chars.len()
            invariant
                1 <= i <= chars@.len(),
                chars@ == url@,
                rest@ == chars@.subrange(1, i as int),
            decreases chars@.len() - i,
        {
            rest.push(chars[i]);
            i = i + 1;
            proof {
                assert(rest@ =~= chars@.subrange(1, i as int));
            }
        }
        proof {
            assert(rest@ =~= url@.drop_first());
        }
        self.anchor_line(rest.as_str())
    }
}

/// What a pointer event on a markdown view comes to.
#[derive(Debug, Clone, Copy, PartialEq, Eq, Structural)]
pub enum PointerAction {
    /// Scroll the view so that this row is at its top (a link to a heading).
    JumpTo(usize),
    /// Hand the link to the host's link handler; when it declines, the event
    /// goes to the text view.
    HandToHandler,
    /// Let the text view handle the event.
    Delegate,
}

impl MarkdownViewerComponent {
    /// The action for a pointer event on the view: a press on a link to a
    /// known heading (`#slug`) jumps the view, `view` being this viewer's
    /// text `width` columns wide, to the row where the heading's line
    /// starts; a press on any other link goes to the link handler; anything
    /// else (no press, or no link under the pointer) goes to the text view.
    /// `None` when the jump row cannot be counted in `usize`.
    pub fn pointer_action(
        &self,
        view: &TextRendererComponent,
        press: bool,
        url: Option<&str>,
        width: u16,
    ) -> (r: Option<PointerAction>)
        ensures
            r == (match url {
                Some(u) if press => match (if u@.len() > 0 && u@[0] == '#' {
                    anchor_lookup(anchors_view(self.anchors@), u@.drop_first())
                } else {
                    None
                }) {
                    Some(line) => if view.lines@.len() == 0 || width == 0 {
                        Some(PointerAction::JumpTo(0))
                    } else if measures_fit(view.lines@, view.wrap, width as int) {
                        Some(PointerAction::JumpTo(view.jump_offset(line, width) as usize))
                    } else {
                        None
                    },
                    None => Some(PointerAction::HandToHandler),
                },
                _ => Some(PointerAction::Delegate),
            }),
    {
        if !press {
            return Some(PointerAction::Delegate);
        }
        let u = match url {
            Some(u) => u,
            None => return Some(PointerAction::Delegate),
        };
        match self.link_target(u) {
            Some(line) => match view.checked_jump_to_logical_line(line, width) {
                Some(row) => Some(PointerAction::JumpTo(row)),
                None => None,
            },
            None => Some(PointerAction::HandToHandler),
        }
    }
}

pub(crate) fn str_eq(a: &str, b: &str) -> (r: bool)
    ensures
        r == (a@ == b@),
{
    let x = crate::text::chars_of(a);
    let y = crate::text::chars_of(b);
    if x.len() != y.len() {
        return false;
    }
    let mut i: usize = 0;
    while i < x.len()
        invariant
            i <= x@.len(),
            x@.len() == y@.len(),
            x@ == a@,
            y@ == b@,
            forall|j: int| 0 <= j < i ==> x@[j] == y@[j],
        decreases x@.len() - i,
    {
        if x[i] != y[i] {
            proof {
                assert(x@[i as int] != y@[i as int]);
                assert(a@[i as int] != b@[i as int]);
            }
            return false;
        }
        i = i + 1;
    }
    proof {
        assert(x@ =~= y@);
    }
    true
}

} // verus!
