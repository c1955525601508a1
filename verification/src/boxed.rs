//! A div-like bordered card: a border (with an optional title in the
//! top-left) and optional padding around a single content component.
//!
//! Without a border the box is a transparent group wrapper (padding only).
//! Its desired height stretches (`0`) when the content stretches, else it is
//! the content's height plus the border and padding on both sides.
use vstd::prelude::*;
use ratatui::style::Color;
use crate::action::MouseEventKind;
use crate::component::Component;
use crate::geometry::{add_i32_sat, rect_contains, sat_add_i32, sat_add_u16, sat_sub, spec_rect_contains, LayoutRect};
use crate::text::{char_columns, chars_of, display_width, prefix_within, str_width, unicode_str_width};

verus! {

/// A bordered, padded card around `content`.
pub struct BoxComponent<C> {
    pub content: C,
    pub title: Option<String>,
    pub padding: u16,
    pub border: bool,
    /// The border's colour; `None` draws it dark grey.
    pub border_color: Option<Color>,
}

/// `a * b` on `u16`, saturating.
pub open spec fn sat_mul_u16(a: int, b: int) -> int {
    if a * b > u16::MAX { u16::MAX as int } else { a * b }
}

/// The cells the border and padding take on each side.
pub open spec fn inset_of(border: bool, padding: u16) -> u16 {
    sat_add_u16(if border { 1 } else { 0 }, padding as int) as u16
}

/// `area` shrunk by `inset` on each side.
pub open spec fn spec_inner_rect(area: LayoutRect, inset: u16) -> LayoutRect {
    LayoutRect {
        x: sat_add_i32(area.x as int, inset as int) as i32,
        y: sat_add_i32(area.y as int, inset as int) as i32,
        width: sat_sub(area.width as int, sat_mul_u16(inset as int, 2)) as u16,
        height: sat_sub(area.height as int, sat_mul_u16(inset as int, 2)) as u16,
    }
}

/// `n` copies of `c`.
pub open spec fn repeat(c: char, n: nat) -> Seq<char> {
    Seq::new(n, |i: int| c)
}

/// The top border row for a box `inner_w` columns wide inside: the corners
/// and a rule, with the title (cut to what fits) after `╭─ `.
pub open spec fn spec_top_row(title: Option<Seq<char>>, inner_w: u16) -> Seq<char> {
    match title {
        None => seq!['╭'] + repeat('─', inner_w as nat) + seq!['╮'],
        Some(t) => {
            let tw = unicode_str_width(t) as u16;
            let budget = sat_sub(inner_w as int, 3);
            let shown = if tw > budget { prefix_within(t, budget) } else { t };
            let width = if tw > budget { display_width(prefix_within(t, budget)) } else { tw as nat };
            let fill = sat_sub(sat_sub(inner_w as int, width as int), 3);
            seq!['╭', '─', ' '] + shown + seq![' '] + repeat('─', fill as nat) + seq!['╮']
        },
    }
}

proof fn lemma_prefix_within_width(s: Seq<char>, budget: int)
    requires
        budget >= 0,
    ensures
        display_width(prefix_within(s, budget)) <= budget,
    decreases s.len(),
{
    if s.len() > 0 && crate::text::char_cols(s[0]) <= budget {
        lemma_prefix_within_width(s.drop_first(), budget - crate::text::char_cols(s[0]));
        let rest = prefix_within(s.drop_first(), budget - crate::text::char_cols(s[0]));
        assert((seq![s[0]] + rest).drop_first() =~= rest);
    }
}

pub fn push_repeat(out: &mut String, c: char, n: u16)
    ensures
        final(out)@ == old(out)@ + repeat(c, n as nat),
{
    let mut k: u16 = 0;
    while k < n
        invariant
            k <= n,
            out@ == old(out)@ + repeat(c, k as nat),
        decreases n - k,
    {
        out.push(c);
        k = k + 1;
        proof {
            assert(out@ =~= old(out)@ + repeat(c, k as nat));
        }
    }
}

/// The top border row (see [`spec_top_row`]).
pub fn top_row(title: &Option<String>, inner_w: u16) -> (r: String)
    ensures
        r@ == spec_top_row(
            match title {
                Some(t) => Some(t@),
                None => None,
            },
            inner_w,
        ),
{
    let mut out = String::new();
    match title {
        None => {
            out.push('╭');
            push_repeat(&mut out, '─', inner_w);
            out.push('╮');
            proof {
                assert(out@ =~= seq!['╭'] + repeat('─', inner_w as nat) + seq!['╮']);
            }
            out
        },
        Some(t) => {
            let tw = str_width(t.as_str()) as u16;
            let budget = inner_w.saturating_sub(3);
            let chars = chars_of(t.as_str());
            let mut shown = String::new();
            let mut width: u16 = 0;
            if tw > budget {
                // Cut character by character so wide characters never
                // overflow the row.
                let mut i: usize = 0;
                let mut done = false;
                let ghost whole = chars@;
                proof {
                    assert(whole.skip(0) =~= whole);
                    assert(shown@ + prefix_within(whole, budget as int) =~= prefix_within(whole, budget as int));
                    assert(display_width(shown@) == 0) by {
                        assert(shown@ =~= Seq::<char>::empty());
                    }
                }
                while i < chars.len() && !done
                    invariant
                        whole == chars@,
                        whole == t@,
                        i <= chars@.len(),
                        budget <= u16::MAX - 3,
                        width <= budget,
                        display_width(shown@) == width,
                        done ==> shown@ == prefix_within(whole, budget as int),
                        !done ==> shown@ + prefix_within(whole.skip(i as int), budget - width) == prefix_within(
                            whole,
                            budget as int,
                        ),
                    decreases chars@.len() - i, if done { 0int } else { 1int },
                {
                    let ghost rest = whole.skip(i as int);
                    proof {
                        assert(rest.drop_first() =~= whole.skip(i + 1));
                        assert(rest[0] == chars@[i as int]);
                    }
                    let cw = char_columns(chars[i]) as u16;
                    if width.saturating_add(cw) > budget {
                        proof {
                            assert(shown@ + seq![] =~= shown@);
                        }
                        done = true;
                    } else {
                        let ghost before = shown@;
                        shown.push(chars[i]);
                        proof {
                            assert(before + (seq![chars@[i as int]] + prefix_within(whole.skip(i + 1), budget - width - cw))
                                =~= shown@ + prefix_within(whole.skip(i + 1), budget - width - cw));
                            crate::text::lemma_display_width_push(before, chars@[i as int]);
                        }
                        width = width + cw;
                        i = i + 1;
                    }
                }
                proof {
                    if !done {
                        assert(whole.skip(i as int) =~= Seq::<char>::empty());
                        assert(shown@ + seq![] =~= shown@);
                    }
                }
            } else {
                crate::text::push_str(&mut shown, t.as_str());
                width = tw;
            }
            let fill = inner_w.saturating_sub(width).saturating_sub(3);
            out.push('╭');
            out.push('─');
            out.push(' ');
            crate::text::push_str(&mut out, shown.as_str());
            out.push(' ');
            push_repeat(&mut out, '─', fill);
            out.push('╮');
            proof {
                assert(out@ =~= seq!['╭', '─', ' '] + shown@ + seq![' '] + repeat('─', fill as nat) + seq!['╮']);
            }
            out
        },
    }
}


/// The border rows of a box: the top row (with the title), each middle row,
/// and the bottom row.
pub struct BoxBorder {
    pub top: String,
    pub middle: String,
    pub bottom: String,
}

fn mul2_sat(a: u16) -> (r: u16)
    ensures
        r == sat_mul_u16(a as int, 2),
{
    if a > 32767 { u16::MAX } else { a * 2 }
}

impl<C: Component> BoxComponent<C> {
    /// A bordered box without title or padding around `content`.
    pub fn new(content: C) -> (r: Self)
        ensures
            r.content == content,
            r.title is None,
            r.padding == 0,
            r.border,
            r.border_color is None,
    {
        BoxComponent { content, title: None, padding: 0, border: true, border_color: None }
    }

    /// The box with a title.
    pub fn with_title(self, title: &str) -> (r: Self)
        ensures
            r.title matches Some(t) && t@ == title@,
            r == (BoxComponent { title: r.title, ..self }),
    {
        let mut t = String::new();
        crate::text::push_str(&mut t, title);
        proof {
            assert(t@ =~= title@);
        }
        BoxComponent { title: Some(t), ..self }
    }

    /// The box with `padding` cells inside the border on each side.
    pub fn with_padding(self, padding: u16) -> (r: Self)
        ensures
            r == (BoxComponent { padding: padding, ..self }),
    {
        BoxComponent { padding, ..self }
    }

    /// The box with or without its border.
    pub fn with_border(self, border: bool) -> (r: Self)
        ensures
            r == (BoxComponent { border: border, ..self }),
    {
        BoxComponent { border, ..self }
    }

    /// The box with its border drawn in `color`.
    pub fn with_border_color(self, color: Color) -> (r: Self)
        ensures
            r == (BoxComponent { border_color: Some(color), ..self }),
    {
        BoxComponent { border_color: Some(color), ..self }
    }

    /// Border cells per side: one when the border is drawn.
    pub fn border_inset(&self) -> (r: u16)
        ensures
            r == (if self.border { 1u16 } else { 0u16 }),
    {
        if self.border { 1 } else { 0 }
    }

    /// The content rect of `area`: inset by the border and the padding on
    /// each side.
    pub fn inner_rect(&self, area: LayoutRect) -> (r: LayoutRect)
        ensures
            r == spec_inner_rect(area, inset_of(self.border, self.padding)),
    {
        let inset = self.border_inset().saturating_add(self.padding);
        let twice = mul2_sat(inset);
        LayoutRect {
            x: add_i32_sat(area.x, inset as i32),
            y: add_i32_sat(area.y, inset as i32),
            width: area.width.saturating_sub(twice),
            height: area.height.saturating_sub(twice),
        }
    }

    /// Lay the box out in `area` (at `screen` on the screen, `area` itself
    /// when not given): the border rows (when drawn), and the content's
    /// local and screen rects (when the content has room). A box smaller
    /// than two cells either way draws nothing.
    pub fn layout(&self, area: LayoutRect, screen: Option<LayoutRect>) -> (r: (Option<BoxBorder>, Option<(LayoutRect, LayoutRect)>))
        ensures
            area.width < 2 || area.height < 2 ==> r.0 is None && r.1 is None,
            area.width >= 2 && area.height >= 2 ==> {
                let inner_w = (area.width - 2) as u16;
                &&& (self.border <==> r.0 is Some)
                &&& (r.0 matches Some(b) ==> {
                    &&& b.top@ == spec_top_row(
                        match self.title {
                            Some(t) => Some(t@),
                            None => None,
                        },
                        inner_w,
                    )
                    &&& b.middle@ == seq!['│'] + repeat(' ', inner_w as nat) + seq!['│']
                    &&& b.bottom@ == seq!['╰'] + repeat('─', inner_w as nat) + seq!['╯']
                })
                &&& r.1 == (if spec_inner_rect(area, inset_of(self.border, self.padding)).width == 0
                    || spec_inner_rect(area, inset_of(self.border, self.padding)).height == 0 {
                    None
                } else {
                    Some(
                        (
                            spec_inner_rect(area, inset_of(self.border, self.padding)),
                            spec_inner_rect(
                                match screen {
                                    Some(s) => s,
                                    None => area,
                                },
                                inset_of(self.border, self.padding),
                            ),
                        ),
                    )
                })
            },
    {
        if area.width < 2 || area.height < 2 {
            return (None, None);
        }
        let inner_w = area.width - 2;
        let border = if self.border {
            let top = top_row(&self.title, inner_w);
            let mut middle = String::new();
            middle.push('│');
            push_repeat(&mut middle, ' ', inner_w);
            middle.push('│');
            let mut bottom = String::new();
            bottom.push('╰');
            push_repeat(&mut bottom, '─', inner_w);
            bottom.push('╯');
            proof {
                assert(middle@ =~= seq!['│'] + repeat(' ', inner_w as nat) + seq!['│']);
                assert(bottom@ =~= seq!['╰'] + repeat('─', inner_w as nat) + seq!['╯']);
            }
            Some(BoxBorder { top, middle, bottom })
        } else {
            None
        };
        let inner_local = self.inner_rect(area);
        if inner_local.width == 0 || inner_local.height == 0 {
            return (border, None);
        }
        let scr = match screen {
            Some(s) => s,
            None => area,
        };
        (border, Some((inner_local, self.inner_rect(scr))))
    }

    /// Where a mouse event goes: a press on the border or the padding is
    /// not for the content (`None`); every other mouse event reaches the
    /// content, with the content rect of `screen` (an empty rect at the
    /// origin when not given) as its screen area.
    pub fn route_mouse(&self, kind: MouseEventKind, column: u16, row: u16, screen: Option<LayoutRect>) -> (r: Option<LayoutRect>)
        ensures
            ({
                let s = match screen {
                    Some(s) => s,
                    None => LayoutRect { x: 0, y: 0, width: 0, height: 0 },
                };
                let inner = spec_inner_rect(s, inset_of(self.border, self.padding));
                r == (if kind is Press && !spec_rect_contains(inner, column as int, row as int) {
                    None
                } else {
                    Some(inner)
                })
            }),
    {
        let s = match screen {
            Some(s) => s,
            None => LayoutRect { x: 0, y: 0, width: 0, height: 0 },
        };
        let inner = self.inner_rect(s);
        let pressed = match kind {
            MouseEventKind::Press(_) => true,
            _ => false,
        };
        if pressed && !rect_contains(inner, column, row) {
            None
        } else {
            Some(inner)
        }
    }
}

impl<C: Component> Component for BoxComponent<C> {
    /// Stretches (`0`) when the content stretches; else the content's
    /// height at the inner width plus border and padding on both sides.
    open spec fn spec_desired_height(&self, width: u16) -> u16 {
        let inset: int = if self.border { 1 } else { 0 };
        let inner_w = sat_sub(sat_sub(width as int, sat_mul_u16(inset, 2)), sat_mul_u16(self.padding as int, 2)) as u16;
        let content_h = self.content.spec_desired_height(inner_w);
        if content_h == 0 {
            0
        } else {
            sat_add_u16(sat_add_u16(sat_mul_u16(inset, 2), sat_mul_u16(self.padding as int, 2)), content_h as int) as u16
        }
    }

    fn desired_height(&self, width: u16) -> (h: u16) {
        let inset = self.border_inset();
        let inner_w = width.saturating_sub(mul2_sat(inset)).saturating_sub(mul2_sat(self.padding));
        let content_h = self.content.desired_height(inner_w);
        if content_h == 0 {
            return 0;
        }
        mul2_sat(inset).saturating_add(mul2_sat(self.padding)).saturating_add(content_h)
    }

    /// Destroying a box destroys its content.
    /// Destroying a box destroys its content and keeps its frame.
    open spec fn spec_destroys(&self, after: &Self) -> bool {
        &&& self.content.spec_destroys(&after.content)
        &&& after.title == self.title
        &&& after.padding == self.padding
        &&& after.border == self.border
        &&& after.border_color == self.border_color
    }

    fn destroy(&mut self) {
        self.content.destroy();
    }
}

} // verus!
