//! A single-line text label.
use vstd::prelude::*;
use ratatui::style::Color;
use crate::component::Component;
use crate::text::push_str;

verus! {

/// A one-row label showing `text` in `color`.
pub struct LabelComponent {
    pub text: String,
    pub color: Color,
}

/// The renderer's white, the colour a new label starts with
/// (`ratatui::style::Color::White`). Nothing is stated of the value: the
/// colour type is opaque here.
#[verifier::external_body]
fn white() -> Color {
    Color::White
}

impl LabelComponent {
    /// A white label showing `text`.
    pub fn new(text: &str) -> (r: Self)
        ensures
            r.text@ == text@,
    {
        let mut s = String::new();
        push_str(&mut s, text);
        LabelComponent { text: s, color: white() }
    }

    /// The label in `color`.
    pub fn with_color(self, color: Color) -> (r: Self)
        ensures
            r.text == self.text,
            r.color == color,
    {
        LabelComponent { color, ..self }
    }
}

impl Component for LabelComponent {
    open spec fn spec_desired_height(&self, width: u16) -> u16 {
        1
    }

    /// A label is always one row tall.
    fn desired_height(&self, width: u16) -> (h: u16) {
        1
    }

    /// A label holds nothing to release: destroying it leaves it as it was.
    open spec fn spec_destroys(&self, after: &Self) -> bool {
        *after == *self
    }

    /// A label holds nothing to release.
    fn destroy(&mut self) {
    }
}

} // verus!
