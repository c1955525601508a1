//! Reading a text style as a semantic role.
use vstd::prelude::*;

verus! {

/// What a piece of text means, which the theme turns into a style.
#[derive(Debug, Clone, Copy, PartialEq, Eq, Structural)]
pub enum SemanticRole {
    Normal,
    Bold,
    Italic,
    Underlined,
    Dimmed,
    Warning,
    Error,
    Link,
    Highlight,
    Success,
    Muted,
    Disabled,
}

/// The foreground colours a role can be read from.
#[derive(Debug, Clone, Copy, PartialEq, Eq, Structural)]
pub enum ForegroundTone {
    Yellow,
    Red,
    /// Any other colour, or none.
    Other,
}

/// The parts of a text style that decide its role: the modifiers added and
/// the foreground colour.
#[derive(Debug, Clone, Copy, PartialEq, Eq, Structural)]
pub struct StyleFlags {
    pub bold: bool,
    pub italic: bool,
    pub underlined: bool,
    pub dim: bool,
    pub fg: ForegroundTone,
}

/// The role a style reads as: the first of bold, italic, underlined and dim
/// that it adds; else a yellow text is a warning and a red one an error;
/// else normal.
pub open spec fn spec_style_to_role(s: StyleFlags) -> SemanticRole {
    if s.bold {
        SemanticRole::Bold
    } else if s.italic {
        SemanticRole::Italic
    } else if s.underlined {
        SemanticRole::Underlined
    } else if s.dim {
        SemanticRole::Dimmed
    } else {
        match s.fg {
            ForegroundTone::Yellow => SemanticRole::Warning,
            ForegroundTone::Red => SemanticRole::Error,
            ForegroundTone::Other => SemanticRole::Normal,
        }
    }
}

/// The role a style reads as (see [`spec_style_to_role`]).
pub fn style_to_role(style: &StyleFlags) -> (r: SemanticRole)
    ensures
        r == spec_style_to_role(*style),
{
    if style.bold {
        SemanticRole::Bold
    } else if style.italic {
        SemanticRole::Italic
    } else if style.underlined {
        SemanticRole::Underlined
    } else if style.dim {
        SemanticRole::Dimmed
    } else {
        match style.fg {
            ForegroundTone::Yellow => SemanticRole::Warning,
            ForegroundTone::Red => SemanticRole::Error,
            ForegroundTone::Other => SemanticRole::Normal,
        }
    }
}

} // verus!
