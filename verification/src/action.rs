use vstd::prelude::*;

verus! {

/// The window-manager actions that the components of this crate emit or
/// react to.
#[derive(Debug, Clone, Copy, PartialEq, Eq, Structural)]
pub enum Action {
    Quit,
    MenuUp,
    MenuPrev,
    MenuDown,
    MenuNext,
    MenuSelect,
    CloseMenu,
    ScrollUp,
    ScrollDown,
    ScrollPageUp,
    ScrollPageDown,
    ScrollHome,
    ScrollEnd,
    ScrollView(isize),
    ScrollToTop,
    ScrollToBottom,
    ToggleSelection,
    ClearCommandPaletteQuery,
    NewTerminal,
    /// Close the window with the given key.
    CloseWindow(u64),
    Help,
    CloseHelp,
    ConfirmToggle,
    ConfirmLeft,
    ConfirmRight,
    ConfirmAccept,
    ConfirmCancel,
    /// Any action that none of these components interprets.
    Other,
}

/// What a component did with an input event.
#[derive(Debug, Clone, Copy, PartialEq, Eq, Structural)]
pub enum EventResult<A> {
    /// The event was not handled and may go to someone else.
    Ignored,
    /// The event was handled and produced nothing further.
    Consumed,
    /// The event was handled and turned into an action.
    Action(A),
}

impl<A> EventResult<A> {
    pub fn is_ignored(&self) -> (r: bool)
        ensures
            r == (*self is Ignored),
    {
        match self {
            EventResult::Ignored => true,
            _ => false,
        }
    }

    pub fn is_consumed(&self) -> (r: bool)
        ensures
            r == (*self is Consumed),
    {
        match self {
            EventResult::Consumed => true,
            _ => false,
        }
    }
}

/// The mouse buttons a component distinguishes.
#[derive(Debug, Clone, Copy, PartialEq, Eq, Structural)]
pub enum MouseButton {
    Left,
    Right,
    Middle,
}

/// The kinds of mouse event the components react to.
#[derive(Debug, Clone, Copy, PartialEq, Eq, Structural)]
pub enum MouseEventKind {
    Press(MouseButton),
    Release(MouseButton),
    Drag(MouseButton),
    Moved,
    ScrollUp,
    ScrollDown,
    ScrollLeft,
    ScrollRight,
}

/// A mouse event at a screen cell.
#[derive(Debug, Clone, Copy, PartialEq, Eq, Structural)]
pub struct MouseEvent {
    pub kind: MouseEventKind,
    pub column: u16,
    pub row: u16,
}

/// The keys the components tell apart.
#[derive(Debug, Clone, Copy, PartialEq, Eq, Structural)]
pub enum KeyCode {
    Up,
    Down,
    Left,
    Right,
    Enter,
    Esc,
    Backspace,
    Tab,
    PageUp,
    PageDown,
    Home,
    End,
    Char(char),
    /// Any other key.
    Other,
}

/// The modifier keys held with a key.
#[derive(Debug, Clone, Copy, PartialEq, Eq, Structural)]
pub struct KeyModifiers {
    pub control: bool,
    pub shift: bool,
    pub alt: bool,
}

/// Whether a key went down, repeated or came up.
#[derive(Debug, Clone, Copy, PartialEq, Eq, Structural)]
pub enum KeyKind {
    Press,
    Repeat,
    Release,
}

/// A key event.
#[derive(Debug, Clone, Copy, PartialEq, Eq, Structural)]
pub struct KeyEvent {
    pub code: KeyCode,
    pub modifiers: KeyModifiers,
    pub kind: KeyKind,
}

/// An input event.
#[derive(Debug, Clone, Copy, PartialEq, Eq, Structural)]
pub enum InputEvent {
    Key(KeyEvent),
    Mouse(MouseEvent),
    /// Any other event (resize, focus, paste, ...).
    Other,
}

/// The answer to a confirmation.
#[derive(Debug, Clone, Copy, PartialEq, Eq, Structural)]
pub enum ConfirmAction {
    Confirm,
    Cancel,
}

/// No modifier held.
pub open spec fn no_modifiers(m: KeyModifiers) -> bool {
    !m.control && !m.shift && !m.alt
}

impl KeyModifiers {
    /// No modifier held.
    pub fn none() -> (r: KeyModifiers)
        ensures
            no_modifiers(r),
    {
        KeyModifiers { control: false, shift: false, alt: false }
    }
}

} // verus!
