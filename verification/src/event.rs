//! Terminal input events and the outcome vocabulary shared by interactive state.

use vstd::prelude::*;

verus! {

/// A key on the keyboard, independent of modifiers.
#[derive(Clone, Copy, Debug, PartialEq, Eq, Structural)]
pub enum KeyCode {
    /// A printable character.
    Char(char),
    /// Enter / Return.
    Enter,
    /// Escape.
    Esc,
    /// Tab.
    Tab,
    /// Shift+Tab.
    BackTab,
    /// Backspace.
    Backspace,
    /// Delete.
    Delete,
    /// Left arrow.
    Left,
    /// Right arrow.
    Right,
    /// Up arrow.
    Up,
    /// Down arrow.
    Down,
    /// Home.
    Home,
    /// End.
    End,
    /// Page up.
    PageUp,
    /// Page down.
    PageDown,
    /// Insert.
    Insert,
    /// A function key, `F(1)` for F1.
    F(u8),
}

/// A key press with its modifier state.
#[derive(Clone, Copy, Debug, PartialEq, Eq, Structural)]
pub struct Key {
    /// The key that was pressed.
    pub code: KeyCode,
    /// Whether Control was held.
    pub ctrl: bool,
    /// Whether Alt was held.
    pub alt: bool,
    /// Whether Shift was held.
    pub shift: bool,
}

impl Key {
    /// A key press with no modifiers.
    pub fn new(code: KeyCode) -> (k: Key)
        ensures
            k == (Key { code, ctrl: false, alt: false, shift: false }),
    {
        Key { code, ctrl: false, alt: false, shift: false }
    }

    /// The press carries neither Control nor Alt, so it means the key itself.
    /// Shift is allowed: it is how upper-case text and Shift+Tab arrive.
    pub open spec fn is_plain(self) -> bool {
        !self.ctrl && !self.alt
    }

    /// Whether the press carries neither Control nor Alt.
    pub fn plain(&self) -> (r: bool)
        ensures
            r == self.is_plain(),
    {
        !self.ctrl && !self.alt
    }
}

/// A mouse button.
#[derive(Clone, Copy, Debug, PartialEq, Eq, Structural)]
pub enum MouseButton {
    /// The primary button.
    Left,
    /// The secondary button.
    Right,
    /// The middle button or wheel press.
    Middle,
}

/// What the mouse did.
#[derive(Clone, Copy, Debug, PartialEq, Eq, Structural)]
pub enum MouseKind {
    /// A button went down.
    Down(MouseButton),
    /// A button was released.
    Up(MouseButton),
    /// The pointer moved with a button held.
    Drag(MouseButton),
    /// The pointer moved with no button held.
    Moved,
    /// The wheel scrolled up.
    ScrollUp,
    /// The wheel scrolled down.
    ScrollDown,
    /// The wheel scrolled left.
    ScrollLeft,
    /// The wheel scrolled right.
    ScrollRight,
}

/// A mouse event at a terminal cell.
#[derive(Clone, Copy, Debug, PartialEq, Eq, Structural)]
pub struct Mouse {
    /// What happened.
    pub kind: MouseKind,
    /// Column of the cell under the pointer.
    pub column: u16,
    /// Row of the cell under the pointer.
    pub row: u16,
    /// Whether Control was held.
    pub ctrl: bool,
    /// Whether Alt was held.
    pub alt: bool,
    /// Whether Shift was held.
    pub shift: bool,
}

impl Mouse {
    /// A mouse event with no modifiers at `(column, row)`.
    pub fn at(kind: MouseKind, column: u16, row: u16) -> (m: Mouse)
        ensures
            m == (Mouse { kind, column, row, ctrl: false, alt: false, shift: false }),
    {
        Mouse { kind, column, row, ctrl: false, alt: false, shift: false }
    }

    /// The event carries no modifier at all.
    pub open spec fn is_plain(self) -> bool {
        !self.ctrl && !self.alt && !self.shift
    }

    /// Whether the event carries no modifier.
    pub fn plain(&self) -> (r: bool)
        ensures
            r == self.is_plain(),
    {
        !self.ctrl && !self.alt && !self.shift
    }
}

/// A translated terminal input event.
#[derive(Clone, Debug, PartialEq, Eq)]
pub enum Event {
    /// A key press.
    Key(Key),
    /// A mouse action.
    Mouse(Mouse),
    /// Bracketed paste text.
    Paste(String),
    /// The terminal was resized.
    Resize {
        /// New width in cells.
        width: u16,
        /// New height in cells.
        height: u16,
    },
    /// The terminal gained focus.
    FocusGained,
    /// The terminal lost focus.
    FocusLost,
}

/// Whether an event should keep propagating.
#[derive(Clone, Copy, Debug, PartialEq, Eq, Structural)]
pub enum EventFlow {
    /// The event was handled; stop propagating it.
    Consumed,
    /// The event was not handled; offer it to the next receiver.
    Ignored,
}

/// The common answer of interactive state to one event.
#[derive(Clone, Copy, Debug, PartialEq, Eq, Structural)]
pub enum InputOutcome {
    /// The event was not recognized.
    Ignored,
    /// The event was recognized but changed nothing visible.
    Consumed,
    /// The event changed the state.
    Changed,
    /// The user confirmed.
    Submitted,
    /// The user cancelled.
    Cancelled,
}

impl InputOutcome {
    /// Every answer but [`Ignored`](Self::Ignored) consumes the event.
    pub open spec fn is_consumed(self) -> bool {
        self != InputOutcome::Ignored
    }

    /// Whether the event was consumed.
    pub fn consumed(&self) -> (r: bool)
        ensures
            r == self.is_consumed(),
    {
        !matches!(self, InputOutcome::Ignored)
    }

    /// The propagation this outcome implies.
    pub fn flow(&self) -> (r: EventFlow)
        ensures
            r == (if self.is_consumed() { EventFlow::Consumed } else { EventFlow::Ignored }),
    {
        match self {
            InputOutcome::Ignored => EventFlow::Ignored,
            _ => EventFlow::Consumed,
        }
    }
}

} // verus!
