//! Typed input events and the tri-state outcome of routing one.
//!
//! The engine never parses raw byte streams: an input source hands it
//! either a displayable keypress (a printable character) or a
//! non-displayable keypress (a named key plus an optional modifier set).

use vstd::prelude::*;

verus! {

/// The named, non-printable keys the engine distinguishes.
#[derive(Clone, Copy, Debug, PartialEq, Eq, Structural)]
pub enum SpecialKey {
    Left,
    Right,
    Up,
    Down,
    Enter,
    Esc,
    Tab,
    Backspace,
    Delete,
    Home,
    End,
    PageUp,
    PageDown,
}

/// The modifier keys held during a keypress.
#[derive(Clone, Copy, Debug, PartialEq, Eq, Structural)]
pub struct ModifierKeys {
    pub shift: bool,
    pub ctrl: bool,
    pub alt: bool,
}

/// A non-displayable keypress: a named key, possibly under modifiers.
#[derive(Clone, Copy, Debug, PartialEq, Eq, Structural)]
pub struct Keypress {
    pub maybe_modifier_keys: Option<ModifierKeys>,
    pub key: SpecialKey,
}

/// One typed input event.
#[derive(Clone, Copy, Debug, PartialEq, Eq, Structural)]
pub enum InputEvent {
    /// A printable character was typed.
    DisplayableKeypress(char),
    /// A named key was pressed.
    NonDisplayableKeypress(Keypress),
}

/// The terminal, per-event outcome of routing an input event. There is no
/// partial or retry state.
#[derive(Clone, Copy, Debug, PartialEq, Eq, Structural)]
pub enum EventPropagation {
    /// Nobody handled the event; the caller may apply default behavior.
    Propagate,
    /// The event was handled; no redraw is needed.
    Consumed,
    /// The event was handled and the next frame must be rendered.
    ConsumedRerender,
}

} // verus!
