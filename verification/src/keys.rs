//! Keys, modifier sets and key bindings.
use vstd::prelude::*;

verus! {

/// A key on the keyboard, as the widgets and key bindings see it.
#[derive(Clone, Copy, Debug, PartialEq, Eq, Structural)]
pub enum Key {
    Enter,
    Tab,
    Up,
    Down,
    Left,
    Right,
    Esc,
    Backspace,
    Delete,
    Home,
    End,
    PageUp,
    PageDown,
    Insert,
    /// A function key `F(n)`.
    F(u8),
    /// A character key.
    Char(char),
    /// Any other key (media keys, lock keys, ...).
    Other,
}

/// The modifier keys held with a key press.
#[derive(Clone, Copy, Debug, PartialEq, Eq, Structural)]
pub struct Modifiers {
    pub shift: bool,
    pub control: bool,
    pub alt: bool,
    /// Any further modifier (super, hyper, meta).
    pub other: bool,
}

impl Modifiers {
    /// No modifier held.
    pub fn none() -> (m: Self)
        ensures
            m.is_none_spec(),
    {
        Modifiers { shift: false, control: false, alt: false, other: false }
    }

    /// Shift alone.
    pub fn shift_only() -> (m: Self)
        ensures
            m.is_shift_only_spec(),
    {
        Modifiers { shift: true, control: false, alt: false, other: false }
    }

    pub open spec fn is_none_spec(self) -> bool {
        !self.shift && !self.control && !self.alt && !self.other
    }

    pub open spec fn is_shift_only_spec(self) -> bool {
        self.shift && !self.control && !self.alt && !self.other
    }

    /// Whether no modifier is held.
    pub fn is_none(&self) -> (b: bool)
        ensures
            b == self.is_none_spec(),
    {
        !self.shift && !self.control && !self.alt && !self.other
    }

    /// Whether shift alone is held.
    pub fn is_shift_only(&self) -> (b: bool)
        ensures
            b == self.is_shift_only_spec(),
    {
        self.shift && !self.control && !self.alt && !self.other
    }
}

/// A key press: a key and the modifiers held with it.
#[derive(Clone, Copy, Debug, PartialEq, Eq, Structural)]
pub struct KeyPress {
    pub key: Key,
    pub modifiers: Modifiers,
}

/// Whether an event propagates further after a widget has seen it.
#[derive(Clone, Copy, Debug, PartialEq, Eq, Structural)]
pub enum EventPropagation {
    /// The widget consumed the event.
    Stop,
    /// The event continues to the widget's ancestors.
    Continue,
}

} // verus!

verus! {

/// A key binding: a key press that triggers a named action on the focused
/// widget, with a description for help displays.
#[derive(Clone, Copy, Debug, PartialEq, Eq)]
pub struct KeyBinding {
    pub key: Key,
    pub modifiers: Modifiers,
    pub action: &'static str,
    pub description: &'static str,
    /// Whether the binding is listed in help displays.
    pub show: bool,
}

/// A binding of `key` without modifiers, not listed in help displays.
pub fn hidden_binding(key: Key, action: &'static str, description: &'static str) -> (b: KeyBinding)
    ensures
        b.key == key,
        b.modifiers.is_none_spec(),
        b.action == action,
        b.description == description,
        !b.show,
{
    KeyBinding { key, modifiers: Modifiers::none(), action, description, show: false }
}

} // verus!
