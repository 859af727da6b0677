//! Keystroke descriptors and the terminal events built from them.
//!
//! A keystroke is an immutable record of one terminal input event: a key
//! code, a modifier set, a press kind, and an auxiliary state flag. Two
//! keystrokes denote the same binding exactly when all four fields match.

use vstd::prelude::*;

verus! {

/// The key that an event reports: a printable character or a named key.
#[derive(Clone, Copy, Debug, PartialEq, Eq, Structural)]
pub enum KeyCode {
    Char(char),
    Tab,
    BackTab,
    Enter,
    Esc,
    Backspace,
    Delete,
    Left,
    Right,
    Up,
    Down,
    Home,
    End,
}

/// The modifier keys held during an event.
#[derive(Clone, Copy, Debug, PartialEq, Eq, Structural)]
pub struct KeyModifiers {
    pub shift: bool,
    pub control: bool,
    pub alt: bool,
}

impl KeyModifiers {
    /// No modifier held.
    pub fn none() -> (r: KeyModifiers)
        ensures
            r == (KeyModifiers { shift: false, control: false, alt: false }),
    {
        KeyModifiers { shift: false, control: false, alt: false }
    }

    /// Shift alone.
    pub fn shift_only() -> (r: KeyModifiers)
        ensures
            r == (KeyModifiers { shift: true, control: false, alt: false }),
    {
        KeyModifiers { shift: true, control: false, alt: false }
    }

    /// Whether no modifier is held.
    pub open spec fn spec_is_none(self) -> bool {
        self == (KeyModifiers { shift: false, control: false, alt: false })
    }

    /// Whether shift is the only modifier held.
    pub open spec fn spec_is_shift_only(self) -> bool {
        self == (KeyModifiers { shift: true, control: false, alt: false })
    }
}

/// Whether the key was pressed, repeated, or released.
#[derive(Clone, Copy, Debug, PartialEq, Eq, Structural)]
pub enum KeyEventKind {
    Press,
    Repeat,
    Release,
}

/// One terminal key event: code, modifiers, press kind, and an auxiliary
/// state flag (keypad or lock state reported by the terminal).
#[derive(Clone, Copy, Debug, PartialEq, Eq, Structural)]
pub struct Keystroke {
    pub code: KeyCode,
    pub modifiers: KeyModifiers,
    pub kind: KeyEventKind,
    pub aux_state: bool,
}

impl Keystroke {
    /// A plain press of the given code: no modifiers, no auxiliary state.
    pub fn plain(code: KeyCode) -> (r: Keystroke)
        ensures
            r == Keystroke::spec_plain(code),
    {
        Keystroke {
            code,
            modifiers: KeyModifiers::none(),
            kind: KeyEventKind::Press,
            aux_state: false,
        }
    }

    /// The keystroke that `plain` builds.
    pub open spec fn spec_plain(code: KeyCode) -> Keystroke {
        Keystroke {
            code,
            modifiers: KeyModifiers { shift: false, control: false, alt: false },
            kind: KeyEventKind::Press,
            aux_state: false,
        }
    }
}

/// One terminal event: a key event, or anything else the terminal reports
/// (resize, paste, pointer input). Non-key events carry no data the
/// dispatcher reads: no binding ever matches them.
#[derive(Clone, Copy, Debug, PartialEq, Eq, Structural)]
pub enum Event {
    Key(Keystroke),
    NonKey,
}

} // verus!
