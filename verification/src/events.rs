//! Plain data model of the input events the form engine consumes.
//!
//! The engine is agnostic of the terminal backend: whatever reads raw input
//! converts each key press into a [`KeyEvent`] before handing it to the
//! library. Background collaborators (price pollers, asset refreshers) feed
//! their results through the string-carrying variants of [`Event`].

use vstd::prelude::*;

verus! {

/// The key codes the form engine distinguishes. Every other key maps to
/// [`KeyCode::Other`].
#[derive(Clone, Copy, Debug, PartialEq, Eq, Structural)]
pub enum KeyCode {
    Up,
    Down,
    Left,
    Right,
    Tab,
    Enter,
    Esc,
    Backspace,
    Delete,
    Char(char),
    Other,
}

/// Whether a key event reports a press, a release or an auto-repeat.
#[derive(Clone, Copy, Debug, PartialEq, Eq, Structural)]
pub enum KeyEventKind {
    Press,
    Release,
    Repeat,
}

/// One decoded keyboard event.
#[derive(Clone, Copy, Debug, PartialEq, Eq, Structural)]
pub struct KeyEvent {
    pub code: KeyCode,
    pub kind: KeyEventKind,
    /// True when no modifier key (shift, control, alt, ...) was held.
    pub no_modifiers: bool,
}

/// An event delivered to the single-threaded event loop: either keyboard
/// input or an already-serialized message from a background collaborator.
pub enum Event {
    Input(KeyEvent),
    EthPriceUpdate(String),
    HashRateError(String),
    AssetsUpdateError(String),
}

impl Event {
    /// The event is a key press (of any key).
    pub open spec fn is_press(self) -> bool {
        match self {
            Event::Input(k) => k.kind is Press,
            _ => false,
        }
    }

    /// The code of the contained key event; only meaningful for
    /// [`Event::Input`].
    pub open spec fn key_code(self) -> KeyCode {
        match self {
            Event::Input(k) => k.code,
            _ => KeyCode::Other,
        }
    }

    pub open spec fn spec_is_char_pressed(self, ch: Option<char>) -> bool {
        match self {
            Event::Input(k) => k.kind is Press && (match ch {
                Option::Some(c) => k.code == KeyCode::Char(c),
                Option::None => true,
            }),
            _ => false,
        }
    }

    /// With `Some(c)`: the event is a press of exactly the character `c`.
    /// With `None`: the event is a press of any key.
    pub fn is_char_pressed(&self, ch: Option<char>) -> (r: bool)
        ensures
            r == self.spec_is_char_pressed(ch),
    {
        match self {
            Event::Input(k) => {
                if !matches!(k.kind, KeyEventKind::Press) {
                    return false;
                }
                match ch {
                    Option::Some(c) => matches!(k.code, KeyCode::Char(d) if d == c),
                    Option::None => true,
                }
            },
            _ => false,
        }
    }

    pub open spec fn spec_is_key_pressed(self, key: KeyCode) -> bool {
        match self {
            Event::Input(k) => k.kind is Press && k.code == key && k.no_modifiers,
            _ => false,
        }
    }

    /// The event is an unmodified press of exactly `key`.
    pub fn is_key_pressed(&self, key: KeyCode) -> (r: bool)
        ensures
            r == self.spec_is_key_pressed(key),
    {
        match self {
            Event::Input(k) => matches!(k.kind, KeyEventKind::Press) && k.code == key
                && k.no_modifiers,
            _ => false,
        }
    }
}

} // verus!
