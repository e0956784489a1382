//! The input events the terminal can report, as plain values.

use vstd::prelude::*;

verus! {

/// Whether a key event reports a fresh press, a release, or an auto-repeat.
#[derive(Clone, Copy, PartialEq, Eq, Structural, Debug)]
pub enum KeyKind {
    Press,
    Release,
    Repeat,
}

/// Which key a key event is about: a printable character, or any other key.
#[derive(Clone, Copy, PartialEq, Eq, Structural, Debug)]
pub enum KeyCode {
    Char(char),
    Other,
}

/// One key event as the terminal reports it.
#[derive(Clone, Copy, PartialEq, Eq, Structural, Debug)]
pub struct KeyEvent {
    pub code: KeyCode,
    pub kind: KeyKind,
}

/// One input event read from the terminal.
#[derive(Clone, Copy, PartialEq, Eq, Structural, Debug)]
pub enum InputEvent {
    Key(KeyEvent),
    Resize(u16, u16),
    Mouse,
    Paste,
    Other,
}

/// A key press: a key event whose kind is a fresh press.
pub open spec fn is_key_press(e: InputEvent) -> bool {
    e matches InputEvent::Key(k) && k.kind == KeyKind::Press
}

} // verus!
