//! Plain images of the raw input the terminal delivers: key codes with
//! their modifiers, cursor motions, and scrolling requests.
//!
//! The outside terminal library produces its own event types; the thin
//! shell around this crate converts them one-for-one into these values.

use vstd::prelude::*;

verus! {

/// A key as the modal editor sees it.
#[derive(Clone, Copy, PartialEq, Eq, Structural, Debug)]
pub enum Key {
    Char(char),
    Enter,
    Esc,
    Backspace,
    Tab,
    Up,
    Down,
    Left,
    Right,
    Null,
}

/// One keystroke with its modifiers, as the modal editor consumes it.
#[derive(Clone, Copy, PartialEq, Eq, Structural, Debug)]
pub struct Input {
    pub key: Key,
    pub ctrl: bool,
    pub alt: bool,
    pub shift: bool,
}

impl Default for Input {
    /// The null input: no key, no modifiers.
    fn default() -> (r: Self)
        ensures
            r == (Input { key: Key::Null, ctrl: false, alt: false, shift: false }),
    {
        Input { key: Key::Null, ctrl: false, alt: false, shift: false }
    }
}

/// A key code as the event translator sees it.
#[derive(Clone, Copy, PartialEq, Eq, Structural, Debug)]
pub enum KeyCode {
    Char(char),
    Enter,
    Esc,
    Backspace,
    Tab,
    BackTab,
    Up,
    Down,
    Left,
    Right,
    Other,
}

/// One raw key event with its modifiers, as the event translator consumes
/// it.
#[derive(Clone, Copy, PartialEq, Eq, Structural, Debug)]
pub struct KeyInput {
    pub code: KeyCode,
    pub ctrl: bool,
    pub alt: bool,
    pub shift: bool,
}

/// How a raw key event reads as modal-editor input: the key codes map
/// one-for-one, and a code the editor has no key for becomes the null key.
pub open spec fn spec_input_from_key(k: KeyInput) -> Input {
    let key = match k.code {
        KeyCode::Char(c) => Key::Char(c),
        KeyCode::Enter => Key::Enter,
        KeyCode::Esc => Key::Esc,
        KeyCode::Backspace => Key::Backspace,
        KeyCode::Tab => Key::Tab,
        KeyCode::BackTab => Key::Null,
        KeyCode::Up => Key::Up,
        KeyCode::Down => Key::Down,
        KeyCode::Left => Key::Left,
        KeyCode::Right => Key::Right,
        KeyCode::Other => Key::Null,
    };
    Input { key, ctrl: k.ctrl, alt: k.alt, shift: k.shift }
}

/// Reads a raw key event as modal-editor input.
pub fn input_from_key(k: KeyInput) -> (r: Input)
    ensures
        r == spec_input_from_key(k),
{
    let key = match k.code {
        KeyCode::Char(c) => Key::Char(c),
        KeyCode::Enter => Key::Enter,
        KeyCode::Esc => Key::Esc,
        KeyCode::Backspace => Key::Backspace,
        KeyCode::Tab => Key::Tab,
        KeyCode::BackTab => Key::Null,
        KeyCode::Up => Key::Up,
        KeyCode::Down => Key::Down,
        KeyCode::Left => Key::Left,
        KeyCode::Right => Key::Right,
        KeyCode::Other => Key::Null,
    };
    Input { key, ctrl: k.ctrl, alt: k.alt, shift: k.shift }
}

/// A cursor motion inside the configuration text area.
#[derive(Clone, Copy, PartialEq, Eq, Structural, Debug)]
pub enum CursorMove {
    Forward,
    Back,
    Up,
    Down,
    Head,
    End,
    Top,
    Bottom,
    WordForward,
    WordEnd,
    WordBack,
}

/// A scrolling request for the configuration text area.
#[derive(Clone, Copy, PartialEq, Eq, Structural, Debug)]
pub enum Scrolling {
    Delta { rows: i16, cols: i16 },
    HalfPageDown,
    HalfPageUp,
    PageDown,
    PageUp,
}

} // verus!
