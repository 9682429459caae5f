//! The modal editor engine: maps one keystroke and the current vim state
//! to the typed event the model applies.
//!
//! The engine composes no operator-plus-motion ranges: an operator key in
//! visual mode acts on the current selection at once, which substitutes an
//! immediate selection for the computed range.

use vstd::prelude::*;

use crate::events::input::{CursorMove, Input, Key, Scrolling};
use crate::events::messages::{Message, MessageV};
use crate::model::vim_emulator::VimMode;
use crate::model::vim_emulator::VimState;

verus! {

/// How the vim emulation state transitions.
pub enum VimTransition {
    Nop,
    Mode(VimMode),
    Pending(Input),
    Quit,
}

/// The message a vim transition reads as.
pub fn handle_transition(transition: VimTransition) -> (r: Message)
    ensures
        transition matches VimTransition::Mode(m) ==> r@ == MessageV::SetVimMode(m),
        transition matches VimTransition::Pending(i) ==> r@ == MessageV::SetVimPendingInput(i),
        transition matches VimTransition::Quit ==> r@ == MessageV::VimQuit,
        transition matches VimTransition::Nop ==> r@ == MessageV::Draw,
{
    match transition {
        VimTransition::Mode(mode) => Message::SetVimMode(mode),
        VimTransition::Pending(input) => Message::SetVimPendingInput(input),
        VimTransition::Quit => Message::VimQuit,
        VimTransition::Nop => Message::Draw,
    }
}

/// What a character key maps to while the editor is in normal, visual or
/// operator-pending mode.
pub open spec fn spec_vim_char_message(
    c: char,
    input: Input,
    mode: VimMode,
    pending: Input,
) -> MessageV {
    if c == 'h' {
        MessageV::TextAreaMoveCursor(CursorMove::Back)
    } else if c == 'j' {
        MessageV::TextAreaMoveCursor(CursorMove::Down)
    } else if c == 'k' {
        MessageV::TextAreaMoveCursor(CursorMove::Up)
    } else if c == 'l' {
        MessageV::TextAreaMoveCursor(CursorMove::Forward)
    } else if c == 'w' {
        MessageV::TextAreaMoveCursor(CursorMove::WordForward)
    } else if c == 'e' && !input.ctrl {
        MessageV::TextAreaMoveCursor(CursorMove::WordEnd)
    } else if c == 'b' && !input.ctrl {
        MessageV::TextAreaMoveCursor(CursorMove::WordBack)
    } else if c == '^' {
        MessageV::TextAreaMoveCursor(CursorMove::Head)
    } else if c == '$' {
        MessageV::TextAreaMoveCursor(CursorMove::End)
    } else if c == 'D' {
        MessageV::TextAreaDeleteToEnd
    } else if c == 'C' {
        MessageV::TextAreaCutToEnd
    } else if c == 'p' {
        MessageV::TextAreaPaste
    } else if c == 'u' && !input.ctrl {
        MessageV::TextAreaUndo
    } else if c == 'r' && input.ctrl {
        MessageV::TextAreaRedo
    } else if c == 'x' {
        MessageV::TextAreaDeleteNextChar
    } else if c == 'i' {
        MessageV::SetVimMode(VimMode::Insert)
    } else if c == 'a' {
        MessageV::TextAreaInsertAfter
    } else if c == 'A' {
        MessageV::TextAreaInsertAtEnd
    } else if c == 'o' {
        MessageV::TextAreaInsertAtNewlineAfter
    } else if c == 'O' {
        MessageV::TextAreaInsertAtNewlineBefore
    } else if c == 'I' {
        MessageV::TextAreaInsertAtStart
    } else if c == 'q' {
        MessageV::VimQuit
    } else if c == 'e' && input.ctrl {
        MessageV::TextAreaScroll(Scrolling::Delta { rows: 1, cols: 0 })
    } else if c == 'y' && input.ctrl {
        MessageV::TextAreaScroll(Scrolling::Delta { rows: -1i16, cols: 0 })
    } else if c == 'd' && input.ctrl {
        MessageV::TextAreaScroll(Scrolling::HalfPageDown)
    } else if c == 'u' && input.ctrl {
        MessageV::TextAreaScroll(Scrolling::HalfPageUp)
    } else if c == 'f' && input.ctrl {
        MessageV::TextAreaScroll(Scrolling::PageDown)
    } else if c == 'b' && input.ctrl {
        MessageV::TextAreaScroll(Scrolling::PageUp)
    } else if c == 'v' && !input.ctrl {
        if mode == VimMode::Visual {
            MessageV::TextAreaCancelSelection
        } else {
            MessageV::TextAreaStartSelection
        }
    } else if c == 'V' && !input.ctrl && mode == VimMode::Normal {
        MessageV::TextAreaStartLineSelection
    } else if c == 'g' && !input.ctrl && pending.key == Key::Char('g') && !pending.ctrl {
        MessageV::TextAreaMoveCursor(CursorMove::Top)
    } else if c == 'G' && !input.ctrl {
        MessageV::TextAreaMoveCursor(CursorMove::Bottom)
    } else if c == 'y' && !input.ctrl && mode == VimMode::Visual {
        MessageV::TextAreaYank
    } else if c == 'd' && !input.ctrl && mode == VimMode::Visual {
        MessageV::TextAreaDelete
    } else if c == 'c' && !input.ctrl && mode == VimMode::Visual {
        MessageV::TextAreaCut
    } else {
        MessageV::SetVimPendingInput(input)
    }
}

/// The complete transition table of the modal editor: one keystroke and
/// the current mode and pending input determine one typed event.
pub open spec fn spec_vim_message(input: Input, mode: VimMode, pending: Input) -> MessageV {
    if input.key == Key::Null {
        MessageV::Draw
    } else if mode == VimMode::Insert {
        if input.key == Key::Esc || (input.key == Key::Char('c') && input.ctrl) {
            MessageV::SetVimMode(VimMode::Normal)
        } else {
            MessageV::TextAreaInput(input)
        }
    } else {
        match input.key {
            Key::Char(c) => spec_vim_char_message(c, input, mode, pending),
            Key::Esc => if mode == VimMode::Visual {
                MessageV::TextAreaCancelSelection
            } else {
                MessageV::SetVimPendingInput(input)
            },
            _ => MessageV::SetVimPendingInput(input),
        }
    }
}

/// Handles one keystroke against the given vim state.
///
/// In normal, visual and operator-pending mode most single keys map
/// directly to a motion or edit event; a key with no direct meaning is
/// buffered as pending input, and a doubled `g` resolves to a jump to the
/// top. In insert mode everything except the two cancel keys is forwarded
/// verbatim to the text area.
pub fn handle_key_input(input: Input, vim_state: &VimState) -> (r: Message)
    ensures
        r@ == spec_vim_message(input, vim_state@.mode, vim_state@.pending),
{
    if let Key::Null = input.key {
        return Message::Draw;
    }
    let vim_mode = vim_state.get_mode();
    match vim_mode {
        VimMode::Insert => {
            match input.key {
                Key::Esc => Message::SetVimMode(VimMode::Normal),
                Key::Char(c) if c == 'c' && input.ctrl => Message::SetVimMode(VimMode::Normal),
                _ => Message::TextAreaInput(input),
            }
        },
        VimMode::Normal | VimMode::Visual | VimMode::Operator(_) => {
            match input.key {
                Key::Char(c) => {
                    if c == 'h' {
                        Message::TextAreaMoveCursor(CursorMove::Back)
                    } else if c == 'j' {
                        Message::TextAreaMoveCursor(CursorMove::Down)
                    } else if c == 'k' {
                        Message::TextAreaMoveCursor(CursorMove::Up)
                    } else if c == 'l' {
                        Message::TextAreaMoveCursor(CursorMove::Forward)
                    } else if c == 'w' {
                        Message::TextAreaMoveCursor(CursorMove::WordForward)
                    } else if c == 'e' && !input.ctrl {
                        Message::TextAreaMoveCursor(CursorMove::WordEnd)
                    } else if c == 'b' && !input.ctrl {
                        Message::TextAreaMoveCursor(CursorMove::WordBack)
                    } else if c == '^' {
                        Message::TextAreaMoveCursor(CursorMove::Head)
                    } else if c == '$' {
                        Message::TextAreaMoveCursor(CursorMove::End)
                    } else if c == 'D' {
                        Message::TextAreaDeleteToEnd
                    } else if c == 'C' {
                        Message::TextAreaCutToEnd
                    } else if c == 'p' {
                        Message::TextAreaPaste
                    } else if c == 'u' && !input.ctrl {
                        Message::TextAreaUndo
                    } else if c == 'r' && input.ctrl {
                        Message::TextAreaRedo
                    } else if c == 'x' {
                        Message::TextAreaDeleteNextChar
                    } else if c == 'i' {
                        Message::SetVimMode(VimMode::Insert)
                    } else if c == 'a' {
                        Message::TextAreaInsertAfter
                    } else if c == 'A' {
                        Message::TextAreaInsertAtEnd
                    } else if c == 'o' {
                        Message::TextAreaInsertAtNewlineAfter
                    } else if c == 'O' {
                        Message::TextAreaInsertAtNewlineBefore
                    } else if c == 'I' {
                        Message::TextAreaInsertAtStart
                    } else if c == 'q' {
                        Message::VimQuit
                    } else if c == 'e' && input.ctrl {
                        Message::TextAreaScroll(Scrolling::Delta { rows: 1, cols: 0 })
                    } else if c == 'y' && input.ctrl {
                        Message::TextAreaScroll(Scrolling::Delta { rows: -1, cols: 0 })
                    } else if c == 'd' && input.ctrl {
                        Message::TextAreaScroll(Scrolling::HalfPageDown)
                    } else if c == 'u' && input.ctrl {
                        Message::TextAreaScroll(Scrolling::HalfPageUp)
                    } else if c == 'f' && input.ctrl {
                        Message::TextAreaScroll(Scrolling::PageDown)
                    } else if c == 'b' && input.ctrl {
                        Message::TextAreaScroll(Scrolling::PageUp)
                    } else if c == 'v' && !input.ctrl {
                        match vim_mode {
                            VimMode::Visual => Message::TextAreaCancelSelection,
                            _ => Message::TextAreaStartSelection,
                        }
                    } else if c == 'V' && !input.ctrl && matches!(vim_mode, VimMode::Normal) {
                        Message::TextAreaStartLineSelection
                    } else if c == 'g' && !input.ctrl && !vim_state.get_pending_input().ctrl
                        && matches!(vim_state.get_pending_input().key, Key::Char('g')) {
                        Message::TextAreaMoveCursor(CursorMove::Top)
                    } else if c == 'G' && !input.ctrl {
                        Message::TextAreaMoveCursor(CursorMove::Bottom)
                    } else if c == 'y' && !input.ctrl && matches!(vim_mode, VimMode::Visual) {
                        Message::TextAreaYank
                    } else if c == 'd' && !input.ctrl && matches!(vim_mode, VimMode::Visual) {
                        Message::TextAreaDelete
                    } else if c == 'c' && !input.ctrl && matches!(vim_mode, VimMode::Visual) {
                        Message::TextAreaCut
                    } else {
                        Message::SetVimPendingInput(input)
                    }
                },
                Key::Esc => {
                    match vim_mode {
                        VimMode::Visual => Message::TextAreaCancelSelection,
                        _ => Message::SetVimPendingInput(input),
                    }
                },
                _ => Message::SetVimPendingInput(input),
            }
        },
    }
}

/// What a pending operator acts as: yank, delete or cut for the three
/// operator keys, a plain redraw for anything else.
pub fn handle_vim_operator(operator: VimMode) -> (r: Message)
    ensures
        operator == VimMode::Operator('y') ==> r@ == MessageV::TextAreaYank,
        operator == VimMode::Operator('d') ==> r@ == MessageV::TextAreaDelete,
        operator == VimMode::Operator('c') ==> r@ == MessageV::TextAreaCut,
        !(operator matches VimMode::Operator(_)) ==> r@ == MessageV::Draw,
        (operator matches VimMode::Operator(c) && c != 'y' && c != 'd' && c != 'c') ==> r@
            == MessageV::Draw,
{
    match operator {
        VimMode::Operator(op) => {
            if op == 'y' {
                Message::TextAreaYank
            } else if op == 'd' {
                Message::TextAreaDelete
            } else if op == 'c' {
                Message::TextAreaCut
            } else {
                Message::Draw
            }
        },
        _ => Message::Draw,
    }
}

} // verus!
