//! The typed events the model reacts to.

use vstd::prelude::*;

use crate::commands::CmdTask;
use crate::events::input::{CursorMove, Input, Scrolling};
use crate::model::vim_emulator::VimMode;
use crate::ui::{Popup, PopupV};

verus! {

/// A message is one typed event; the model applies them one at a time and
/// deterministically.
#[derive(Debug)]
pub enum Message {
    /// The application should stop.
    StopApp,
    ShowPopup(Popup),
    HidePopup,
    /// Triggers a re-draw of the entire screen.
    Draw,
    MoveToNextSection,
    MoveToPrevSection,
    SelNextListItem,
    SelPrevListItem,
    SelNextPopupItem,
    SelPrevPopupItem,
    /// If focused on a text input, writes one character.
    WriteChar(char),
    /// If focused on a text input, removes the last character.
    PopChar,
    /// If focused on a text input, removes the last word.
    PopWord,
    /// A new command has been spawned and becomes the currently running one.
    CmdSpawned(CmdTask),
    /// The currently running command has finished.
    CmdFinished,
    /// The given text should be shown in the success popup.
    PrintSuccess(String),
    /// The given text should be shown in the error popup.
    PrintError(String),
    /// The given text should be shown with no dismiss path; any further
    /// input terminates the application.
    FatalError(String),
    /// Prompts the user for the passphrase of the key being generated.
    PromptNewKeyPassphrase,
    PromptReenterNewKeyPassPhrase,
    PromptKeyOverwrite,
    CleanNewKeyPassphraseInput,
    RefreshPublicKeysList,
    RefreshKnownHostsList,
    PromptDeleteKeyPairConfirmation,
    /// Enters interactive mode on the configuration text area, starting the
    /// vim state machine in normal mode.
    TextAreaInteract,
    /// Delete from cursor to line end and enter vim normal mode.
    TextAreaDeleteToEnd,
    /// Delete the selected text and enter vim normal mode.
    TextAreaDelete,
    /// Delete the line and enter vim normal mode.
    TextAreaDeleteLine,
    /// Delete the selected text and enter vim insert mode.
    TextAreaCut,
    /// Delete from cursor to line end and enter vim insert mode.
    TextAreaCutToEnd,
    /// Delete the line and enter vim insert mode.
    TextAreaCutLine,
    /// Start a selection and enter vim visual mode.
    TextAreaStartSelection,
    /// Start a line selection and enter vim visual mode.
    TextAreaStartLineSelection,
    /// Cancel the selection and enter vim normal mode.
    TextAreaCancelSelection,
    /// Paste the yanked text.
    TextAreaPaste,
    /// Undo the last change.
    TextAreaUndo,
    /// Redo the last undone change.
    TextAreaRedo,
    /// Delete the character under the cursor.
    TextAreaDeleteNextChar,
    /// Enter vim insert mode on a new line after the current one.
    TextAreaInsertAtNewlineAfter,
    /// Enter vim insert mode on a new line before the current one.
    TextAreaInsertAtNewlineBefore,
    /// Enter vim insert mode with the cursor after the current character.
    TextAreaInsertAfter,
    /// Enter vim insert mode with the cursor at the end of the line.
    TextAreaInsertAtEnd,
    /// Enter vim insert mode with the cursor at the start of the line.
    TextAreaInsertAtStart,
    TextAreaMoveCursor(CursorMove),
    TextAreaScroll(Scrolling),
    /// Yank the selection and enter vim normal mode.
    TextAreaYank,
    /// Forward the input verbatim to the text area.
    TextAreaInput(Input),
    SetVimMode(VimMode),
    SetVimPendingInput(Input),
    /// Leave interactive editing entirely.
    VimQuit,
    /// Write the text-area buffer to the configuration file.
    TextAreaWriteBuffer,
}

/// Mathematical image of a [`Message`]: text carried as character
/// sequences.
#[verifier::ext_equal]
pub enum MessageV {
    StopApp,
    ShowPopup(PopupV),
    HidePopup,
    Draw,
    MoveToNextSection,
    MoveToPrevSection,
    SelNextListItem,
    SelPrevListItem,
    SelNextPopupItem,
    SelPrevPopupItem,
    WriteChar(char),
    PopChar,
    PopWord,
    CmdSpawned(CmdTask),
    CmdFinished,
    PrintSuccess(Seq<char>),
    PrintError(Seq<char>),
    FatalError(Seq<char>),
    PromptNewKeyPassphrase,
    PromptReenterNewKeyPassPhrase,
    PromptKeyOverwrite,
    CleanNewKeyPassphraseInput,
    RefreshPublicKeysList,
    RefreshKnownHostsList,
    PromptDeleteKeyPairConfirmation,
    TextAreaInteract,
    TextAreaDeleteToEnd,
    TextAreaDelete,
    TextAreaDeleteLine,
    TextAreaCut,
    TextAreaCutToEnd,
    TextAreaCutLine,
    TextAreaStartSelection,
    TextAreaStartLineSelection,
    TextAreaCancelSelection,
    TextAreaPaste,
    TextAreaUndo,
    TextAreaRedo,
    TextAreaDeleteNextChar,
    TextAreaInsertAtNewlineAfter,
    TextAreaInsertAtNewlineBefore,
    TextAreaInsertAfter,
    TextAreaInsertAtEnd,
    TextAreaInsertAtStart,
    TextAreaMoveCursor(CursorMove),
    TextAreaScroll(Scrolling),
    TextAreaYank,
    TextAreaInput(Input),
    SetVimMode(VimMode),
    SetVimPendingInput(Input),
    VimQuit,
    TextAreaWriteBuffer,
}

/// The images of a list of messages, in order.
pub open spec fn msgs_view(s: Seq<Message>) -> Seq<MessageV> {
    s.map_values(|m: Message| m@)
}

impl View for Message {
    type V = MessageV;

    open spec fn view(&self) -> MessageV {
        match self {
            Message::StopApp => MessageV::StopApp,
            Message::ShowPopup(p) => MessageV::ShowPopup(p@),
            Message::HidePopup => MessageV::HidePopup,
            Message::Draw => MessageV::Draw,
            Message::MoveToNextSection => MessageV::MoveToNextSection,
            Message::MoveToPrevSection => MessageV::MoveToPrevSection,
            Message::SelNextListItem => MessageV::SelNextListItem,
            Message::SelPrevListItem => MessageV::SelPrevListItem,
            Message::SelNextPopupItem => MessageV::SelNextPopupItem,
            Message::SelPrevPopupItem => MessageV::SelPrevPopupItem,
            Message::WriteChar(ch) => MessageV::WriteChar(*ch),
            Message::PopChar => MessageV::PopChar,
            Message::PopWord => MessageV::PopWord,
            Message::CmdSpawned(t) => MessageV::CmdSpawned(*t),
            Message::CmdFinished => MessageV::CmdFinished,
            Message::PrintSuccess(s) => MessageV::PrintSuccess(s@),
            Message::PrintError(s) => MessageV::PrintError(s@),
            Message::FatalError(s) => MessageV::FatalError(s@),
            Message::PromptNewKeyPassphrase => MessageV::PromptNewKeyPassphrase,
            Message::PromptReenterNewKeyPassPhrase => MessageV::PromptReenterNewKeyPassPhrase,
            Message::PromptKeyOverwrite => MessageV::PromptKeyOverwrite,
            Message::CleanNewKeyPassphraseInput => MessageV::CleanNewKeyPassphraseInput,
            Message::RefreshPublicKeysList => MessageV::RefreshPublicKeysList,
            Message::RefreshKnownHostsList => MessageV::RefreshKnownHostsList,
            Message::PromptDeleteKeyPairConfirmation => MessageV::PromptDeleteKeyPairConfirmation,
            Message::TextAreaInteract => MessageV::TextAreaInteract,
            Message::TextAreaDeleteToEnd => MessageV::TextAreaDeleteToEnd,
            Message::TextAreaDelete => MessageV::TextAreaDelete,
            Message::TextAreaDeleteLine => MessageV::TextAreaDeleteLine,
            Message::TextAreaCut => MessageV::TextAreaCut,
            Message::TextAreaCutToEnd => MessageV::TextAreaCutToEnd,
            Message::TextAreaCutLine => MessageV::TextAreaCutLine,
            Message::TextAreaStartSelection => MessageV::TextAreaStartSelection,
            Message::TextAreaStartLineSelection => MessageV::TextAreaStartLineSelection,
            Message::TextAreaCancelSelection => MessageV::TextAreaCancelSelection,
            Message::TextAreaPaste => MessageV::TextAreaPaste,
            Message::TextAreaUndo => MessageV::TextAreaUndo,
            Message::TextAreaRedo => MessageV::TextAreaRedo,
            Message::TextAreaDeleteNextChar => MessageV::TextAreaDeleteNextChar,
            Message::TextAreaInsertAtNewlineAfter => MessageV::TextAreaInsertAtNewlineAfter,
            Message::TextAreaInsertAtNewlineBefore => MessageV::TextAreaInsertAtNewlineBefore,
            Message::TextAreaInsertAfter => MessageV::TextAreaInsertAfter,
            Message::TextAreaInsertAtEnd => MessageV::TextAreaInsertAtEnd,
            Message::TextAreaInsertAtStart => MessageV::TextAreaInsertAtStart,
            Message::TextAreaMoveCursor(m) => MessageV::TextAreaMoveCursor(*m),
            Message::TextAreaScroll(sc) => MessageV::TextAreaScroll(*sc),
            Message::TextAreaYank => MessageV::TextAreaYank,
            Message::TextAreaInput(i) => MessageV::TextAreaInput(*i),
            Message::SetVimMode(m) => MessageV::SetVimMode(*m),
            Message::SetVimPendingInput(i) => MessageV::SetVimPendingInput(*i),
            Message::VimQuit => MessageV::VimQuit,
            Message::TextAreaWriteBuffer => MessageV::TextAreaWriteBuffer,
        }
    }
}

} // verus!
