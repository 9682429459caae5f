//! State of the client-configuration section: the plain image of its text
//! area, the vim emulation state, the focus flag and the interactive
//! flag.
//!
//! The real text widget lives outside the crate. It applies the edit
//! events and keeps the image here in sync through [`ClientConfigState::sync_textarea`].

use vstd::prelude::*;

use crate::model::vim_emulator::{VimMode, VimState, VimStateV};
use crate::utils::textarea_state::TextAreaState;

verus! {

/// Mathematical image of a [`ClientConfigState`].
#[verifier::ext_equal]
pub struct ClientConfigV {
    pub text: Seq<char>,
    pub cursor: (u16, u16),
    pub vim: VimStateV,
    pub has_focus: bool,
    pub interactive_on: bool,
}

impl ClientConfigV {
    /// The starting state of the section: unfocused, not interactive, an
    /// empty text area, the editor in its starting state.
    pub open spec fn init() -> ClientConfigV {
        ClientConfigV {
            text: Seq::empty(),
            cursor: (0u16, 0u16),
            vim: VimStateV::init(),
            has_focus: false,
            interactive_on: false,
        }
    }

    /// The state after switching the editor mode; entering or leaving
    /// visual mode moves the selection anchor with it.
    pub open spec fn with_mode(self, mode: VimMode) -> ClientConfigV {
        ClientConfigV { vim: self.vim.with_mode(mode), ..self }
    }

    /// The state after buffering a pending first key.
    pub open spec fn with_pending(self, pending: crate::events::input::Input) -> ClientConfigV {
        ClientConfigV { vim: self.vim.with_pending(pending), ..self }
    }

    /// The state after a yank: only meaningful in visual mode, where it
    /// returns the editor to normal mode; elsewhere nothing changes.
    pub open spec fn yank(self) -> ClientConfigV {
        if self.vim.mode == VimMode::Visual {
            self.with_mode(VimMode::Normal)
        } else {
            self
        }
    }
}

/// The client-configuration section: its text area as plain values, the
/// vim emulation state, and the focus and interactive flags.
pub struct ClientConfigState {
    textarea: TextAreaState,
    vim_state: VimState,
    has_focus: bool,
    /// Whether the user entered interactive editing.
    interactive_on: bool,
}

impl View for ClientConfigState {
    type V = ClientConfigV;

    closed spec fn view(&self) -> ClientConfigV {
        ClientConfigV {
            text: self.textarea.spec_content(),
            cursor: self.textarea.spec_cursor_pos(),
            vim: self.vim_state@,
            has_focus: self.has_focus,
            interactive_on: self.interactive_on,
        }
    }
}

impl Default for ClientConfigState {
    /// The section starts unfocused, not interactive, in normal mode, with
    /// an empty text area; whoever reads the configuration file loads the
    /// content.
    fn default() -> (r: Self)
        ensures
            r@ == ClientConfigV::init(),
    {
        ClientConfigState {
            textarea: TextAreaState::new(),
            vim_state: VimState::default(),
            has_focus: false,
            interactive_on: false,
        }
    }
}

impl ClientConfigState {
    /// The plain image of the text area.
    pub fn get_textarea(&self) -> (r: &TextAreaState)
        ensures
            r.spec_content() == self@.text,
            r.spec_cursor_pos() == self@.cursor,
    {
        &self.textarea
    }

    /// Brings the image of the text area up to date with the outside
    /// widget that applied the edits.
    pub fn sync_textarea(&mut self, content: String, cursor: (u16, u16))
        ensures
            final(self)@ == (ClientConfigV { text: content@, cursor, ..old(self)@ }),
    {
        self.textarea.set_content(content);
        self.textarea.set_cursor_pos(cursor);
    }

    /// Takes the focus.
    pub fn focus(&mut self)
        ensures
            final(self)@ == (ClientConfigV { has_focus: true, ..old(self)@ }),
    {
        self.has_focus = true;
    }

    /// Gives the focus up.
    pub fn unfocus(&mut self)
        ensures
            final(self)@ == (ClientConfigV { has_focus: false, ..old(self)@ }),
    {
        self.has_focus = false;
    }

    /// Whether the section holds the focus.
    pub fn has_focus(&self) -> (r: bool)
        ensures
            r == self@.has_focus,
    {
        self.has_focus
    }

    /// Whether the user is in interactive editing.
    pub fn is_interactive_on(&self) -> (r: bool)
        ensures
            r == self@.interactive_on,
    {
        self.interactive_on
    }

    /// Enters interactive editing.
    pub fn enter_interactive(&mut self)
        ensures
            final(self)@ == (ClientConfigV { interactive_on: true, ..old(self)@ }),
    {
        self.interactive_on = true;
    }

    /// Leaves interactive editing.
    pub fn quit_interactive(&mut self)
        ensures
            final(self)@ == (ClientConfigV { interactive_on: false, ..old(self)@ }),
    {
        self.interactive_on = false;
    }

    /// Switches the editor mode, moving the selection anchor with it.
    pub fn set_vim_mode(&mut self, mode: VimMode)
        ensures
            final(self)@ == old(self)@.with_mode(mode),
    {
        self.vim_state.set_mode(mode);
    }

    /// Buffers the pending first key of a possible two-key sequence.
    pub fn set_vim_pending_input(&mut self, pending: crate::events::input::Input)
        ensures
            final(self)@ == old(self)@.with_pending(pending),
    {
        self.vim_state.set_pending_input(pending);
    }

    /// The vim emulation state.
    pub fn get_vim_state(&self) -> (r: &VimState)
        ensures
            r@ == self@.vim,
    {
        &self.vim_state
    }

    /// A yank: in visual mode it returns the editor to normal mode and
    /// thereby clears the selection anchor; in any other mode it is a
    /// no-op.
    pub fn textarea_yank(&mut self)
        ensures
            final(self)@ == old(self)@.yank(),
    {
        match self.vim_state.get_mode() {
            VimMode::Visual => {
                self.vim_state.set_mode(VimMode::Normal);
            },
            _ => {},
        }
    }
}

} // verus!
