//! The state of the modal (vim-like) editor: its mode, the buffered first
//! key of an unresolved two-key sequence, and the selection anchor.

use vstd::prelude::*;

use crate::events::input::{Input, Key};

verus! {

/// A mode of the modal editor. `Operator` remembers the operator key that
/// awaits its motion.
#[derive(Clone, Copy, PartialEq, Eq, Structural, Debug)]
pub enum VimMode {
    Normal,
    Insert,
    Visual,
    Operator(char),
}

impl VimMode {
    /// The label shown for the mode in the editor frame.
    pub fn label(&self) -> (r: &'static str)
        ensures
            *self == VimMode::Normal ==> r@ == "NORMAL"@,
            *self == VimMode::Insert ==> r@ == "INSERT"@,
            *self == VimMode::Visual ==> r@ == "VISUAL"@,
            (self matches VimMode::Operator(_)) ==> r@ == "OPERATOR"@,
    {
        match self {
            VimMode::Normal => "NORMAL",
            VimMode::Insert => "INSERT",
            VimMode::Visual => "VISUAL",
            VimMode::Operator(_) => "OPERATOR",
        }
    }
}

/// Mathematical image of a [`VimState`].
#[derive(Clone, Copy, PartialEq, Eq, Structural, Debug)]
pub struct VimStateV {
    pub mode: VimMode,
    pub pending: Input,
    pub anchor: bool,
}

impl VimStateV {
    /// The starting state of the editor: normal mode, nothing buffered,
    /// no selection.
    pub open spec fn init() -> VimStateV {
        VimStateV {
            mode: VimMode::Normal,
            pending: Input { key: Key::Null, ctrl: false, alt: false, shift: false },
            anchor: false,
        }
    }

    /// The selection anchor is set exactly while the editor is in visual
    /// mode.
    pub open spec fn wf(self) -> bool {
        self.anchor <==> self.mode == VimMode::Visual
    }

    /// The state after switching to `mode`: the anchor follows the mode,
    /// the pending input stays.
    pub open spec fn with_mode(self, mode: VimMode) -> VimStateV {
        VimStateV { mode, pending: self.pending, anchor: mode == VimMode::Visual }
    }

    /// The state after buffering `pending` as the first key of a possible
    /// two-key sequence.
    pub open spec fn with_pending(self, pending: Input) -> VimStateV {
        VimStateV { mode: self.mode, pending, anchor: self.anchor }
    }
}

/// The state of the vim emulation: the current mode, one slot of pending
/// input for two-key sequences such as a doubled `g`, and the selection
/// anchor.
pub struct VimState {
    mode: VimMode,
    pending: Input,
    anchor: bool,
}

impl View for VimState {
    type V = VimStateV;

    closed spec fn view(&self) -> VimStateV {
        VimStateV { mode: self.mode, pending: self.pending, anchor: self.anchor }
    }
}

impl VimState {
    /// The editor starts in normal mode with nothing buffered and no
    /// selection.
    pub fn default() -> (r: Self)
        ensures
            r@ == VimStateV::init(),
    {
        VimState { mode: VimMode::Normal, pending: Input::default(), anchor: false }
    }

    /// The current mode.
    pub fn get_mode(&self) -> (r: VimMode)
        ensures
            r == self@.mode,
    {
        self.mode
    }

    /// The buffered first key of an unresolved two-key sequence; the null
    /// input when nothing is buffered.
    pub fn get_pending_input(&self) -> (r: Input)
        ensures
            r == self@.pending,
    {
        self.pending
    }

    /// Whether the selection anchor is set.
    pub fn has_selection_anchor(&self) -> (r: bool)
        ensures
            r == self@.anchor,
    {
        self.anchor
    }

    /// Switches the mode. Entering visual mode sets the selection anchor
    /// and leaving it clears it, so a well-formed state stays well-formed.
    pub fn set_mode(&mut self, mode: VimMode)
        ensures
            final(self)@ == old(self)@.with_mode(mode),
    {
        self.mode = mode;
        self.anchor = match mode {
            VimMode::Visual => true,
            _ => false,
        };
    }

    /// Buffers the given input as the pending first key.
    pub fn set_pending_input(&mut self, pending: Input)
        ensures
            final(self)@ == old(self)@.with_pending(pending),
    {
        self.pending = pending;
    }
}

} // verus!
