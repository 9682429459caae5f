//! The single owned application state.
//!
//! Every change goes through [`Model::update`], which applies one typed
//! message deterministically. The contract of `update` is the transition
//! function [`spec_update`]; the well-formedness predicate [`ModelV::wf`]
//! — the focus mirrors the popup, exactly one section is focused, at most
//! one command task per kind is live, the selection anchor follows visual
//! mode — is established by [`Model::default`] and preserved by every
//! update, which [`lemma_update_preserves_wf`] proves once and for all.

pub mod sections_state;
pub mod vim_emulator;

use vstd::prelude::*;

use crate::commands::CmdTask;
use crate::events::messages::{Message, MessageV};
use crate::ui::{opt_popup_view, ColorVariant, Focus, FocusV, Popup, PopupV, Section};

use self::sections_state::client_config_state::{ClientConfigState, ClientConfigV};
use self::sections_state::known_hosts_list_state::KnownHostsV;
use self::sections_state::public_keys_list_state::{
    opt_view,
    NewKeyV,
    NewPublicKeyFocus,
    PublicKeysV,
};
use self::sections_state::{SectionsStates, SectionsV};
use self::vim_emulator::VimMode;

verus! {

/// Whether the application keeps running.
#[derive(Clone, Copy, PartialEq, Eq, Structural, Debug)]
pub enum RunningState {
    Running,
    Done,
}

impl Default for RunningState {
    /// The application starts running.
    fn default() -> (r: Self)
        ensures
            r == RunningState::Running,
    {
        RunningState::Running
    }
}

/// Mathematical image of a [`Model`].
#[verifier::ext_equal]
pub struct ModelV {
    pub running: RunningState,
    pub popup: Option<PopupV>,
    pub section: Section,
    pub focus: FocusV,
    pub sections: SectionsV,
    pub cmds: Seq<CmdTask>,
    pub fatal: Option<Seq<char>>,
    pub error: Option<Seq<char>>,
}

impl ModelV {
    /// The starting state: running, no popup, the known-hosts section
    /// focused, no command live, no errors.
    pub open spec fn init() -> ModelV {
        ModelV {
            running: RunningState::Running,
            popup: None,
            section: Section::KnownHostsList,
            focus: FocusV::Section(Section::KnownHostsList),
            sections: SectionsV::init(),
            cmds: Seq::empty(),
            fatal: None,
            error: None,
        }
    }

    /// Well-formedness of the whole state:
    /// the focus is the popup whenever one is set and the current section
    /// otherwise; the section field agrees with the per-section focus
    /// flags; no command kind has more than one live task; and the
    /// editor's selection anchor is set exactly in visual mode.
    pub open spec fn wf(self) -> bool {
        &&& match self.popup {
            Option::Some(p) => self.focus == FocusV::Popup(p),
            Option::None => self.focus == FocusV::Section(self.section),
        }
        &&& (self.sections.known_hosts.has_focus <==> self.section == Section::KnownHostsList)
        &&& (self.sections.public_keys.has_focus <==> self.section == Section::PublicKeysList)
        &&& (self.sections.client_config.has_focus <==> self.section == Section::ClientConfig)
        &&& forall|i: int, j: int|
            0 <= i < j < self.cmds.len() ==> self.cmds[i] != self.cmds[j]
        &&& self.sections.client_config.vim.wf()
    }

    /// The state with the known-hosts section replaced.
    pub open spec fn with_known_hosts(self, kh: KnownHostsV) -> ModelV {
        ModelV { sections: SectionsV { known_hosts: kh, ..self.sections }, ..self }
    }

    /// The state with the public-keys section replaced.
    pub open spec fn with_public_keys(self, pk: PublicKeysV) -> ModelV {
        ModelV { sections: SectionsV { public_keys: pk, ..self.sections }, ..self }
    }

    /// The state with the client-configuration section replaced.
    pub open spec fn with_client_config(self, cc: ClientConfigV) -> ModelV {
        ModelV { sections: SectionsV { client_config: cc, ..self.sections }, ..self }
    }

    /// The state with the new-key form replaced.
    pub open spec fn with_new_key(self, nk: NewKeyV) -> ModelV {
        self.with_public_keys(PublicKeysV { new_key: nk, ..self.sections.public_keys })
    }

    /// The state after setting or clearing the popup. The focus follows:
    /// it lands on the new popup, or back on the current section. Leaving
    /// the error popup — dismissing it, or replacing it with a different
    /// popup — clears the current error.
    pub open spec fn spec_set_popup(self, new_popup: Option<PopupV>) -> ModelV {
        let error = if self.popup == Some(PopupV::ErrorMsg) && new_popup != Some(
            PopupV::ErrorMsg,
        ) {
            None
        } else {
            self.error
        };
        let focus = match new_popup {
            Option::Some(p) => FocusV::Popup(p),
            Option::None => FocusV::Section(self.section),
        };
        ModelV { popup: new_popup, focus, error, ..self }
    }

    /// The state after moving to the next section: the section states hand
    /// the focus over and the model follows them. An open popup keeps the
    /// focus, so that the focus always mirrors the popup field.
    pub open spec fn spec_next_section(self) -> ModelV {
        let next = self.sections.next_section();
        ModelV {
            sections: self.sections.move_next(),
            section: next,
            focus: match self.popup {
                Option::Some(_) => self.focus,
                Option::None => FocusV::Section(next),
            },
            ..self
        }
    }

    /// The state after moving to the previous section; as with
    /// [`ModelV::spec_next_section`], an open popup keeps the focus.
    pub open spec fn spec_prev_section(self) -> ModelV {
        let prev = self.sections.prev_section();
        ModelV {
            sections: self.sections.move_prev(),
            section: prev,
            focus: match self.popup {
                Option::Some(_) => self.focus,
                Option::None => FocusV::Section(prev),
            },
            ..self
        }
    }
}

/// The deterministic transition function of the application: what one
/// message does to the state. Messages that only concern outside
/// collaborators — redraws, cursor motion, raw text-area edits, list
/// reloads, the buffer write — leave the state unchanged here; the
/// collaborator acts on them and reports back through further messages.
pub open spec fn spec_update(m: ModelV, msg: MessageV) -> ModelV {
    match msg {
        MessageV::StopApp => ModelV { running: RunningState::Done, ..m },
        MessageV::ShowPopup(p) => m.spec_set_popup(Some(p)),
        MessageV::HidePopup => m.spec_set_popup(None),
        MessageV::Draw => m,
        MessageV::MoveToNextSection => m.spec_next_section(),
        MessageV::MoveToPrevSection => m.spec_prev_section(),
        MessageV::SelNextListItem => match m.focus {
            FocusV::Section(Section::KnownHostsList) => m.with_known_hosts(
                m.sections.known_hosts.next_item(),
            ),
            FocusV::Section(Section::PublicKeysList) => m.with_public_keys(
                m.sections.public_keys.next_item(),
            ),
            _ => m,
        },
        MessageV::SelPrevListItem => match m.focus {
            FocusV::Section(Section::KnownHostsList) => m.with_known_hosts(
                m.sections.known_hosts.prev_item(),
            ),
            FocusV::Section(Section::PublicKeysList) => m.with_public_keys(
                m.sections.public_keys.prev_item(),
            ),
            _ => m,
        },
        MessageV::SelNextPopupItem => match m.focus {
            FocusV::Popup(PopupV::AddPubKey) => m.with_new_key(
                m.sections.public_keys.new_key.toggled_focus(),
            ),
            _ => m,
        },
        MessageV::SelPrevPopupItem => match m.focus {
            FocusV::Popup(PopupV::AddPubKey) => m.with_new_key(
                m.sections.public_keys.new_key.toggled_focus(),
            ),
            _ => m,
        },
        MessageV::WriteChar(ch) => match m.focus {
            FocusV::Popup(PopupV::AddPubKey) => m.with_new_key(
                m.sections.public_keys.new_key.write_char(ch),
            ),
            FocusV::Popup(PopupV::PromptPassphrase) => m.with_new_key(
                m.sections.public_keys.new_key.write_passphrase(ch),
            ),
            FocusV::Popup(PopupV::PromptReenterPassphrase) => m.with_new_key(
                m.sections.public_keys.new_key.write_passphrase_check(ch),
            ),
            _ => m,
        },
        MessageV::PopChar => match m.focus {
            FocusV::Popup(PopupV::AddPubKey) => m.with_new_key(
                m.sections.public_keys.new_key.del_char(),
            ),
            FocusV::Popup(PopupV::PromptPassphrase) => m.with_new_key(
                m.sections.public_keys.new_key.del_passphrase_char(),
            ),
            FocusV::Popup(PopupV::PromptReenterPassphrase) => m.with_new_key(
                m.sections.public_keys.new_key.del_check_char(),
            ),
            _ => m,
        },
        MessageV::PopWord => match m.focus {
            FocusV::Popup(PopupV::AddPubKey) => m.with_new_key(
                m.sections.public_keys.new_key.del_word(),
            ),
            FocusV::Popup(PopupV::PromptPassphrase) => m.with_new_key(
                NewKeyV { passphrase: None, ..m.sections.public_keys.new_key },
            ),
            FocusV::Popup(PopupV::PromptReenterPassphrase) => m.with_new_key(
                NewKeyV { passphrase_check: None, ..m.sections.public_keys.new_key },
            ),
            _ => m,
        },
        MessageV::CmdSpawned(t) => ModelV { cmds: seq![t], ..m }.spec_set_popup(
            Some(PopupV::WaitingCmd),
        ),
        MessageV::CmdFinished => ModelV { cmds: Seq::empty(), ..m }.spec_set_popup(None),
        MessageV::PrintSuccess(s) => m.spec_set_popup(
            Some(PopupV::WithCfg(s, ColorVariant::Success)),
        ),
        MessageV::PrintError(s) => ModelV { error: Some(s), ..m }.spec_set_popup(
            Some(PopupV::ErrorMsg),
        ),
        MessageV::FatalError(s) => ModelV { fatal: Some(s), ..m }.spec_set_popup(
            Some(PopupV::WithCfg(s, ColorVariant::Danger)),
        ),
        MessageV::PromptNewKeyPassphrase => m.spec_set_popup(Some(PopupV::PromptPassphrase)),
        MessageV::PromptReenterNewKeyPassPhrase => m.spec_set_popup(
            Some(PopupV::PromptReenterPassphrase),
        ),
        MessageV::PromptKeyOverwrite => m.spec_set_popup(Some(PopupV::PromptKeyOverwrite)),
        MessageV::CleanNewKeyPassphraseInput => m.with_new_key(
            m.sections.public_keys.new_key.clean(),
        ),
        MessageV::RefreshPublicKeysList => m,
        MessageV::RefreshKnownHostsList => m,
        MessageV::PromptDeleteKeyPairConfirmation => m.spec_set_popup(
            Some(PopupV::PromptDeleteKeyPairConfirmation),
        ),
        MessageV::TextAreaInteract => m.with_client_config(
            ClientConfigV {
                interactive_on: true,
                ..m.sections.client_config.with_mode(VimMode::Normal)
            },
        ),
        MessageV::VimQuit => m.with_client_config(
            ClientConfigV { interactive_on: false, ..m.sections.client_config },
        ),
        MessageV::SetVimMode(mode) => m.with_client_config(
            m.sections.client_config.with_mode(mode),
        ),
        MessageV::SetVimPendingInput(i) => m.with_client_config(
            m.sections.client_config.with_pending(i),
        ),
        MessageV::TextAreaMoveCursor(_) => m,
        MessageV::TextAreaScroll(_) => m,
        MessageV::TextAreaInput(_) => m,
        MessageV::TextAreaUndo => m,
        MessageV::TextAreaRedo => m,
        MessageV::TextAreaPaste => m,
        MessageV::TextAreaWriteBuffer => m,
        MessageV::TextAreaYank => m.with_client_config(m.sections.client_config.yank()),
        MessageV::TextAreaDeleteToEnd => m.with_client_config(
            m.sections.client_config.with_mode(VimMode::Normal),
        ),
        MessageV::TextAreaDelete => if m.sections.client_config.vim.mode == VimMode::Visual {
            m.with_client_config(m.sections.client_config.with_mode(VimMode::Normal))
        } else {
            m
        },
        MessageV::TextAreaDeleteLine => m.with_client_config(
            m.sections.client_config.with_mode(VimMode::Normal),
        ),
        MessageV::TextAreaCut => if m.sections.client_config.vim.mode == VimMode::Visual {
            m.with_client_config(m.sections.client_config.with_mode(VimMode::Insert))
        } else {
            m
        },
        MessageV::TextAreaCutToEnd => m.with_client_config(
            m.sections.client_config.with_mode(VimMode::Insert),
        ),
        MessageV::TextAreaCutLine => m.with_client_config(
            m.sections.client_config.with_mode(VimMode::Insert),
        ),
        MessageV::TextAreaDeleteNextChar => m.with_client_config(
            m.sections.client_config.with_mode(VimMode::Normal),
        ),
        MessageV::TextAreaStartSelection => m.with_client_config(
            m.sections.client_config.with_mode(VimMode::Visual),
        ),
        MessageV::TextAreaStartLineSelection => m.with_client_config(
            m.sections.client_config.with_mode(VimMode::Visual),
        ),
        MessageV::TextAreaCancelSelection => m.with_client_config(
            m.sections.client_config.with_mode(VimMode::Normal),
        ),
        MessageV::TextAreaInsertAfter => m.with_client_config(
            m.sections.client_config.with_mode(VimMode::Insert),
        ),
        MessageV::TextAreaInsertAtEnd => m.with_client_config(
            m.sections.client_config.with_mode(VimMode::Insert),
        ),
        MessageV::TextAreaInsertAtNewlineAfter => m.with_client_config(
            m.sections.client_config.with_mode(VimMode::Insert),
        ),
        MessageV::TextAreaInsertAtNewlineBefore => m.with_client_config(
            m.sections.client_config.with_mode(VimMode::Insert),
        ),
        MessageV::TextAreaInsertAtStart => m.with_client_config(
            m.sections.client_config.with_mode(VimMode::Insert),
        ),
    }
}

/// The state after a whole sequence of messages, applied in order.
pub open spec fn run_updates(m: ModelV, msgs: Seq<MessageV>) -> ModelV
    decreases msgs.len(),
{
    if msgs.len() == 0 {
        m
    } else {
        run_updates(spec_update(m, msgs[0]), msgs.drop_first())
    }
}

/// One update preserves well-formedness: in particular, after every
/// message the focus is the popup exactly when one is set and the current
/// section otherwise, and no command kind has two live tasks.
#[verifier::rlimit(100)]
#[verifier::spinoff_prover]
pub proof fn lemma_update_preserves_wf(m: ModelV, msg: MessageV)
    requires
        m.wf(),
    ensures
        spec_update(m, msg).wf(),
{
    match msg {
        MessageV::CmdSpawned(t) => {
            assert(spec_update(m, msg).cmds =~= seq![t]);
        },
        _ => {},
    }
}

/// For all event sequences: a well-formed state stays well-formed after
/// every update, so the focus always mirrors the popup field.
pub proof fn lemma_wf_after_updates(m: ModelV, msgs: Seq<MessageV>)
    requires
        m.wf(),
    ensures
        run_updates(m, msgs).wf(),
    decreases msgs.len(),
{
    if msgs.len() > 0 {
        lemma_update_preserves_wf(m, msgs[0]);
        lemma_wf_after_updates(spec_update(m, msgs[0]), msgs.drop_first());
    }
}

/// Dismissing a popup when none is shown changes nothing at all: the
/// popup stays absent and every other part of the state keeps its value.
pub proof fn lemma_dismiss_without_popup(m: ModelV)
    requires
        m.wf(),
        m.popup is None,
    ensures
        spec_update(m, MessageV::HidePopup) == m,
{
    assert(spec_update(m, MessageV::HidePopup) =~~= m);
}

/// At most one command task is live at any time in a well-formed state:
/// the command list never holds two entries, since tasks of equal kind
/// may not repeat and there is only one kind.
pub proof fn lemma_at_most_one_command(m: ModelV)
    requires
        m.wf(),
    ensures
        m.cmds.len() <= 1,
{
    if m.cmds.len() >= 2 {
        assert(m.cmds[0] != m.cmds[1]);
        match m.cmds[0] {
            CmdTask::SshKeygen => {
                match m.cmds[1] {
                    CmdTask::SshKeygen => {},
                }
            },
        }
    }
}

/// The state after writing the characters of `cs`, one `WriteChar`
/// event per character, in order.
pub open spec fn write_chars_updates(m: ModelV, cs: Seq<char>) -> ModelV
    decreases cs.len(),
{
    if cs.len() == 0 {
        m
    } else {
        write_chars_updates(spec_update(m, MessageV::WriteChar(cs[0])), cs.drop_first())
    }
}

/// The state after `n` single-character deletions, one `PopChar` event
/// each.
pub open spec fn pop_chars_updates(m: ModelV, n: nat) -> ModelV
    decreases n,
{
    if n == 0 {
        m
    } else {
        pop_chars_updates(spec_update(m, MessageV::PopChar), (n - 1) as nat)
    }
}

proof fn lemma_write_phase(m: ModelV, cs: Seq<char>)
    requires
        m.focus == FocusV::Popup(PopupV::AddPubKey),
        m.sections.public_keys.new_key.focus == NewPublicKeyFocus::Name,
    ensures
        write_chars_updates(m, cs) == m.with_new_key(
            NewKeyV {
                name: m.sections.public_keys.new_key.name + cs,
                ..m.sections.public_keys.new_key
            },
        ),
    decreases cs.len(),
{
    let nk = m.sections.public_keys.new_key;
    if cs.len() == 0 {
        assert(nk.name + cs =~= nk.name);
        assert(write_chars_updates(m, cs) =~~= m.with_new_key(
            NewKeyV { name: nk.name + cs, ..nk },
        ));
    } else {
        let m1 = spec_update(m, MessageV::WriteChar(cs[0]));
        lemma_write_phase(m1, cs.drop_first());
        assert(nk.name.push(cs[0]) + cs.drop_first() =~= nk.name + cs);
        assert(write_chars_updates(m, cs) =~~= m.with_new_key(
            NewKeyV { name: nk.name + cs, ..nk },
        ));
    }
}

proof fn lemma_pop_phase(m: ModelV, n: nat)
    requires
        m.focus == FocusV::Popup(PopupV::AddPubKey),
        m.sections.public_keys.new_key.focus == NewPublicKeyFocus::Name,
    ensures
        pop_chars_updates(m, n) == m.with_new_key(
            NewKeyV {
                name: crate::utils::strings::del_chars(m.sections.public_keys.new_key.name, n),
                ..m.sections.public_keys.new_key
            },
        ),
    decreases n,
{
    let nk = m.sections.public_keys.new_key;
    if n == 0 {
        assert(pop_chars_updates(m, n) =~~= m.with_new_key(
            NewKeyV { name: crate::utils::strings::del_chars(nk.name, n), ..nk },
        ));
    } else {
        let m1 = spec_update(m, MessageV::PopChar);
        lemma_pop_phase(m1, (n - 1) as nat);
        assert(pop_chars_updates(m, n) =~~= m.with_new_key(
            NewKeyV { name: crate::utils::strings::del_chars(nk.name, n), ..nk },
        ));
    }
}

/// Writing any number of characters into the add-key popup's name field
/// and then issuing as many single-character deletions returns the whole
/// state to exactly what it was; starting from an empty field, the field
/// is empty again.
pub proof fn lemma_popup_field_round_trip(m: ModelV, cs: Seq<char>)
    requires
        m.focus == FocusV::Popup(PopupV::AddPubKey),
        m.sections.public_keys.new_key.focus == NewPublicKeyFocus::Name,
    ensures
        pop_chars_updates(write_chars_updates(m, cs), cs.len()) == m,
{
    let nk = m.sections.public_keys.new_key;
    lemma_write_phase(m, cs);
    let m1 = write_chars_updates(m, cs);
    lemma_pop_phase(m1, cs.len());
    crate::utils::strings::lemma_writes_then_deletes(nk.name, cs);
    assert(pop_chars_updates(write_chars_updates(m, cs), cs.len()) =~~= m);
}

/// What an outside collaborator must do for a message, if anything: read
/// the known-hosts files again, list the SSH directory again, or write
/// the text-area buffer to the configuration file. The caller performs
/// the request and hands the result back through the model's load and
/// sync functions.
#[derive(Clone, Copy, PartialEq, Eq, Structural, Debug)]
pub enum IoRequest {
    ReloadKnownHosts,
    ReloadPublicKeys,
    WriteConfigBuffer,
}

/// Which messages ask an outside collaborator to act: exactly the two
/// list reloads and the buffer write.
pub fn io_request_for(message: &Message) -> (r: Option<IoRequest>)
    ensures
        message@ == MessageV::RefreshKnownHostsList <==> r == Some(IoRequest::ReloadKnownHosts),
        message@ == MessageV::RefreshPublicKeysList <==> r == Some(IoRequest::ReloadPublicKeys),
        message@ == MessageV::TextAreaWriteBuffer <==> r == Some(IoRequest::WriteConfigBuffer),
        (message@ != MessageV::RefreshKnownHostsList && message@ != MessageV::RefreshPublicKeysList
            && message@ != MessageV::TextAreaWriteBuffer) ==> r is None,
{
    match message {
        Message::RefreshKnownHostsList => Some(IoRequest::ReloadKnownHosts),
        Message::RefreshPublicKeysList => Some(IoRequest::ReloadPublicKeys),
        Message::TextAreaWriteBuffer => Some(IoRequest::WriteConfigBuffer),
        _ => None,
    }
}

/// The application state. Changes to it go through [`Model::update`]
/// alone.
pub struct Model {
    running_state: RunningState,
    current_popup: Option<Popup>,
    current_section: Section,
    current_focus: Focus,
    sections_states: SectionsStates,
    /// The live command tasks; at most one per kind, and with a single
    /// kind at most one at all.
    current_commands: Vec<CmdTask>,
    /// Once set, shown with no dismiss path; any input ends the process.
    fatal_error: Option<String>,
    /// The text shown in the dismissible error popup.
    current_error: Option<String>,
}

impl View for Model {
    type V = ModelV;

    closed spec fn view(&self) -> ModelV {
        ModelV {
            running: self.running_state,
            popup: opt_popup_view(self.current_popup),
            section: self.current_section,
            focus: self.current_focus@,
            sections: self.sections_states@,
            cmds: self.current_commands@,
            fatal: opt_view(self.fatal_error),
            error: opt_view(self.current_error),
        }
    }
}

impl Default for Model {
    /// The starting state, which is well-formed.
    fn default() -> (r: Self)
        ensures
            r@ == ModelV::init(),
            r@.wf(),
    {
        Model {
            running_state: RunningState::Running,
            current_popup: None,
            current_section: Section::KnownHostsList,
            current_focus: Focus::Section(Section::KnownHostsList),
            sections_states: SectionsStates::default(),
            current_commands: Vec::new(),
            fatal_error: None,
            current_error: None,
        }
    }
}

impl Model {
    /// The popup currently shown, if any.
    pub fn get_popup(&self) -> (r: Option<Popup>)
        ensures
            opt_popup_view(r) == self@.popup,
    {
        match &self.current_popup {
            Option::Some(p) => Some(p.clone()),
            Option::None => None,
        }
    }

    /// Which surface currently receives input.
    pub fn get_focus(&self) -> (r: Focus)
        ensures
            r@ == self@.focus,
    {
        self.current_focus.clone()
    }

    /// Whether the application has been told to stop.
    pub fn is_app_done(&self) -> (r: bool)
        ensures
            r == (self@.running == RunningState::Done),
    {
        match self.running_state {
            RunningState::Done => true,
            RunningState::Running => false,
        }
    }

    /// The section states.
    pub fn get_sections_state(&self) -> (r: &SectionsStates)
        ensures
            r@ == self@.sections,
    {
        &self.sections_states
    }

    /// The currently running command task, if any.
    pub fn get_current_command(&self) -> (r: Option<CmdTask>)
        ensures
            self@.cmds.len() == 0 ==> r is None,
            self@.cmds.len() > 0 ==> r == Some(self@.cmds[0]),
    {
        if self.current_commands.len() > 0 {
            Some(self.current_commands[0])
        } else {
            None
        }
    }

    /// The fatal error, if one was recorded.
    pub fn get_fatal_error(&self) -> (r: Option<String>)
        ensures
            opt_view(r) == self@.fatal,
    {
        match &self.fatal_error {
            Option::Some(s) => Some(s.clone()),
            Option::None => None,
        }
    }

    /// The dismissible error text, if one is current.
    pub fn get_current_error(&self) -> (r: Option<String>)
        ensures
            opt_view(r) == self@.error,
    {
        match &self.current_error {
            Option::Some(s) => Some(s.clone()),
            Option::None => None,
        }
    }

    /// The current section.
    pub fn get_current_section(&self) -> (r: Section)
        ensures
            r == self@.section,
    {
        self.current_section
    }

    /// The client-configuration state.
    pub fn get_client_config_state(&self) -> (r: &ClientConfigState)
        ensures
            r@ == self@.sections.client_config,
    {
        self.sections_states.get_client_config_state()
    }

    /// The client-configuration state, for the collaborator that syncs
    /// the text area.
    pub fn get_client_config_state_mut(&mut self) -> (r: &mut ClientConfigState)
        ensures
            (*r)@ == old(self)@.sections.client_config,
            final(self)@ == old(self)@.with_client_config((*final(r))@),
    {
        self.sections_states.get_client_config_state_mut()
    }

    /// Replaces the known-hosts entries with the host names a
    /// collaborator read from the known-hosts files.
    pub fn load_known_hosts(&mut self, known_hosts: Vec<String>)
        ensures
            final(self)@ == old(self)@.with_known_hosts(
                old(self)@.sections.known_hosts.load(known_hosts@),
            ),
    {
        self.sections_states.get_known_hosts_list_state_mut().load_known_hosts(known_hosts);
    }

    /// Replaces the public-key names with the ones a collaborator listed
    /// in the SSH directory.
    pub fn load_public_keys(&mut self, public_keys: Vec<String>)
        ensures
            final(self)@ == old(self)@.with_public_keys(
                old(self)@.sections.public_keys.load(public_keys@),
            ),
    {
        self.sections_states.get_public_keys_list_state_mut().load_public_keys(public_keys);
    }

    /// Applies one message to the state: exactly the transition
    /// [`spec_update`] describes.
    #[verifier::rlimit(100)]
    #[verifier::spinoff_prover]
    pub fn update(&mut self, message: Message)
        ensures
            final(self)@ == spec_update(old(self)@, message@),
    {
        match message {
            Message::StopApp => {
                self.running_state = RunningState::Done;
            },
            Message::ShowPopup(popup) => self.set_popup(Some(popup)),
            Message::HidePopup => self.set_popup(None),
            Message::Draw => {},
            Message::MoveToNextSection => self.next_section(),
            Message::MoveToPrevSection => self.prev_section(),
            Message::SelNextListItem => {
                match &self.current_focus {
                    Focus::Section(Section::KnownHostsList) => {
                        self.sections_states.get_known_hosts_list_state_mut().next_item();
                    },
                    Focus::Section(Section::PublicKeysList) => {
                        self.sections_states.get_public_keys_list_state_mut().next_item();
                    },
                    _ => {},
                }
            },
            Message::SelPrevListItem => {
                match &self.current_focus {
                    Focus::Section(Section::KnownHostsList) => {
                        self.sections_states.get_known_hosts_list_state_mut().prev_item();
                    },
                    Focus::Section(Section::PublicKeysList) => {
                        self.sections_states.get_public_keys_list_state_mut().prev_item();
                    },
                    _ => {},
                }
            },
            Message::SelNextPopupItem => {
                match &self.current_focus {
                    Focus::Popup(Popup::AddPubKey) => {
                        self.sections_states.get_public_keys_list_state_mut()
                            .get_new_key_state_mut().next_focus();
                    },
                    _ => {},
                }
            },
            Message::SelPrevPopupItem => {
                match &self.current_focus {
                    Focus::Popup(Popup::AddPubKey) => {
                        self.sections_states.get_public_keys_list_state_mut()
                            .get_new_key_state_mut().prev_focus();
                    },
                    _ => {},
                }
            },
            Message::WriteChar(ch) => {
                match &self.current_focus {
                    Focus::Popup(Popup::AddPubKey) => {
                        let new_key_state = self.sections_states.get_public_keys_list_state_mut()
                            .get_new_key_state_mut();
                        match new_key_state.get_focus() {
                            NewPublicKeyFocus::Name => new_key_state.write_name(ch),
                            NewPublicKeyFocus::Comment => new_key_state.write_comment(ch),
                        }
                    },
                    Focus::Popup(Popup::PromptPassphrase) => {
                        self.sections_states.get_public_keys_list_state_mut()
                            .get_new_key_state_mut().write_passphrase(ch);
                    },
                    Focus::Popup(Popup::PromptReenterPassphrase) => {
                        self.sections_states.get_public_keys_list_state_mut()
                            .get_new_key_state_mut().write_passphrase_check(ch);
                    },
                    _ => {},
                }
            },
            Message::PopChar => {
                match &self.current_focus {
                    Focus::Popup(Popup::AddPubKey) => {
                        let new_key_state = self.sections_states.get_public_keys_list_state_mut()
                            .get_new_key_state_mut();
                        match new_key_state.get_focus() {
                            NewPublicKeyFocus::Name => new_key_state.del_name_char(),
                            NewPublicKeyFocus::Comment => new_key_state.del_comment_char(),
                        }
                    },
                    Focus::Popup(Popup::PromptPassphrase) => {
                        self.sections_states.get_public_keys_list_state_mut()
                            .get_new_key_state_mut().del_passphare_char();
                    },
                    Focus::Popup(Popup::PromptReenterPassphrase) => {
                        self.sections_states.get_public_keys_list_state_mut()
                            .get_new_key_state_mut().del_passphrase_check_char();
                    },
                    _ => {},
                }
            },
            Message::PopWord => {
                match &self.current_focus {
                    Focus::Popup(Popup::AddPubKey) => {
                        let new_key_state = self.sections_states.get_public_keys_list_state_mut()
                            .get_new_key_state_mut();
                        match new_key_state.get_focus() {
                            NewPublicKeyFocus::Name => new_key_state.del_name_word(),
                            NewPublicKeyFocus::Comment => new_key_state.del_comment_word(),
                        }
                    },
                    Focus::Popup(Popup::PromptPassphrase) => {
                        self.sections_states.get_public_keys_list_state_mut()
                            .get_new_key_state_mut().del_passphrase();
                    },
                    Focus::Popup(Popup::PromptReenterPassphrase) => {
                        self.sections_states.get_public_keys_list_state_mut()
                            .get_new_key_state_mut().del_passphrase_check();
                    },
                    _ => {},
                }
            },
            Message::CmdSpawned(cmd_task) => {
                match cmd_task {
                    CmdTask::SshKeygen => {
                        self.current_commands.clear();
                        self.current_commands.push(cmd_task);
                        proof {
                            assert(self.current_commands@ =~= seq![cmd_task]);
                        }
                        self.set_popup(Some(Popup::WaitingCmd));
                    },
                }
            },
            Message::CmdFinished => {
                self.current_commands.clear();
                self.set_popup(None);
            },
            Message::PrintSuccess(success_str) => {
                self.set_popup(Some(Popup::WithCfg(success_str, ColorVariant::Success)));
            },
            Message::PrintError(error_str) => {
                self.current_error = Some(error_str);
                self.set_popup(Some(Popup::ErrorMsg));
            },
            Message::FatalError(error_str) => {
                self.fatal_error = Some(error_str.clone());
                self.set_popup(Some(Popup::WithCfg(error_str, ColorVariant::Danger)));
            },
            Message::PromptNewKeyPassphrase => self.set_popup(Some(Popup::PromptPassphrase)),
            Message::PromptReenterNewKeyPassPhrase => {
                self.set_popup(Some(Popup::PromptReenterPassphrase));
            },
            Message::PromptKeyOverwrite => {
                self.set_popup(Some(Popup::PromptKeyOverwrite));
            },
            Message::CleanNewKeyPassphraseInput => {
                self.sections_states.get_public_keys_list_state_mut().get_new_key_state_mut()
                    .clean_passphrases();
            },
            Message::RefreshPublicKeysList => {},
            Message::RefreshKnownHostsList => {},
            Message::PromptDeleteKeyPairConfirmation => {
                self.set_popup(Some(Popup::PromptDeleteKeyPairConfirmation));
            },
            Message::TextAreaInteract => {
                let ccstate = self.sections_states.get_client_config_state_mut();
                ccstate.set_vim_mode(VimMode::Normal);
                ccstate.enter_interactive();
            },
            Message::VimQuit => {
                self.sections_states.get_client_config_state_mut().quit_interactive();
            },
            Message::SetVimMode(mode) => {
                self.sections_states.get_client_config_state_mut().set_vim_mode(mode);
            },
            Message::SetVimPendingInput(input) => {
                self.sections_states.get_client_config_state_mut().set_vim_pending_input(input);
            },
            Message::TextAreaMoveCursor(_) => {},
            Message::TextAreaScroll(_) => {},
            Message::TextAreaInput(_) => {},
            Message::TextAreaUndo => {},
            Message::TextAreaRedo => {},
            Message::TextAreaPaste => {},
            Message::TextAreaWriteBuffer => {},
            Message::TextAreaYank => {
                self.sections_states.get_client_config_state_mut().textarea_yank();
            },
            Message::TextAreaDeleteToEnd => {
                self.sections_states.get_client_config_state_mut().set_vim_mode(VimMode::Normal);
            },
            Message::TextAreaDelete => {
                let ccstate = self.sections_states.get_client_config_state_mut();
                match ccstate.get_vim_state().get_mode() {
                    VimMode::Visual => ccstate.set_vim_mode(VimMode::Normal),
                    _ => {},
                }
            },
            Message::TextAreaDeleteLine => {
                self.sections_states.get_client_config_state_mut().set_vim_mode(VimMode::Normal);
            },
            Message::TextAreaCut => {
                let ccstate = self.sections_states.get_client_config_state_mut();
                match ccstate.get_vim_state().get_mode() {
                    VimMode::Visual => ccstate.set_vim_mode(VimMode::Insert),
                    _ => {},
                }
            },
            Message::TextAreaCutToEnd => {
                self.sections_states.get_client_config_state_mut().set_vim_mode(VimMode::Insert);
            },
            Message::TextAreaCutLine => {
                self.sections_states.get_client_config_state_mut().set_vim_mode(VimMode::Insert);
            },
            Message::TextAreaDeleteNextChar => {
                self.sections_states.get_client_config_state_mut().set_vim_mode(VimMode::Normal);
            },
            Message::TextAreaStartSelection => {
                self.sections_states.get_client_config_state_mut().set_vim_mode(VimMode::Visual);
            },
            Message::TextAreaStartLineSelection => {
                self.sections_states.get_client_config_state_mut().set_vim_mode(VimMode::Visual);
            },
            Message::TextAreaCancelSelection => {
                self.sections_states.get_client_config_state_mut().set_vim_mode(VimMode::Normal);
            },
            Message::TextAreaInsertAfter => {
                self.sections_states.get_client_config_state_mut().set_vim_mode(VimMode::Insert);
            },
            Message::TextAreaInsertAtEnd => {
                self.sections_states.get_client_config_state_mut().set_vim_mode(VimMode::Insert);
            },
            Message::TextAreaInsertAtNewlineAfter => {
                self.sections_states.get_client_config_state_mut().set_vim_mode(VimMode::Insert);
            },
            Message::TextAreaInsertAtNewlineBefore => {
                self.sections_states.get_client_config_state_mut().set_vim_mode(VimMode::Insert);
            },
            Message::TextAreaInsertAtStart => {
                self.sections_states.get_client_config_state_mut().set_vim_mode(VimMode::Insert);
            },
        }
    }

    /// Sets or clears the popup, moving the focus with it; leaving the
    /// error popup — by dismissal or for a different popup — clears the
    /// current error.
    fn set_popup(&mut self, new_popup: Option<Popup>)
        ensures
            final(self)@ == old(self)@.spec_set_popup(opt_popup_view(new_popup)),
    {
        let clearing = match (&self.current_popup, &new_popup) {
            (Some(Popup::ErrorMsg), Some(p)) => !matches!(p, Popup::ErrorMsg),
            (Some(Popup::ErrorMsg), None) => true,
            _ => false,
        };
        if clearing {
            self.current_error = None;
        }
        match &new_popup {
            Option::Some(popup) => {
                self.current_focus = Focus::Popup(popup.clone());
            },
            Option::None => {
                self.current_focus = Focus::Section(self.current_section);
            },
        }
        self.current_popup = new_popup;
    }

    /// Moves the focus to the next section and follows it; an open popup
    /// keeps the focus.
    fn next_section(&mut self)
        ensures
            final(self)@ == old(self)@.spec_next_section(),
    {
        let next = self.sections_states.next_section();
        self.current_section = next;
        match &self.current_popup {
            Option::None => {
                self.current_focus = Focus::Section(next);
            },
            Option::Some(_) => {},
        }
    }

    /// Moves the focus to the previous section and follows it; an open
    /// popup keeps the focus.
    fn prev_section(&mut self)
        ensures
            final(self)@ == old(self)@.spec_prev_section(),
    {
        let prev = self.sections_states.prev_section();
        self.current_section = prev;
        match &self.current_popup {
            Option::None => {
                self.current_focus = Focus::Section(prev);
            },
            Option::Some(_) => {},
        }
    }
}

} // verus!
