//! Typed events and the translation of raw input into them.
//!
//! The translator maps one raw key event and a snapshot of the model to a
//! list of effects: events for the model, and actions — spawning,
//! killing or writing to a command, the clipboard, a deletion — that only
//! the shell around the crate can perform. The shell feeds each action's
//! outcome back as events through the outcome functions in
//! [`crate::commands`] and [`crate::async_jobs`].

pub mod input;
pub mod messages;
pub mod vim_handler;

use vstd::prelude::*;
use vstd::string::StrSliceExecFns;

use crate::commands::CmdTask;
use crate::model::{Model, ModelV};
use crate::ui::{Focus, FocusV, Popup, PopupV, Section};

use self::input::{input_from_key, spec_input_from_key, KeyCode, KeyInput};
use self::messages::{Message, MessageV};
use self::vim_handler::{handle_key_input, spec_vim_message};

verus! {

/// One translated consequence of a key event: an event for the model, or
/// an action for the shell around the crate.
pub enum Effect {
    /// Apply this event to the model.
    Emit(Message),
    /// Spawn the command for the given kind; report through
    /// [`crate::commands::spawn_outcome`].
    StartCommand(CmdTask),
    /// Kill the running command of the given kind; report through
    /// [`crate::commands::kill_outcome`].
    KillCommand(CmdTask),
    /// Write these bytes, line-terminated, to the running command; report
    /// through [`crate::commands::write_outcome`].
    WriteToCmd(CmdTask, Vec<u8>),
    /// Read the named public-key file and put its content on the
    /// clipboard; report through [`crate::async_jobs::clipboard_outcome`].
    CopyPubKeyToClipboard(String),
    /// Delete the key pair with this name; report through
    /// [`crate::async_jobs::delete_outcome`].
    DeleteKeyPair(String),
}

/// Mathematical image of an [`Effect`].
#[verifier::ext_equal]
pub enum EffectV {
    Emit(MessageV),
    StartCommand(CmdTask),
    KillCommand(CmdTask),
    WriteToCmd(CmdTask, Seq<u8>),
    CopyPubKeyToClipboard(Seq<char>),
    DeleteKeyPair(Seq<char>),
}

impl View for Effect {
    type V = EffectV;

    open spec fn view(&self) -> EffectV {
        match self {
            Effect::Emit(m) => EffectV::Emit(m@),
            Effect::StartCommand(t) => EffectV::StartCommand(*t),
            Effect::KillCommand(t) => EffectV::KillCommand(*t),
            Effect::WriteToCmd(t, bytes) => EffectV::WriteToCmd(*t, bytes@),
            Effect::CopyPubKeyToClipboard(name) => EffectV::CopyPubKeyToClipboard(name@),
            Effect::DeleteKeyPair(name) => EffectV::DeleteKeyPair(name@),
        }
    }
}

/// The images of a list of effects, in order.
pub open spec fn effects_view(s: Seq<Effect>) -> Seq<EffectV> {
    s.map_values(|e: Effect| e@)
}

/// No consequence.
fn no_effects() -> (r: Vec<Effect>)
    ensures
        effects_view(r@) == Seq::<EffectV>::empty(),
{
    let r: Vec<Effect> = Vec::new();
    proof {
        assert(effects_view(r@) =~= Seq::<EffectV>::empty());
    }
    r
}

/// Exactly one consequence.
fn one_effect(e: Effect) -> (r: Vec<Effect>)
    ensures
        effects_view(r@) == seq![e@],
{
    let mut r: Vec<Effect> = Vec::new();
    r.push(e);
    proof {
        assert(effects_view(r@) =~= seq![r@[0]@]);
    }
    r
}

/// Exactly two consequences, in order.
fn two_effects(a: Effect, b: Effect) -> (r: Vec<Effect>)
    ensures
        effects_view(r@) == seq![a@, b@],
{
    let mut r: Vec<Effect> = Vec::new();
    r.push(a);
    r.push(b);
    proof {
        assert(effects_view(r@) =~= seq![r@[0]@, r@[1]@]);
    }
    r
}

/// The bytes of an optional passphrase draft: its UTF-8 encoding, empty
/// when there is no draft.
pub open spec fn spec_draft_bytes(draft: Option<Seq<char>>) -> Seq<u8> {
    match draft {
        Option::None => Seq::empty(),
        Option::Some(p) => vstd::utf8::encode_utf8(p),
    }
}

/// What one key event means while a section holds the focus.
///
/// When the configuration section is in interactive editing, every key
/// goes to the modal editor. Otherwise the keys navigate: between
/// sections, within the focused list, and into the section-specific
/// popups and actions.
pub open spec fn spec_section_effects(section: Section, key: KeyInput, m: ModelV) -> Seq<
    EffectV,
> {
    if section == Section::ClientConfig && m.sections.client_config.interactive_on {
        seq![
            EffectV::Emit(
                spec_vim_message(
                    spec_input_from_key(key),
                    m.sections.client_config.vim.mode,
                    m.sections.client_config.vim.pending,
                ),
            ),
        ]
    } else if key.code == KeyCode::Char('q') {
        seq![EffectV::Emit(MessageV::ShowPopup(PopupV::ExitPrompt))]
    } else if key.code == KeyCode::Right || key.code == KeyCode::Char('l') {
        seq![EffectV::Emit(MessageV::MoveToNextSection)]
    } else if key.code == KeyCode::Left || key.code == KeyCode::Char('h') {
        seq![EffectV::Emit(MessageV::MoveToPrevSection)]
    } else if key.code == KeyCode::Up || key.code == KeyCode::Char('k') {
        seq![EffectV::Emit(MessageV::SelPrevListItem)]
    } else if key.code == KeyCode::Down || key.code == KeyCode::Char('j') {
        seq![EffectV::Emit(MessageV::SelNextListItem)]
    } else if key.code == KeyCode::Char('n') {
        if section == Section::PublicKeysList {
            seq![EffectV::Emit(MessageV::ShowPopup(PopupV::AddPubKey))]
        } else {
            Seq::empty()
        }
    } else if key.code == KeyCode::Char('R') {
        if section == Section::PublicKeysList {
            seq![EffectV::Emit(MessageV::RefreshPublicKeysList)]
        } else if section == Section::KnownHostsList {
            seq![EffectV::Emit(MessageV::RefreshKnownHostsList)]
        } else {
            Seq::empty()
        }
    } else if key.code == KeyCode::Char('d') {
        if section == Section::PublicKeysList {
            seq![EffectV::Emit(MessageV::PromptDeleteKeyPairConfirmation)]
        } else {
            Seq::empty()
        }
    } else if key.code == KeyCode::Char('c') {
        match m.sections.public_keys.selected {
            Option::Some(idx) => if idx < m.sections.public_keys.items.len() {
                seq![EffectV::CopyPubKeyToClipboard(m.sections.public_keys.items[idx as int]@)]
            } else {
                Seq::empty()
            },
            Option::None => Seq::empty(),
        }
    } else if key.code == KeyCode::Enter {
        if section == Section::PublicKeysList && m.sections.public_keys.selected is Some {
            seq![EffectV::Emit(MessageV::ShowPopup(PopupV::ShowPubKeyContent))]
        } else if section == Section::ClientConfig {
            seq![EffectV::Emit(MessageV::TextAreaInteract)]
        } else {
            Seq::empty()
        }
    } else {
        Seq::empty()
    }
}

/// What one key event means while a popup holds the focus.
///
/// Characters go to the focused text field, with a control-qualified `w`
/// deleting the trailing word; Backspace deletes one character; Tab moves
/// the field focus; Escape dismisses the popup, first killing a running
/// command; Enter resolves the popup: it starts the command, answers its
/// prompts, confirms the overwrite, or confirms the deletion.
pub open spec fn spec_popup_effects(popup: PopupV, key: KeyInput, m: ModelV) -> Seq<EffectV> {
    let nk = m.sections.public_keys.new_key;
    match key.code {
        KeyCode::Char(ch) => {
            if popup == PopupV::ExitPrompt {
                if ch == 'q' {
                    seq![EffectV::Emit(MessageV::StopApp)]
                } else {
                    Seq::empty()
                }
            } else if (popup == PopupV::AddPubKey || popup == PopupV::PromptPassphrase)
                && key.ctrl {
                if ch == 'w' {
                    seq![EffectV::Emit(MessageV::PopWord)]
                } else {
                    Seq::empty()
                }
            } else if popup == PopupV::AddPubKey || popup == PopupV::PromptPassphrase || popup
                == PopupV::PromptReenterPassphrase {
                seq![EffectV::Emit(MessageV::WriteChar(ch))]
            } else if popup == PopupV::WaitingCmd {
                if m.cmds.len() == 0 {
                    seq![EffectV::Emit(MessageV::HidePopup)]
                } else {
                    seq![EffectV::KillCommand(m.cmds[0])]
                }
            } else {
                Seq::empty()
            }
        },
        KeyCode::Backspace => seq![EffectV::Emit(MessageV::PopChar)],
        KeyCode::Esc => if m.cmds.len() == 0 {
            seq![EffectV::Emit(MessageV::HidePopup)]
        } else {
            seq![EffectV::KillCommand(m.cmds[0])]
        },
        KeyCode::Tab => seq![EffectV::Emit(MessageV::SelNextPopupItem)],
        KeyCode::BackTab => seq![EffectV::Emit(MessageV::SelPrevPopupItem)],
        KeyCode::Enter => {
            if popup == PopupV::AddPubKey {
                if nk.name == "config"@ {
                    seq![
                        EffectV::Emit(
                            MessageV::PrintError(
                                "the name 'config' is reserved to the config file"@,
                            ),
                        ),
                    ]
                } else {
                    seq![EffectV::StartCommand(CmdTask::SshKeygen)]
                }
            } else if popup == PopupV::PromptPassphrase {
                seq![EffectV::WriteToCmd(CmdTask::SshKeygen, spec_draft_bytes(nk.passphrase))]
            } else if popup == PopupV::PromptReenterPassphrase {
                seq![
                    EffectV::WriteToCmd(
                        CmdTask::SshKeygen,
                        spec_draft_bytes(nk.passphrase_check),
                    ),
                    EffectV::Emit(MessageV::CleanNewKeyPassphraseInput),
                ]
            } else if popup == PopupV::PromptKeyOverwrite {
                seq![
                    EffectV::WriteToCmd(CmdTask::SshKeygen, vstd::utf8::encode_utf8("y"@)),
                ]
            } else if popup == PopupV::PromptDeleteKeyPairConfirmation {
                match m.sections.public_keys.selected {
                    Option::Some(idx) => if idx < m.sections.public_keys.items.len() {
                        seq![
                            EffectV::DeleteKeyPair(
                                crate::utils::files::spec_file_stem(
                                    m.sections.public_keys.items[idx as int]@,
                                ),
                            ),
                        ]
                    } else {
                        Seq::empty()
                    },
                    Option::None => Seq::empty(),
                }
            } else {
                Seq::empty()
            }
        },
        _ => Seq::empty(),
    }
}

/// What one key event means against a model snapshot: once a fatal error
/// is recorded every key collapses to the termination event; otherwise
/// the focused surface decides.
pub open spec fn spec_key_effects(key: KeyInput, m: ModelV) -> Seq<EffectV> {
    if m.fatal is Some {
        seq![EffectV::Emit(MessageV::StopApp)]
    } else {
        match m.focus {
            FocusV::Section(section) => spec_section_effects(section, key, m),
            FocusV::Popup(popup) => spec_popup_effects(popup, key, m),
        }
    }
}

/// Translates one key event while a section holds the focus.
pub fn handle_section_key_event(current_section: Section, key: KeyInput, model: &Model) -> (r:
    Vec<Effect>)
    ensures
        effects_view(r@) == spec_section_effects(current_section, key, model@),
{
    if matches!(current_section, Section::ClientConfig) && model.get_client_config_state()
        .is_interactive_on() {
        let msg = handle_key_input(
            input_from_key(key),
            model.get_client_config_state().get_vim_state(),
        );
        return one_effect(Effect::Emit(msg));
    }
    match key.code {
        KeyCode::Char(c) => {
            if c == 'q' {
                one_effect(Effect::Emit(Message::ShowPopup(Popup::ExitPrompt)))
            } else if c == 'l' {
                one_effect(Effect::Emit(Message::MoveToNextSection))
            } else if c == 'h' {
                one_effect(Effect::Emit(Message::MoveToPrevSection))
            } else if c == 'k' {
                one_effect(Effect::Emit(Message::SelPrevListItem))
            } else if c == 'j' {
                one_effect(Effect::Emit(Message::SelNextListItem))
            } else if c == 'n' {
                if matches!(current_section, Section::PublicKeysList) {
                    one_effect(Effect::Emit(Message::ShowPopup(Popup::AddPubKey)))
                } else {
                    no_effects()
                }
            } else if c == 'R' {
                match current_section {
                    Section::PublicKeysList => one_effect(
                        Effect::Emit(Message::RefreshPublicKeysList),
                    ),
                    Section::KnownHostsList => one_effect(
                        Effect::Emit(Message::RefreshKnownHostsList),
                    ),
                    Section::ClientConfig => no_effects(),
                }
            } else if c == 'd' {
                if matches!(current_section, Section::PublicKeysList) {
                    one_effect(Effect::Emit(Message::PromptDeleteKeyPairConfirmation))
                } else {
                    no_effects()
                }
            } else if c == 'c' {
                match model.get_sections_state().get_public_keys_list_state()
                    .get_selected_key_file() {
                    Option::Some(file_name) => one_effect(
                        Effect::CopyPubKeyToClipboard(file_name),
                    ),
                    Option::None => no_effects(),
                }
            } else {
                no_effects()
            }
        },
        KeyCode::Right => one_effect(Effect::Emit(Message::MoveToNextSection)),
        KeyCode::Left => one_effect(Effect::Emit(Message::MoveToPrevSection)),
        KeyCode::Up => one_effect(Effect::Emit(Message::SelPrevListItem)),
        KeyCode::Down => one_effect(Effect::Emit(Message::SelNextListItem)),
        KeyCode::Enter => {
            match current_section {
                Section::PublicKeysList => {
                    if model.get_sections_state().get_public_keys_list_state()
                        .get_selected_item_idx().is_some() {
                        one_effect(Effect::Emit(Message::ShowPopup(Popup::ShowPubKeyContent)))
                    } else {
                        no_effects()
                    }
                },
                Section::ClientConfig => one_effect(Effect::Emit(Message::TextAreaInteract)),
                Section::KnownHostsList => no_effects(),
            }
        },
        _ => no_effects(),
    }
}

/// Translates one key event while a popup holds the focus.
pub fn handle_popup_key_event(current_popup: Popup, key: KeyInput, model: &Model) -> (r: Vec<
    Effect,
>)
    ensures
        effects_view(r@) == spec_popup_effects(current_popup@, key, model@),
{
    match key.code {
        KeyCode::Char(ch) => {
            match &current_popup {
                Popup::ExitPrompt => {
                    if ch == 'q' {
                        one_effect(Effect::Emit(Message::StopApp))
                    } else {
                        no_effects()
                    }
                },
                Popup::AddPubKey | Popup::PromptPassphrase => {
                    if key.ctrl {
                        if ch == 'w' {
                            one_effect(Effect::Emit(Message::PopWord))
                        } else {
                            no_effects()
                        }
                    } else {
                        one_effect(Effect::Emit(Message::WriteChar(ch)))
                    }
                },
                Popup::PromptReenterPassphrase => {
                    one_effect(Effect::Emit(Message::WriteChar(ch)))
                },
                Popup::WaitingCmd => {
                    match model.get_current_command() {
                        Option::None => one_effect(Effect::Emit(Message::HidePopup)),
                        Option::Some(cmd_task) => one_effect(Effect::KillCommand(cmd_task)),
                    }
                },
                _ => no_effects(),
            }
        },
        KeyCode::Backspace => one_effect(Effect::Emit(Message::PopChar)),
        KeyCode::Esc => {
            match model.get_current_command() {
                Option::None => one_effect(Effect::Emit(Message::HidePopup)),
                Option::Some(cmd_task) => one_effect(Effect::KillCommand(cmd_task)),
            }
        },
        KeyCode::Tab => one_effect(Effect::Emit(Message::SelNextPopupItem)),
        KeyCode::BackTab => one_effect(Effect::Emit(Message::SelPrevPopupItem)),
        KeyCode::Enter => {
            match &current_popup {
                Popup::AddPubKey => {
                    match model.get_sections_state().get_public_keys_list_state()
                        .get_new_key_state().validate_name() {
                        Result::Err(validation_err) => one_effect(
                            Effect::Emit(Message::PrintError(validation_err)),
                        ),
                        Result::Ok(_) => one_effect(Effect::StartCommand(CmdTask::SshKeygen)),
                    }
                },
                Popup::PromptPassphrase => {
                    let bytes = model.get_sections_state().get_public_keys_list_state()
                        .get_new_key_state().get_passphrase_bytes();
                    one_effect(Effect::WriteToCmd(CmdTask::SshKeygen, bytes))
                },
                Popup::PromptReenterPassphrase => {
                    let bytes = model.get_sections_state().get_public_keys_list_state()
                        .get_new_key_state().get_passphrase_check_bytes();
                    two_effects(
                        Effect::WriteToCmd(CmdTask::SshKeygen, bytes),
                        Effect::Emit(Message::CleanNewKeyPassphraseInput),
                    )
                },
                Popup::PromptKeyOverwrite => {
                    let bytes = "y".as_bytes_vec();
                    one_effect(Effect::WriteToCmd(CmdTask::SshKeygen, bytes))
                },
                Popup::PromptDeleteKeyPairConfirmation => {
                    match model.get_sections_state().get_public_keys_list_state()
                        .get_selected_key_name() {
                        Option::Some(key_name) => one_effect(Effect::DeleteKeyPair(key_name)),
                        Option::None => no_effects(),
                    }
                },
                _ => no_effects(),
            }
        },
        _ => no_effects(),
    }
}

/// Translates one key event against the current model snapshot. Once a
/// fatal error is recorded, any input collapses to the termination
/// event; otherwise the focused surface decides what the key means.
pub fn handle_key_event(key: KeyInput, model: &Model) -> (r: Vec<Effect>)
    ensures
        effects_view(r@) == spec_key_effects(key, model@),
{
    if model.get_fatal_error().is_some() {
        return one_effect(Effect::Emit(Message::StopApp));
    }
    match model.get_focus() {
        Focus::Section(current_section) => handle_section_key_event(current_section, key, model),
        Focus::Popup(current_popup) => handle_popup_key_event(current_popup, key, model),
    }
}

} // verus!
