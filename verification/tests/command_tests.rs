use sshy::async_jobs::{clipboard_outcome, delete_outcome, ClipboardError};
use sshy::commands::ssh_keygen::SshKeygenCmd;
use sshy::commands::{
    kill_outcome, spawn_outcome, with_line_terminator, write_outcome, CmdTask, LINE_TERMINATOR,
};
use sshy::events::input::{KeyCode, KeyInput};
use sshy::events::messages::Message;
use sshy::events::{handle_key_event, Effect};
use sshy::model::Model;
use sshy::ui::Popup;

fn enter() -> KeyInput {
    KeyInput { code: KeyCode::Enter, ctrl: false, alt: false, shift: false }
}

/// The full scenario of generating a key named "id_test" with an empty
/// comment and an empty passphrase: the prompts arrive as popups, the
/// answer to the passphrase prompt writes just the line terminator, and
/// the final output shows a success popup and fires a key-list reload.
#[test]
fn keygen_scenario_with_empty_passphrase() {
    let mut model = Model::default();
    model.update(Message::MoveToNextSection);
    model.update(Message::ShowPopup(Popup::AddPubKey));
    // Type the file name "id_test" in place of the suggested name.
    for _ in 0..model
        .get_sections_state()
        .get_public_keys_list_state()
        .get_new_key_state()
        .get_name()
        .len()
    {
        model.update(Message::PopChar);
    }
    for ch in "id_test".chars() {
        model.update(Message::WriteChar(ch));
    }
    let new_key = model.get_sections_state().get_public_keys_list_state().get_new_key_state();
    assert_eq!(new_key.get_name(), "id_test");
    assert_eq!(new_key.get_comment(), "");

    // Enter on the form starts the command.
    let effects = handle_key_event(enter(), &model);
    assert_eq!(effects.len(), 1);
    assert!(matches!(effects[0], Effect::StartCommand(CmdTask::SshKeygen)));

    // The spawn succeeds and the argument vector is exact.
    let args = SshKeygenCmd::start(new_key, &String::from("/home/u/.ssh")).unwrap();
    assert_eq!(
        args,
        vec![
            String::from("-t"),
            String::from("ed25519"),
            String::from("-f"),
            String::from("/home/u/.ssh/id_test"),
            String::from("-C"),
            String::from(""),
        ]
    );
    model.update(spawn_outcome(CmdTask::SshKeygen, Ok(())));
    assert_eq!(model.get_popup(), Some(Popup::WaitingCmd));

    // The subprocess asks for a passphrase; the UI shows the popup.
    let chunk = "Enter passphrase (empty for no passphrase): ".as_bytes().to_vec();
    for msg in sshy::commands::ssh_keygen::handle_ssh_keygen_output(&chunk, String::new()) {
        model.update(msg);
    }
    assert_eq!(model.get_popup(), Some(Popup::PromptPassphrase));

    // The user submits the empty passphrase: the bytes written are just
    // the line terminator.
    let effects = handle_key_event(enter(), &model);
    assert_eq!(effects.len(), 1);
    match &effects[0] {
        Effect::WriteToCmd(CmdTask::SshKeygen, bytes) => {
            assert_eq!(with_line_terminator(bytes), vec![LINE_TERMINATOR]);
        }
        _ => panic!("expected a write to the command"),
    }

    // The subprocess reports the key as saved: a success popup shows and
    // a key-list reload fires.
    let text = "Your identification has been saved in /home/u/.ssh/id_test";
    let msgs = sshy::commands::ssh_keygen::handle_ssh_keygen_output(
        &text.as_bytes().to_vec(),
        String::from(text),
    );
    assert_eq!(msgs.len(), 2);
    assert!(matches!(msgs[1], Message::RefreshPublicKeysList));
    for msg in msgs {
        model.update(msg);
    }
    assert_eq!(
        model.get_popup(),
        Some(Popup::WithCfg(String::from(text), sshy::ui::ColorVariant::Success))
    );
}

/// The reserved name is rejected before anything is spawned: validation
/// fails, `start` returns the error, and the translator emits the error
/// instead of a start action.
#[test]
fn reserved_name_is_rejected_and_never_started() {
    let mut model = Model::default();
    model.update(Message::ShowPopup(Popup::AddPubKey));
    for _ in 0..model
        .get_sections_state()
        .get_public_keys_list_state()
        .get_new_key_state()
        .get_name()
        .len()
    {
        model.update(Message::PopChar);
    }
    for ch in "config".chars() {
        model.update(Message::WriteChar(ch));
    }
    let new_key = model.get_sections_state().get_public_keys_list_state().get_new_key_state();
    let validation = new_key.validate_name();
    assert_eq!(validation, Err(String::from("the name 'config' is reserved to the config file")));
    let started = SshKeygenCmd::start(new_key, &String::from("/home/u/.ssh"));
    assert_eq!(started, Err(String::from("the name 'config' is reserved to the config file")));

    let effects = handle_key_event(enter(), &model);
    assert_eq!(effects.len(), 1);
    match &effects[0] {
        Effect::Emit(Message::PrintError(e)) => {
            assert_eq!(e, "the name 'config' is reserved to the config file");
        }
        _ => panic!("expected the validation error, not a start"),
    }
    for effect in effects {
        assert!(!matches!(effect, Effect::StartCommand(_)));
    }
}

/// Writing to a command appends exactly one line terminator.
#[test]
fn line_terminator_appended() {
    assert_eq!(with_line_terminator(&vec![]), vec![b'\n']);
    assert_eq!(with_line_terminator(&vec![b's', b'3']), vec![b's', b'3', b'\n']);
}

/// A failed spawn becomes a dismissible error; a successful one announces
/// the task.
#[test]
fn spawn_outcomes() {
    assert!(matches!(
        spawn_outcome(CmdTask::SshKeygen, Ok(())),
        Message::CmdSpawned(CmdTask::SshKeygen)
    ));
    match spawn_outcome(CmdTask::SshKeygen, Err(String::from("no pty"))) {
        Message::PrintError(e) => assert_eq!(e, "no pty"),
        _ => panic!("expected a dismissible error"),
    }
}

/// Killing without a live handle, killing successfully, and a failed
/// kill.
#[test]
fn kill_outcomes() {
    match kill_outcome(None) {
        Message::FatalError(e) => assert_eq!(e, "ssh-keygen is not currently running"),
        _ => panic!("expected a fatal error"),
    }
    assert!(matches!(kill_outcome(Some(Ok(()))), Message::CmdFinished));
    match kill_outcome(Some(Err(String::from("gone")))) {
        Message::FatalError(e) => assert_eq!(e, "gone"),
        _ => panic!("expected a fatal error"),
    }
}

/// A failed write surfaces as a dismissible error and nothing else is
/// reported.
#[test]
fn write_outcomes() {
    assert!(write_outcome(None).is_none());
    assert!(write_outcome(Some(Ok(()))).is_none());
    match write_outcome(Some(Err(String::from("pipe closed")))) {
        Some(Message::PrintError(e)) => assert_eq!(e, "pipe closed"),
        _ => panic!("expected a dismissible error"),
    }
}

/// Clipboard outcomes: success and the two failure shapes.
#[test]
fn clipboard_outcomes() {
    match clipboard_outcome(Ok(())) {
        Message::PrintSuccess(s) => assert_eq!(s, "Public key copied to clipboard"),
        _ => panic!("expected a success"),
    }
    match clipboard_outcome(Err(ClipboardError::Load(String::from("no display")))) {
        Message::PrintError(e) => assert_eq!(e, "Failed to load clipboard: no display"),
        _ => panic!("expected an error"),
    }
    match clipboard_outcome(Err(ClipboardError::Write(String::from("denied")))) {
        Message::PrintError(e) => assert_eq!(e, "Failed to copy to clipboard: denied"),
        _ => panic!("expected an error"),
    }
}

/// Deleting a key pair reports its outcome and always reloads the list.
#[test]
fn delete_outcomes() {
    let msgs = delete_outcome(&String::from("id_test"), Ok(()));
    assert_eq!(msgs.len(), 2);
    match &msgs[0] {
        Message::PrintSuccess(s) => assert_eq!(s, "key 'id_test' successfully deleted"),
        _ => panic!("expected a success report"),
    }
    assert!(matches!(msgs[1], Message::RefreshPublicKeysList));

    let msgs = delete_outcome(&String::from("id_test"), Err(String::from("not found")));
    assert_eq!(msgs.len(), 2);
    match &msgs[0] {
        Message::PrintError(e) => assert_eq!(e, "not found"),
        _ => panic!("expected an error report"),
    }
    assert!(matches!(msgs[1], Message::RefreshPublicKeysList));
}

/// Escape on a popup kills a running command rather than only hiding the
/// popup; without one it just dismisses.
#[test]
fn escape_kills_running_command() {
    let mut model = Model::default();
    model.update(Message::CmdSpawned(CmdTask::SshKeygen));
    let esc = KeyInput { code: KeyCode::Esc, ctrl: false, alt: false, shift: false };
    let effects = handle_key_event(esc, &model);
    assert_eq!(effects.len(), 1);
    assert!(matches!(effects[0], Effect::KillCommand(CmdTask::SshKeygen)));

    model.update(Message::CmdFinished);
    model.update(Message::ShowPopup(Popup::ExitPrompt));
    let effects = handle_key_event(esc, &model);
    assert_eq!(effects.len(), 1);
    match &effects[0] {
        Effect::Emit(msg) => assert!(matches!(msg, Message::HidePopup)),
        _ => panic!("expected a dismissal"),
    }
}

/// Once a fatal error is recorded, any key collapses to termination.
#[test]
fn fatal_error_collapses_input() {
    let mut model = Model::default();
    model.update(Message::FatalError(String::from("broken")));
    let effects =
        handle_key_event(KeyInput { code: KeyCode::Char('k'), ctrl: false, alt: false, shift: false }, &model);
    assert_eq!(effects.len(), 1);
    match &effects[0] {
        Effect::Emit(msg) => assert!(matches!(msg, Message::StopApp)),
        _ => panic!("expected termination"),
    }
}

/// Answering the overwrite prompt writes the literal confirmation byte.
#[test]
fn overwrite_confirmation_writes_y() {
    let mut model = Model::default();
    model.update(Message::PromptKeyOverwrite);
    let effects = handle_key_event(enter(), &model);
    assert_eq!(effects.len(), 1);
    match &effects[0] {
        Effect::WriteToCmd(CmdTask::SshKeygen, bytes) => assert_eq!(bytes, &vec![b'y']),
        _ => panic!("expected a write to the command"),
    }
}

/// Answering the confirmation prompt writes the draft and clears both
/// drafts afterwards.
#[test]
fn reenter_prompt_writes_and_cleans() {
    let mut model = Model::default();
    model.update(Message::PromptReenterNewKeyPassPhrase);
    model.update(Message::WriteChar('s'));
    let effects = handle_key_event(enter(), &model);
    assert_eq!(effects.len(), 2);
    match &effects[0] {
        Effect::WriteToCmd(CmdTask::SshKeygen, bytes) => assert_eq!(bytes, &vec![b's']),
        _ => panic!("expected a write to the command"),
    }
    match &effects[1] {
        Effect::Emit(msg) => assert!(matches!(msg, Message::CleanNewKeyPassphraseInput)),
        _ => panic!("expected the cleanup event"),
    }
}
