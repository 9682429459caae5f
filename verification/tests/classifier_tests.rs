use sshy::commands::ssh_keygen::{
    classify_output, handle_ssh_keygen_output, reader_step, OutputClass,
};
use sshy::events::messages::Message;

fn bytes(text: &str) -> Vec<u8> {
    text.as_bytes().to_vec()
}

/// Each classifier substring in isolation produces exactly its class and
/// its events.
#[test]
fn passphrase_prompt_classifies() {
    let chunk = bytes("Enter passphrase (empty for no passphrase): ");
    assert_eq!(classify_output(&chunk), OutputClass::PassphrasePrompt);
    let msgs = handle_ssh_keygen_output(&chunk, String::from("ignored"));
    assert_eq!(msgs.len(), 1);
    assert!(matches!(msgs[0], Message::PromptNewKeyPassphrase));
}

#[test]
fn reenter_prompt_classifies() {
    let chunk = bytes("Enter same passphrase again: ");
    assert_eq!(classify_output(&chunk), OutputClass::ConfirmPassphrasePrompt);
    let msgs = handle_ssh_keygen_output(&chunk, String::new());
    assert_eq!(msgs.len(), 1);
    assert!(matches!(msgs[0], Message::PromptReenterNewKeyPassPhrase));
}

/// A success chunk produces two events: the success itself and the
/// key-list reload.
#[test]
fn success_classifies_with_reload() {
    let text = "Your identification has been saved in /home/u/.ssh/id_test";
    let chunk = bytes(text);
    assert_eq!(classify_output(&chunk), OutputClass::Success);
    let msgs = handle_ssh_keygen_output(&chunk, String::from(text));
    assert_eq!(msgs.len(), 2);
    match &msgs[0] {
        Message::PrintSuccess(s) => assert_eq!(s, text),
        _ => panic!("expected the success event first"),
    }
    assert!(matches!(msgs[1], Message::RefreshPublicKeysList));
}

#[test]
fn existing_key_classifies() {
    let chunk = bytes("/home/u/.ssh/id_test already exists.\nOverwrite (y/n)?");
    assert_eq!(classify_output(&chunk), OutputClass::KeyExists);
    let msgs = handle_ssh_keygen_output(&chunk, String::new());
    assert_eq!(msgs.len(), 1);
    assert!(matches!(msgs[0], Message::PromptKeyOverwrite));
}

#[test]
fn missing_directory_classifies_as_error() {
    let text = "Saving key failed: No such file or directory";
    let chunk = bytes(text);
    assert_eq!(classify_output(&chunk), OutputClass::NoSuchDir);
    let msgs = handle_ssh_keygen_output(&chunk, String::from(text));
    assert_eq!(msgs.len(), 1);
    match &msgs[0] {
        Message::PrintError(s) => assert_eq!(s, text),
        _ => panic!("expected a user-visible error event"),
    }
}

/// Output that matches no pattern only triggers a redraw.
#[test]
fn incidental_output_redraws() {
    let chunk = bytes("Generating public/private ed25519 key pair.");
    assert_eq!(classify_output(&chunk), OutputClass::Other);
    let msgs = handle_ssh_keygen_output(&chunk, String::new());
    assert_eq!(msgs.len(), 1);
    assert!(matches!(msgs[0], Message::Draw));
}

/// A chunk holding both the "already exists" and the "saved in" text
/// resolves to the higher-priority "saved in" match.
#[test]
fn saved_in_outranks_already_exists() {
    let text = "x already exists. Your identification has been saved in /home/u/.ssh/k";
    let chunk = bytes(text);
    assert_eq!(classify_output(&chunk), OutputClass::Success);
}

/// The prompt patterns outrank everything below them in the order.
#[test]
fn passphrase_prompt_outranks_success() {
    let text =
        "Your identification has been saved in x. Enter passphrase (empty for no passphrase):";
    let chunk = bytes(text);
    assert_eq!(classify_output(&chunk), OutputClass::PassphrasePrompt);
}

/// An empty chunk is the end of the command's output: the reader reports
/// the command as finished and stops.
#[test]
fn reader_stops_on_empty_chunk() {
    let (msgs, done) = reader_step(&Vec::new(), String::new());
    assert!(done);
    assert_eq!(msgs.len(), 1);
    assert!(matches!(msgs[0], Message::CmdFinished));
}

/// A non-empty chunk keeps the reader going and yields the chunk's
/// events.
#[test]
fn reader_continues_on_data() {
    let chunk = bytes("Enter same passphrase again: ");
    let (msgs, done) = reader_step(&chunk, String::new());
    assert!(!done);
    assert_eq!(msgs.len(), 1);
    assert!(matches!(msgs[0], Message::PromptReenterNewKeyPassPhrase));
}
