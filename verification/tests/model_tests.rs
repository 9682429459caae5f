use sshy::commands::CmdTask;
use sshy::events::messages::Message;
use sshy::model::{io_request_for, IoRequest, Model};
use sshy::ui::{ColorVariant, Focus, Popup, Section};

/// The focus mirrors the popup field after every update of this event
/// sequence: a section focus while no popup is set, the popup itself
/// while one is.
#[test]
fn focus_mirrors_popup_through_event_sequence() {
    let mut model = Model::default();
    assert_eq!(model.get_focus(), Focus::Section(Section::KnownHostsList));
    assert_eq!(model.get_popup(), None);

    model.update(Message::ShowPopup(Popup::ExitPrompt));
    assert_eq!(model.get_popup(), Some(Popup::ExitPrompt));
    assert_eq!(model.get_focus(), Focus::Popup(Popup::ExitPrompt));

    model.update(Message::HidePopup);
    assert_eq!(model.get_popup(), None);
    assert_eq!(model.get_focus(), Focus::Section(Section::KnownHostsList));

    model.update(Message::MoveToNextSection);
    assert_eq!(model.get_popup(), None);
    assert_eq!(model.get_focus(), Focus::Section(Section::PublicKeysList));

    model.update(Message::PromptNewKeyPassphrase);
    assert_eq!(model.get_popup(), Some(Popup::PromptPassphrase));
    assert_eq!(model.get_focus(), Focus::Popup(Popup::PromptPassphrase));
}

/// Dismissing a popup when none is shown is a no-op: the popup stays
/// absent and nothing else changes.
#[test]
fn dismissing_without_popup_is_noop() {
    let mut model = Model::default();
    model.update(Message::MoveToNextSection);
    let section_before = model.get_current_section();
    let focus_before = model.get_focus();

    model.update(Message::HidePopup);

    assert_eq!(model.get_popup(), None);
    assert_eq!(model.get_current_section(), section_before);
    assert_eq!(model.get_focus(), focus_before);
    assert_eq!(model.get_current_error(), None);
    assert_eq!(model.get_fatal_error(), None);
    assert!(!model.is_app_done());
}

/// Writing characters into the popup's name field and issuing as many
/// single-character deletions returns the field to empty.
#[test]
fn writes_then_deletes_return_name_field_to_empty() {
    let mut model = Model::default();
    model.update(Message::MoveToNextSection);
    model.update(Message::ShowPopup(Popup::AddPubKey));

    // Empty the suggested name first.
    let suggested_len = model
        .get_sections_state()
        .get_public_keys_list_state()
        .get_new_key_state()
        .get_name()
        .len();
    for _ in 0..suggested_len {
        model.update(Message::PopChar);
    }
    assert_eq!(
        model.get_sections_state().get_public_keys_list_state().get_new_key_state().get_name(),
        ""
    );

    for ch in "my_key three words".chars() {
        model.update(Message::WriteChar(ch));
    }
    assert_eq!(
        model.get_sections_state().get_public_keys_list_state().get_new_key_state().get_name(),
        "my_key three words"
    );
    for _ in 0.."my_key three words".chars().count() {
        model.update(Message::PopChar);
    }
    assert_eq!(
        model.get_sections_state().get_public_keys_list_state().get_new_key_state().get_name(),
        ""
    );
}

/// The word deletion removes everything from the last space on; on a
/// field without a space it clears the field.
#[test]
fn pop_word_in_name_field() {
    let mut model = Model::default();
    model.update(Message::ShowPopup(Popup::AddPubKey));
    model.update(Message::PopWord);
    assert_eq!(
        model.get_sections_state().get_public_keys_list_state().get_new_key_state().get_name(),
        ""
    );
    for ch in "one two".chars() {
        model.update(Message::WriteChar(ch));
    }
    model.update(Message::PopWord);
    assert_eq!(
        model.get_sections_state().get_public_keys_list_state().get_new_key_state().get_name(),
        "one"
    );
}

/// At most one command task is live per kind: a second spawn replaces the
/// first instead of piling up.
#[test]
fn at_most_one_command_per_kind() {
    let mut model = Model::default();
    model.update(Message::CmdSpawned(CmdTask::SshKeygen));
    assert_eq!(model.get_current_command(), Some(CmdTask::SshKeygen));
    assert_eq!(model.get_popup(), Some(Popup::WaitingCmd));

    model.update(Message::CmdSpawned(CmdTask::SshKeygen));
    assert_eq!(model.get_current_command(), Some(CmdTask::SshKeygen));

    model.update(Message::CmdFinished);
    assert_eq!(model.get_current_command(), None);
    assert_eq!(model.get_popup(), None);
}

/// A printed error shows the error popup and records the text; leaving
/// the error popup — by dismissal or for a different popup — clears the
/// recorded error.
#[test]
fn error_popup_lifecycle() {
    let mut model = Model::default();
    model.update(Message::PrintError(String::from("something failed")));
    assert_eq!(model.get_popup(), Some(Popup::ErrorMsg));
    assert_eq!(model.get_current_error(), Some(String::from("something failed")));

    model.update(Message::ShowPopup(Popup::ExitPrompt));
    assert_eq!(model.get_current_error(), None);

    model.update(Message::PrintError(String::from("failed again")));
    assert_eq!(model.get_current_error(), Some(String::from("failed again")));
    model.update(Message::HidePopup);
    assert_eq!(model.get_popup(), None);
    assert_eq!(model.get_current_error(), None);
}

/// A fatal error records its text and shows the danger popup.
#[test]
fn fatal_error_recorded() {
    let mut model = Model::default();
    model.update(Message::FatalError(String::from("broken")));
    assert_eq!(model.get_fatal_error(), Some(String::from("broken")));
    assert_eq!(
        model.get_popup(),
        Some(Popup::WithCfg(String::from("broken"), ColorVariant::Danger))
    );
}

/// A success message shows the success popup with its text.
#[test]
fn print_success_shows_popup() {
    let mut model = Model::default();
    model.update(Message::PrintSuccess(String::from("key saved")));
    assert_eq!(
        model.get_popup(),
        Some(Popup::WithCfg(String::from("key saved"), ColorVariant::Success))
    );
}

/// Section navigation stops at both ends of the fixed order.
#[test]
fn section_navigation_clamps() {
    let mut model = Model::default();
    model.update(Message::MoveToPrevSection);
    assert_eq!(model.get_current_section(), Section::KnownHostsList);
    model.update(Message::MoveToNextSection);
    assert_eq!(model.get_current_section(), Section::PublicKeysList);
    model.update(Message::MoveToNextSection);
    assert_eq!(model.get_current_section(), Section::ClientConfig);
    model.update(Message::MoveToNextSection);
    assert_eq!(model.get_current_section(), Section::ClientConfig);
    model.update(Message::MoveToPrevSection);
    assert_eq!(model.get_current_section(), Section::PublicKeysList);
}

/// List selection follows next and previous within bounds.
#[test]
fn list_selection_moves() {
    let mut model = Model::default();
    model.load_known_hosts(vec![String::from("a"), String::from("b")]);
    assert_eq!(
        model.get_sections_state().get_known_hosts_list_state().get_selected_item_idx(),
        Some(0)
    );
    model.update(Message::SelNextListItem);
    assert_eq!(
        model.get_sections_state().get_known_hosts_list_state().get_selected_item_idx(),
        Some(1)
    );
    model.update(Message::SelNextListItem);
    assert_eq!(
        model.get_sections_state().get_known_hosts_list_state().get_selected_item_idx(),
        Some(1)
    );
    model.update(Message::SelPrevListItem);
    assert_eq!(
        model.get_sections_state().get_known_hosts_list_state().get_selected_item_idx(),
        Some(0)
    );
}

/// The passphrase drafts are cleared after the confirmation round-trip.
#[test]
fn clean_passphrases_clears_both_drafts() {
    let mut model = Model::default();
    model.update(Message::PromptNewKeyPassphrase);
    model.update(Message::WriteChar('s'));
    model.update(Message::WriteChar('3'));
    assert_eq!(
        model
            .get_sections_state()
            .get_public_keys_list_state()
            .get_new_key_state()
            .get_passphrase_len(),
        2
    );
    model.update(Message::PromptReenterNewKeyPassPhrase);
    model.update(Message::WriteChar('s'));
    assert_eq!(
        model
            .get_sections_state()
            .get_public_keys_list_state()
            .get_new_key_state()
            .get_passphrase_check_len(),
        1
    );
    model.update(Message::CleanNewKeyPassphraseInput);
    let nk_state = model.get_sections_state().get_public_keys_list_state();
    assert_eq!(nk_state.get_new_key_state().get_passphrase_len(), 0);
    assert_eq!(nk_state.get_new_key_state().get_passphrase_check_len(), 0);
}

/// The passphrase length counts the bytes of the draft's encoding: a
/// character outside the single-byte range grows it by more than one.
#[test]
fn passphrase_length_counts_encoded_bytes() {
    let mut model = Model::default();
    model.update(Message::PromptNewKeyPassphrase);
    model.update(Message::WriteChar('s'));
    model.update(Message::WriteChar('\u{00e9}'));
    let new_key = model.get_sections_state().get_public_keys_list_state().get_new_key_state();
    assert_eq!(new_key.get_passphrase_bytes(), "s\u{00e9}".as_bytes().to_vec());
    assert_eq!(new_key.get_passphrase_len(), 3);
    assert_eq!(new_key.get_passphrase_len(), new_key.get_passphrase_bytes().len());
}

/// Stopping the application flips the running flag.
#[test]
fn stop_app() {
    let mut model = Model::default();
    assert!(!model.is_app_done());
    model.update(Message::StopApp);
    assert!(model.is_app_done());
}

/// Exactly the two list reloads and the buffer write ask a collaborator
/// to act.
#[test]
fn io_requests_for_messages() {
    assert_eq!(
        io_request_for(&Message::RefreshKnownHostsList),
        Some(IoRequest::ReloadKnownHosts)
    );
    assert_eq!(
        io_request_for(&Message::RefreshPublicKeysList),
        Some(IoRequest::ReloadPublicKeys)
    );
    assert_eq!(
        io_request_for(&Message::TextAreaWriteBuffer),
        Some(IoRequest::WriteConfigBuffer)
    );
    assert_eq!(io_request_for(&Message::Draw), None);
    assert_eq!(io_request_for(&Message::StopApp), None);
}

/// The selected key's name, file and path derive from the selected entry.
#[test]
fn selected_key_name_and_path() {
    let mut model = Model::default();
    model.load_public_keys(vec![String::from("id_test.pub"), String::from("work.pub")]);
    let pk = model.get_sections_state().get_public_keys_list_state();
    assert_eq!(pk.get_selected_key_name(), None);

    model.update(Message::MoveToNextSection);
    let pk = model.get_sections_state().get_public_keys_list_state();
    assert_eq!(pk.get_selected_item_idx(), Some(0));
    assert_eq!(pk.get_selected_key_name(), Some(String::from("id_test")));
    assert_eq!(pk.get_selected_key_file(), Some(String::from("id_test.pub")));
    assert_eq!(
        pk.get_selected_key_path(&String::from("/home/u/.ssh")),
        Some(String::from("/home/u/.ssh/id_test.pub"))
    );
}

/// The model's image of the text area follows the collaborator's sync.
#[test]
fn textarea_sync_updates_model_image() {
    let mut model = Model::default();
    model
        .get_client_config_state_mut()
        .sync_textarea(String::from("Host *"), (0, 3));
    let cc = model.get_client_config_state();
    assert_eq!(cc.get_textarea().get_content(), "Host *");
    assert_eq!(cc.get_textarea().get_cursor_pos(), (0, 3));
}
