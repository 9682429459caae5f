use sshy::actions::{Action, AppStateAction, KnownHostsAction};
use sshy::events::input::{input_from_key, Key, KeyCode, KeyInput};
use sshy::dispatcher::Dispatcher;
use sshy::stores::app_state_store::{AppStateStore, CurrentScreen};
use sshy::stores::known_hosts_store::KnownHostsStore;
use sshy::utils::data_parsing::parse_usize_to_u16;
use sshy::utils::files::{
    ends_with_pub, hostnames_from_lines, join_path, key_file_stem, key_pair_paths,
    pub_key_file_name, pub_key_names,
};
use sshy::utils::math::percentage_representation;
use sshy::utils::strings::del_word;
use sshy::utils::textarea_state::TextAreaState;

#[test]
fn del_word_cases() {
    assert_eq!(del_word(String::from("one two three")), "one two");
    assert_eq!(del_word(String::from("one ")), "one");
    assert_eq!(del_word(String::from("word")), "");
    assert_eq!(del_word(String::from("")), "");
    assert_eq!(del_word(String::from("a b ")), "a b");
}

#[test]
fn percentage_cases() {
    assert_eq!(percentage_representation(200, 50), 25);
    assert_eq!(percentage_representation(3, 1), 33);
    assert_eq!(percentage_representation(10, 10), 100);
    assert_eq!(percentage_representation(10, 11), 100);
    assert_eq!(percentage_representation(1, 0), 0);
}

#[test]
fn parse_usize_cases() {
    assert_eq!(parse_usize_to_u16(0), Ok(0));
    assert_eq!(parse_usize_to_u16(65535), Ok(65535));
    assert_eq!(parse_usize_to_u16(65536), Err(String::from("Value out of range")));
}

#[test]
fn public_key_name_filter() {
    let entries = vec![
        String::from("id_ed25519"),
        String::from("id_ed25519.pub"),
        String::from("config"),
        String::from("work.pub"),
        String::from(".pub"),
    ];
    assert_eq!(
        pub_key_names(&entries),
        vec![String::from("id_ed25519.pub"), String::from("work.pub"), String::from(".pub")]
    );
    assert!(ends_with_pub(&String::from("a.pub")));
    assert!(!ends_with_pub(&String::from("pub")));
}

#[test]
fn hostnames_take_first_token_and_dedup() {
    let lines = vec![
        String::from("example.com ssh-ed25519 AAAA"),
        String::from("other.net ssh-rsa BBBB"),
        String::from("example.com ecdsa-sha2 CCCC"),
        String::from("token-without-space"),
    ];
    assert_eq!(
        hostnames_from_lines(&lines),
        vec![String::from("example.com"), String::from("other.net")]
    );
}

#[test]
fn key_file_stem_cases() {
    assert_eq!(key_file_stem(&String::from("id_test.pub")), "id_test");
    assert_eq!(key_file_stem(&String::from("id_test")), "id_test");
    assert_eq!(key_file_stem(&String::from("a.b.pub")), "a.b");
    assert_eq!(key_file_stem(&String::from(".pub")), ".pub");
}

#[test]
fn path_building() {
    assert_eq!(join_path(&String::from("/home/u/.ssh"), &String::from("k.pub")), "/home/u/.ssh/k.pub");
    assert_eq!(pub_key_file_name(&String::from("id_test")), "id_test.pub");
    assert_eq!(pub_key_file_name(&String::from("id_test.pub")), "id_test.pub");
    let (private_path, public_path) =
        key_pair_paths(&String::from("/home/u/.ssh"), &String::from("id_test"));
    assert_eq!(private_path, "/home/u/.ssh/id_test");
    assert_eq!(public_path, "/home/u/.ssh/id_test.pub");
}

#[test]
fn textarea_state_roundtrip() {
    let mut state = TextAreaState::new();
    assert_eq!(state.get_content(), "");
    assert_eq!(state.get_cursor_pos(), (0, 0));
    state.set_content(String::from("Host *\n  User u"));
    state.set_cursor_pos((1, 3));
    assert_eq!(state.get_content(), "Host *\n  User u");
    assert_eq!(state.get_cursor_pos(), (1, 3));
}

#[test]
fn app_state_store_updates() {
    let mut store = AppStateStore::default();
    assert!(store.is_running());
    assert!(matches!(store.get_current_screen(), CurrentScreen::Main));
    assert_eq!(store.update(AppStateAction::Exit), Ok(()));
    assert!(matches!(store.get_current_screen(), CurrentScreen::Exiting));
    assert!(store.is_running());
    assert_eq!(store.update(AppStateAction::StopApp), Ok(()));
    assert!(!store.is_running());
}

#[test]
fn known_hosts_store_load() {
    let mut store = KnownHostsStore::default();
    assert!(store.get_known_hosts().is_empty());
    let hosts = vec![String::from("example.com")];
    assert_eq!(store.update(KnownHostsAction::LoadKnownHosts, hosts), Ok(()));
    assert_eq!(store.get_known_hosts(), &vec![String::from("example.com")]);
}

#[test]
fn dispatcher_routes() {
    let mut dispatcher = Dispatcher::default();
    assert_eq!(
        dispatcher.dispatch(Action::AppStateAction(AppStateAction::Exit), Vec::new()),
        Ok(())
    );
    assert_eq!(
        dispatcher.dispatch(
            Action::KnownHostsAction(KnownHostsAction::LoadKnownHosts),
            vec![String::from("h")]
        ),
        Ok(())
    );
}

#[test]
fn key_codes_read_as_editor_input() {
    let tab = KeyInput { code: KeyCode::Tab, ctrl: false, alt: true, shift: false };
    let converted = input_from_key(tab);
    assert_eq!(converted.key, Key::Tab);
    assert!(converted.alt);
    let other = KeyInput { code: KeyCode::Other, ctrl: false, alt: false, shift: false };
    assert_eq!(input_from_key(other).key, Key::Null);
    let back_tab = KeyInput { code: KeyCode::BackTab, ctrl: false, alt: false, shift: false };
    assert_eq!(input_from_key(back_tab).key, Key::Null);
}
