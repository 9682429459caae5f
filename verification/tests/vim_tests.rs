use sshy::events::input::{CursorMove, Input, Key, KeyCode, KeyInput};
use sshy::events::messages::Message;
use sshy::events::vim_handler::{handle_key_input, handle_transition, handle_vim_operator, VimTransition};
use sshy::events::{handle_key_event, Effect};
use sshy::model::vim_emulator::{VimMode, VimState};
use sshy::model::Model;

fn plain(c: char) -> Input {
    Input { key: Key::Char(c), ctrl: false, alt: false, shift: false }
}

fn plain_key(c: char) -> KeyInput {
    KeyInput { code: KeyCode::Char(c), ctrl: false, alt: false, shift: false }
}

/// Feeding 'v' then 'y' in normal mode: the first key starts a selection
/// and enters visual mode, the second yanks and returns to normal mode
/// with no selection anchor left set.
#[test]
fn v_then_y_yanks_and_returns_to_normal() {
    let mut model = Model::default();
    model.update(Message::MoveToNextSection);
    model.update(Message::MoveToNextSection);
    model.update(Message::TextAreaInteract);
    let cc = model.get_client_config_state();
    assert!(cc.is_interactive_on());
    assert_eq!(cc.get_vim_state().get_mode(), VimMode::Normal);
    assert!(!cc.get_vim_state().has_selection_anchor());

    let effects = handle_key_event(plain_key('v'), &model);
    assert_eq!(effects.len(), 1);
    match &effects[0] {
        Effect::Emit(msg) => {
            assert!(matches!(msg, Message::TextAreaStartSelection));
        }
        _ => panic!("expected an event for the model"),
    }
    model.update(Message::TextAreaStartSelection);
    let cc = model.get_client_config_state();
    assert_eq!(cc.get_vim_state().get_mode(), VimMode::Visual);
    assert!(cc.get_vim_state().has_selection_anchor());

    let effects = handle_key_event(plain_key('y'), &model);
    assert_eq!(effects.len(), 1);
    match &effects[0] {
        Effect::Emit(msg) => {
            assert!(matches!(msg, Message::TextAreaYank));
        }
        _ => panic!("expected an event for the model"),
    }
    model.update(Message::TextAreaYank);
    let cc = model.get_client_config_state();
    assert_eq!(cc.get_vim_state().get_mode(), VimMode::Normal);
    assert!(!cc.get_vim_state().has_selection_anchor());
}

/// Single keys in normal mode map directly to motions and edits.
#[test]
fn normal_mode_single_keys() {
    let vim = VimState::default();
    assert!(matches!(
        handle_key_input(plain('h'), &vim),
        Message::TextAreaMoveCursor(CursorMove::Back)
    ));
    assert!(matches!(
        handle_key_input(plain('w'), &vim),
        Message::TextAreaMoveCursor(CursorMove::WordForward)
    ));
    assert!(matches!(handle_key_input(plain('D'), &vim), Message::TextAreaDeleteToEnd));
    assert!(matches!(handle_key_input(plain('C'), &vim), Message::TextAreaCutToEnd));
    assert!(matches!(handle_key_input(plain('p'), &vim), Message::TextAreaPaste));
    assert!(matches!(handle_key_input(plain('u'), &vim), Message::TextAreaUndo));
    assert!(matches!(handle_key_input(plain('x'), &vim), Message::TextAreaDeleteNextChar));
    assert!(matches!(
        handle_key_input(plain('i'), &vim),
        Message::SetVimMode(VimMode::Insert)
    ));
    assert!(matches!(handle_key_input(plain('a'), &vim), Message::TextAreaInsertAfter));
    assert!(matches!(handle_key_input(plain('O'), &vim), Message::TextAreaInsertAtNewlineBefore));
    assert!(matches!(handle_key_input(plain('q'), &vim), Message::VimQuit));
    assert!(matches!(
        handle_key_input(plain('G'), &vim),
        Message::TextAreaMoveCursor(CursorMove::Bottom)
    ));
}

/// A key that begins a multi-key sequence is buffered; a matching second
/// key resolves the sequence, and the buffered key does not change a
/// non-matching key's own meaning.
#[test]
fn doubled_g_jumps_to_top() {
    let mut model = Model::default();
    model.update(Message::MoveToNextSection);
    model.update(Message::MoveToNextSection);
    model.update(Message::TextAreaInteract);

    let first = handle_key_input(plain('g'), model.get_client_config_state().get_vim_state());
    assert!(matches!(first, Message::SetVimPendingInput(_)));
    model.update(first);

    let second = handle_key_input(plain('g'), model.get_client_config_state().get_vim_state());
    assert!(matches!(second, Message::TextAreaMoveCursor(CursorMove::Top)));

    // A non-matching key after the buffered 'g' keeps its own meaning.
    let other = handle_key_input(plain('x'), model.get_client_config_state().get_vim_state());
    assert!(matches!(other, Message::TextAreaDeleteNextChar));
}

/// In insert mode, Escape and control-c return to normal mode and
/// everything else is forwarded verbatim.
#[test]
fn insert_mode_forwards_input() {
    let mut vim = VimState::default();
    vim.set_mode(VimMode::Insert);
    let esc = Input { key: Key::Esc, ctrl: false, alt: false, shift: false };
    assert!(matches!(handle_key_input(esc, &vim), Message::SetVimMode(VimMode::Normal)));
    let ctrl_c = Input { key: Key::Char('c'), ctrl: true, alt: false, shift: false };
    assert!(matches!(handle_key_input(ctrl_c, &vim), Message::SetVimMode(VimMode::Normal)));
    let typed = plain('z');
    match handle_key_input(typed, &vim) {
        Message::TextAreaInput(forwarded) => assert_eq!(forwarded, typed),
        _ => panic!("expected the input to be forwarded"),
    }
}

/// Re-pressing the visual key or Escape leaves visual mode.
#[test]
fn leaving_visual_mode() {
    let mut vim = VimState::default();
    vim.set_mode(VimMode::Visual);
    assert!(matches!(handle_key_input(plain('v'), &vim), Message::TextAreaCancelSelection));
    let esc = Input { key: Key::Esc, ctrl: false, alt: false, shift: false };
    assert!(matches!(handle_key_input(esc, &vim), Message::TextAreaCancelSelection));
    assert!(matches!(handle_key_input(plain('d'), &vim), Message::TextAreaDelete));
    assert!(matches!(handle_key_input(plain('c'), &vim), Message::TextAreaCut));
}

/// Operator-plus-motion ranges are not composed: an operator key in
/// normal mode is buffered as pending input instead of starting a
/// computed range, which substitutes an immediate selection for true
/// range composition.
#[test]
fn operator_motion_composition_is_not_modeled() {
    let vim = VimState::default();
    assert!(matches!(handle_key_input(plain('d'), &vim), Message::SetVimPendingInput(_)));
    assert!(matches!(handle_key_input(plain('y'), &vim), Message::SetVimPendingInput(_)));
}

/// The pending-operator resolution maps the three operator keys and
/// nothing else.
#[test]
fn operator_resolution() {
    assert!(matches!(handle_vim_operator(VimMode::Operator('y')), Message::TextAreaYank));
    assert!(matches!(handle_vim_operator(VimMode::Operator('d')), Message::TextAreaDelete));
    assert!(matches!(handle_vim_operator(VimMode::Operator('c')), Message::TextAreaCut));
    assert!(matches!(handle_vim_operator(VimMode::Operator('z')), Message::Draw));
    assert!(matches!(handle_vim_operator(VimMode::Normal), Message::Draw));
}

/// Control-qualified scrolling keys in normal mode.
#[test]
fn scrolling_keys() {
    let vim = VimState::default();
    let ctrl_d = Input { key: Key::Char('d'), ctrl: true, alt: false, shift: false };
    assert!(matches!(
        handle_key_input(ctrl_d, &vim),
        Message::TextAreaScroll(sshy::events::input::Scrolling::HalfPageDown)
    ));
    let ctrl_u = Input { key: Key::Char('u'), ctrl: true, alt: false, shift: false };
    assert!(matches!(
        handle_key_input(ctrl_u, &vim),
        Message::TextAreaScroll(sshy::events::input::Scrolling::HalfPageUp)
    ));
}

/// Each vim transition reads as its message.
#[test]
fn transitions_read_as_messages() {
    assert!(matches!(handle_transition(VimTransition::Nop), Message::Draw));
    assert!(matches!(
        handle_transition(VimTransition::Mode(VimMode::Insert)),
        Message::SetVimMode(VimMode::Insert)
    ));
    assert!(matches!(handle_transition(VimTransition::Quit), Message::VimQuit));
    match handle_transition(VimTransition::Pending(plain('g'))) {
        Message::SetVimPendingInput(buffered) => assert_eq!(buffered, plain('g')),
        _ => panic!("expected the input to be buffered"),
    }
}
