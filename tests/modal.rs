use rustgtk::home_screen::{HomeScreen, KeyboardReply, SharedData};
use rustgtk::keysets::{ID_BACKSPACE, ID_CANCEL, ID_DELETE, ID_DISABLED, ID_ENTER, ID_INSERT, ID_LEFT, ID_RIGHT};
use rustgtk::virtual_keyboard::{
    DialogCloseAction, DialogResult, KeyResponse, ModalController, ModalError, VirtualKeyboard,
};

fn shared() -> SharedData {
    let mut sd = SharedData::new();
    sd.home_screen = Some(HomeScreen::new());
    sd.virtual_keyboard = Some(VirtualKeyboard::new("Please enter some text.", ""));
    sd
}

#[test]
fn controller_fires_once() {
    let mut m = ModalController::new();
    assert_eq!(m.close(), Err(ModalError::NotShown));
    assert_eq!(m.open(DialogCloseAction::ProcessKeyboardReply), Ok(()));
    assert!(m.visible);
    assert_eq!(m.close(), Ok(DialogCloseAction::ProcessKeyboardReply));
    assert!(!m.visible);
    assert!(m.close_action.is_none());
    assert_eq!(m.close(), Err(ModalError::NotShown));
}

#[test]
fn opening_twice_aborts_the_session() {
    let mut m = ModalController::new();
    assert_eq!(m.open(DialogCloseAction::ProcessKeyboardReply), Ok(()));
    assert_eq!(m.open(DialogCloseAction::ProcessKeyboardReply), Err(ModalError::AlreadyShown));
    assert!(!m.visible);
    assert!(m.close_action.is_none());
}

#[test]
fn accept_twice_closes_once() {
    let mut vk = VirtualKeyboard::new("", "");
    assert!(vk.show(DialogCloseAction::ProcessKeyboardReply).is_ok());
    assert_eq!(
        vk.handle_key("", ID_ENTER),
        KeyResponse::Close(DialogCloseAction::ProcessKeyboardReply, DialogResult::Accept)
    );
    assert_eq!(vk.handle_key("", ID_ENTER), KeyResponse::Rejected(ModalError::NotShown));
    assert!(!vk.modal.visible);
}

#[test]
fn shared_accept_twice_replies_once() {
    let mut sd = shared();
    assert_eq!(HomeScreen::button_callback(&mut sd, Some("Keyboard")), Some(Ok(())));
    let (r1, reply1) = sd.handle_key("", ID_ENTER);
    assert!(matches!(r1, KeyResponse::Close(_, DialogResult::Accept)));
    assert!(matches!(reply1, Some(KeyboardReply::Accepted(ref s)) if s.is_empty()));
    let (r2, reply2) = sd.handle_key("", ID_ENTER);
    assert_eq!(r2, KeyResponse::Rejected(ModalError::NotShown));
    assert!(reply2.is_none());
}

#[test]
fn end_to_end_accept() {
    let mut sd = shared();
    assert_eq!(HomeScreen::button_callback(&mut sd, Some("Keyboard")), Some(Ok(())));
    assert!(!sd.home_screen.unwrap().visible);
    assert!(sd.virtual_keyboard.as_ref().unwrap().modal.visible);
    assert_eq!(sd.handle_key("", ID_INSERT).0, KeyResponse::Render);
    assert_eq!(sd.handle_key("a", "").0, KeyResponse::Render);
    assert_eq!(sd.handle_key("b", "").0, KeyResponse::Render);
    assert_eq!(sd.handle_key("", ID_LEFT).0, KeyResponse::Render);
    assert_eq!(sd.handle_key("X", "").0, KeyResponse::Render);
    {
        let vk = sd.virtual_keyboard.as_ref().unwrap();
        assert_eq!(vk.input, "aXb");
        assert_eq!(vk.cursor_pos, 2);
    }
    let (r, reply) = sd.handle_key("", ID_ENTER);
    assert_eq!(r, KeyResponse::Close(DialogCloseAction::ProcessKeyboardReply, DialogResult::Accept));
    match reply {
        Some(KeyboardReply::Accepted(text)) => assert_eq!(text, "aXb"),
        other => panic!("unexpected reply {:?}", other),
    }
    let vk = sd.virtual_keyboard.as_ref().unwrap();
    assert!(!vk.modal.visible);
    assert_eq!(vk.input, "");
    assert!(sd.home_screen.unwrap().visible);
}

#[test]
fn end_to_end_cancel() {
    let mut sd = shared();
    assert_eq!(HomeScreen::button_callback(&mut sd, Some("Keyboard")), Some(Ok(())));
    sd.handle_key("z", "");
    let (r, reply) = sd.handle_key("", ID_CANCEL);
    assert_eq!(r, KeyResponse::Close(DialogCloseAction::ProcessKeyboardReply, DialogResult::Cancel));
    assert!(matches!(reply, Some(KeyboardReply::Cancelled)));
    assert!(sd.home_screen.unwrap().visible);
    assert_eq!(sd.virtual_keyboard.as_ref().unwrap().input, "");
}

#[test]
fn other_buttons_do_nothing() {
    let mut sd = shared();
    assert_eq!(HomeScreen::button_callback(&mut sd, Some("Other")), None);
    assert_eq!(HomeScreen::button_callback(&mut sd, None), None);
    assert!(sd.home_screen.unwrap().visible);
    assert!(!sd.virtual_keyboard.as_ref().unwrap().modal.visible);
}

#[test]
fn keyboard_button_while_open_aborts() {
    let mut sd = shared();
    assert_eq!(HomeScreen::button_callback(&mut sd, Some("Keyboard")), Some(Ok(())));
    assert_eq!(
        HomeScreen::button_callback(&mut sd, Some("Keyboard")),
        Some(Err(ModalError::AlreadyShown))
    );
    assert!(sd.home_screen.unwrap().visible);
    assert!(!sd.virtual_keyboard.as_ref().unwrap().modal.visible);
}

#[test]
fn keys_while_hidden_are_ignored() {
    let mut vk = VirtualKeyboard::new("", "");
    assert_eq!(vk.handle_key("a", ""), KeyResponse::Ignored);
    assert_eq!(vk.handle_key("", ID_BACKSPACE), KeyResponse::Ignored);
    assert_eq!(vk.handle_key("", ID_CANCEL), KeyResponse::Rejected(ModalError::NotShown));
    assert_eq!(vk.input, "");
}

#[test]
fn disabled_unknown_and_filtered_keys_are_ignored() {
    let mut vk = VirtualKeyboard::new("", "abc");
    assert!(vk.show(DialogCloseAction::ProcessKeyboardReply).is_ok());
    assert_eq!(vk.handle_key("d", ""), KeyResponse::Ignored);
    assert_eq!(vk.handle_key("d", ID_DISABLED), KeyResponse::Ignored);
    assert_eq!(vk.handle_key("a", "teleport"), KeyResponse::Ignored);
    assert_eq!(vk.input, "");
    assert_eq!(vk.handle_key("a", ""), KeyResponse::Render);
    assert_eq!(vk.input, "a");
}

#[test]
fn routed_edit_keys() {
    let mut vk = VirtualKeyboard::new("", "");
    assert!(vk.show(DialogCloseAction::ProcessKeyboardReply).is_ok());
    vk.handle_key("a", "");
    vk.handle_key("b", "");
    vk.handle_key("c", "");
    assert_eq!(vk.handle_key("", ID_LEFT), KeyResponse::Render);
    assert_eq!(vk.handle_key("", ID_LEFT), KeyResponse::Render);
    assert_eq!(vk.handle_key("", ID_DELETE), KeyResponse::Render);
    assert_eq!(vk.input, "ac");
    assert_eq!(vk.handle_key("", ID_RIGHT), KeyResponse::Render);
    assert_eq!(vk.handle_key("", ID_BACKSPACE), KeyResponse::Render);
    assert_eq!(vk.input, "a");
    assert_eq!(vk.cursor_pos, 1);
}

#[test]
fn shared_blink_without_keyboard() {
    let mut sd = SharedData::new();
    assert_eq!(sd.blink_cursor(), None);
    let mut sd = shared();
    assert_eq!(sd.blink_cursor(), None);
    assert!(sd.virtual_keyboard.as_ref().unwrap().cursor_state);
    let (r, reply) = SharedData::new().handle_key("a", "");
    assert_eq!(r, KeyResponse::Ignored);
    assert!(reply.is_none());
}

#[test]
fn run_close_action_without_home_screen() {
    let mut sd = SharedData::new();
    sd.virtual_keyboard = Some(VirtualKeyboard::new("", ""));
    assert!(sd
        .run_close_action(DialogCloseAction::ProcessKeyboardReply, DialogResult::Accept)
        .is_none());
}
