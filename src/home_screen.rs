//! The caller side of the modal handshake: a home screen that opens the
//! keyboard and takes its reply, and the one context that owns both.

use vstd::prelude::*;
use crate::text::str_eq;
use crate::virtual_keyboard::{
    DialogCloseAction, DialogResult, KeyResponse, KeyboardView, ModalError, VirtualKeyboard,
};

verus! {

/// Label of the home screen's button that opens the keyboard.
pub const KEYBOARD_BUTTON: &'static str = "Keyboard";

/// The home screen's visible state.
#[derive(Clone, Copy, Debug, PartialEq, Eq, Structural)]
pub struct HomeScreen {
    pub visible: bool,
}

/// What the home screen got back from a keyboard session.
#[derive(Debug)]
pub enum KeyboardReply {
    /// Accepted, with the text that was typed.
    Accepted(String),
    Cancelled,
}

/// The text of an accepted reply; nothing for a cancelled one.
pub open spec fn reply_text(r: KeyboardReply) -> Option<Seq<char>> {
    match r {
        KeyboardReply::Accepted(s) => Some(s@),
        KeyboardReply::Cancelled => None,
    }
}

/// The reply a session closed with `result` owes, given the typed text.
pub open spec fn reply_spec(text: Seq<char>, result: DialogResult) -> Option<Seq<char>> {
    match result {
        DialogResult::Accept => Some(text),
        DialogResult::Cancel => None,
    }
}

/// Everything a key event and a blink tick touch, owned in one place so that
/// each event is applied whole.
pub struct SharedData {
    pub home_screen: Option<HomeScreen>,
    pub virtual_keyboard: Option<VirtualKeyboard>,
}

impl SharedData {
    pub open spec fn wf(&self) -> bool {
        self.virtual_keyboard is Some ==> self.virtual_keyboard->0.wf()
    }

    /// The keyboard's view, when there is a keyboard.
    pub open spec fn keyboard(&self) -> Option<KeyboardView> {
        match self.virtual_keyboard {
            Some(vk) => Some(vk@),
            None => None,
        }
    }

    /// Both screens are in place.
    pub open spec fn complete(&self) -> bool {
        self.home_screen is Some && self.virtual_keyboard is Some
    }

    /// An empty context, before either screen is built.
    pub fn new() -> (r: SharedData)
        ensures
            r.home_screen is None,
            r.virtual_keyboard is None,
            r.wf(),
    {
        SharedData { home_screen: None, virtual_keyboard: None }
    }

    /// Runs a close action with the session's outcome and returns what it
    /// reports.
    pub fn run_close_action(&mut self, action: DialogCloseAction, result: DialogResult) -> (r: Option<KeyboardReply>)
        requires
            old(self).wf(),
        ensures
            final(self).wf(),
            old(self).complete() ==> {
                &&& r is Some
                &&& reply_text(r->0) == reply_spec(old(self).keyboard()->0.text, result)
                &&& final(self).home_screen == Some(HomeScreen { visible: true })
                &&& final(self).keyboard() == Some(old(self).keyboard()->0.reset())
            },
            !old(self).complete() ==> r is None && final(self).keyboard() == old(self).keyboard()
                && final(self).home_screen == old(self).home_screen,
    {
        match action {
            DialogCloseAction::ProcessKeyboardReply => HomeScreen::process_keyboard_reply(self, result),
        }
    }

    /// Handles a key event on the keyboard and, when it closes the session,
    /// runs the armed action at once.
    pub fn handle_key(&mut self, button_label: &str, special_button_name: &str) -> (r: (KeyResponse, Option<KeyboardReply>))
        requires
            old(self).wf(),
        ensures
            final(self).wf(),
            old(self).virtual_keyboard is None ==> r.0 == KeyResponse::Ignored && r.1 is None
                && final(self).keyboard() == old(self).keyboard() && final(self).home_screen == old(self).home_screen,
            old(self).virtual_keyboard is Some ==> {
                let (v, resp) = old(self).keyboard()->0.key_event(button_label@, special_button_name@);
                &&& r.0 == resp
                &&& match resp {
                    KeyResponse::Close(_, result) => if old(self).home_screen is Some {
                        &&& r.1 is Some
                        &&& reply_text(r.1->0) == reply_spec(v.text, result)
                        &&& final(self).home_screen == Some(HomeScreen { visible: true })
                        &&& final(self).keyboard() == Some(v.reset())
                    } else {
                        r.1 is None && final(self).keyboard() == Some(v) && final(self).home_screen is None
                    },
                    _ => r.1 is None && final(self).keyboard() == Some(v)
                        && final(self).home_screen == old(self).home_screen,
                }
            },
    {
        let resp = match &mut self.virtual_keyboard {
            Some(vk) => vk.handle_key(button_label, special_button_name),
            None => {
                return (KeyResponse::Ignored, None);
            },
        };
        match resp {
            KeyResponse::Close(action, result) => {
                let reply = self.run_close_action(action, result);
                (resp, reply)
            },
            _ => (resp, None),
        }
    }

    /// One blink tick of the keyboard's cursor; see
    /// `VirtualKeyboard::blink_cursor`.
    pub fn blink_cursor(&mut self) -> (r: Option<bool>)
        requires
            old(self).wf(),
        ensures
            final(self).wf(),
            final(self).home_screen == old(self).home_screen,
            old(self).virtual_keyboard is None ==> r is None && final(self).virtual_keyboard is None,
            old(self).virtual_keyboard is Some ==> {
                let v = old(self).keyboard()->0;
                &&& final(self).keyboard() == Some(KeyboardView { cursor_state: !v.cursor_state, ..v })
                &&& r == (if v.modal.visible { Some(v.cursor_state) } else { None::<bool> })
            },
    {
        match &mut self.virtual_keyboard {
            Some(vk) => vk.blink_cursor(),
            None => None,
        }
    }
}

impl HomeScreen {
    /// A home screen as first built: shown.
    pub fn new() -> (r: HomeScreen)
        ensures
            r.visible,
    {
        HomeScreen { visible: true }
    }

    /// The keyboard's reply arrives: the reply is taken, the home screen
    /// shown again and the keyboard's buffer emptied.
    fn process_keyboard_reply(shared: &mut SharedData, result: DialogResult) -> (r: Option<KeyboardReply>)
        requires
            old(shared).wf(),
        ensures
            final(shared).wf(),
            old(shared).complete() ==> {
                &&& r is Some
                &&& reply_text(r->0) == reply_spec(old(shared).keyboard()->0.text, result)
                &&& final(shared).home_screen == Some(HomeScreen { visible: true })
                &&& final(shared).keyboard() == Some(old(shared).keyboard()->0.reset())
            },
            !old(shared).complete() ==> r is None && final(shared).keyboard() == old(shared).keyboard()
                && final(shared).home_screen == old(shared).home_screen,
    {
        if shared.home_screen.is_none() {
            return None;
        }
        match &mut shared.virtual_keyboard {
            Some(vk) => {
                let reply = match result {
                    DialogResult::Accept => KeyboardReply::Accepted(vk.input.clone()),
                    DialogResult::Cancel => KeyboardReply::Cancelled,
                };
                vk.reset_input();
                shared.home_screen = Some(HomeScreen { visible: true });
                Some(reply)
            },
            None => None,
        }
    }

    /// A button of the home screen was pressed. The keyboard button hides
    /// the home screen and opens the keyboard, armed to report back here; if
    /// the keyboard was already open, that session is aborted and the home
    /// screen shown again. Other buttons do nothing.
    pub fn button_callback(shared: &mut SharedData, button_label: Option<&str>) -> (r: Option<Result<(), ModalError>>)
        requires
            old(shared).wf(),
        ensures
            final(shared).wf(),
            (button_label is Some && button_label->0@ == KEYBOARD_BUTTON@ && old(shared).complete()) ==> {
                let (v, opened) = old(shared).keyboard()->0.opened(DialogCloseAction::ProcessKeyboardReply);
                &&& r == Some(opened)
                &&& final(shared).keyboard() == Some(v)
                &&& final(shared).home_screen == Some(HomeScreen { visible: opened is Err })
            },
            !(button_label is Some && button_label->0@ == KEYBOARD_BUTTON@ && old(shared).complete()) ==> {
                &&& r is None
                &&& final(shared).keyboard() == old(shared).keyboard()
                &&& final(shared).home_screen == old(shared).home_screen
            },
    {
        let label = match button_label {
            Some(l) => l,
            None => {
                return None;
            },
        };
        if !str_eq(label, KEYBOARD_BUTTON) || shared.home_screen.is_none() {
            return None;
        }
        match &mut shared.virtual_keyboard {
            Some(vk) => {
                let opened = vk.show(DialogCloseAction::ProcessKeyboardReply);
                shared.home_screen = Some(HomeScreen { visible: opened.is_err() });
                Some(opened)
            },
            None => None,
        }
    }
}

} // verus!
