//! The keyboard's state: the edit buffer with its cursor, the active layer,
//! the modal open/close handshake, and the routing of key events.

use vstd::prelude::*;
use crate::keysets::{
    define_keysets, key_name, key_name_spec, keys_view, layer_keys, layer_view, layout_matches,
    lemma_key_names_round_trip, lemma_rotation_cycle, next_layer_spec, Key, KeyDef, KeyId, KeyName,
    ID_ENTER, LAYER_COUNT,
};
use crate::text::{
    accepts, accepts_spec, deleted_spec, escape_markup, escape_spec, on_spec, opt_view, or_empty,
    owned, post_spec, pre_spec, typed_spec, unwrap_or_empty,
};

verus! {

/// How a modal session was closed.
#[derive(Clone, Copy, Debug, PartialEq, Eq, Structural)]
pub enum DialogResult {
    Accept,
    Cancel,
}

/// The handler a caller arms when it opens the keyboard; it is run once,
/// with the session's outcome, when the keyboard closes.
#[derive(Clone, Copy, Debug, PartialEq, Eq, Structural)]
pub enum DialogCloseAction {
    /// The home screen takes the reply and shows itself again.
    ProcessKeyboardReply,
}

/// A modal call made in the wrong state.
#[derive(Clone, Copy, Debug, PartialEq, Eq, Structural)]
pub enum ModalError {
    /// `open` while a session is already open.
    AlreadyShown,
    /// `close` while no session is open.
    NotShown,
}

/// Shown or hidden, and the close action armed while shown.
#[derive(Clone, Copy, Debug)]
pub struct ModalController {
    pub visible: bool,
    pub close_action: Option<DialogCloseAction>,
}

impl ModalController {
    /// A close action is armed exactly while a session is open.
    pub open spec fn wf(self) -> bool {
        self.visible <==> self.close_action is Some
    }

    /// Opening arms `action`; opening an open session is a fault that
    /// aborts it, leaving it hidden and disarmed.
    pub open spec fn open_spec(self, action: DialogCloseAction) -> (ModalController, Result<(), ModalError>) {
        if !self.visible {
            (ModalController { visible: true, close_action: Some(action) }, Ok(()))
        } else {
            (ModalController { visible: false, close_action: None }, Err(ModalError::AlreadyShown))
        }
    }

    /// Closing hands out the armed action once and disarms it; closing a
    /// hidden session is a fault that changes nothing.
    pub open spec fn close_spec(self) -> (ModalController, Result<DialogCloseAction, ModalError>) {
        if self.visible && self.close_action is Some {
            (ModalController { visible: false, close_action: None }, Ok(self.close_action->0))
        } else {
            (self, Err(ModalError::NotShown))
        }
    }

    /// A hidden controller with nothing armed.
    pub fn new() -> (r: ModalController)
        ensures
            r.wf(),
            !r.visible,
    {
        ModalController { visible: false, close_action: None }
    }

    /// Opens a session that will end by handing out `action`.
    pub fn open(&mut self, action: DialogCloseAction) -> (r: Result<(), ModalError>)
        ensures
            (*final(self), r) == old(self).open_spec(action),
    {
        if !self.visible {
            self.visible = true;
            self.close_action = Some(action);
            Ok(())
        } else {
            self.visible = false;
            self.close_action = None;
            Err(ModalError::AlreadyShown)
        }
    }

    /// Closes the session and hands out its action, at most once.
    pub fn close(&mut self) -> (r: Result<DialogCloseAction, ModalError>)
        ensures
            (*final(self), r) == old(self).close_spec(),
    {
        if self.visible {
            match self.close_action {
                Some(a) => {
                    self.visible = false;
                    self.close_action = None;
                    Ok(a)
                },
                None => Err(ModalError::NotShown),
            }
        } else {
            Err(ModalError::NotShown)
        }
    }
}

/// A session closes at most once: after opening, the first close hands out
/// the armed action and the second is refused without handing out anything.
pub proof fn lemma_single_fire(m: ModalController, action: DialogCloseAction)
    requires
        m.wf(),
        !m.visible,
    ensures
        ({
            let (m1, r1) = m.open_spec(action);
            let (m2, r2) = m1.close_spec();
            let (m3, r3) = m2.close_spec();
            &&& r1 == Ok::<(), ModalError>(())
            &&& r2 == Ok::<DialogCloseAction, ModalError>(action)
            &&& !m2.visible && m2.wf()
            &&& r3 == Err::<DialogCloseAction, ModalError>(ModalError::NotShown)
            &&& m3 == m2
        }),
{
}

/// What the caller has to do after a key event.
#[derive(Clone, Copy, Debug, PartialEq, Eq, Structural)]
pub enum KeyResponse {
    /// Nothing changed.
    Ignored,
    /// The buffer or its mode changed: draw the screen again.
    Render,
    /// The active layer changed: show it.
    ShowLayer,
    /// The session closed: run the action with the outcome.
    Close(DialogCloseAction, DialogResult),
    /// An accept or cancel key came while no session was open.
    Rejected(ModalError),
}

/// The keyboard's state as mathematical values.
pub struct KeyboardView {
    pub text: Seq<char>,
    pub cursor: nat,
    pub insert_mode: bool,
    pub cursor_state: bool,
    pub layer: nat,
    pub modal: ModalController,
    pub prompt: Seq<char>,
    pub accept: Seq<char>,
    pub keys: Seq<Vec<KeyDef>>,
}

impl KeyboardView {
    pub open spec fn wf(self) -> bool {
        &&& self.cursor <= self.text.len()
        &&& self.layer < LAYER_COUNT
        &&& self.modal.wf()
    }

    /// After typing `new` at the cursor: inserted in insert mode, written
    /// over the character under the cursor otherwise; the cursor moves past it.
    pub open spec fn typed(self, new: Seq<char>) -> KeyboardView {
        KeyboardView {
            text: typed_spec(self.text, self.cursor as int, new, self.insert_mode),
            cursor: self.cursor + new.len(),
            ..self
        }
    }

    /// After deleting the character under the cursor.
    pub open spec fn deleted(self) -> KeyboardView {
        KeyboardView { text: deleted_spec(self.text, self.cursor as int), ..self }
    }

    /// After a backspace: the character before the cursor is gone and the
    /// cursor one to the left; nothing happens at the start.
    pub open spec fn backspaced(self) -> KeyboardView {
        if self.cursor == 0 {
            self
        } else {
            KeyboardView {
                text: self.text.remove(self.cursor - 1),
                cursor: (self.cursor - 1) as nat,
                ..self
            }
        }
    }

    pub open spec fn moved_left(self) -> KeyboardView {
        if self.cursor > 0 {
            KeyboardView { cursor: (self.cursor - 1) as nat, ..self }
        } else {
            self
        }
    }

    pub open spec fn moved_right(self) -> KeyboardView {
        if self.cursor < self.text.len() {
            KeyboardView { cursor: self.cursor + 1, ..self }
        } else {
            self
        }
    }

    /// After emptying the buffer.
    pub open spec fn reset(self) -> KeyboardView {
        KeyboardView { text: Seq::empty(), cursor: 0, ..self }
    }

    pub open spec fn toggled_insert(self) -> KeyboardView {
        KeyboardView { insert_mode: !self.insert_mode, ..self }
    }

    pub open spec fn rotated(self) -> KeyboardView {
        KeyboardView { layer: next_layer_spec(self.layer as int) as nat, ..self }
    }

    /// Opening a session: on success the buffer is empty and the first
    /// layer is active.
    pub open spec fn opened(self, action: DialogCloseAction) -> (KeyboardView, Result<(), ModalError>) {
        let (m, r) = self.modal.open_spec(action);
        if r is Ok {
            (KeyboardView { modal: m, layer: 0, ..self.reset() }, r)
        } else {
            (KeyboardView { modal: m, ..self }, r)
        }
    }

    pub open spec fn closed(self) -> (KeyboardView, Result<DialogCloseAction, ModalError>) {
        let (m, r) = self.modal.close_spec();
        (KeyboardView { modal: m, ..self }, r)
    }

    /// Closing with `result`, as a key response.
    pub open spec fn closed_with(self, result: DialogResult) -> (KeyboardView, KeyResponse) {
        let (v, r) = self.closed();
        match r {
            Ok(a) => (v, KeyResponse::Close(a, result)),
            Err(e) => (v, KeyResponse::Rejected(e)),
        }
    }

    /// A key event with the key's label and its identifier. Accept and
    /// cancel close the session; other keys act only while it is open.
    pub open spec fn key_event(self, label: Seq<char>, name: Seq<char>) -> (KeyboardView, KeyResponse) {
        match key_name_spec(name) {
            KeyName::Key(KeyId::Enter) => self.closed_with(DialogResult::Accept),
            KeyName::Key(KeyId::Cancel) => self.closed_with(DialogResult::Cancel),
            KeyName::Key(id) => {
                if !self.modal.visible {
                    (self, KeyResponse::Ignored)
                } else {
                    match id {
                        KeyId::Character => {
                            if accepts_spec(self.accept, label) {
                                (self.typed(label), KeyResponse::Render)
                            } else {
                                (self, KeyResponse::Ignored)
                            }
                        },
                        KeyId::Backspace => (self.backspaced(), KeyResponse::Render),
                        KeyId::Delete => (self.deleted(), KeyResponse::Render),
                        KeyId::Insert => (self.toggled_insert(), KeyResponse::Render),
                        KeyId::Shift => (self.rotated(), KeyResponse::ShowLayer),
                        KeyId::Left => (self.moved_left(), KeyResponse::Render),
                        KeyId::Right => (self.moved_right(), KeyResponse::Render),
                        _ => (self, KeyResponse::Ignored),
                    }
                }
            },
            _ => (self, KeyResponse::Ignored),
        }
    }
}

/// Markup around the cursor in insert mode: an inverse block.
pub const CURSOR_INSERT_OPEN: &'static str = "<span foreground=\"white\" background=\"black\">";
pub const CURSOR_INSERT_CLOSE: &'static str = "</span>";
/// Markup around the cursor when typing writes over: an underline.
pub const CURSOR_OVERWRITE_OPEN: &'static str = "<u>";
pub const CURSOR_OVERWRITE_CLOSE: &'static str = "</u>";

/// The character under the cursor, or a space when the cursor is past the end.
pub open spec fn on_or_space(s: Seq<char>, pos: int) -> Seq<char> {
    match on_spec(s, pos) {
        Some(t) => t,
        None => " "@,
    }
}

/// The screen's markup. With the cursor shown, the character under it is
/// wrapped in the mode's decoration (a space stands for it at the end);
/// without, the text is followed by a space where the cursor is past its end.
pub open spec fn markup_spec(v: KeyboardView, show_cursor: bool) -> Seq<char> {
    let c = v.cursor as int;
    if show_cursor {
        escape_spec(or_empty(pre_spec(v.text, c)))
            + (if v.insert_mode { CURSOR_INSERT_OPEN@ } else { CURSOR_OVERWRITE_OPEN@ })
            + escape_spec(on_or_space(v.text, c))
            + (if v.insert_mode { CURSOR_INSERT_CLOSE@ } else { CURSOR_OVERWRITE_CLOSE@ })
            + escape_spec(or_empty(post_spec(v.text, c)))
    } else {
        escape_spec(v.text) + (if on_spec(v.text, c) is None { " "@ } else { Seq::empty() })
    }
}

/// The on-screen keyboard's state.
pub struct VirtualKeyboard {
    pub input: String,
    pub cursor_pos: usize,
    /// When set, typed characters are inserted before the character under
    /// the cursor; otherwise they are written over it.
    pub insert_mode: bool,
    /// Blink phase of the cursor.
    pub cursor_state: bool,
    pub active_key_layer: usize,
    pub modal: ModalController,
    pub prompt: String,
    /// Allow-list of characters; empty allows every character.
    pub accept: String,
    pub keys: Vec<Vec<KeyDef>>,
}

impl View for VirtualKeyboard {
    type V = KeyboardView;

    open spec fn view(&self) -> KeyboardView {
        KeyboardView {
            text: self.input@,
            cursor: self.cursor_pos as nat,
            insert_mode: self.insert_mode,
            cursor_state: self.cursor_state,
            layer: self.active_key_layer as nat,
            modal: self.modal,
            prompt: self.prompt@,
            accept: self.accept@,
            keys: self.keys@,
        }
    }
}

impl VirtualKeyboard {
    pub open spec fn wf(&self) -> bool {
        self@.wf()
    }

    /// The number of characters (not bytes) of `input`.
    pub fn charlen(input: &str) -> (r: usize)
        ensures
            r == input@.len(),
    {
        input.unicode_len()
    }

    /// The characters before `cursor_pos`; the whole text when the cursor is
    /// at or past its end, and `None` for an empty text.
    pub fn pre_cursor(input: &str, cursor_pos: usize) -> (r: Option<String>)
        ensures
            opt_view(r) == pre_spec(input@, cursor_pos as int),
    {
        let n = Self::charlen(input);
        if cursor_pos < n {
            Some(owned(input.substring_char(0, cursor_pos)))
        } else if n == 0 {
            None
        } else {
            Some(owned(input))
        }
    }

    /// The character under `cursor_pos`, if there is one.
    pub fn on_cursor(input: &str, cursor_pos: usize) -> (r: Option<String>)
        ensures
            opt_view(r) == on_spec(input@, cursor_pos as int),
    {
        if cursor_pos < Self::charlen(input) {
            Some(owned(input.substring_char(cursor_pos, cursor_pos + 1)))
        } else {
            None
        }
    }

    /// The characters strictly after `cursor_pos`, if there are any.
    pub fn post_cursor(input: &str, cursor_pos: usize) -> (r: Option<String>)
        ensures
            opt_view(r) == post_spec(input@, cursor_pos as int),
    {
        let n = Self::charlen(input);
        if n > 0 && cursor_pos < n - 1 {
            Some(owned(input.substring_char(cursor_pos + 1, n)))
        } else {
            None
        }
    }

    /// A hidden keyboard with an empty buffer, showing `prompt_text`, that
    /// lets only the characters of `accept` be typed (all, if it is empty).
    pub fn new(prompt_text: &str, accept: &str) -> (r: VirtualKeyboard)
        ensures
            r.wf(),
            r@.text.len() == 0,
            r@.cursor == 0,
            !r@.insert_mode,
            !r@.cursor_state,
            r@.layer == 0,
            !r@.modal.visible,
            r@.prompt == prompt_text@,
            r@.accept == accept@,
            layout_matches(r@.keys),
    {
        let modal = ModalController::new();
        VirtualKeyboard {
            input: String::new(),
            cursor_pos: 0,
            insert_mode: false,
            cursor_state: false,
            active_key_layer: 0,
            modal,
            prompt: owned(prompt_text),
            accept: owned(accept),
            keys: define_keysets(),
        }
    }

    /// Types `input` at the cursor.
    pub fn append_input(&mut self, input: &str)
        requires
            old(self).wf(),
        ensures
            final(self)@ == old(self)@.typed(input@),
            final(self).wf(),
    {
        let pos = self.cursor_pos;
        let pre = Self::pre_cursor(self.input.as_str(), pos);
        let onc = Self::on_cursor(self.input.as_str(), pos);
        let post = Self::post_cursor(self.input.as_str(), pos);
        proof {
            lemma_split_joins(self.input@, pos as int);
        }
        let mut text = unwrap_or_empty(pre);
        text.append(input);
        if self.insert_mode {
            let o = unwrap_or_empty(onc);
            text.append(o.as_str());
        }
        let p = unwrap_or_empty(post);
        text.append(p.as_str());
        let total = text.unicode_len();
        let added = input.unicode_len();
        proof {
            let s = self.input@;
            let c = pos as int;
            if c < s.len() {
                assert(s.take(c) + s.subrange(c, c + 1) + or_empty(post_spec(s, c)) =~= s);
                assert(s.skip(c) =~= s.subrange(c, c + 1) + or_empty(post_spec(s, c)));
                assert(or_empty(post_spec(s, c)) =~= s.skip(c + 1));
            }
            assert(text@ =~= typed_spec(s, c, input@, self.insert_mode));
        }
        self.input = text;
        self.cursor_pos = pos + added;
    }

    /// Removes the character under the cursor; the cursor stays.
    pub fn del_input(&mut self)
        requires
            old(self).wf(),
        ensures
            final(self)@ == old(self)@.deleted(),
            final(self).wf(),
    {
        let pos = self.cursor_pos;
        let pre = Self::pre_cursor(self.input.as_str(), pos);
        let post = Self::post_cursor(self.input.as_str(), pos);
        let mut text = unwrap_or_empty(pre);
        let p = unwrap_or_empty(post);
        text.append(p.as_str());
        proof {
            let s = self.input@;
            let c = pos as int;
            if c < s.len() {
                assert(text@ =~= s.remove(c));
            } else if s.len() > 0 {
                assert(text@ =~= s);
            } else {
                assert(text@ =~= s);
            }
        }
        self.input = text;
    }

    /// Moves the cursor one character to the left, not past the start.
    pub fn move_cursor_left(&mut self)
        requires
            old(self).wf(),
        ensures
            final(self)@ == old(self)@.moved_left(),
            final(self).wf(),
    {
        if self.cursor_pos > 0 {
            self.cursor_pos = self.cursor_pos - 1;
        }
    }

    /// Moves the cursor one character to the right, not past the end.
    pub fn move_cursor_right(&mut self)
        requires
            old(self).wf(),
        ensures
            final(self)@ == old(self)@.moved_right(),
            final(self).wf(),
    {
        if self.cursor_pos < Self::charlen(self.input.as_str()) {
            self.cursor_pos = self.cursor_pos + 1;
        }
    }

    /// Removes the character before the cursor and moves the cursor left;
    /// does nothing with the cursor at the start.
    pub fn backspace(&mut self)
        requires
            old(self).wf(),
        ensures
            final(self)@ == old(self)@.backspaced(),
            final(self).wf(),
    {
        let pos = self.cursor_pos;
        if pos == 0 {
            return;
        }
        let pre = Self::pre_cursor(self.input.as_str(), pos - 1);
        let post = Self::post_cursor(self.input.as_str(), pos - 1);
        let mut text = unwrap_or_empty(pre);
        let p = unwrap_or_empty(post);
        text.append(p.as_str());
        proof {
            assert(text@ =~= self.input@.remove(pos - 1));
        }
        self.input = text;
        self.cursor_pos = pos - 1;
    }

    /// Empties the buffer and puts the cursor at the start.
    pub fn reset_input(&mut self)
        requires
            old(self).wf(),
        ensures
            final(self)@ == old(self)@.reset(),
            final(self).wf(),
    {
        self.input = String::new();
        self.cursor_pos = 0;
    }

    /// Switches between inserting and writing over.
    pub fn toggle_insert_mode(&mut self)
        requires
            old(self).wf(),
        ensures
            final(self)@ == old(self)@.toggled_insert(),
            final(self).wf(),
    {
        self.insert_mode = !self.insert_mode;
    }

    /// Makes the next layer active, wrapping after the last.
    pub fn next_keyset(&mut self)
        requires
            old(self).wf(),
        ensures
            final(self)@ == old(self)@.rotated(),
            final(self).wf(),
    {
        self.active_key_layer = (self.active_key_layer + 1) % LAYER_COUNT;
    }

    /// Opens a session that ends by handing out `close_action`: the buffer is
    /// emptied and the first layer made active. Opening an open session is
    /// refused and aborts it.
    pub fn show(&mut self, close_action: DialogCloseAction) -> (r: Result<(), ModalError>)
        requires
            old(self).wf(),
        ensures
            (final(self)@, r) == old(self)@.opened(close_action),
            final(self).wf(),
    {
        let r = self.modal.open(close_action);
        if r.is_ok() {
            self.active_key_layer = 0;
            self.reset_input();
        }
        r
    }

    /// Hides the keyboard and closes the session, handing out its action;
    /// refused when no session is open.
    pub fn close(&mut self) -> (r: Result<DialogCloseAction, ModalError>)
        requires
            old(self).wf(),
        ensures
            (final(self)@, r) == old(self)@.closed(),
            final(self).wf(),
    {
        self.modal.close()
    }

    fn close_with(&mut self, result: DialogResult) -> (r: KeyResponse)
        requires
            old(self).wf(),
        ensures
            (final(self)@, r) == old(self)@.closed_with(result),
            final(self).wf(),
    {
        match self.close() {
            Ok(a) => KeyResponse::Close(a, result),
            Err(e) => KeyResponse::Rejected(e),
        }
    }

    /// Handles a key event: `special_button_name` is the key's identifier,
    /// empty for a character key, whose `button_label` is then typed if the
    /// allow-list accepts it.
    pub fn handle_key(&mut self, button_label: &str, special_button_name: &str) -> (r: KeyResponse)
        requires
            old(self).wf(),
        ensures
            (final(self)@, r) == old(self)@.key_event(button_label@, special_button_name@),
            final(self).wf(),
    {
        match key_name(special_button_name) {
            KeyName::Key(KeyId::Enter) => self.close_with(DialogResult::Accept),
            KeyName::Key(KeyId::Cancel) => self.close_with(DialogResult::Cancel),
            KeyName::Key(id) => {
                if !self.modal.visible {
                    return KeyResponse::Ignored;
                }
                match id {
                    KeyId::Character => {
                        if accepts(self.accept.as_str(), button_label) {
                            self.append_input(button_label);
                            KeyResponse::Render
                        } else {
                            KeyResponse::Ignored
                        }
                    },
                    KeyId::Backspace => {
                        self.backspace();
                        KeyResponse::Render
                    },
                    KeyId::Delete => {
                        self.del_input();
                        KeyResponse::Render
                    },
                    KeyId::Insert => {
                        self.toggle_insert_mode();
                        KeyResponse::Render
                    },
                    KeyId::Shift => {
                        self.next_keyset();
                        KeyResponse::ShowLayer
                    },
                    KeyId::Left => {
                        self.move_cursor_left();
                        KeyResponse::Render
                    },
                    KeyId::Right => {
                        self.move_cursor_right();
                        KeyResponse::Render
                    },
                    _ => KeyResponse::Ignored,
                }
            },
            _ => KeyResponse::Ignored,
        }
    }

    /// The markup that shows the buffer, with or without the cursor.
    pub fn label_markup(&self, show_cursor: bool) -> (r: String)
        ensures
            r@ == markup_spec(self@, show_cursor),
    {
        let pos = self.cursor_pos;
        let input = self.input.as_str();
        if show_cursor {
            let pre = unwrap_or_empty(Self::pre_cursor(input, pos));
            let onc = match Self::on_cursor(input, pos) {
                Some(o) => o,
                None => owned(" "),
            };
            let post = unwrap_or_empty(Self::post_cursor(input, pos));
            let mut out = escape_markup(pre.as_str());
            out.append(if self.insert_mode { CURSOR_INSERT_OPEN } else { CURSOR_OVERWRITE_OPEN });
            let o = escape_markup(onc.as_str());
            out.append(o.as_str());
            out.append(if self.insert_mode { CURSOR_INSERT_CLOSE } else { CURSOR_OVERWRITE_CLOSE });
            let p = escape_markup(post.as_str());
            out.append(p.as_str());
            out
        } else {
            let mut out = escape_markup(input);
            if Self::on_cursor(input, pos).is_none() {
                out.append(" ");
            }
            out
        }
    }

    /// The keys of the active layer, with their labels there and whether
    /// the allow-list lets them be pressed.
    pub fn active_layer_keys(&self) -> (r: Vec<Vec<Key>>)
        requires
            self.wf(),
        ensures
            keys_view(r@) == layer_view(self@.keys, self@.layer as int, self@.accept),
    {
        layer_keys(&self.keys, self.active_key_layer, self.accept.as_str())
    }

    /// The keys of `layer`, as `active_layer_keys` gives them for the active one.
    pub fn keys_of_layer(&self, layer: usize) -> (r: Vec<Vec<Key>>)
        requires
            layer < LAYER_COUNT,
        ensures
            keys_view(r@) == layer_view(self@.keys, layer as int, self@.accept),
    {
        layer_keys(&self.keys, layer, self.accept.as_str())
    }

    /// One blink tick: flips the cursor's phase and, while a session is
    /// open, asks for a render showing the cursor if the phase was on. The
    /// buffer and the session are left as they are.
    pub fn blink_cursor(&mut self) -> (r: Option<bool>)
        requires
            old(self).wf(),
        ensures
            final(self)@ == (KeyboardView { cursor_state: !old(self)@.cursor_state, ..old(self)@ }),
            r == (if old(self)@.modal.visible { Some(old(self)@.cursor_state) } else { None::<bool> }),
            final(self).wf(),
    {
        let shown = self.cursor_state;
        self.cursor_state = !shown;
        if self.modal.visible {
            Some(shown)
        } else {
            None
        }
    }
}

/// Typing one character and then backspacing gives back the buffer and the
/// cursor from before, when the character was inserted (insert mode, or the
/// cursor at the end, where nothing is written over).
pub proof fn lemma_type_then_backspace(v: KeyboardView, c: char)
    requires
        v.wf(),
        v.insert_mode || v.cursor == v.text.len(),
    ensures
        v.typed(seq![c]).backspaced() == v,
{
    let t = v.typed(seq![c]);
    assert(t.text.remove(v.cursor as int) =~= v.text);
}

/// Three presses of the shift key bring back the layer one started from,
/// and change nothing else.
pub proof fn lemma_three_rotations(v: KeyboardView)
    requires
        v.wf(),
    ensures
        v.rotated().rotated().rotated() == v,
        v.rotated().layer != v.layer,
        v.rotated().keys == v.keys,
{
    lemma_rotation_cycle(v.layer as int);
}

/// Accept pressed twice in one session closes it once: the first press hands
/// out the armed action with the outcome, the second is refused as a fault
/// and changes nothing.
pub proof fn lemma_accept_twice(v: KeyboardView, action: DialogCloseAction, label: Seq<char>)
    requires
        v.wf(),
        !v.modal.visible,
    ensures
        ({
            let (v1, r1) = v.opened(action);
            let (v2, r2) = v1.key_event(label, ID_ENTER@);
            let (v3, r3) = v2.key_event(label, ID_ENTER@);
            &&& r1 is Ok
            &&& r2 == KeyResponse::Close(action, DialogResult::Accept)
            &&& !v2.modal.visible
            &&& r3 == KeyResponse::Rejected(ModalError::NotShown)
            &&& v3 == v2
        }),
{
    lemma_key_names_round_trip(KeyId::Enter);
}

/// Backspace with the cursor at the start changes nothing.
pub proof fn lemma_backspace_at_start(v: KeyboardView)
    requires
        v.cursor == 0,
    ensures
        v.backspaced() == v,
{
}

/// The three parts of a split put together give back the text: the part
/// before the cursor, the character on it, and the part after it.
pub proof fn lemma_split_joins(s: Seq<char>, pos: int)
    requires
        0 <= pos <= s.len(),
    ensures
        or_empty(pre_spec(s, pos)) + or_empty(on_spec(s, pos)) + or_empty(post_spec(s, pos)) == s,
        or_empty(pre_spec(s, pos)).len() == pos,
{
    if pos < s.len() {
        assert(s.take(pos) + s.subrange(pos, pos + 1) + or_empty(post_spec(s, pos)) =~= s);
    } else {
        assert(or_empty(pre_spec(s, pos)) =~= s);
        assert(or_empty(pre_spec(s, pos)) + Seq::<char>::empty() + Seq::<char>::empty() =~= s);
    }
}

} // verus!
