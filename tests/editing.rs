use rustgtk::virtual_keyboard::{DialogCloseAction, VirtualKeyboard};

fn open_keyboard() -> VirtualKeyboard {
    let mut vk = VirtualKeyboard::new("Please enter some text.", "");
    assert!(vk.show(DialogCloseAction::ProcessKeyboardReply).is_ok());
    vk
}

fn with_text(text: &str, cursor: usize, insert_mode: bool) -> VirtualKeyboard {
    let mut vk = open_keyboard();
    vk.input = text.to_string();
    vk.cursor_pos = cursor;
    vk.insert_mode = insert_mode;
    vk
}

#[test]
fn new_keyboard_is_empty_and_hidden() {
    let vk = VirtualKeyboard::new("Prompt", "abc");
    assert_eq!(vk.input, "");
    assert_eq!(vk.cursor_pos, 0);
    assert!(!vk.insert_mode);
    assert_eq!(vk.active_key_layer, 0);
    assert!(!vk.modal.visible);
    assert!(vk.modal.close_action.is_none());
    assert_eq!(vk.prompt, "Prompt");
    assert_eq!(vk.accept, "abc");
}

#[test]
fn insert_mode_inserts_before_the_cursor() {
    let mut vk = with_text("a€c", 1, true);
    vk.append_input("X");
    assert_eq!(vk.input, "aX€c");
    assert_eq!(vk.cursor_pos, 2);
}

#[test]
fn overwrite_mode_replaces_the_character() {
    let mut vk = with_text("a€c", 1, false);
    vk.append_input("X");
    assert_eq!(vk.input, "aXc");
    assert_eq!(vk.cursor_pos, 2);
}

#[test]
fn typing_at_the_end_appends_in_both_modes() {
    let mut vk = with_text("ab", 2, false);
    vk.append_input("c");
    assert_eq!(vk.input, "abc");
    assert_eq!(vk.cursor_pos, 3);
    let mut vk = with_text("ab", 2, true);
    vk.append_input("c");
    assert_eq!(vk.input, "abc");
    assert_eq!(vk.cursor_pos, 3);
}

#[test]
fn cursor_advances_by_the_length_typed() {
    let mut vk = with_text("ab", 1, true);
    vk.append_input("€€€");
    assert_eq!(vk.input, "a€€€b");
    assert_eq!(vk.cursor_pos, 4);
}

#[test]
fn delete_removes_the_character_under_the_cursor() {
    let mut vk = with_text("a€c", 1, false);
    vk.del_input();
    assert_eq!(vk.input, "ac");
    assert_eq!(vk.cursor_pos, 1);
    let mut vk = with_text("abc", 3, false);
    vk.del_input();
    assert_eq!(vk.input, "abc");
    assert_eq!(vk.cursor_pos, 3);
}

#[test]
fn backspace_removes_the_character_before_the_cursor() {
    let mut vk = with_text("a€c", 2, false);
    vk.backspace();
    assert_eq!(vk.input, "ac");
    assert_eq!(vk.cursor_pos, 1);
    let mut vk = with_text("a€c", 3, false);
    vk.backspace();
    assert_eq!(vk.input, "a€");
    assert_eq!(vk.cursor_pos, 2);
}

#[test]
fn backspace_at_start_is_a_no_op() {
    let mut vk = with_text("abc", 0, true);
    vk.backspace();
    assert_eq!(vk.input, "abc");
    assert_eq!(vk.cursor_pos, 0);
    let mut vk = with_text("", 0, false);
    vk.backspace();
    assert_eq!(vk.input, "");
    assert_eq!(vk.cursor_pos, 0);
}

#[test]
fn insert_then_backspace_restores_the_buffer() {
    for pos in 0..=3 {
        let mut vk = with_text("a€c", pos, true);
        vk.append_input("Z");
        vk.backspace();
        assert_eq!(vk.input, "a€c");
        assert_eq!(vk.cursor_pos, pos);
    }
    let mut vk = with_text("a€c", 3, false);
    vk.append_input("Z");
    vk.backspace();
    assert_eq!(vk.input, "a€c");
    assert_eq!(vk.cursor_pos, 3);
}

#[test]
fn cursor_moves_are_clamped() {
    let mut vk = with_text("ab", 0, false);
    vk.move_cursor_left();
    assert_eq!(vk.cursor_pos, 0);
    vk.move_cursor_right();
    vk.move_cursor_right();
    assert_eq!(vk.cursor_pos, 2);
    vk.move_cursor_right();
    assert_eq!(vk.cursor_pos, 2);
    vk.move_cursor_left();
    assert_eq!(vk.cursor_pos, 1);
}

#[test]
fn reset_empties_the_buffer() {
    let mut vk = with_text("abc", 2, true);
    vk.reset_input();
    assert_eq!(vk.input, "");
    assert_eq!(vk.cursor_pos, 0);
    assert!(vk.insert_mode);
}

#[test]
fn toggle_switches_insert_mode() {
    let mut vk = open_keyboard();
    vk.toggle_insert_mode();
    assert!(vk.insert_mode);
    vk.toggle_insert_mode();
    assert!(!vk.insert_mode);
}

#[test]
fn markup_decorates_the_cursor() {
    let vk = with_text("a<c", 1, false);
    assert_eq!(vk.label_markup(true), "a<u>&lt;</u>c");
    assert_eq!(vk.label_markup(false), "a&lt;c");
    let vk = with_text("ab", 2, true);
    assert_eq!(
        vk.label_markup(true),
        "ab<span foreground=\"white\" background=\"black\"> </span>"
    );
    assert_eq!(vk.label_markup(false), "ab ");
    let vk = with_text("", 0, false);
    assert_eq!(vk.label_markup(true), "<u> </u>");
}

#[test]
fn blink_flips_the_phase_and_renders_only_when_shown() {
    let mut vk = VirtualKeyboard::new("", "");
    assert_eq!(vk.blink_cursor(), None);
    assert!(vk.cursor_state);
    assert!(vk.show(DialogCloseAction::ProcessKeyboardReply).is_ok());
    assert_eq!(vk.blink_cursor(), Some(true));
    assert!(!vk.cursor_state);
    assert_eq!(vk.blink_cursor(), Some(false));
    assert!(vk.cursor_state);
}
