use rustgtk::text::{accepts, escape_markup, str_eq};
use rustgtk::virtual_keyboard::VirtualKeyboard;

#[test]
fn test_charlen() {
    assert_eq!(VirtualKeyboard::charlen("abc"), 3);
    assert_eq!(VirtualKeyboard::charlen("ab€"), 3);
}

#[test]
fn test_pre_cursor() {
    assert_eq!(
        VirtualKeyboard::pre_cursor("abcde", 0).unwrap_or("".to_string()),
        ""
    );
    assert_eq!(
        VirtualKeyboard::pre_cursor("abcde", 1).unwrap_or("".to_string()),
        "a"
    );
    assert_eq!(
        VirtualKeyboard::pre_cursor("€bcde", 1).unwrap_or("".to_string()),
        "€"
    );
    assert_eq!(
        VirtualKeyboard::pre_cursor("€bcde", 2).unwrap_or("".to_string()),
        "€b"
    );
    assert_eq!(
        VirtualKeyboard::pre_cursor("€bcde", 5).unwrap_or("".to_string()),
        "€bcde"
    );
    assert_eq!(
        VirtualKeyboard::pre_cursor("€bcde", 6).unwrap_or("".to_string()),
        "€bcde"
    );
}

#[test]
fn test_on_cursor() {
    assert_eq!(VirtualKeyboard::on_cursor("a€c€e", 0).unwrap(), "a");
    assert_eq!(VirtualKeyboard::on_cursor("a€c€e", 1).unwrap(), "€");
    assert_eq!(VirtualKeyboard::on_cursor("a€c€e", 2).unwrap(), "c");
    assert_eq!(VirtualKeyboard::on_cursor("a€c€e", 3).unwrap(), "€");
    assert_eq!(VirtualKeyboard::on_cursor("a€c€e", 4).unwrap(), "e");
    assert!(VirtualKeyboard::on_cursor("a€c€e", 5).is_none());
}

#[test]
fn test_post_cursor() {
    assert_eq!(VirtualKeyboard::post_cursor("a€c€e", 0).unwrap(), "€c€e");
    assert_eq!(VirtualKeyboard::post_cursor("a€c€e", 1).unwrap(), "c€e");
    assert_eq!(VirtualKeyboard::post_cursor("a€c€e", 2).unwrap(), "€e");
    assert_eq!(VirtualKeyboard::post_cursor("a€c€e", 3).unwrap(), "e");
    assert!(VirtualKeyboard::post_cursor("a€c€e", 4).is_none());
    assert!(VirtualKeyboard::post_cursor("a€c€e", 5).is_none());
}

#[test]
fn empty_text_has_no_parts() {
    assert!(VirtualKeyboard::pre_cursor("", 0).is_none());
    assert!(VirtualKeyboard::on_cursor("", 0).is_none());
    assert!(VirtualKeyboard::post_cursor("", 0).is_none());
    assert_eq!(VirtualKeyboard::charlen(""), 0);
}

#[test]
fn post_cursor_at_largest_position() {
    assert!(VirtualKeyboard::post_cursor("abc", usize::MAX).is_none());
    assert!(VirtualKeyboard::on_cursor("abc", usize::MAX).is_none());
    assert_eq!(VirtualKeyboard::pre_cursor("abc", usize::MAX).unwrap(), "abc");
}

#[test]
fn split_parts_join_to_the_text() {
    let s = "a€c€e";
    for pos in 0..=5 {
        let pre = VirtualKeyboard::pre_cursor(s, pos).unwrap_or("".to_string());
        let on = VirtualKeyboard::on_cursor(s, pos).unwrap_or("".to_string());
        let post = VirtualKeyboard::post_cursor(s, pos).unwrap_or("".to_string());
        assert_eq!(format!("{}{}{}", pre, on, post), s);
        assert_eq!(VirtualKeyboard::charlen(&pre), pos);
    }
}

#[test]
fn escape_writes_entities() {
    assert_eq!(escape_markup("a<b&c>"), "a&lt;b&amp;c>");
    assert_eq!(escape_markup("€"), "€");
    assert_eq!(escape_markup(""), "");
}

#[test]
fn strings_compare_by_characters() {
    assert!(str_eq("ok", "ok"));
    assert!(!str_eq("ok", "oK"));
    assert!(!str_eq("ok", "okay"));
    assert!(str_eq("", ""));
}

#[test]
fn allow_list_accepts_listed_characters() {
    assert!(accepts("", "anything"));
    assert!(accepts("abc", "cab"));
    assert!(!accepts("abc", "d"));
    assert!(!accepts("abc", "ad"));
    assert!(accepts("abc", ""));
}
