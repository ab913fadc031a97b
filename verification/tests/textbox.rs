use librecast::event::{KeyCode, KeyModifiers};
use librecast::textbox::{Textbox, TextboxState};
use librecast::widgets::open_dialog::OpenDialogState;

fn plain() -> KeyModifiers {
    KeyModifiers::none()
}

fn field(text: &str, cursor_pos: usize) -> TextboxState {
    TextboxState { cursor_pos, text: text.to_string(), hint_text: None }
}

#[test]
fn a_new_field_is_empty_and_hints() {
    let s = TextboxState::default();
    assert_eq!(s.cursor_pos, 0);
    assert_eq!(s.text, "");
    assert_eq!(s.hint_text.as_deref(), Some("<enter stream address>"));
    assert_eq!(Textbox::line(&s), ("<enter stream address>".to_string(), true));
    assert_eq!(Textbox::cursor_char(&s), ' ');
}

#[test]
fn characters_go_in_at_the_cursor() {
    let mut s = field("ac", 1);
    assert!(!s.handle_events(KeyCode::Char('b'), plain()));
    assert_eq!(s.text, "abc");
    assert_eq!(s.cursor_pos, 2);
    assert!(!s.handle_events(KeyCode::Char('v'), plain()));
    assert_eq!(s.text, "abvc");
    assert_eq!(Textbox::line(&s), ("abvc".to_string(), false));
    assert_eq!(Textbox::cursor_char(&s), 'c');
}

#[test]
fn cursor_moves_within_the_text() {
    let mut s = field("ab", 0);
    s.handle_events(KeyCode::Left, plain());
    assert_eq!(s.cursor_pos, 0);
    s.handle_events(KeyCode::Right, plain());
    s.handle_events(KeyCode::Right, plain());
    s.handle_events(KeyCode::Right, plain());
    assert_eq!(s.cursor_pos, 2);
    s.handle_events(KeyCode::Left, plain());
    assert_eq!(s.cursor_pos, 1);
    assert_eq!(s.text, "ab");
}

#[test]
fn backspace_and_delete_remove_one_character() {
    let mut s = field("abc", 2);
    s.handle_events(KeyCode::Backspace, plain());
    assert_eq!((s.text.as_str(), s.cursor_pos), ("ac", 1));
    s.handle_events(KeyCode::Delete, plain());
    assert_eq!((s.text.as_str(), s.cursor_pos), ("a", 0));
    s.handle_events(KeyCode::Backspace, plain());
    assert_eq!((s.text.as_str(), s.cursor_pos), ("a", 0));
    s.handle_events(KeyCode::Delete, plain());
    assert_eq!((s.text.as_str(), s.cursor_pos), ("", 0));
    s.handle_events(KeyCode::Delete, plain());
    assert_eq!((s.text.as_str(), s.cursor_pos), ("", 0));
}

#[test]
fn delete_of_the_last_character_steps_back() {
    let mut s = field("abc", 2);
    s.handle_events(KeyCode::Delete, plain());
    assert_eq!((s.text.as_str(), s.cursor_pos), ("ab", 1));
}

#[test]
fn paste_key_asks_for_the_clipboard_and_paste_puts_it_in() {
    let mut s = field("ad", 1);
    let control = KeyModifiers { shift: false, control: true, alt: false };
    assert!(s.handle_events(KeyCode::Char('v'), control));
    assert_eq!((s.text.as_str(), s.cursor_pos), ("ad", 1));
    s.paste("bc");
    assert_eq!((s.text.as_str(), s.cursor_pos), ("abcd", 3));
}

#[test]
fn characters_count_not_bytes() {
    let mut s = field("čž", 1);
    s.handle_events(KeyCode::Char('š'), plain());
    assert_eq!((s.text.as_str(), s.cursor_pos), ("čšž", 2));
    s.handle_events(KeyCode::Backspace, plain());
    assert_eq!((s.text.as_str(), s.cursor_pos), ("čž", 1));
    assert_eq!(Textbox::cursor_char(&s), 'ž');
}

#[test]
fn other_keys_change_nothing() {
    let mut s = field("ab", 1);
    for code in [KeyCode::Up, KeyCode::Down, KeyCode::Enter, KeyCode::Esc, KeyCode::Tab, KeyCode::Other] {
        assert!(!s.handle_events(code, plain()));
    }
    assert_eq!((s.text.as_str(), s.cursor_pos), ("ab", 1));
}

#[test]
fn dialog_keeps_its_hint_when_cleared() {
    let mut d = OpenDialogState::default();
    d.handle_events(KeyCode::Char('x'), plain());
    d.paste("yz");
    assert_eq!(d.text(), "xyz");
    d.clear();
    assert_eq!(d.text(), "");
    d.handle_events(KeyCode::Char('q'), plain());
    assert_eq!(d.text(), "q");
}
