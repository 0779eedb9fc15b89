use lazyjira::events::key::{KeyCode, KeyEvent, KeyModifiers};
use lazyjira::ui::components::input::{InputMode, TextInput};

#[test]
fn test_new_input() {
    let input = TextInput::new();
    assert!(input.is_empty());
    assert_eq!(input.cursor(), 0);
    assert_eq!(input.value(), "");
}

#[test]
fn test_masked_input() {
    let mut input = TextInput::masked();
    input.set_value("secret");
    assert_eq!(input.value(), "secret");
    assert_eq!(input.display_value(), "••••••");
}

#[test]
fn test_with_value() {
    let input = TextInput::with_value("hello");
    assert_eq!(input.value(), "hello");
    assert_eq!(input.cursor(), 5);
}

#[test]
fn test_set_value() {
    let mut input = TextInput::new();
    input.set_value("test");
    assert_eq!(input.value(), "test");
    assert_eq!(input.cursor(), 4);
}

#[test]
fn test_clear() {
    let mut input = TextInput::with_value("hello");
    input.clear();
    assert!(input.is_empty());
    assert_eq!(input.cursor(), 0);
}

#[test]
fn test_character_input() {
    let mut input = TextInput::new();

    let key = KeyEvent::new(KeyCode::Char('a'), KeyModifiers::NONE);
    assert!(input.handle_input(key));
    assert_eq!(input.value(), "a");
    assert_eq!(input.cursor(), 1);

    let key = KeyEvent::new(KeyCode::Char('b'), KeyModifiers::NONE);
    input.handle_input(key);
    assert_eq!(input.value(), "ab");
    assert_eq!(input.cursor(), 2);
}

#[test]
fn test_backspace() {
    let mut input = TextInput::with_value("abc");

    let key = KeyEvent::new(KeyCode::Backspace, KeyModifiers::NONE);
    assert!(input.handle_input(key));
    assert_eq!(input.value(), "ab");
    assert_eq!(input.cursor(), 2);
}

#[test]
fn test_backspace_at_start() {
    let mut input = TextInput::new();
    input.set_value("abc");
    input.cursor = 0;

    let key = KeyEvent::new(KeyCode::Backspace, KeyModifiers::NONE);
    assert!(!input.handle_input(key));
    assert_eq!(input.value(), "abc");
}

#[test]
fn test_delete() {
    let mut input = TextInput::with_value("abc");
    input.cursor = 0;

    let key = KeyEvent::new(KeyCode::Delete, KeyModifiers::NONE);
    assert!(input.handle_input(key));
    assert_eq!(input.value(), "bc");
    assert_eq!(input.cursor(), 0);
}

#[test]
fn test_delete_at_end() {
    let mut input = TextInput::with_value("abc");

    let key = KeyEvent::new(KeyCode::Delete, KeyModifiers::NONE);
    assert!(!input.handle_input(key));
    assert_eq!(input.value(), "abc");
}

#[test]
fn test_cursor_left() {
    let mut input = TextInput::with_value("abc");
    assert_eq!(input.cursor(), 3);

    let key = KeyEvent::new(KeyCode::Left, KeyModifiers::NONE);
    input.handle_input(key);
    assert_eq!(input.cursor(), 2);
}

#[test]
fn test_cursor_left_at_start() {
    let mut input = TextInput::with_value("abc");
    input.cursor = 0;

    let key = KeyEvent::new(KeyCode::Left, KeyModifiers::NONE);
    input.handle_input(key);
    assert_eq!(input.cursor(), 0);
}

#[test]
fn test_cursor_right() {
    let mut input = TextInput::with_value("abc");
    input.cursor = 0;

    let key = KeyEvent::new(KeyCode::Right, KeyModifiers::NONE);
    input.handle_input(key);
    assert_eq!(input.cursor(), 1);
}

#[test]
fn test_cursor_right_at_end() {
    let mut input = TextInput::with_value("abc");

    let key = KeyEvent::new(KeyCode::Right, KeyModifiers::NONE);
    input.handle_input(key);
    assert_eq!(input.cursor(), 3);
}

#[test]
fn test_home_key() {
    let mut input = TextInput::with_value("abc");

    let key = KeyEvent::new(KeyCode::Home, KeyModifiers::NONE);
    input.handle_input(key);
    assert_eq!(input.cursor(), 0);
}

#[test]
fn test_end_key() {
    let mut input = TextInput::with_value("abc");
    input.cursor = 0;

    let key = KeyEvent::new(KeyCode::End, KeyModifiers::NONE);
    input.handle_input(key);
    assert_eq!(input.cursor(), 3);
}

#[test]
fn test_ctrl_u_clear() {
    let mut input = TextInput::with_value("hello");

    let key = KeyEvent::new(KeyCode::Char('u'), KeyModifiers::CONTROL);
    assert!(input.handle_input(key));
    assert!(input.is_empty());
    assert_eq!(input.cursor(), 0);
}

#[test]
fn test_ctrl_u_empty() {
    let mut input = TextInput::new();

    let key = KeyEvent::new(KeyCode::Char('u'), KeyModifiers::CONTROL);
    assert!(!input.handle_input(key));
}

#[test]
fn test_ctrl_w_delete_word() {
    let mut input = TextInput::with_value("hello world");

    let key = KeyEvent::new(KeyCode::Char('w'), KeyModifiers::CONTROL);
    assert!(input.handle_input(key));
    assert_eq!(input.value(), "hello ");
}

#[test]
fn test_insert_in_middle() {
    let mut input = TextInput::with_value("ac");
    input.cursor = 1;

    let key = KeyEvent::new(KeyCode::Char('b'), KeyModifiers::NONE);
    input.handle_input(key);
    assert_eq!(input.value(), "abc");
    assert_eq!(input.cursor(), 2);
}

#[test]
fn input_test_placeholder() {
    let mut input = TextInput::new();
    input.set_placeholder("Enter text...");

    // Placeholder should be used for display when empty
    assert!(input.is_empty());
}

#[test]
fn test_display_value_not_masked() {
    let input = TextInput::with_value("hello");
    assert_eq!(input.display_value(), "hello");
}

#[test]
fn test_display_value_masked() {
    let mut input = TextInput::new();
    input.set_masked(true);
    input.set_value("secret");
    assert_eq!(input.display_value(), "••••••");
}

#[test]
fn type_then_backspace_restores_value() {
    let mut input = TextInput::with_value("ab");
    input.handle_input(KeyEvent::new(KeyCode::Left, KeyModifiers::NONE));
    input.handle_input(KeyEvent::new(KeyCode::Char('X'), KeyModifiers::SHIFT));
    assert_eq!(input.value(), "aXb");
    input.handle_input(KeyEvent::new(KeyCode::Backspace, KeyModifiers::NONE));
    assert_eq!(input.value(), "ab");
    assert_eq!(input.cursor(), 1);
}

#[test]
fn ctrl_a_and_ctrl_e_move_to_the_ends() {
    let mut input = TextInput::with_value("hello");
    assert!(!input.handle_input(KeyEvent::new(KeyCode::Char('a'), KeyModifiers::CONTROL)));
    assert_eq!(input.cursor(), 0);
    assert!(!input.handle_input(KeyEvent::new(KeyCode::Char('e'), KeyModifiers::CONTROL)));
    assert_eq!(input.cursor(), 5);
}

#[test]
fn ctrl_w_stops_at_non_alphanumeric() {
    let mut input = TextInput::with_value("foo-bar baz");
    assert!(input.handle_input(KeyEvent::new(KeyCode::Char('w'), KeyModifiers::CONTROL)));
    assert_eq!(input.value(), "foo-bar ");
    // Right after a space the word before the cursor is empty: nothing is removed
    assert!(!input.handle_input(KeyEvent::new(KeyCode::Char('w'), KeyModifiers::CONTROL)));
    assert_eq!(input.value(), "foo-bar ");
    input.handle_input(KeyEvent::new(KeyCode::Left, KeyModifiers::NONE));
    assert!(input.handle_input(KeyEvent::new(KeyCode::Char('w'), KeyModifiers::CONTROL)));
    assert_eq!(input.value(), "foo- ");
}

#[test]
fn masked_display_counts_bytes() {
    let mut input = TextInput::masked();
    input.set_value("é");
    assert_eq!(input.display_value(), "••");
    assert_eq!(InputMode::default(), InputMode::Normal);
}

#[test]
fn test_ctrl_w_after_separator_changes_nothing() {
    let mut input = TextInput::with_value("a ");
    let key = KeyEvent::new(KeyCode::Char('w'), KeyModifiers::CONTROL);
    assert!(!input.handle_input(key));
    assert_eq!(input.value(), "a ");
    assert_eq!(input.cursor(), 2);
}

#[test]
fn cursor_is_a_byte_offset() {
    let input = TextInput::with_value("é");
    assert_eq!(input.cursor(), 2);
    let mut input = TextInput::with_value("aé");
    input.handle_input(KeyEvent::new(KeyCode::Home, KeyModifiers::NONE));
    input.handle_input(KeyEvent::new(KeyCode::Right, KeyModifiers::NONE));
    assert_eq!(input.cursor(), 1);
    input.handle_input(KeyEvent::new(KeyCode::End, KeyModifiers::NONE));
    assert_eq!(input.cursor(), 3);
}
