use lazyjira::events::key::{KeyCode, KeyEvent, KeyModifiers};
use lazyjira::ui::components::profile_picker::{ProfilePicker, ProfilePickerAction};
use lazyjira::ui::layout::{centered_rect, Rect};

#[test]
fn profile_picker_test_new_picker() {
    let picker = ProfilePicker::new();
    assert!(!picker.is_visible());
    assert_eq!(picker.profile_count(), 0);
}

#[test]
fn test_show_picker() {
    let mut picker = ProfilePicker::new();
    let profiles = vec!["work".to_string(), "personal".to_string()];
    picker.show(profiles, "work");

    assert!(picker.is_visible());
    assert_eq!(picker.profile_count(), 2);
    assert_eq!(picker.selected, 0);
    assert_eq!(picker.selected_profile(), Some(&"work".to_string()));
}

#[test]
fn test_show_selects_current_profile() {
    let mut picker = ProfilePicker::new();
    let profiles = vec![
        "work".to_string(),
        "personal".to_string(),
        "client".to_string(),
    ];
    picker.show(profiles, "personal");

    assert_eq!(picker.selected, 1);
    assert_eq!(picker.selected_profile(), Some(&"personal".to_string()));
}

#[test]
fn test_hide_picker() {
    let mut picker = ProfilePicker::new();
    picker.show(vec!["work".to_string()], "work");
    picker.close();

    assert!(!picker.is_visible());
}

#[test]
fn profile_picker_test_navigation_down() {
    let mut picker = ProfilePicker::new();
    picker.show(
        vec!["a".to_string(), "b".to_string(), "c".to_string()],
        "a",
    );

    assert_eq!(picker.selected, 0);

    // Move down with Down arrow
    let key = KeyEvent::new(KeyCode::Down, KeyModifiers::NONE);
    picker.handle_input(key);
    assert_eq!(picker.selected, 1);

    // Move down again
    picker.handle_input(key);
    assert_eq!(picker.selected, 2);

    // Should not go past the end
    picker.handle_input(key);
    assert_eq!(picker.selected, 2);
}

#[test]
fn profile_picker_test_navigation_up() {
    let mut picker = ProfilePicker::new();
    picker.show(
        vec!["a".to_string(), "b".to_string(), "c".to_string()],
        "c",
    );
    assert_eq!(picker.selected, 2);

    // Move up with Up arrow
    let key = KeyEvent::new(KeyCode::Up, KeyModifiers::NONE);
    picker.handle_input(key);
    assert_eq!(picker.selected, 1);

    // Move up again
    picker.handle_input(key);
    assert_eq!(picker.selected, 0);

    // Should not go below 0
    picker.handle_input(key);
    assert_eq!(picker.selected, 0);
}

#[test]
fn profile_picker_test_select_with_enter() {
    let mut picker = ProfilePicker::new();
    picker.show(vec!["work".to_string(), "personal".to_string()], "work");

    // Navigate to second item with arrow key
    let key = KeyEvent::new(KeyCode::Down, KeyModifiers::NONE);
    picker.handle_input(key);

    // Press Enter
    let key = KeyEvent::new(KeyCode::Enter, KeyModifiers::NONE);
    let action = picker.handle_input(key);

    assert_eq!(
        action,
        Some(ProfilePickerAction::Select("personal".to_string()))
    );
    assert!(!picker.is_visible());
}

#[test]
fn profile_picker_test_cancel_with_esc() {
    let mut picker = ProfilePicker::new();
    picker.show(vec!["work".to_string()], "work");

    let key = KeyEvent::new(KeyCode::Esc, KeyModifiers::NONE);
    let action = picker.handle_input(key);

    assert_eq!(action, Some(ProfilePickerAction::Cancel));
    assert!(!picker.is_visible());
}

#[test]
fn profile_picker_test_cancel_with_q() {
    let mut picker = ProfilePicker::new();
    picker.show(vec!["work".to_string()], "work");

    // 'q' should cancel (vim-style)
    let key = KeyEvent::new(KeyCode::Char('q'), KeyModifiers::NONE);
    let action = picker.handle_input(key);

    assert_eq!(action, Some(ProfilePickerAction::Cancel));
    assert!(!picker.is_visible());
}

#[test]
fn test_empty_profiles() {
    let mut picker = ProfilePicker::new();
    picker.show(vec![], "");

    assert!(picker.is_visible());
    assert_eq!(picker.profile_count(), 0);
    assert!(picker.selected_profile().is_none());

    // Navigation should not panic
    let key = KeyEvent::new(KeyCode::Down, KeyModifiers::NONE);
    picker.handle_input(key);
    assert_eq!(picker.selected, 0);
}

#[test]
fn profile_picker_test_navigation_with_j_k() {
    let mut picker = ProfilePicker::new();
    picker.show(
        vec!["a".to_string(), "b".to_string(), "c".to_string()],
        "a",
    );

    assert_eq!(picker.selected, 0);

    // Move down with j
    let key = KeyEvent::new(KeyCode::Char('j'), KeyModifiers::NONE);
    picker.handle_input(key);
    assert_eq!(picker.selected, 1);

    // Move up with k
    let key = KeyEvent::new(KeyCode::Char('k'), KeyModifiers::NONE);
    picker.handle_input(key);
    assert_eq!(picker.selected, 0);
}

#[test]
fn profile_picker_test_centered_rect() {
    let area = Rect::new(0, 0, 100, 50);
    let centered = centered_rect(area, 40, 20);

    assert_eq!(centered.x, 30);
    assert_eq!(centered.y, 15);
    assert_eq!(centered.width, 40);
    assert_eq!(centered.height, 20);
}

#[test]
fn profile_picker_test_centered_rect_larger_than_area() {
    let area = Rect::new(0, 0, 30, 20);
    let centered = centered_rect(area, 50, 30);

    assert_eq!(centered.width, 30);
    assert_eq!(centered.height, 20);
}

#[test]
fn profile_picker_esc_with_modifier_cancels() {
    let mut picker = ProfilePicker::new();
    picker.show(vec!["a".to_string()], "zzz");
    assert_eq!(picker.selected, 0);
    let action = picker.handle_input(KeyEvent::new(KeyCode::Esc, KeyModifiers::SHIFT));
    assert_eq!(action, Some(ProfilePickerAction::Cancel));
    assert!(!picker.is_visible());
}
