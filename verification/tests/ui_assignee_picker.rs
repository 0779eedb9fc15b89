use lazyjira::api::types::User;
use lazyjira::events::key::{KeyCode, KeyEvent, KeyModifiers};
use lazyjira::ui::components::assignee_picker::{AssigneeAction, AssigneePicker};
use lazyjira::ui::components::InputMode;

fn create_test_user(account_id: &str, display_name: &str) -> User {
    User {
        account_id: account_id.to_string(),
        display_name: display_name.to_string(),
        email_address: None,
        active: true,
    }
}

#[test]
fn assignee_picker_test_new_picker() {
    let picker = AssigneePicker::new();
    assert!(!picker.is_visible());
    assert!(!picker.is_loading());
    assert_eq!(picker.user_count(), 0);
}

#[test]
fn assignee_picker_test_show_loading() {
    let mut picker = AssigneePicker::new();
    picker.show_loading("John Doe");

    assert!(picker.is_visible());
    assert!(picker.is_loading());
    assert_eq!(picker.current_assignee, "John Doe");
}

#[test]
fn test_show_users() {
    let mut picker = AssigneePicker::new();
    let users = vec![
        create_test_user("user1", "Alice Smith"),
        create_test_user("user2", "Bob Jones"),
    ];

    picker.show(users, "Current User");

    assert!(picker.is_visible());
    assert!(!picker.is_loading());
    assert_eq!(picker.user_count(), 2);
    assert_eq!(picker.current_assignee, "Current User");
}

#[test]
fn assignee_picker_test_hide() {
    let mut picker = AssigneePicker::new();
    picker.show_loading("User");
    assert!(picker.is_visible());

    picker.close();
    assert!(!picker.is_visible());
    assert!(!picker.is_loading());
}

#[test]
fn assignee_picker_test_navigation_down() {
    let mut picker = AssigneePicker::new();
    let users = vec![
        create_test_user("user1", "Alice"),
        create_test_user("user2", "Bob"),
    ];
    picker.show(users, "Current");

    // Initial selection is 0 (Unassigned)
    assert_eq!(picker.selected, 0);

    // Navigate down with arrow key
    let key = KeyEvent::new(KeyCode::Down, KeyModifiers::NONE);
    let action = picker.handle_input(key);
    assert!(action.is_none());
    assert_eq!(picker.selected, 1);

    // Navigate down again
    let action = picker.handle_input(key);
    assert!(action.is_none());
    assert_eq!(picker.selected, 2);

    // Can't go past the end (2 users + 1 unassigned = 3 items, max index = 2)
    let action = picker.handle_input(key);
    assert!(action.is_none());
    assert_eq!(picker.selected, 2);
}

#[test]
fn assignee_picker_test_navigation_up() {
    let mut picker = AssigneePicker::new();
    let users = vec![
        create_test_user("user1", "Alice"),
        create_test_user("user2", "Bob"),
    ];
    picker.show(users, "Current");
    picker.selected = 2;

    // Navigate up with arrow key
    let key = KeyEvent::new(KeyCode::Up, KeyModifiers::NONE);
    let action = picker.handle_input(key);
    assert!(action.is_none());
    assert_eq!(picker.selected, 1);

    // Navigate up again
    let action = picker.handle_input(key);
    assert!(action.is_none());
    assert_eq!(picker.selected, 0);

    // Can't go past the beginning
    let action = picker.handle_input(key);
    assert!(action.is_none());
    assert_eq!(picker.selected, 0);
}

#[test]
fn test_select_unassigned_with_enter() {
    let mut picker = AssigneePicker::new();
    let users = vec![create_test_user("user1", "Alice")];
    picker.show(users, "Current");

    // Select "Unassigned" (index 0) with Enter
    let key = KeyEvent::new(KeyCode::Enter, KeyModifiers::NONE);
    let action = picker.handle_input(key);

    assert_eq!(action, Some(AssigneeAction::Unassign));
    assert!(!picker.is_visible());
}

#[test]
fn test_select_unassigned_with_space() {
    let mut picker = AssigneePicker::new();
    let users = vec![create_test_user("user1", "Alice")];
    picker.show(users, "Current");

    // Select "Unassigned" (index 0) with Space
    let key = KeyEvent::new(KeyCode::Char(' '), KeyModifiers::NONE);
    let action = picker.handle_input(key);

    assert_eq!(action, Some(AssigneeAction::Unassign));
    assert!(!picker.is_visible());
}

#[test]
fn assignee_picker_test_slash_enters_search_mode() {
    let mut picker = AssigneePicker::new();
    let users = vec![create_test_user("user1", "Alice")];
    picker.show(users, "Current");

    // '/' in Normal mode enters search (Insert) mode
    let key = KeyEvent::new(KeyCode::Char('/'), KeyModifiers::NONE);
    let action = picker.handle_input(key);

    assert!(action.is_none());
    assert_eq!(picker.input_mode, InputMode::Insert);
}

#[test]
fn test_select_user_with_enter() {
    let mut picker = AssigneePicker::new();
    let users = vec![
        create_test_user("user1", "Alice"),
        create_test_user("user2", "Bob"),
    ];
    picker.show(users, "Current");

    // Navigate to first user
    picker.selected = 1;

    // Select with Enter
    let key = KeyEvent::new(KeyCode::Enter, KeyModifiers::NONE);
    let action = picker.handle_input(key);

    assert_eq!(
        action,
        Some(AssigneeAction::Select(
            "user1".to_string(),
            "Alice".to_string()
        ))
    );
    assert!(!picker.is_visible());
}

#[test]
fn test_select_user_with_space() {
    let mut picker = AssigneePicker::new();
    let users = vec![
        create_test_user("user1", "Alice"),
        create_test_user("user2", "Bob"),
    ];
    picker.show(users, "Current");

    // Navigate to first user
    picker.selected = 1;

    // Select with Space
    let key = KeyEvent::new(KeyCode::Char(' '), KeyModifiers::NONE);
    let action = picker.handle_input(key);

    assert_eq!(
        action,
        Some(AssigneeAction::Select(
            "user1".to_string(),
            "Alice".to_string()
        ))
    );
    assert!(!picker.is_visible());
}

#[test]
fn assignee_picker_test_cancel_with_esc() {
    let mut picker = AssigneePicker::new();
    picker.show(vec![create_test_user("user1", "Alice")], "Current");

    let key = KeyEvent::new(KeyCode::Esc, KeyModifiers::NONE);
    let action = picker.handle_input(key);

    assert_eq!(action, Some(AssigneeAction::Cancel));
    assert!(!picker.is_visible());
}

#[test]
fn test_q_cancels_in_normal_mode() {
    let mut picker = AssigneePicker::new();
    picker.show(vec![create_test_user("user1", "Alice")], "Current");

    // 'q' in Normal mode should cancel
    let key = KeyEvent::new(KeyCode::Char('q'), KeyModifiers::NONE);
    let action = picker.handle_input(key);

    assert_eq!(action, Some(AssigneeAction::Cancel));
    assert!(!picker.is_visible());
}

#[test]
fn test_q_adds_to_search_in_insert_mode() {
    let mut picker = AssigneePicker::new();
    picker.show(vec![create_test_user("user1", "Alice")], "Current");

    // Enter search mode with '/'
    let slash = KeyEvent::new(KeyCode::Char('/'), KeyModifiers::NONE);
    picker.handle_input(slash);
    assert_eq!(picker.input_mode, InputMode::Insert);

    // 'q' in search mode should add to search query
    let key = KeyEvent::new(KeyCode::Char('q'), KeyModifiers::NONE);
    let action = picker.handle_input(key);

    assert!(action.is_none()); // No action, character added to search
    assert!(picker.is_visible()); // Still visible
    assert_eq!(picker.search_query, "q");
}

#[test]
fn assignee_picker_test_esc_while_loading() {
    let mut picker = AssigneePicker::new();
    picker.show_loading("Current");

    let key = KeyEvent::new(KeyCode::Esc, KeyModifiers::NONE);
    let action = picker.handle_input(key);

    assert_eq!(action, Some(AssigneeAction::Cancel));
    assert!(!picker.is_visible());
}

#[test]
fn assignee_picker_test_input_ignored_while_loading() {
    let mut picker = AssigneePicker::new();
    picker.show_loading("Current");

    // Navigation should be ignored while loading
    let key = KeyEvent::new(KeyCode::Char('j'), KeyModifiers::NONE);
    let action = picker.handle_input(key);
    assert!(action.is_none());

    // Enter should be ignored while loading
    let key = KeyEvent::new(KeyCode::Enter, KeyModifiers::NONE);
    let action = picker.handle_input(key);
    assert!(action.is_none());
}

#[test]
fn assignee_picker_test_input_ignored_when_not_visible() {
    let mut picker = AssigneePicker::new();

    let key = KeyEvent::new(KeyCode::Enter, KeyModifiers::NONE);
    let action = picker.handle_input(key);
    assert!(action.is_none());
}

#[test]
fn assignee_picker_test_search_filter() {
    let mut picker = AssigneePicker::new();
    let users = vec![
        create_test_user("user1", "Alice Smith"),
        create_test_user("user2", "Bob Jones"),
        create_test_user("user3", "Alice Jones"),
    ];
    picker.show(users, "Current");

    // Initially all 3 users visible + Unassigned = 4 items
    assert_eq!(picker.selectable_count(), 4);
    assert_eq!(picker.filtered_indices.len(), 3);

    // Enter search mode with '/'
    let slash = KeyEvent::new(KeyCode::Char('/'), KeyModifiers::NONE);
    picker.handle_input(slash);

    // Type 'a' to filter
    let key = KeyEvent::new(KeyCode::Char('a'), KeyModifiers::NONE);
    picker.handle_input(key);

    // Should now show only "Alice Smith" and "Alice Jones" + Unassigned
    assert_eq!(picker.filtered_indices.len(), 2);
    assert_eq!(picker.selectable_count(), 3);
    assert_eq!(picker.selected, 0); // Reset to 0 on filter

    // Type 'l' to filter to "alice" (still 2 matches)
    let key = KeyEvent::new(KeyCode::Char('l'), KeyModifiers::NONE);
    picker.handle_input(key);
    assert_eq!(picker.filtered_indices.len(), 2);

    // Type 'ice s' to filter to "Alice S" -> "Alice Smith" only
    for c in ['i', 'c', 'e', ' ', 's'] {
        let key = KeyEvent::new(KeyCode::Char(c), KeyModifiers::NONE);
        picker.handle_input(key);
    }
    assert_eq!(picker.filtered_indices.len(), 1); // Only "Alice Smith"

    // Backspace to remove 's'
    let key = KeyEvent::new(KeyCode::Backspace, KeyModifiers::NONE);
    picker.handle_input(key);
    assert_eq!(picker.filtered_indices.len(), 2); // Back to both Alices
}

#[test]
fn assignee_picker_test_default_impl() {
    let picker = AssigneePicker::default();
    assert!(!picker.is_visible());
}

#[test]
fn assignee_search_ignores_case_and_keeps_order() {
    let mut picker = AssigneePicker::new();
    picker.show(
        vec![
            create_test_user("u1", "Zed ALICE"),
            create_test_user("u2", "bob"),
            create_test_user("u3", "alice b"),
        ],
        "",
    );
    picker.handle_input(KeyEvent::new(KeyCode::Char('/'), KeyModifiers::NONE));
    for c in "aLi".chars() {
        picker.handle_input(KeyEvent::new(KeyCode::Char(c), KeyModifiers::NONE));
    }
    assert_eq!(picker.filtered_indices, vec![0, 2]);
    // Digits are not typed into the query
    picker.handle_input(KeyEvent::new(KeyCode::Char('1'), KeyModifiers::NONE));
    assert_eq!(picker.search_query, "aLi");
    // Back to normal mode, select the second listed user
    picker.handle_input(KeyEvent::new(KeyCode::Esc, KeyModifiers::NONE));
    picker.handle_input(KeyEvent::new(KeyCode::Down, KeyModifiers::NONE));
    picker.handle_input(KeyEvent::new(KeyCode::Down, KeyModifiers::NONE));
    let action = picker.handle_input(KeyEvent::new(KeyCode::Enter, KeyModifiers::NONE));
    assert_eq!(
        action,
        Some(AssigneeAction::Select("u3".to_string(), "alice b".to_string()))
    );
    assert!(picker.search_query.is_empty());
}
