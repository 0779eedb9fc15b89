use lazyjira::events::key::{KeyCode, KeyEvent, KeyModifiers};
use lazyjira::ui::components::jql_input::{get_hint_for_input, JqlAction, JqlInput};

#[test]
fn jql_input_test_new() {
    let input = JqlInput::new();
    assert!(!input.is_visible());
    assert!(input.history().is_empty());
    assert!(input.value().is_empty());
}

#[test]
fn test_with_history() {
    let history = vec![
        "project = TEST".to_string(),
        "status = Open".to_string(),
    ];
    let input = JqlInput::with_history(history.clone());
    assert_eq!(input.history(), history);
}

#[test]
fn jql_input_test_show_hide() {
    let mut input = JqlInput::new();
    assert!(!input.is_visible());

    input.show();
    assert!(input.is_visible());
    assert!(input.value().is_empty());

    input.close();
    assert!(!input.is_visible());
}

#[test]
fn test_show_clears_state() {
    let mut input = JqlInput::new();
    input.set_error("Test error");
    input.show();

    assert!(input.error.is_none());
    assert!(input.history_index.is_none());
}

#[test]
fn test_set_error() {
    let mut input = JqlInput::new();
    input.set_error("Invalid JQL");
    assert_eq!(input.error, Some("Invalid JQL".to_string()));

    input.clear_error();
    assert!(input.error.is_none());
}

#[test]
fn test_execute_empty_query() {
    let mut input = JqlInput::new();
    input.show();

    let action = input.handle_input(KeyEvent::new(KeyCode::Enter, KeyModifiers::NONE));
    // Empty query should not execute
    assert!(action.is_none());
    assert!(input.is_visible());
}

#[test]
fn test_execute_query() {
    let mut input = JqlInput::new();
    input.show();

    // Type a query
    for c in "project = TEST".chars() {
        input.handle_input(KeyEvent::new(KeyCode::Char(c), KeyModifiers::NONE));
    }

    let action = input.handle_input(KeyEvent::new(KeyCode::Enter, KeyModifiers::NONE));
    assert_eq!(action, Some(JqlAction::Execute("project = TEST".to_string())));
    assert!(!input.is_visible());
}

#[test]
fn test_cancel() {
    let mut input = JqlInput::new();
    input.show();

    let action = input.handle_input(KeyEvent::new(KeyCode::Esc, KeyModifiers::NONE));
    assert_eq!(action, Some(JqlAction::Cancel));
    assert!(!input.is_visible());
}

#[test]
fn test_history_navigation() {
    let mut input = JqlInput::with_history(vec![
        "query1".to_string(),
        "query2".to_string(),
        "query3".to_string(),
    ]);
    input.show();

    // Type some text
    for c in "current".chars() {
        input.handle_input(KeyEvent::new(KeyCode::Char(c), KeyModifiers::NONE));
    }
    assert_eq!(input.value(), "current");

    // Up arrow should go to most recent history (query1)
    input.handle_input(KeyEvent::new(KeyCode::Up, KeyModifiers::NONE));
    assert_eq!(input.value(), "query1");
    assert_eq!(input.history_index, Some(0));

    // Up again should go to query2
    input.handle_input(KeyEvent::new(KeyCode::Up, KeyModifiers::NONE));
    assert_eq!(input.value(), "query2");
    assert_eq!(input.history_index, Some(1));

    // Down should go back to query1
    input.handle_input(KeyEvent::new(KeyCode::Down, KeyModifiers::NONE));
    assert_eq!(input.value(), "query1");
    assert_eq!(input.history_index, Some(0));

    // Down again should restore original text
    input.handle_input(KeyEvent::new(KeyCode::Down, KeyModifiers::NONE));
    assert_eq!(input.value(), "current");
    assert!(input.history_index.is_none());
}

#[test]
fn test_history_empty() {
    let mut input = JqlInput::new();
    input.show();

    // Up/down should do nothing with empty history
    input.handle_input(KeyEvent::new(KeyCode::Up, KeyModifiers::NONE));
    assert!(input.history_index.is_none());

    input.handle_input(KeyEvent::new(KeyCode::Down, KeyModifiers::NONE));
    assert!(input.history_index.is_none());
}

#[test]
fn test_add_to_history() {
    let mut input = JqlInput::new();
    input.show();

    // Execute a query
    for c in "query1".chars() {
        input.handle_input(KeyEvent::new(KeyCode::Char(c), KeyModifiers::NONE));
    }
    input.handle_input(KeyEvent::new(KeyCode::Enter, KeyModifiers::NONE));

    // History should contain the query
    assert_eq!(input.history(), vec!["query1".to_string()]);
}

#[test]
fn test_history_deduplication() {
    let mut input = JqlInput::with_history(vec![
        "query1".to_string(),
        "query2".to_string(),
    ]);

    // Add query1 again - it should move to front
    input.add_to_history("query1".to_string());

    assert_eq!(input.history(), vec!["query1".to_string(), "query2".to_string()]);
}

#[test]
fn test_history_max_size() {
    let mut input = JqlInput::new();

    // Add more than MAX_HISTORY items
    for i in 0..15 {
        input.add_to_history(format!("query{}", i));
    }

    // Should be limited to MAX_HISTORY
    assert_eq!(input.history().len(), JqlInput::MAX_HISTORY);
    // Most recent should be first
    assert!(input.history()[0].starts_with("query14"));
}

#[test]
fn test_typing_resets_history_index() {
    let mut input = JqlInput::with_history(vec!["query1".to_string()]);
    input.show();

    // Navigate to history
    input.handle_input(KeyEvent::new(KeyCode::Up, KeyModifiers::NONE));
    assert_eq!(input.history_index, Some(0));

    // Type a character
    input.handle_input(KeyEvent::new(KeyCode::Char('a'), KeyModifiers::NONE));

    // History index should be reset
    assert!(input.history_index.is_none());
}

#[test]
fn test_input_clears_error() {
    let mut input = JqlInput::new();
    input.show();
    input.set_error("Test error");

    // Any key should clear the error
    input.handle_input(KeyEvent::new(KeyCode::Char('a'), KeyModifiers::NONE));
    assert!(input.error.is_none());
}

#[test]
fn test_get_hint_for_input() {
    // Test partial matches at the end - the hint triggers when you finish typing the prefix
    assert_eq!(get_hint_for_input("project ="), Some("Filter by project key"));
    assert_eq!(get_hint_for_input("status ="), Some("Filter by status name"));
    assert_eq!(get_hint_for_input("assignee ="), Some("Filter by assignee (use currentUser() for self)"));
    assert_eq!(get_hint_for_input("ORDER BY"), Some("Sort results"));

    // Case insensitive
    assert_eq!(get_hint_for_input("PROJECT ="), Some("Filter by project key"));

    // After space should still match since we trim the prefix
    assert_eq!(get_hint_for_input("project = "), Some("Filter by project key"));

    // No match for unrelated text
    assert!(get_hint_for_input("random text").is_none());
}

#[test]
fn test_history_at_oldest() {
    let mut input = JqlInput::with_history(vec![
        "query1".to_string(),
        "query2".to_string(),
    ]);
    input.show();

    // Navigate to oldest
    input.handle_input(KeyEvent::new(KeyCode::Up, KeyModifiers::NONE));
    input.handle_input(KeyEvent::new(KeyCode::Up, KeyModifiers::NONE));
    assert_eq!(input.value(), "query2");

    // Another Up should stay at oldest
    input.handle_input(KeyEvent::new(KeyCode::Up, KeyModifiers::NONE));
    assert_eq!(input.value(), "query2");
}

#[test]
fn test_down_without_history_navigation() {
    let mut input = JqlInput::with_history(vec!["query1".to_string()]);
    input.show();

    // Down without being in history should do nothing
    input.handle_input(KeyEvent::new(KeyCode::Down, KeyModifiers::NONE));
    assert!(input.history_index.is_none());
    assert!(input.value().is_empty());
}

#[test]
fn history_up_then_down_restores_typed_text() {
    let mut input = JqlInput::with_history(vec!["q1".to_string()]);
    input.show();
    for c in "abc".chars() {
        input.handle_input(KeyEvent::new(KeyCode::Char(c), KeyModifiers::NONE));
    }
    input.handle_input(KeyEvent::new(KeyCode::Up, KeyModifiers::NONE));
    assert_eq!(input.value(), "q1");
    input.handle_input(KeyEvent::new(KeyCode::Down, KeyModifiers::NONE));
    assert_eq!(input.value(), "abc");
    assert!(input.history_index.is_none());
}
