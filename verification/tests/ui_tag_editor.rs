use lazyjira::events::key::{KeyCode, KeyEvent, KeyModifiers};
use lazyjira::ui::components::tag_editor::{TagAction, TagColor as Color, TagEditor, TagEditorConfig};

#[test]
fn test_new_editor() {
    let editor = TagEditor::for_labels();
    assert!(!editor.is_visible());
    assert!(!editor.is_loading());
}

#[test]
fn tag_editor_test_show_loading() {
    let mut editor = TagEditor::for_labels();
    editor.show_loading(vec!["bug".to_string()]);

    assert!(editor.is_visible());
    assert!(editor.is_loading());
    assert_eq!(editor.current_tags, vec!["bug"]);
}

#[test]
fn tag_editor_test_show() {
    let mut editor = TagEditor::for_labels();
    let current = vec!["bug".to_string()];
    let available = vec!["bug".to_string(), "feature".to_string(), "docs".to_string()];

    editor.show(current, available);

    assert!(editor.is_visible());
    assert!(!editor.is_loading());
    assert_eq!(editor.current_tags.len(), 1);
    assert_eq!(editor.available_tags.len(), 3);
}

#[test]
fn tag_editor_test_hide() {
    let mut editor = TagEditor::for_labels();
    editor.show_loading(vec![]);
    assert!(editor.is_visible());

    editor.close();
    assert!(!editor.is_visible());
    assert!(!editor.is_loading());
}

#[test]
fn tag_editor_test_navigation_down() {
    let mut editor = TagEditor::for_labels();
    let current = vec![];
    let available = vec!["a".to_string(), "b".to_string(), "c".to_string()];
    editor.show(current, available);

    assert_eq!(editor.selected, 0);

    let key = KeyEvent::new(KeyCode::Char('j'), KeyModifiers::NONE);
    let action = editor.handle_input(key);
    assert!(action.is_none());
    assert_eq!(editor.selected, 1);

    editor.handle_input(key);
    assert_eq!(editor.selected, 2);

    // Can't go past the end
    editor.handle_input(key);
    assert_eq!(editor.selected, 2);
}

#[test]
fn tag_editor_test_navigation_up() {
    let mut editor = TagEditor::for_labels();
    let current = vec![];
    let available = vec!["a".to_string(), "b".to_string()];
    editor.show(current, available);
    editor.selected = 1;

    let key = KeyEvent::new(KeyCode::Char('k'), KeyModifiers::NONE);
    let action = editor.handle_input(key);
    assert!(action.is_none());
    assert_eq!(editor.selected, 0);

    // Can't go past the beginning
    editor.handle_input(key);
    assert_eq!(editor.selected, 0);
}

#[test]
fn test_switch_focus() {
    let mut editor = TagEditor::for_labels();
    let current = vec!["bug".to_string()];
    let available = vec!["bug".to_string(), "feature".to_string()];
    editor.show(current, available);

    assert!(!editor.focus_on_current);

    let key = KeyEvent::new(KeyCode::Tab, KeyModifiers::NONE);
    editor.handle_input(key);
    assert!(editor.focus_on_current);
    assert_eq!(editor.selected, 0);

    editor.handle_input(key);
    assert!(!editor.focus_on_current);
}

#[test]
fn test_add_tag() {
    let mut editor = TagEditor::for_labels();
    let current = vec![];
    let available = vec!["bug".to_string(), "feature".to_string()];
    editor.show(current, available);

    // Select "bug" and press Enter
    let key = KeyEvent::new(KeyCode::Enter, KeyModifiers::NONE);
    let action = editor.handle_input(key);

    assert_eq!(action, Some(TagAction::Add("bug".to_string())));
    assert!(editor.current_tags.contains(&"bug".to_string()));
}

#[test]
fn test_add_duplicate_tag_no_action() {
    let mut editor = TagEditor::for_labels();
    let current = vec!["bug".to_string()];
    let available = vec!["bug".to_string(), "feature".to_string()];
    editor.show(current, available);

    // Try to add "bug" again - should not produce an action
    let key = KeyEvent::new(KeyCode::Enter, KeyModifiers::NONE);
    let action = editor.handle_input(key);

    assert!(action.is_none());
}

#[test]
fn test_remove_tag() {
    let mut editor = TagEditor::for_labels();
    let current = vec!["bug".to_string(), "feature".to_string()];
    let available = vec!["bug".to_string(), "feature".to_string()];
    editor.show(current, available);

    // Switch to current tags
    let tab = KeyEvent::new(KeyCode::Tab, KeyModifiers::NONE);
    editor.handle_input(tab);
    assert!(editor.focus_on_current);

    // Remove first tag
    let enter = KeyEvent::new(KeyCode::Enter, KeyModifiers::NONE);
    let action = editor.handle_input(enter);

    assert_eq!(action, Some(TagAction::Remove("bug".to_string())));
    assert!(!editor.current_tags.contains(&"bug".to_string()));
    assert_eq!(editor.current_tags.len(), 1);
}

#[test]
fn tag_editor_test_cancel_with_esc() {
    let mut editor = TagEditor::for_labels();
    editor.show(vec![], vec!["a".to_string()]);

    let key = KeyEvent::new(KeyCode::Esc, KeyModifiers::NONE);
    let action = editor.handle_input(key);

    assert_eq!(action, Some(TagAction::Cancel));
    assert!(!editor.is_visible());
}

#[test]
fn tag_editor_test_cancel_with_q() {
    let mut editor = TagEditor::for_labels();
    editor.show(vec![], vec!["a".to_string()]);

    let key = KeyEvent::new(KeyCode::Char('q'), KeyModifiers::NONE);
    let action = editor.handle_input(key);

    assert_eq!(action, Some(TagAction::Cancel));
    assert!(!editor.is_visible());
}

#[test]
fn tag_editor_test_esc_while_loading() {
    let mut editor = TagEditor::for_labels();
    editor.show_loading(vec![]);

    let key = KeyEvent::new(KeyCode::Esc, KeyModifiers::NONE);
    let action = editor.handle_input(key);

    assert_eq!(action, Some(TagAction::Cancel));
    assert!(!editor.is_visible());
}

#[test]
fn tag_editor_test_input_ignored_while_loading() {
    let mut editor = TagEditor::for_labels();
    editor.show_loading(vec![]);

    let key = KeyEvent::new(KeyCode::Char('j'), KeyModifiers::NONE);
    let action = editor.handle_input(key);
    assert!(action.is_none());

    let key = KeyEvent::new(KeyCode::Enter, KeyModifiers::NONE);
    let action = editor.handle_input(key);
    assert!(action.is_none());
}

#[test]
fn tag_editor_test_input_ignored_when_not_visible() {
    let mut editor = TagEditor::for_labels();

    let key = KeyEvent::new(KeyCode::Enter, KeyModifiers::NONE);
    let action = editor.handle_input(key);
    assert!(action.is_none());
}

#[test]
fn tag_editor_test_search_filter() {
    let mut editor = TagEditor::for_labels();
    let available = vec![
        "backend".to_string(),
        "frontend".to_string(),
        "bug".to_string(),
        "feature".to_string(),
    ];
    editor.show(vec![], available);

    assert_eq!(editor.filtered_indices.len(), 4);

    // Type 'b' to filter
    let key = KeyEvent::new(KeyCode::Char('b'), KeyModifiers::NONE);
    editor.handle_input(key);

    // Should match "backend" and "bug"
    assert_eq!(editor.filtered_indices.len(), 2);
    assert_eq!(editor.selected, 0);

    // Backspace
    let key = KeyEvent::new(KeyCode::Backspace, KeyModifiers::NONE);
    editor.handle_input(key);
    assert_eq!(editor.filtered_indices.len(), 4);
}

#[test]
fn test_search_not_active_when_focused_on_current() {
    let mut editor = TagEditor::for_labels();
    let current = vec!["bug".to_string()];
    let available = vec!["bug".to_string(), "feature".to_string()];
    editor.show(current, available);

    // Switch to current tags
    let tab = KeyEvent::new(KeyCode::Tab, KeyModifiers::NONE);
    editor.handle_input(tab);

    // Try to type - should not affect search
    let key = KeyEvent::new(KeyCode::Char('x'), KeyModifiers::NONE);
    editor.handle_input(key);

    assert!(editor.search_query.is_empty());
}

#[test]
fn test_space_to_add_remove() {
    let mut editor = TagEditor::for_labels();
    let available = vec!["bug".to_string()];
    editor.show(vec![], available);

    let key = KeyEvent::new(KeyCode::Char(' '), KeyModifiers::NONE);
    let action = editor.handle_input(key);

    assert_eq!(action, Some(TagAction::Add("bug".to_string())));
}

#[test]
fn test_config_labels() {
    let config = TagEditorConfig::labels();
    assert_eq!(config.tag_color, Color::Blue);
    assert!(config.title.contains("Labels"));
}

#[test]
fn test_config_components() {
    let config = TagEditorConfig::components();
    assert_eq!(config.tag_color, Color::Magenta);
    assert!(config.title.contains("Components"));
}

#[test]
fn test_remove_adjusts_selection() {
    let mut editor = TagEditor::for_labels();
    let current = vec!["a".to_string(), "b".to_string()];
    editor.show(current, vec![]);

    // Switch to current and select last item
    let tab = KeyEvent::new(KeyCode::Tab, KeyModifiers::NONE);
    editor.handle_input(tab);
    editor.selected = 1;

    // Remove "b"
    let enter = KeyEvent::new(KeyCode::Enter, KeyModifiers::NONE);
    let action = editor.handle_input(enter);

    assert_eq!(action, Some(TagAction::Remove("b".to_string())));
    // Selection should adjust to remain valid
    assert_eq!(editor.selected, 0);
}

#[test]
fn tag_search_accepts_digits_dash_underscore() {
    let mut editor = TagEditor::for_components();
    editor.show(vec![], vec!["api-v2".to_string(), "ui_core".to_string(), "API".to_string()]);
    for c in "api-".chars() {
        editor.handle_input(KeyEvent::new(KeyCode::Char(c), KeyModifiers::NONE));
    }
    assert_eq!(editor.search_query, "api-");
    assert_eq!(editor.filtered_indices, vec![0]);
    editor.handle_input(KeyEvent::new(KeyCode::Char('!'), KeyModifiers::NONE));
    assert_eq!(editor.search_query, "api-");
    let action = editor.handle_input(KeyEvent::new(KeyCode::Enter, KeyModifiers::NONE));
    assert_eq!(action, Some(TagAction::Add("api-v2".to_string())));
    assert_eq!(editor.config.tag_color, Color::Magenta);
}
