use lazyjira::api::types::Priority;
use lazyjira::events::key::{KeyCode, KeyEvent, KeyModifiers};
use lazyjira::ui::components::priority_picker::{
    priority_color, priority_indicator, PriorityAction, PriorityColor as Color, PriorityPicker,
};

fn create_test_priority(id: &str, name: &str) -> Priority {
    Priority {
        id: id.to_string(),
        name: name.to_string(),
        icon_url: None,
    }
}

fn create_standard_priorities() -> Vec<Priority> {
    vec![
        create_test_priority("1", "Highest"),
        create_test_priority("2", "High"),
        create_test_priority("3", "Medium"),
        create_test_priority("4", "Low"),
        create_test_priority("5", "Lowest"),
    ]
}

#[test]
fn priority_picker_test_new_picker() {
    let picker = PriorityPicker::new();
    assert!(!picker.is_visible());
    assert!(!picker.is_loading());
    assert_eq!(picker.priority_count(), 0);
}

#[test]
fn priority_picker_test_show_loading() {
    let mut picker = PriorityPicker::new();
    picker.show_loading("High");

    assert!(picker.is_visible());
    assert!(picker.is_loading());
    assert_eq!(picker.current_priority, "High");
}

#[test]
fn test_show_priorities() {
    let mut picker = PriorityPicker::new();
    let priorities = create_standard_priorities();

    picker.show(priorities, "High");

    assert!(picker.is_visible());
    assert!(!picker.is_loading());
    assert_eq!(picker.priority_count(), 5);
    // Should pre-select "High" which is index 1
    assert_eq!(picker.selected, 1);
}

#[test]
fn test_show_priorities_no_match() {
    let mut picker = PriorityPicker::new();
    let priorities = create_standard_priorities();

    picker.show(priorities, "Unknown");

    // Should default to index 0 when no match
    assert_eq!(picker.selected, 0);
}

#[test]
fn priority_picker_test_hide() {
    let mut picker = PriorityPicker::new();
    picker.show_loading("High");
    assert!(picker.is_visible());

    picker.close();
    assert!(!picker.is_visible());
    assert!(!picker.is_loading());
}

#[test]
fn priority_picker_test_navigation_down() {
    let mut picker = PriorityPicker::new();
    picker.show(create_standard_priorities(), "Highest");

    // Initial selection is 0 (Highest)
    assert_eq!(picker.selected, 0);

    // Navigate down with arrow key
    let key = KeyEvent::new(KeyCode::Down, KeyModifiers::NONE);
    let action = picker.handle_input(key);
    assert!(action.is_none());
    assert_eq!(picker.selected, 1);

    // Navigate down more times
    for _ in 0..3 {
        picker.handle_input(key);
    }
    assert_eq!(picker.selected, 4);

    // Can't go past the end
    let action = picker.handle_input(key);
    assert!(action.is_none());
    assert_eq!(picker.selected, 4);
}

#[test]
fn priority_picker_test_navigation_up() {
    let mut picker = PriorityPicker::new();
    picker.show(create_standard_priorities(), "Lowest");
    // Preselected to Lowest (index 4)
    assert_eq!(picker.selected, 4);

    // Navigate up with arrow key
    let key = KeyEvent::new(KeyCode::Up, KeyModifiers::NONE);
    let action = picker.handle_input(key);
    assert!(action.is_none());
    assert_eq!(picker.selected, 3);

    // Navigate up to beginning
    for _ in 0..3 {
        picker.handle_input(key);
    }
    assert_eq!(picker.selected, 0);

    // Can't go past the beginning
    let action = picker.handle_input(key);
    assert!(action.is_none());
    assert_eq!(picker.selected, 0);
}

#[test]
fn test_select_priority() {
    let mut picker = PriorityPicker::new();
    picker.show(create_standard_priorities(), "Highest");

    // Navigate to "High" with arrow key
    let down = KeyEvent::new(KeyCode::Down, KeyModifiers::NONE);
    picker.handle_input(down);
    assert_eq!(picker.selected, 1);

    // Select
    let enter = KeyEvent::new(KeyCode::Enter, KeyModifiers::NONE);
    let action = picker.handle_input(enter);

    assert_eq!(
        action,
        Some(PriorityAction::Select("2".to_string(), "High".to_string()))
    );
    assert!(!picker.is_visible());
}

#[test]
fn priority_picker_test_cancel_with_esc() {
    let mut picker = PriorityPicker::new();
    picker.show(create_standard_priorities(), "High");

    let key = KeyEvent::new(KeyCode::Esc, KeyModifiers::NONE);
    let action = picker.handle_input(key);

    assert_eq!(action, Some(PriorityAction::Cancel));
    assert!(!picker.is_visible());
}

#[test]
fn priority_picker_test_cancel_with_q() {
    let mut picker = PriorityPicker::new();
    picker.show(create_standard_priorities(), "High");

    // 'q' should cancel (vim-style)
    let key = KeyEvent::new(KeyCode::Char('q'), KeyModifiers::NONE);
    let action = picker.handle_input(key);

    assert_eq!(action, Some(PriorityAction::Cancel));
    assert!(!picker.is_visible());
}

#[test]
fn priority_picker_test_navigation_with_j_k() {
    let mut picker = PriorityPicker::new();
    picker.show(create_standard_priorities(), "Highest");

    assert_eq!(picker.selected, 0);

    // Move down with j
    let key = KeyEvent::new(KeyCode::Char('j'), KeyModifiers::NONE);
    picker.handle_input(key);
    assert_eq!(picker.selected, 1);

    // Move up with k
    let key = KeyEvent::new(KeyCode::Char('k'), KeyModifiers::NONE);
    picker.handle_input(key);
    assert_eq!(picker.selected, 0);
}

#[test]
fn priority_picker_test_esc_while_loading() {
    let mut picker = PriorityPicker::new();
    picker.show_loading("High");

    let key = KeyEvent::new(KeyCode::Esc, KeyModifiers::NONE);
    let action = picker.handle_input(key);

    assert_eq!(action, Some(PriorityAction::Cancel));
    assert!(!picker.is_visible());
}

#[test]
fn priority_picker_test_input_ignored_while_loading() {
    let mut picker = PriorityPicker::new();
    picker.show_loading("High");

    // Navigation should be ignored while loading
    let key = KeyEvent::new(KeyCode::Char('j'), KeyModifiers::NONE);
    let action = picker.handle_input(key);
    assert!(action.is_none());

    // Enter should be ignored while loading
    let key = KeyEvent::new(KeyCode::Enter, KeyModifiers::NONE);
    let action = picker.handle_input(key);
    assert!(action.is_none());
}

#[test]
fn priority_picker_test_input_ignored_when_not_visible() {
    let mut picker = PriorityPicker::new();

    let key = KeyEvent::new(KeyCode::Enter, KeyModifiers::NONE);
    let action = picker.handle_input(key);
    assert!(action.is_none());
}

#[test]
fn test_selected_priority() {
    let mut picker = PriorityPicker::new();
    picker.show(create_standard_priorities(), "Medium");

    // Preselected to Medium (index 2)
    assert_eq!(picker.selected_priority().unwrap().name, "Medium");

    picker.selected = 0;
    assert_eq!(picker.selected_priority().unwrap().name, "Highest");
}

#[test]
fn test_empty_priorities() {
    let mut picker = PriorityPicker::new();
    picker.show(vec![], "High");

    assert!(picker.is_visible());
    assert_eq!(picker.priority_count(), 0);
    assert!(picker.selected_priority().is_none());

    // Enter should do nothing with empty list
    let key = KeyEvent::new(KeyCode::Enter, KeyModifiers::NONE);
    let action = picker.handle_input(key);
    assert!(action.is_none());
}

#[test]
fn priority_picker_test_default_impl() {
    let picker = PriorityPicker::default();
    assert!(!picker.is_visible());
}

#[test]
fn test_priority_color() {
    assert_eq!(priority_color("Highest"), Color::Red);
    assert_eq!(priority_color("HIGHEST"), Color::Red);
    assert_eq!(priority_color("Critical"), Color::Red);
    assert_eq!(priority_color("High"), Color::LightRed);
    assert_eq!(priority_color("Medium"), Color::Yellow);
    assert_eq!(priority_color("Low"), Color::Green);
    assert_eq!(priority_color("Lowest"), Color::DarkGray);
    assert_eq!(priority_color("Unknown"), Color::White);
}

#[test]
fn test_priority_indicator() {
    assert_eq!(priority_indicator("Highest"), "⬆⬆");
    assert_eq!(priority_indicator("High"), "⬆");
    assert_eq!(priority_indicator("Medium"), "⬌");
    assert_eq!(priority_indicator("Low"), "⬇");
    assert_eq!(priority_indicator("Lowest"), "⬇⬇");
    assert_eq!(priority_indicator("Unknown"), "•");
}

#[test]
fn show_preselects_first_matching_priority() {
    let mut picker = PriorityPicker::new();
    let mut ps = create_standard_priorities();
    ps.push(create_test_priority("6", "Medium"));
    picker.show(ps, "Medium");
    assert_eq!(picker.selected, 2);
    assert_eq!(priority_indicator("BLOCKER"), "⬆⬆");
    assert_eq!(priority_indicator("trivial"), "⬇⬇");
}
