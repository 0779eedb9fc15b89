use lazyjira::commands::CommandAction;
use lazyjira::events::key::{KeyCode, KeyEvent, KeyModifiers};
use lazyjira::ui::components::command_palette::{CommandPalette, CommandPaletteAction};

#[test]
fn command_palette_test_new() {
    let palette = CommandPalette::new();
    assert!(!palette.is_visible());
    assert!(palette.query().is_empty());
    assert!(!palette.results.is_empty()); // Should have default commands
}

#[test]
fn command_palette_test_show_hide() {
    let mut palette = CommandPalette::new();

    assert!(!palette.is_visible());

    palette.show();
    assert!(palette.is_visible());
    assert!(palette.query().is_empty());
    assert_eq!(palette.selected, 0);

    palette.close();
    assert!(!palette.is_visible());
}

#[test]
fn test_show_resets_state() {
    let mut palette = CommandPalette::new();
    palette.show();

    // Type something and select a different item
    palette.handle_input(KeyEvent::new(KeyCode::Char('h'), KeyModifiers::NONE));
    palette.handle_input(KeyEvent::new(KeyCode::Down, KeyModifiers::NONE));

    // Show again should reset
    palette.show();
    assert!(palette.query().is_empty());
    assert_eq!(palette.selected, 0);
}

#[test]
fn test_escape_cancels() {
    let mut palette = CommandPalette::new();
    palette.show();

    let action = palette.handle_input(KeyEvent::new(KeyCode::Esc, KeyModifiers::NONE));

    assert_eq!(action, Some(CommandPaletteAction::Cancel));
    assert!(!palette.is_visible());
}

#[test]
fn test_enter_executes() {
    let mut palette = CommandPalette::new();
    palette.show();

    let action = palette.handle_input(KeyEvent::new(KeyCode::Enter, KeyModifiers::NONE));

    assert!(matches!(action, Some(CommandPaletteAction::Execute(_))));
    assert!(!palette.is_visible());
}

#[test]
fn test_enter_on_empty_results() {
    let mut palette = CommandPalette::new();
    palette.show();

    // Type something that matches nothing
    for c in "xyznomatch".chars() {
        palette.handle_input(KeyEvent::new(KeyCode::Char(c), KeyModifiers::NONE));
    }

    // Enter should do nothing
    let action = palette.handle_input(KeyEvent::new(KeyCode::Enter, KeyModifiers::NONE));
    assert!(action.is_none());
    assert!(palette.is_visible()); // Should still be visible
}

#[test]
fn command_palette_test_navigation_down() {
    let mut palette = CommandPalette::new();
    palette.show();
    assert_eq!(palette.selected, 0);

    palette.handle_input(KeyEvent::new(KeyCode::Down, KeyModifiers::NONE));
    assert_eq!(palette.selected, 1);
}

#[test]
fn command_palette_test_navigation_up() {
    let mut palette = CommandPalette::new();
    palette.show();

    // Move down first
    palette.handle_input(KeyEvent::new(KeyCode::Down, KeyModifiers::NONE));
    palette.handle_input(KeyEvent::new(KeyCode::Down, KeyModifiers::NONE));
    assert_eq!(palette.selected, 2);

    // Move up
    palette.handle_input(KeyEvent::new(KeyCode::Up, KeyModifiers::NONE));
    assert_eq!(palette.selected, 1);
}

#[test]
fn test_navigation_wraps() {
    let mut palette = CommandPalette::new();
    palette.show();

    // Up from first item should wrap to last
    palette.handle_input(KeyEvent::new(KeyCode::Up, KeyModifiers::NONE));
    assert_eq!(palette.selected, palette.results.len() - 1);

    // Down from last item should wrap to first
    palette.handle_input(KeyEvent::new(KeyCode::Down, KeyModifiers::NONE));
    assert_eq!(palette.selected, 0);
}

#[test]
fn test_tab_navigation() {
    let mut palette = CommandPalette::new();
    palette.show();

    palette.handle_input(KeyEvent::new(KeyCode::Tab, KeyModifiers::NONE));
    assert_eq!(palette.selected, 1);
}

#[test]
fn test_search_filters_results() {
    let mut palette = CommandPalette::new();
    palette.show();
    let initial_count = palette.results.len();

    // Type "help"
    for c in "help".chars() {
        palette.handle_input(KeyEvent::new(KeyCode::Char(c), KeyModifiers::NONE));
    }

    assert!(palette.results.len() < initial_count);
    assert!(palette
        .results
        .iter()
        .any(|c| c.title.to_lowercase().contains("help")));
}

#[test]
fn test_search_resets_selection() {
    let mut palette = CommandPalette::new();
    palette.show();

    // Move selection
    palette.handle_input(KeyEvent::new(KeyCode::Down, KeyModifiers::NONE));
    palette.handle_input(KeyEvent::new(KeyCode::Down, KeyModifiers::NONE));
    assert!(palette.selected > 0);

    // Type something
    palette.handle_input(KeyEvent::new(KeyCode::Char('a'), KeyModifiers::NONE));

    // Selection should reset to 0
    assert_eq!(palette.selected, 0);
}

#[test]
fn test_backspace_clears_search() {
    let mut palette = CommandPalette::new();
    palette.show();

    // Type something
    palette.handle_input(KeyEvent::new(KeyCode::Char('h'), KeyModifiers::NONE));
    assert_eq!(palette.query(), "h");

    // Backspace
    palette.handle_input(KeyEvent::new(KeyCode::Backspace, KeyModifiers::NONE));
    assert!(palette.query().is_empty());
}

#[test]
fn test_j_k_as_characters() {
    let mut palette = CommandPalette::new();
    palette.show();

    // j and k should type characters, not navigate
    palette.handle_input(KeyEvent::new(KeyCode::Char('j'), KeyModifiers::NONE));
    palette.handle_input(KeyEvent::new(KeyCode::Char('k'), KeyModifiers::NONE));

    assert_eq!(palette.query(), "jk");
}

#[test]
fn test_ctrl_j_k_navigates() {
    let mut palette = CommandPalette::new();
    palette.show();

    // Ctrl+j should navigate down
    palette.handle_input(KeyEvent::new(KeyCode::Char('j'), KeyModifiers::CONTROL));
    assert_eq!(palette.selected, 1);

    // Ctrl+k should navigate up
    palette.handle_input(KeyEvent::new(KeyCode::Char('k'), KeyModifiers::CONTROL));
    assert_eq!(palette.selected, 0);
}

#[test]
fn test_navigation_on_empty_results() {
    let mut palette = CommandPalette::new();
    palette.show();

    // Search for something that matches nothing
    for c in "xyznomatch".chars() {
        palette.handle_input(KeyEvent::new(KeyCode::Char(c), KeyModifiers::NONE));
    }
    assert!(palette.results.is_empty());

    // Navigation should not panic
    palette.handle_input(KeyEvent::new(KeyCode::Down, KeyModifiers::NONE));
    palette.handle_input(KeyEvent::new(KeyCode::Up, KeyModifiers::NONE));
}

#[test]
fn test_hidden_palette_ignores_input() {
    let mut palette = CommandPalette::new();
    // Don't call show()

    let action = palette.handle_input(KeyEvent::new(KeyCode::Enter, KeyModifiers::NONE));
    assert!(action.is_none());
}

#[test]
fn palette_enter_records_recent_command() {
    let mut palette = CommandPalette::new();
    palette.show();
    for c in "switch".chars() {
        palette.handle_input(KeyEvent::new(KeyCode::Char(c), KeyModifiers::NONE));
    }
    let action = palette.handle_input(KeyEvent::new(KeyCode::Enter, KeyModifiers::NONE));
    assert_eq!(action, Some(CommandPaletteAction::Execute(CommandAction::SwitchProfile)));
    assert_eq!(palette.registry.recent(), vec!["profile.switch"]);
    // Shown again, the recent command comes first
    palette.show();
    assert_eq!(palette.results[0].id, "profile.switch");
}

#[test]
fn palette_shift_tab_and_ctrl_p_move_up() {
    let mut palette = CommandPalette::new();
    palette.show();
    let n = palette.results.len();
    palette.handle_input(KeyEvent::new(KeyCode::BackTab, KeyModifiers::SHIFT));
    assert_eq!(palette.selected, n - 1);
    palette.handle_input(KeyEvent::new(KeyCode::Char('p'), KeyModifiers::CONTROL));
    assert_eq!(palette.selected, n - 2);
    palette.handle_input(KeyEvent::new(KeyCode::Char('n'), KeyModifiers::CONTROL));
    assert_eq!(palette.selected, n - 1);
}

#[test]
fn test_scroll_offset_keeps_selected_on_screen() {
    let mut palette = CommandPalette::new();
    palette.selected = 4;
    assert_eq!(palette.scroll_offset(10), 0);
    palette.selected = 12;
    assert_eq!(palette.scroll_offset(10), 3);
    palette.selected = 10;
    assert_eq!(palette.scroll_offset(10), 1);
}
