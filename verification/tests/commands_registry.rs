use lazyjira::commands::{CommandAction, CommandCategory, CommandRegistry};

#[test]
fn test_new_registry() {
    let registry = CommandRegistry::new();
    assert!(!registry.commands().is_empty());
    assert!(registry.recent().is_empty());
}

#[test]
fn test_search_empty_query() {
    let registry = CommandRegistry::new();
    let results = registry.search("");
    // Should return all commands
    assert_eq!(results.len(), registry.commands().len());
}

#[test]
fn test_search_by_title() {
    let registry = CommandRegistry::new();

    // Search for "refresh"
    let results = registry.search("refresh");
    assert!(!results.is_empty());
    assert!(results[0].title.to_lowercase().contains("refresh"));
}

#[test]
fn test_search_by_keyword() {
    let registry = CommandRegistry::new();

    // Search for "reload" (keyword of refresh command)
    let results = registry.search("reload");
    assert!(!results.is_empty());
    assert!(results.iter().any(|c| c.id == "issue.refresh"));
}

#[test]
fn test_search_case_insensitive() {
    let registry = CommandRegistry::new();

    let results_lower = registry.search("help");
    let results_upper = registry.search("HELP");

    assert_eq!(results_lower.len(), results_upper.len());
}

#[test]
fn test_search_no_match() {
    let registry = CommandRegistry::new();

    let results = registry.search("xyznomatch");
    assert!(results.is_empty());
}

#[test]
fn test_search_partial_match() {
    let registry = CommandRegistry::new();

    // "go" should match multiple "Go to X" commands
    let results = registry.search("go");
    assert!(results.len() >= 2);
}

#[test]
fn test_record_used() {
    let mut registry = CommandRegistry::new();

    registry.record_used("help.show");
    assert_eq!(registry.recent(), vec!["help.show"]);

    registry.record_used("issue.refresh");
    assert_eq!(registry.recent(), vec!["issue.refresh", "help.show"]);
}

#[test]
fn test_record_used_deduplication() {
    let mut registry = CommandRegistry::new();

    registry.record_used("help.show");
    registry.record_used("issue.refresh");
    registry.record_used("help.show"); // Use again

    // help.show should be at front, not duplicated
    assert_eq!(registry.recent(), vec!["help.show", "issue.refresh"]);
}

#[test]
fn test_record_used_max_size() {
    let mut registry = CommandRegistry::new();

    // Add more than MAX_RECENT commands
    for i in 0..15 {
        registry.record_used(&format!("cmd.{}", i));
    }

    assert_eq!(registry.recent().len(), CommandRegistry::MAX_RECENT);
    // Most recent should be first
    assert_eq!(registry.recent()[0], "cmd.14");
}

#[test]
fn test_recent_boost_in_search() {
    let mut registry = CommandRegistry::new();

    // Record "help.show" as recently used
    registry.record_used("help.show");

    // Search for something that matches multiple commands
    let results = registry.search("");

    // Recent command should appear first or very high
    let help_pos = results.iter().position(|c| c.id == "help.show").unwrap();
    assert!(help_pos < 3, "Recent command should be near top");
}

#[test]
fn test_command_categories() {
    let registry = CommandRegistry::new();

    // Verify we have commands in different categories
    let categories: Vec<_> = registry.commands().iter().map(|c| c.category).collect();

    assert!(categories.contains(&CommandCategory::Navigation));
    assert!(categories.contains(&CommandCategory::Profile));
    assert!(categories.contains(&CommandCategory::Filter));
    assert!(categories.contains(&CommandCategory::Help));
}

#[test]
fn test_command_shortcuts() {
    let registry = CommandRegistry::new();

    // Some commands should have shortcuts
    let with_shortcuts: Vec<_> = registry
        .commands()
        .iter()
        .filter(|c| c.shortcut.is_some())
        .collect();

    assert!(!with_shortcuts.is_empty());
}

#[test]
fn test_category_display() {
    assert_eq!(CommandCategory::Navigation.display(), "Navigation");
    assert_eq!(CommandCategory::Issue.display(), "Issue");
    assert_eq!(CommandCategory::Profile.display(), "Profile");
    assert_eq!(CommandCategory::Filter.display(), "Filter");
    assert_eq!(CommandCategory::Settings.display(), "Settings");
    assert_eq!(CommandCategory::Help.display(), "Help");
}

#[test]
fn test_word_boundary_bonus() {
    let registry = CommandRegistry::new();

    // "go" should prefer "Go to Issue List" over commands where "go" is mid-word
    let results = registry.search("go");
    assert!(!results.is_empty());
    // First result should start with "Go"
    assert!(results[0].title.to_lowercase().starts_with("go"));
}

#[test]
fn search_ranks_title_prefix_matches_first() {
    let registry = CommandRegistry::new();
    let results = registry.search("switch");
    assert!(!results.is_empty());
    assert_eq!(results[0].id, "profile.switch");
    assert_eq!(results[0].action, CommandAction::SwitchProfile);
}

#[test]
fn recent_keeps_most_recent_first_without_duplicates() {
    let mut registry = CommandRegistry::new();
    registry.record_used("a");
    registry.record_used("b");
    registry.record_used("a");
    registry.record_used("c");
    assert_eq!(registry.recent(), vec!["c", "a", "b"]);
}

#[test]
fn test_empty_query_lists_all_recent_first() {
    let mut registry = CommandRegistry::new();
    let total = registry.commands().len();
    registry.record_used("help.show");
    registry.record_used("goto.list");
    let results = registry.search("");
    assert_eq!(results.len(), total);
    assert_eq!(results[0].id, "goto.list");
    assert_eq!(results[1].id, "help.show");
}

#[test]
fn search_ignores_case_of_query() {
    let registry = CommandRegistry::new();
    let upper: Vec<String> = registry.search("PROFILE").iter().map(|c| c.id.clone()).collect();
    let lower: Vec<String> = registry.search("profile").iter().map(|c| c.id.clone()).collect();
    let mixed: Vec<String> = registry.search("PrOfIlE").iter().map(|c| c.id.clone()).collect();
    assert!(!lower.is_empty());
    assert_eq!(upper, lower);
    assert_eq!(mixed, lower);
}
