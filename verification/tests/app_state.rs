use lazyjira::app::{
    fetch_query, next_request, on_response, start_fetch, App, AppState, FetchEffect, FetchPhase,
    FetchRequest, FetchResponse,
};
use lazyjira::config::{Config, ConfigError, Profile, Settings};
use lazyjira::events::key::{KeyCode, KeyEvent, KeyModifiers};
use lazyjira::events::Event;

fn profile(name: &str) -> Profile {
    Profile::new(
        name.to_string(),
        format!("https://{}.atlassian.net", name),
        format!("me@{}.com", name),
    )
}

fn config(names: &[&str]) -> Config {
    Config { settings: Settings::default(), profiles: names.iter().map(|n| profile(n)).collect() }
}

fn key(code: KeyCode) -> KeyEvent {
    KeyEvent::new(code, KeyModifiers::NONE)
}

#[test]
fn app_starts_loading_with_default_profile() {
    let mut c = config(&["work", "home"]);
    c.settings.default_profile = Some("home".to_string());
    let app = App::with_config(c);
    assert_eq!(app.state, AppState::Loading);
    assert!(!app.should_quit());
    assert_eq!(app.current_profile_name(), Some("home"));
    assert!(app.refresh_requested);
}

#[test]
fn app_without_default_uses_first_profile() {
    let app = App::with_config(config(&["work", "home"]));
    assert_eq!(app.current_profile_name(), Some("work"));
    let empty = App::with_config(config(&[]));
    assert_eq!(empty.current_profile_name(), None);
}

#[test]
fn switch_profile_to_unknown_fails() {
    let mut app = App::with_config(config(&["work", "home"]));
    match app.switch_profile("nope") {
        Err(ConfigError::ProfileNotFound(n)) => assert_eq!(n, "nope"),
        _ => panic!("expected ProfileNotFound"),
    }
    assert_eq!(app.current_profile_name(), Some("work"));
    assert!(app.notifications.notifications.is_empty());
}

#[test]
fn switch_profile_changes_current_and_notifies() {
    let mut app = App::with_config(config(&["work", "home"]));
    app.selected_issue_key = Some("PROJ-1".to_string());
    assert!(app.switch_profile("home").is_ok());
    assert_eq!(app.current_profile_name(), Some("home"));
    assert_eq!(app.selected_issue_key, None);
    assert_eq!(app.notifications.notifications[0].message, "Switched to profile: home");
    // Switching to the active profile changes nothing
    assert!(app.switch_profile("home").is_ok());
    assert_eq!(app.notifications.notifications.len(), 1);
}

#[test]
fn delete_current_profile_activates_first_remaining() {
    let mut app = App::with_config(config(&["work", "home", "lab"]));
    assert!(app.delete_profile(0).is_ok());
    assert_eq!(app.config.profiles.len(), 2);
    assert_eq!(app.current_profile_name(), Some("home"));
    assert_eq!(app.notifications.notifications[0].message, "Profile 'work' deleted");
    match app.delete_profile(7) {
        Err(e) => assert_eq!(e.to_string(), "profile not found: index 7"),
        Ok(()) => panic!("expected an error"),
    }
}

#[test]
fn set_default_profile_by_index() {
    let mut app = App::with_config(config(&["work", "home"]));
    assert!(app.set_default_profile(1).is_ok());
    assert_eq!(app.config.settings.default_profile, Some("home".to_string()));
    assert!(app.set_default_profile(2).is_err());
}

#[test]
fn ctrl_c_quits_and_q_quits_from_list() {
    let mut app = App::with_config(config(&["work"]));
    app.handle_key_event(KeyEvent::new(KeyCode::Char('c'), KeyModifiers::CONTROL));
    assert!(app.should_quit());
    assert_eq!(app.state, AppState::Exiting);
    let mut app = App::with_config(config(&["work"]));
    app.state = AppState::IssueList;
    app.handle_key_event(key(KeyCode::Char('q')));
    assert!(app.should_quit());
}

#[test]
fn help_remembers_previous_screen() {
    let mut app = App::with_config(config(&["work"]));
    app.state = AppState::IssueList;
    app.handle_key_event(key(KeyCode::Char('?')));
    assert_eq!(app.state, AppState::Help);
    assert_eq!(app.previous_state, Some(AppState::IssueList));
}

#[test]
fn profile_picker_switches_profile() {
    let mut app = App::with_config(config(&["work", "home"]));
    app.state = AppState::IssueList;
    app.handle_key_event(key(KeyCode::Char('p')));
    assert!(app.profile_picker.visible);
    app.handle_key_event(key(KeyCode::Char('j')));
    app.handle_key_event(key(KeyCode::Enter));
    assert!(!app.profile_picker.visible);
    assert_eq!(app.current_profile_name(), Some("home"));
}

#[test]
fn profile_picker_with_one_profile_only_notifies() {
    let mut app = App::with_config(config(&["work"]));
    app.state = AppState::IssueList;
    app.handle_key_event(key(KeyCode::Char('p')));
    assert!(!app.profile_picker.visible);
    assert_eq!(app.notifications.notifications[0].message, "Only one profile configured");
}

#[test]
fn jql_input_runs_query() {
    let mut app = App::with_config(config(&["work"]));
    app.open_jql_input();
    assert_eq!(app.state, AppState::JqlInput);
    for c in " project = X ".chars() {
        app.handle_key_event(key(KeyCode::Char(c)));
    }
    app.handle_key_event(key(KeyCode::Enter));
    assert_eq!(app.current_jql, Some("project = X".to_string()));
    assert_eq!(app.state, AppState::IssueList);
    assert_eq!(app.config.settings.jql_history, vec!["project = X".to_string()]);
    assert!(!app.jql_input.visible);
}

#[test]
fn error_dialog_takes_keys_first() {
    let mut app = App::with_config(config(&["work"]));
    app.show_error_dialog("Oops", "Something failed");
    app.handle_key_event(KeyEvent::new(KeyCode::Char('c'), KeyModifiers::CONTROL));
    assert!(!app.should_quit());
    assert!(app.is_error_dialog_visible());
    app.handle_key_event(key(KeyCode::Esc));
    assert!(!app.is_error_dialog_visible());
}

#[test]
fn effective_jql_adds_sort_unless_ordered() {
    let mut app = App::with_config(config(&["work"]));
    assert_eq!(app.effective_jql("", "ORDER BY updated DESC"), "");
    assert_eq!(app.effective_jql("status = Open", "ORDER BY updated DESC"), "status = Open ORDER BY updated DESC");
    app.execute_jql("project = X order by key".to_string());
    assert_eq!(app.effective_jql("status = Open", "ORDER BY updated DESC"), "project = X order by key");
}

#[test]
fn fetch_query_defaults_to_own_issues() {
    assert_eq!(
        fetch_query("", "ORDER BY updated DESC"),
        "assignee = currentUser() OR reporter = currentUser() ORDER BY updated DESC"
    );
    assert_eq!(fetch_query("project = X", "ORDER BY updated DESC"), "project = X");
}

#[test]
fn fetch_shows_cache_then_refreshes() {
    let (f, e) = start_fetch(true, true);
    assert_eq!(e, FetchEffect::Nothing);
    assert_eq!(next_request(&f), FetchRequest::ReadCache);
    let (f, e) = on_response(f, FetchResponse::CacheHit);
    assert_eq!(e, FetchEffect::ShowCached);
    assert_eq!(next_request(&f), FetchRequest::Search);
    let (f, e) = on_response(f, FetchResponse::Failed);
    assert_eq!(e, FetchEffect::KeepCached);
    assert_eq!(f.phase, FetchPhase::Done);
}

#[test]
fn fetch_without_cache_shows_error_on_failure() {
    let (f, _) = start_fetch(false, true);
    assert_eq!(next_request(&f), FetchRequest::Search);
    let (_, e) = on_response(f, FetchResponse::Failed);
    assert_eq!(e, FetchEffect::ShowError);
    let (f, e) = start_fetch(false, false);
    assert_eq!(e, FetchEffect::Offline);
    assert_eq!(next_request(&f), FetchRequest::Nothing);
}

fn create_test_config_with_profiles() -> Config {
    let mut settings = Settings::default();
    settings.default_profile = Some("work".to_string());
    Config {
        settings,
        profiles: vec![
            Profile::new(
                "work".to_string(),
                "https://work.atlassian.net".to_string(),
                "work@example.com".to_string(),
            ),
            Profile::new(
                "personal".to_string(),
                "https://personal.atlassian.net".to_string(),
                "personal@example.com".to_string(),
            ),
            Profile::new(
                "client".to_string(),
                "https://client.atlassian.net".to_string(),
                "client@example.com".to_string(),
            ),
        ],
    }
}

/// The application as it starts when no configuration file can be read.
fn fresh_app() -> App {
    App::with_config(Config::default())
}

#[test]
fn test_app_default() {
    let app = fresh_app();
    assert_eq!(app.state(), AppState::Loading);
    assert!(!app.should_quit());
}

#[test]
fn test_quit_on_q_key() {
    let mut app = fresh_app();
    let key_event = KeyEvent::new(KeyCode::Char('q'), KeyModifiers::NONE);
    app.update(Event::Key(key_event));
    assert!(app.should_quit());
    assert_eq!(app.state(), AppState::Exiting);
}

#[test]
fn test_quit_on_ctrl_c() {
    let mut app = fresh_app();
    let key_event = KeyEvent::new(KeyCode::Char('c'), KeyModifiers::CONTROL);
    app.update(Event::Key(key_event));
    assert!(app.should_quit());
    assert_eq!(app.state(), AppState::Exiting);
}

#[test]
fn test_help_on_question_mark() {
    let mut app = fresh_app();
    app.update(Event::Tick);
    assert_eq!(app.state(), AppState::IssueList);
    let key_event = KeyEvent::new(KeyCode::Char('?'), KeyModifiers::NONE);
    app.update(Event::Key(key_event));
    assert_eq!(app.state(), AppState::Help);
}

#[test]
fn test_escape_closes_help() {
    let mut app = fresh_app();
    app.update(Event::Tick);
    let key_event = KeyEvent::new(KeyCode::Char('?'), KeyModifiers::NONE);
    app.update(Event::Key(key_event));
    assert_eq!(app.state(), AppState::Help);
    let key_event = KeyEvent::new(KeyCode::Esc, KeyModifiers::NONE);
    app.update(Event::Key(key_event));
    assert_eq!(app.state(), AppState::IssueList);
}

#[test]
fn test_tick_transitions_from_loading() {
    let mut app = fresh_app();
    assert_eq!(app.state(), AppState::Loading);
    app.update(Event::Tick);
    assert_eq!(app.state(), AppState::IssueList);
}

#[test]
fn test_quit_event() {
    let mut app = fresh_app();
    app.update(Event::Quit);
    assert!(app.should_quit());
    assert_eq!(app.state(), AppState::Exiting);
}

#[test]
fn test_resize_event() {
    let mut app = fresh_app();
    let initial_state = app.state();
    app.update(Event::Resize(100, 50));
    assert_eq!(app.state(), initial_state);
}

#[test]
fn test_notify_info() {
    let mut app = fresh_app();
    app.notify_info("Test info message");
    assert_eq!(app.notifications().len(), 1);
}

#[test]
fn test_notify_success() {
    let mut app = fresh_app();
    app.notify_success("Operation completed");
    assert_eq!(app.notifications().len(), 1);
}

#[test]
fn test_notify_warning() {
    let mut app = fresh_app();
    app.notify_warning("Warning message");
    assert_eq!(app.notifications().len(), 1);
}

#[test]
fn test_notify_error() {
    let mut app = fresh_app();
    app.notify_error("Error message");
    assert_eq!(app.notifications().len(), 1);
}

#[test]
fn test_error_dialog_show_hide() {
    let mut app = fresh_app();
    assert!(!app.is_error_dialog_visible());
    app.show_error_dialog("Error", "Something went wrong");
    assert!(app.is_error_dialog_visible());
    app.dismiss_error_dialog();
    assert!(!app.is_error_dialog_visible());
}

#[test]
fn test_error_dialog_blocks_input() {
    let mut app = fresh_app();
    app.update(Event::Tick);
    assert_eq!(app.state(), AppState::IssueList);
    app.show_error_dialog("Error", "Test error");
    assert!(app.is_error_dialog_visible());
    let key_event = KeyEvent::new(KeyCode::Char('q'), KeyModifiers::NONE);
    app.update(Event::Key(key_event));
    assert!(!app.should_quit());
    assert!(app.is_error_dialog_visible());
    let key_event = KeyEvent::new(KeyCode::Esc, KeyModifiers::NONE);
    app.update(Event::Key(key_event));
    assert!(!app.is_error_dialog_visible());
}

#[test]
fn test_error_dialog_dismiss_with_enter() {
    let mut app = fresh_app();
    app.show_error_dialog("Error", "Test");
    let key_event = KeyEvent::new(KeyCode::Enter, KeyModifiers::NONE);
    app.update(Event::Key(key_event));
    assert!(!app.is_error_dialog_visible());
}

#[test]
fn test_loading_indicator() {
    let mut app = fresh_app();
    assert!(app.is_loading());
    app.stop_loading();
    assert!(!app.is_loading());
    app.start_loading("Fetching data...");
    assert!(app.is_loading());
}

#[test]
fn test_loading_stops_on_tick() {
    let mut app = fresh_app();
    assert!(app.is_loading());
    assert_eq!(app.state(), AppState::Loading);
    app.update(Event::Tick);
    assert_eq!(app.state(), AppState::IssueList);
    assert!(!app.is_loading());
}

#[test]
fn test_notifications_tick() {
    let mut app = fresh_app();
    app.notify_info("Test");
    assert_eq!(app.notifications().len(), 1);
    app.update(Event::Tick);
    assert_eq!(app.notifications().len(), 1);
}

#[test]
fn test_with_config() {
    let app = App::with_config(create_test_config_with_profiles());
    assert_eq!(app.profile_count(), 3);
    assert_eq!(app.current_profile_name(), Some("work"));
}

#[test]
fn test_current_profile() {
    let app = App::with_config(create_test_config_with_profiles());
    let profile = app.current_profile().expect("should have current profile");
    assert_eq!(profile.name, "work");
    assert_eq!(profile.url, "https://work.atlassian.net");
}

#[test]
fn test_switch_profile_not_found() {
    let mut app = App::with_config(create_test_config_with_profiles());
    let result = app.switch_profile("nonexistent");
    assert!(result.is_err());
    assert_eq!(app.current_profile_name(), Some("work"));
}

#[test]
fn test_show_profile_picker_multiple_profiles() {
    let mut app = App::with_config(create_test_config_with_profiles());
    assert!(!app.is_profile_picker_visible());
    app.show_profile_picker();
    assert!(app.is_profile_picker_visible());
}

#[test]
fn test_show_profile_picker_single_profile() {
    let config = Config {
        settings: Settings::default(),
        profiles: vec![Profile::new(
            "only".to_string(),
            "https://only.atlassian.net".to_string(),
            "only@example.com".to_string(),
        )],
    };
    let mut app = App::with_config(config);
    app.show_profile_picker();
    assert!(!app.is_profile_picker_visible());
    assert!(app.notifications().len() > 0);
}

#[test]
fn test_show_profile_picker_no_profiles() {
    let mut app = App::with_config(Config::default());
    app.show_profile_picker();
    assert!(!app.is_profile_picker_visible());
    assert!(app.notifications().len() > 0);
}

#[test]
fn test_p_key_opens_profile_picker() {
    let mut app = App::with_config(create_test_config_with_profiles());
    app.update(Event::Tick);
    let key_event = KeyEvent::new(KeyCode::Char('p'), KeyModifiers::NONE);
    app.update(Event::Key(key_event));
    assert!(app.is_profile_picker_visible());
}

#[test]
fn test_profile_picker_select() {
    let mut app = App::with_config(create_test_config_with_profiles());
    app.update(Event::Tick);
    app.show_profile_picker();
    assert!(app.is_profile_picker_visible());
    app.update(Event::Key(KeyEvent::new(KeyCode::Down, KeyModifiers::NONE)));
    app.update(Event::Key(KeyEvent::new(KeyCode::Enter, KeyModifiers::NONE)));
    assert!(!app.is_profile_picker_visible());
    assert_eq!(app.current_profile_name(), Some("personal"));
}

#[test]
fn test_profile_picker_cancel() {
    let mut app = App::with_config(create_test_config_with_profiles());
    app.update(Event::Tick);
    app.show_profile_picker();
    assert!(app.is_profile_picker_visible());
    app.update(Event::Key(KeyEvent::new(KeyCode::Esc, KeyModifiers::NONE)));
    assert!(!app.is_profile_picker_visible());
    assert_eq!(app.current_profile_name(), Some("work"));
}

#[test]
fn test_profile_picker_blocks_other_input() {
    let mut app = App::with_config(create_test_config_with_profiles());
    app.update(Event::Tick);
    app.show_profile_picker();
    app.update(Event::Key(KeyEvent::new(KeyCode::Char('r'), KeyModifiers::NONE)));
    assert!(app.is_profile_picker_visible());
    assert_eq!(app.current_profile_name(), Some("work"));
}

#[test]
fn test_profile_picker_q_cancels() {
    let mut app = App::with_config(create_test_config_with_profiles());
    app.update(Event::Tick);
    app.show_profile_picker();
    assert!(app.is_profile_picker_visible());
    app.update(Event::Key(KeyEvent::new(KeyCode::Char('q'), KeyModifiers::NONE)));
    assert!(!app.is_profile_picker_visible());
}

#[test]
fn test_profile_count() {
    let app = App::with_config(create_test_config_with_profiles());
    assert_eq!(app.profile_count(), 3);
}

#[test]
fn test_config_accessor() {
    let app = App::with_config(create_test_config_with_profiles());
    let config = app.config();
    assert_eq!(config.profiles.len(), 3);
    assert_eq!(config.settings.default_profile, Some("work".to_string()));
}

#[test]
fn help_escape_returns_to_screen_it_was_opened_from() {
    let mut app = fresh_app();
    app.state = AppState::ProfileManagement;
    app.update(Event::Key(KeyEvent::new(KeyCode::Char('?'), KeyModifiers::NONE)));
    assert_eq!(app.state(), AppState::Help);
    app.update(Event::Key(KeyEvent::new(KeyCode::Esc, KeyModifiers::NONE)));
    assert_eq!(app.state(), AppState::ProfileManagement);
    assert_eq!(app.previous_state, None);
}

fn create_test_issue(key: &str, summary: &str) -> lazyjira::api::types::Issue {
    lazyjira::api::types::Issue {
        key: key.to_string(),
        summary: summary.to_string(),
        status: "Open".to_string(),
    }
}

/// The application on the detail screen of an issue, as the issue list opens it.
fn app_in_detail(key: &str) -> App {
    let mut app = fresh_app();
    app.update(Event::Tick);
    app.set_detail_issue(create_test_issue(key, "Test"));
    app.state = AppState::IssueDetail;
    app
}

#[test]
fn test_escape_from_detail() {
    let mut app = app_in_detail("TEST-1");
    assert_eq!(app.state(), AppState::IssueDetail);
    app.update(Event::Key(KeyEvent::new(KeyCode::Esc, KeyModifiers::NONE)));
    assert_eq!(app.state(), AppState::IssueList);
    assert!(app.detail_issue().is_none());
}

#[test]
fn test_q_from_detail_goes_back() {
    let mut app = app_in_detail("TEST-1");
    assert_eq!(app.state(), AppState::IssueDetail);
    app.update(Event::Key(KeyEvent::new(KeyCode::Char('q'), KeyModifiers::NONE)));
    assert_eq!(app.state(), AppState::IssueList);
    assert!(!app.should_quit());
}

#[test]
fn test_detail_view_accessors() {
    let mut app = fresh_app();
    app.set_detail_issue(create_test_issue("TEST-1", "Test issue"));
    assert!(app.detail_issue().is_some());
    assert_eq!(app.detail_issue().unwrap().key, "TEST-1");
    assert_eq!(app.selected_issue_key(), Some(&"TEST-1".to_string()));
}

#[test]
fn test_open_filter_panel() {
    let mut app = fresh_app();
    app.update(Event::Tick);
    app.update(Event::Key(KeyEvent::new(KeyCode::Char('f'), KeyModifiers::NONE)));
    assert_eq!(app.state(), AppState::FilterPanel);
}

#[test]
fn test_profile_clears_detail_view() {
    let mut app = App::with_config(create_test_config_with_profiles());
    app.set_detail_issue(create_test_issue("TEST-123", "Detail issue"));
    assert!(app.selected_issue_key().is_some());
    app.switch_profile("personal").unwrap();
    assert!(app.selected_issue_key().is_none());
    assert!(app.detail_issue().is_none());
}

#[test]
fn question_mark_on_detail_is_left_to_the_detail_screen() {
    let mut app = app_in_detail("TEST-1");
    app.update(Event::Key(KeyEvent::new(KeyCode::Char('?'), KeyModifiers::NONE)));
    assert_eq!(app.state(), AppState::IssueDetail);
}
