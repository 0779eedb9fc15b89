use lazyjira::api::error::ApiError;
use lazyjira::app::App;
use lazyjira::config::{Config, ConfigError, Profile, Settings};
use lazyjira::profile_form::ProfileFormData;

fn profile(name: &str) -> Profile {
    Profile::new(
        name.to_string(),
        format!("https://{}.atlassian.net", name),
        format!("me@{}.com", name),
    )
}

fn app_with(names: &[&str], default: Option<&str>) -> App {
    let mut settings = Settings::default();
    settings.default_profile = default.map(|d| d.to_string());
    App::with_config(Config { settings, profiles: names.iter().map(|n| profile(n)).collect() })
}

fn form(name: &str, original: Option<&str>) -> ProfileFormData {
    ProfileFormData {
        name: name.to_string(),
        url: format!("https://{}.atlassian.net", name),
        email: format!("me@{}.com", name),
        token: "secret-token".to_string(),
        original_name: original.map(|o| o.to_string()),
    }
}

fn names(app: &App) -> Vec<String> {
    app.config.profiles.iter().map(|p| p.name.clone()).collect()
}

#[test]
fn add_profile_rejects_invalid_profile() {
    let mut app = app_with(&["work"], None);
    let mut data = form("home", None);
    data.url = "not-a-url".to_string();
    match app.add_profile(data) {
        Err(ConfigError::ValidationError(_)) => {},
        _ => panic!("expected a validation error"),
    }
    assert_eq!(names(&app), vec!["work".to_string()]);
    assert_eq!(app.notifications().len(), 0);
}

#[test]
fn add_profile_rejects_taken_name() {
    let mut app = app_with(&["work"], None);
    match app.add_profile(form("work", None)) {
        Err(ConfigError::ValidationError(m)) => assert_eq!(m, "profile 'work' already exists"),
        _ => panic!("expected a validation error"),
    }
    assert_eq!(names(&app), vec!["work".to_string()]);
}

#[test]
fn add_profile_keeps_profile_only_when_token_is_stored() {
    let mut app = app_with(&["work"], None);
    match app.add_profile(form("home", None)) {
        Ok(()) => {
            assert_eq!(names(&app), vec!["work".to_string(), "home".to_string()]);
            assert_eq!(app.notifications().len(), 1);
        },
        Err(ConfigError::ValidationError(m)) => {
            assert!(m.starts_with("Failed to store token: "));
            assert_eq!(names(&app), vec!["work".to_string()]);
        },
        Err(_) => panic!("unexpected error"),
    }
    assert_eq!(app.current_profile_name(), Some("work"));
}

#[test]
fn new_profile_settled_with_stored_token() {
    let mut app = app_with(&[], None);
    app.config.profiles.push(profile("home"));
    assert!(app.settle_new_profile("home", Ok(())).is_ok());
    assert_eq!(app.current_profile_name(), Some("home"));
    assert_eq!(app.notifications().len(), 1);
    assert_eq!(app.notifications.notifications[0].message, "Profile 'home' added");
}

#[test]
fn new_profile_settled_with_refused_token() {
    let mut app = app_with(&["work"], Some("home"));
    app.config.profiles.push(profile("home"));
    let r = app.settle_new_profile("home", Err(ApiError::Keyring("locked".to_string())));
    match r {
        Err(ConfigError::ValidationError(m)) => {
            assert_eq!(m, "Failed to store token: Keyring error: locked")
        },
        _ => panic!("expected a validation error"),
    }
    assert_eq!(names(&app), vec!["work".to_string()]);
    assert_eq!(app.config.settings.default_profile, None);
    assert_eq!(app.notifications().len(), 0);
}

#[test]
fn update_profile_needs_original_name() {
    let mut app = app_with(&["work"], None);
    match app.update_profile(form("work", None)) {
        Err(ConfigError::ValidationError(m)) => assert_eq!(m, "No original name provided"),
        _ => panic!("expected a validation error"),
    }
}

#[test]
fn update_profile_of_unknown_profile_fails() {
    let mut app = app_with(&["work"], None);
    match app.update_profile(form("home", Some("nope"))) {
        Err(ConfigError::ProfileNotFound(n)) => assert_eq!(n, "nope"),
        _ => panic!("expected ProfileNotFound"),
    }
    assert_eq!(names(&app), vec!["work".to_string()]);
}

#[test]
fn update_profile_rejects_taken_new_name() {
    let mut app = app_with(&["work", "home"], None);
    match app.update_profile(form("home", Some("work"))) {
        Err(ConfigError::ValidationError(m)) => assert_eq!(m, "Profile 'home' already exists"),
        _ => panic!("expected a validation error"),
    }
    assert_eq!(names(&app), vec!["work".to_string(), "home".to_string()]);
}

#[test]
fn update_profile_replaces_profile_whatever_the_keyring_says() {
    let mut app = app_with(&["work", "home"], Some("work"));
    let r = app.update_profile(form("office", Some("work")));
    assert_eq!(names(&app), vec!["office".to_string(), "home".to_string()]);
    assert_eq!(app.config.profiles[0].url, "https://office.atlassian.net");
    match r {
        Ok(()) => {
            assert_eq!(app.config.settings.default_profile, Some("office".to_string()));
            assert_eq!(app.current_profile_name(), Some("office"));
        },
        Err(ConfigError::ValidationError(m)) => {
            assert!(m.starts_with("Failed to store token: "));
            assert_eq!(app.config.settings.default_profile, Some("work".to_string()));
            assert_eq!(app.current_profile_name(), Some("work"));
        },
        Err(_) => panic!("unexpected error"),
    }
}

#[test]
fn edited_profile_settled_renames_default_and_current() {
    let mut app = app_with(&["office", "home"], Some("work"));
    app.current_profile = Some(profile("work"));
    let r = app.settle_edited_profile("work", profile("office"), Ok(()));
    assert!(r.is_ok());
    assert_eq!(app.config.settings.default_profile, Some("office".to_string()));
    assert_eq!(app.current_profile_name(), Some("office"));
    assert_eq!(app.notifications.notifications[0].message, "Profile 'office' updated");
}

#[test]
fn edited_profile_settled_with_refused_token_changes_nothing() {
    let mut app = app_with(&["office", "home"], Some("work"));
    app.current_profile = Some(profile("work"));
    let r = app.settle_edited_profile("work", profile("office"), Err(ApiError::Keyring("locked".to_string())));
    match r {
        Err(ConfigError::ValidationError(m)) => {
            assert_eq!(m, "Failed to store token: Keyring error: locked")
        },
        _ => panic!("expected a validation error"),
    }
    assert_eq!(app.config.settings.default_profile, Some("work".to_string()));
    assert_eq!(app.current_profile_name(), Some("work"));
    assert_eq!(app.notifications().len(), 0);
}
