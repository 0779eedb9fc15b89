use lazyjira::config::{Config, ConfigError, Profile, Settings};

#[test]
fn test_default_config() {
    let config = Config::default();
    assert!(config.profiles.is_empty());
    assert!(config.settings.default_profile.is_none());
    assert_eq!(config.settings.theme, "dark");
    assert!(config.settings.vim_mode);
    assert_eq!(config.settings.cache_ttl_minutes, 30);
}

#[test]
fn test_duplicate_profile_names_rejected() {
    let config = Config {
        settings: Settings::default(),
        profiles: vec![
            Profile::new(
                "work".to_string(),
                "https://company.atlassian.net".to_string(),
                "user@company.com".to_string(),
            ),
            Profile::new(
                "work".to_string(),
                "https://other.atlassian.net".to_string(),
                "other@company.com".to_string(),
            ),
        ],
    };

    let result = config.validate();
    assert!(result.is_err());
    assert!(result.unwrap_err().to_string().contains("duplicate profile name"));
}

#[test]
fn test_default_profile_must_exist() {
    let config = Config {
        settings: Settings {
            default_profile: Some("nonexistent".to_string()),
            ..Settings::default()
        },
        profiles: vec![Profile::new(
            "work".to_string(),
            "https://company.atlassian.net".to_string(),
            "user@company.com".to_string(),
        )],
    };

    let result = config.validate();
    assert!(result.is_err());
    assert!(result.unwrap_err().to_string().contains("does not exist"));
}

#[test]
fn test_get_profile() {
    let config = Config {
        settings: Settings::default(),
        profiles: vec![
            Profile::new(
                "work".to_string(),
                "https://company.atlassian.net".to_string(),
                "user@company.com".to_string(),
            ),
            Profile::new(
                "personal".to_string(),
                "https://personal.atlassian.net".to_string(),
                "user@personal.com".to_string(),
            ),
        ],
    };

    assert!(config.get_profile("work").is_some());
    assert!(config.get_profile("personal").is_some());
    assert!(config.get_profile("nonexistent").is_none());
}

#[test]
fn test_get_default_profile() {
    // With explicit default
    let config = Config {
        settings: Settings {
            default_profile: Some("personal".to_string()),
            ..Settings::default()
        },
        profiles: vec![
            Profile::new(
                "work".to_string(),
                "https://company.atlassian.net".to_string(),
                "user@company.com".to_string(),
            ),
            Profile::new(
                "personal".to_string(),
                "https://personal.atlassian.net".to_string(),
                "user@personal.com".to_string(),
            ),
        ],
    };
    assert_eq!(config.get_default_profile().unwrap().name, "personal");

    // Without explicit default - returns first
    let config_no_default = Config {
        settings: Settings::default(),
        profiles: vec![Profile::new(
            "work".to_string(),
            "https://company.atlassian.net".to_string(),
            "user@company.com".to_string(),
        )],
    };
    assert_eq!(config_no_default.get_default_profile().unwrap().name, "work");

    // Empty profiles
    let empty_config = Config::default();
    assert!(empty_config.get_default_profile().is_none());
}

#[test]
fn test_add_profile() {
    let mut config = Config::default();

    let profile = Profile::new(
        "work".to_string(),
        "https://company.atlassian.net".to_string(),
        "user@company.com".to_string(),
    );

    assert!(config.add_profile(profile.clone()).is_ok());
    assert_eq!(config.profiles.len(), 1);

    // Adding duplicate should fail
    let result = config.add_profile(profile);
    assert!(result.is_err());
    assert!(result.unwrap_err().to_string().contains("already exists"));
}

#[test]
fn test_remove_profile() {
    let mut config = Config {
        settings: Settings {
            default_profile: Some("work".to_string()),
            ..Settings::default()
        },
        profiles: vec![
            Profile::new(
                "work".to_string(),
                "https://company.atlassian.net".to_string(),
                "user@company.com".to_string(),
            ),
            Profile::new(
                "personal".to_string(),
                "https://personal.atlassian.net".to_string(),
                "user@personal.com".to_string(),
            ),
        ],
    };

    assert!(config.remove_profile("work"));
    assert_eq!(config.profiles.len(), 1);
    assert!(config.settings.default_profile.is_none()); // default cleared

    assert!(!config.remove_profile("nonexistent"));
    assert_eq!(config.profiles.len(), 1);
}


#[test]
fn added_profile_is_found_and_removed_profile_is_gone() {
    let mut config = Config::default();
    let p = Profile::new(
        "a".to_string(),
        "https://a.atlassian.net".to_string(),
        "a@a.com".to_string(),
    );
    assert!(config.add_profile(p).is_ok());
    assert_eq!(config.get_profile("a").unwrap().url, "https://a.atlassian.net");
    assert!(config.remove_profile("a"));
    assert!(config.get_profile("a").is_none());
}

#[test]
fn invalid_profile_cannot_be_added() {
    let mut config = Config::default();
    let p = Profile::new("".to_string(), "https://a.atlassian.net".to_string(), "a@a.com".to_string());
    let r = config.add_profile(p);
    assert!(r.is_err());
    assert!(config.profiles.is_empty());
}

#[test]
fn config_error_messages() {
    assert_eq!(
        ConfigError::NoConfigDir.to_string(),
        "could not determine configuration directory"
    );
    assert_eq!(
        ConfigError::ValidationError("x".to_string()).to_string(),
        "configuration validation failed: x"
    );
}

#[test]
fn test_config_paths_are_under_lazyjira() {
    match Config::config_path() {
        Ok(p) => assert_eq!(p.parts, vec!["lazyjira", "config.toml"]),
        Err(e) => assert!(matches!(e, ConfigError::NoConfigDir)),
    }
    match Config::config_dir() {
        Ok(p) => assert_eq!(p.parts, vec!["lazyjira"]),
        Err(e) => assert!(matches!(e, ConfigError::NoConfigDir)),
    }
}
