//! User configuration: JIRA profiles and application settings, their validation
//! and the profile operations.
//!
//! Reading and writing the configuration file is done by the application; this
//! module decides what a configuration means and when it is valid.
pub mod profile;
pub mod settings;

pub use profile::Profile;
pub use settings::{CustomThemeConfig, Settings};

use vstd::prelude::*;

use crate::paths::PathParts;
use crate::text::{concat2, concat3, str_eq};
use self::profile::profile_error;

verus! {

/// Errors that can occur when working with configuration.
#[derive(Debug)]
pub enum ConfigError {
    /// Could not determine the configuration directory.
    NoConfigDir,
    /// Failed to create the configuration directory; holds the cause.
    CreateDirError(String),
    /// Failed to read the configuration file; holds the cause.
    ReadError(String),
    /// Failed to write the configuration file; holds the cause.
    WriteError(String),
    /// Failed to parse the configuration file; holds the cause.
    ParseError(String),
    /// Failed to serialize the configuration; holds the cause.
    SerializeError(String),
    /// Configuration validation failed; holds the reason.
    ValidationError(String),
    /// No profile of the given name (or at the given position) exists.
    ProfileNotFound(String),
}

/// The message of a configuration error.
pub open spec fn config_error_message(e: ConfigError) -> Seq<char> {
    match e {
        ConfigError::NoConfigDir => "could not determine configuration directory"@,
        ConfigError::CreateDirError(c) => "failed to create configuration directory: "@ + c@,
        ConfigError::ReadError(c) => "failed to read configuration file: "@ + c@,
        ConfigError::WriteError(c) => "failed to write configuration file: "@ + c@,
        ConfigError::ParseError(c) => "failed to parse configuration file: "@ + c@,
        ConfigError::SerializeError(c) => "failed to serialize configuration: "@ + c@,
        ConfigError::ValidationError(c) => "configuration validation failed: "@ + c@,
        ConfigError::ProfileNotFound(c) => "profile not found: "@ + c@,
    }
}

impl ConfigError {
    /// The error's message.
    pub fn to_string(&self) -> (s: String)
        ensures
            s@ == config_error_message(*self),
    {
        match self {
            ConfigError::NoConfigDir => String::from_str("could not determine configuration directory"),
            ConfigError::CreateDirError(c) => concat2(
                "failed to create configuration directory: ",
                c.as_str(),
            ),
            ConfigError::ReadError(c) => concat2("failed to read configuration file: ", c.as_str()),
            ConfigError::WriteError(c) => concat2("failed to write configuration file: ", c.as_str()),
            ConfigError::ParseError(c) => concat2("failed to parse configuration file: ", c.as_str()),
            ConfigError::SerializeError(c) => concat2(
                "failed to serialize configuration: ",
                c.as_str(),
            ),
            ConfigError::ValidationError(c) => concat2(
                "configuration validation failed: ",
                c.as_str(),
            ),
            ConfigError::ProfileNotFound(c) => concat2("profile not found: ", c.as_str()),
        }
    }
}

/// A profile as data: name, URL, email.
pub type ProfileView = (Seq<char>, Seq<char>, Seq<char>);

/// The views of a sequence of profiles.
pub open spec fn profile_views(ps: Seq<Profile>) -> Seq<ProfileView> {
    ps.map_values(|p: Profile| (p.name@, p.url@, p.email@))
}

/// Some profile among the first `n` of `ps` is named `name`.
pub open spec fn named_before(ps: Seq<ProfileView>, n: int, name: Seq<char>) -> bool {
    exists|j: int| 0 <= j < n && (#[trigger] ps[j]).0 == name
}

/// The first error met when checking the profiles in order: each profile is validated
/// and must not repeat the name of an earlier one.
pub open spec fn profiles_error(ps: Seq<ProfileView>) -> Option<Seq<char>>
    decreases ps.len(),
{
    if ps.len() == 0 {
        None
    } else {
        match profiles_error(ps.drop_last()) {
            Some(e) => Some(e),
            None => {
                let p = ps.last();
                match profile_error(p.0, p.1, p.2) {
                    Some(e) => Some(e),
                    None => if named_before(ps, ps.len() - 1, p.0) {
                        Some("duplicate profile name: '"@ + p.0 + "'"@)
                    } else {
                        None
                    },
                }
            },
        }
    }
}

/// Why a configuration with these profiles and default profile is invalid, if it is.
pub open spec fn config_error(ps: Seq<ProfileView>, default_profile: Option<Seq<char>>) -> Option<
    Seq<char>,
> {
    match profiles_error(ps) {
        Some(e) => Some(e),
        None => match default_profile {
            Some(d) => if named_before(ps, ps.len() as int, d) {
                None
            } else {
                Some("default profile '"@ + d + "' does not exist"@)
            },
            None => None,
        },
    }
}

/// The position of the first profile named `name`.
pub open spec fn find_profile(ps: Seq<ProfileView>, name: Seq<char>) -> Option<int>
    decreases ps.len(),
{
    if ps.len() == 0 {
        None
    } else {
        match find_profile(ps.drop_last(), name) {
            Some(i) => Some(i),
            None => if ps.last().0 == name {
                Some(ps.len() - 1)
            } else {
                None
            },
        }
    }
}

/// The test that keeps profiles not named `name`.
pub open spec fn not_named(name: Seq<char>) -> spec_fn(ProfileView) -> bool {
    |p: ProfileView| p.0 != name
}

/// The characters of an optional string.
pub open spec fn opt_chars(o: Option<String>) -> Option<Seq<char>> {
    match o {
        Some(s) => Some(s@),
        None => None,
    }
}

proof fn lemma_find_extends(s: Seq<ProfileView>, k: int, name: Seq<char>)
    requires
        0 <= k <= s.len(),
        find_profile(s.take(k), name) is Some,
    ensures
        find_profile(s, name) == find_profile(s.take(k), name),
    decreases s.len() - k,
{
    if k == s.len() {
        assert(s.take(k) =~= s);
    } else {
        assert(s.take(k + 1).drop_last() =~= s.take(k));
        lemma_find_extends(s, k + 1, name);
    }
}

/// The profile found by name is the first one of that name, and there is none
/// exactly when no profile has that name.
pub proof fn lemma_find_spec(s: Seq<ProfileView>, name: Seq<char>)
    ensures
        find_profile(s, name) is None <==> !named_before(s, s.len() as int, name),
        find_profile(s, name) matches Some(i) ==> 0 <= i < s.len() && s[i].0 == name && !named_before(
            s,
            i,
            name,
        ),
    decreases s.len(),
{
    if s.len() > 0 {
        let d = s.drop_last();
        lemma_find_spec(d, name);
        if named_before(d, d.len() as int, name) {
            let j = choose|j: int| 0 <= j < d.len() && (#[trigger] d[j]).0 == name;
            assert(s[j] == d[j]);
        }
        if named_before(s, s.len() as int, name) && !named_before(d, d.len() as int, name) {
            let j = choose|j: int| 0 <= j < s.len() && (#[trigger] s[j]).0 == name;
            if j < d.len() {
                assert(d[j] == s[j]);
            }
        }
        match find_profile(d, name) {
            Some(i) => {
                assert forall|j: int| 0 <= j < i implies (#[trigger] s[j]).0 != name by {
                    assert(s[j] == d[j]);
                    if s[j].0 == name {
                        assert(named_before(d, i, name));
                    }
                }
            },
            None => {
                assert forall|j: int| 0 <= j < s.len() - 1 implies (#[trigger] s[j]).0 != name by {
                    assert(s[j] == d[j]);
                    if s[j].0 == name {
                        assert(named_before(d, d.len() as int, name));
                    }
                }
            },
        }
    }
}

/// The root configuration: settings and the list of profiles.
#[derive(Debug, Clone)]
pub struct Config {
    /// Application-wide settings.
    pub settings: Settings,
    /// List of JIRA profiles.
    pub profiles: Vec<Profile>,
}

impl Default for Config {
    fn default() -> (c: Config)
        ensures
            c.profiles@.len() == 0,
            c.settings.default_profile is None,
            c.settings.theme@ == "dark"@,
            c.settings.vim_mode,
            c.settings.cache_ttl_minutes == 30,
            c.settings.cache_max_size_mb == 100,
            c.settings.jql_history@.len() == 0,
            !c.settings.confirm_transitions,
            c.settings.confirm_discard_changes,
            c.settings.custom_theme is None,
    {
        Config { settings: Settings::default(), profiles: Vec::new() }
    }
}

impl Config {
    /// The profiles as data.
    pub open spec fn profile_list(&self) -> Seq<ProfileView> {
        profile_views(self.profiles@)
    }

    /// Why this configuration is invalid, if it is.
    pub open spec fn error(&self) -> Option<Seq<char>> {
        config_error(self.profile_list(), opt_chars(self.settings.default_profile))
    }

    /// Validate the configuration: every profile is valid, profile names are unique,
    /// and the default profile, if set, exists. The first problem met gives the error.
    pub fn validate(&self) -> (r: Result<(), ConfigError>)
        ensures
            r is Ok <==> self.error() is None,
            r matches Err(e) ==> e is ValidationError && self.error() == Some(e->ValidationError_0@),
    {
        let ghost ps = self.profile_list();
        let n = self.profiles.len();
        let mut i: usize = 0;
        while i < n
            invariant
                n == self.profiles@.len(),
                ps == self.profile_list(),
                i <= n,
                profiles_error(ps.take(i as int)) is None,
            decreases n - i,
        {
            let p = &self.profiles[i];
            proof {
                assert(ps.take(i + 1).drop_last() =~= ps.take(i as int));
                assert(ps.take(i + 1).last() == ps[i as int]);
                assert(ps[i as int] == (p.name@, p.url@, p.email@));
            }
            match p.validate() {
                Ok(()) => {},
                Err(e) => {
                    proof {
                        lemma_first_error(ps, i as int + 1);
                    }
                    return Err(e);
                },
            }
            let mut j: usize = 0;
            while j < i
                invariant
                    n == self.profiles@.len(),
                    ps == self.profile_list(),
                    i < n,
                    j <= i,
                    profiles_error(ps.take(i as int)) is None,
                    profile_error(ps[i as int].0, ps[i as int].1, ps[i as int].2) is None,
                    ps.take(i + 1).drop_last() == ps.take(i as int),
                    ps.take(i + 1).last() == ps[i as int],
                    forall|k: int| 0 <= k < j ==> (#[trigger] ps[k]).0 != ps[i as int].0,
                decreases i - j,
            {
                if str_eq(self.profiles[j].name.as_str(), self.profiles[i].name.as_str()) {
                    proof {
                        assert(ps[j as int].0 == ps[i as int].0);
                        assert(named_before(ps.take(i + 1), i as int, ps[i as int].0)) by {
                            assert(ps.take(i + 1)[j as int] == ps[j as int]);
                        }
                        lemma_first_error(ps, i as int + 1);
                    }
                    return Err(
                        ConfigError::ValidationError(
                            concat3("duplicate profile name: '", self.profiles[i].name.as_str(), "'"),
                        ),
                    );
                }
                j += 1;
            }
            proof {
                if named_before(ps.take(i + 1), i as int, ps[i as int].0) {
                    let k = choose|k: int|
                        0 <= k < i && (#[trigger] ps.take(i + 1)[k]).0 == ps[i as int].0;
                    assert(ps[k] == ps.take(i + 1)[k]);
                }
            }
            i += 1;
        }
        assert(ps.take(n as int) =~= ps);
        match &self.settings.default_profile {
            Some(d) => {
                let found = self.get_profile(d.as_str());
                proof {
                    lemma_find_spec(ps, d@);
                }
                if found.is_none() {
                    return Err(
                        ConfigError::ValidationError(
                            concat3("default profile '", d.as_str(), "' does not exist"),
                        ),
                    );
                }
            },
            None => {},
        }
        Ok(())
    }

    /// The position of the first profile with the given name.
    pub fn position(&self, name: &str) -> (r: Option<usize>)
        ensures
            match find_profile(self.profile_list(), name@) {
                Some(i) => r == Some(i as usize),
                None => r is None,
            },
    {
        let ghost ps = self.profile_list();
        let mut i: usize = 0;
        while i < self.profiles.len()
            invariant
                i <= self.profiles@.len(),
                ps == self.profile_list(),
                find_profile(ps.take(i as int), name@) is None,
            decreases self.profiles.len() - i,
        {
            proof {
                assert(ps.take(i + 1).drop_last() =~= ps.take(i as int));
                assert(ps.take(i + 1).last() == ps[i as int]);
            }
            if str_eq(self.profiles[i].name.as_str(), name) {
                proof {
                    lemma_find_extends(ps, i + 1, name@);
                }
                return Some(i);
            }
            i += 1;
        }
        assert(ps.take(i as int) =~= ps);
        None
    }

    /// Get the first profile with the given name.
    pub fn get_profile(&self, name: &str) -> (r: Option<&Profile>)
        ensures
            match find_profile(self.profile_list(), name@) {
                Some(i) => r == Some(&self.profiles@[i]),
                None => r is None,
            },
    {
        let ghost ps = self.profile_list();
        let mut i: usize = 0;
        while i < self.profiles.len()
            invariant
                i <= self.profiles@.len(),
                ps == self.profile_list(),
                find_profile(ps.take(i as int), name@) is None,
            decreases self.profiles.len() - i,
        {
            proof {
                assert(ps.take(i + 1).drop_last() =~= ps.take(i as int));
                assert(ps.take(i + 1).last() == ps[i as int]);
            }
            if str_eq(self.profiles[i].name.as_str(), name) {
                proof {
                    lemma_find_extends(ps, i + 1, name@);
                }
                return Some(&self.profiles[i]);
            }
            i += 1;
        }
        assert(ps.take(i as int) =~= ps);
        None
    }

    /// Get the default profile: the one named by the settings, or the first profile
    /// when no default is set.
    pub fn get_default_profile(&self) -> (r: Option<&Profile>)
        ensures
            match self.settings.default_profile {
                Some(d) => match find_profile(self.profile_list(), d@) {
                    Some(i) => r == Some(&self.profiles@[i]),
                    None => r is None,
                },
                None => if self.profiles@.len() > 0 {
                    r == Some(&self.profiles@[0])
                } else {
                    r is None
                },
            },
    {
        match &self.settings.default_profile {
            Some(d) => self.get_profile(d.as_str()),
            None => self.profiles.first(),
        }
    }

    /// Add a profile: it must be valid and its name must not be taken.
    pub fn add_profile(&mut self, profile: Profile) -> (r: Result<(), ConfigError>)
        ensures
            final(self).settings == old(self).settings,
            match profile.error() {
                Some(e) => r matches Err(ConfigError::ValidationError(m)) && m@ == e && *final(self) == *old(self),
                None => if named_before(
                    old(self).profile_list(),
                    old(self).profile_list().len() as int,
                    profile.name@,
                ) {
                    r matches Err(ConfigError::ValidationError(m)) && m@ == "profile '"@
                        + profile.name@ + "' already exists"@ && *final(self) == *old(self)
                } else {
                    r is Ok && final(self).profiles@ == old(self).profiles@.push(profile)
                },
            },
    {
        match profile.validate() {
            Ok(()) => {},
            Err(e) => {
                return Err(e);
            },
        }
        let found = self.get_profile(profile.name.as_str());
        proof {
            lemma_find_spec(self.profile_list(), profile.name@);
        }
        if found.is_some() {
            return Err(
                ConfigError::ValidationError(
                    concat3("profile '", profile.name.as_str(), "' already exists"),
                ),
            );
        }
        self.profiles.push(profile);
        Ok(())
    }

    /// Remove every profile with the given name; returns whether one was removed.
    /// A default profile of that name is unset.
    pub fn remove_profile(&mut self, name: &str) -> (removed: bool)
        ensures
            final(self).profile_list() == old(self).profile_list().filter(not_named(name@)),
            removed == named_before(
                old(self).profile_list(),
                old(self).profile_list().len() as int,
                name@,
            ),
            opt_chars(old(self).settings.default_profile) == Some(name@) ==> final(self).settings.default_profile is None,
            opt_chars(old(self).settings.default_profile) != Some(name@) ==> final(self).settings.default_profile == old(self).settings.default_profile,
            final(self).settings == (Settings {
                default_profile: final(self).settings.default_profile,
                ..old(self).settings
            }),
    {
        let ghost ps = self.profile_list();
        let ghost pred = not_named(name@);
        let mut kept: Vec<Profile> = Vec::new();
        let mut removed = false;
        let mut i: usize = 0;
        while i < self.profiles.len()
            invariant
                i <= self.profiles@.len(),
                ps == self.profile_list(),
                pred == not_named(name@),
                profile_views(kept@) == ps.take(i as int).filter(pred),
                removed == named_before(ps, i as int, name@),
            decreases self.profiles.len() - i,
        {
            proof {
                reveal_with_fuel(Seq::<_>::filter, 1);
                assert(ps.take(i + 1).drop_last() =~= ps.take(i as int));
                assert(ps.take(i + 1).last() == ps[i as int]);
            }
            let ghost prev = profile_views(kept@);
            if str_eq(self.profiles[i].name.as_str(), name) {
                removed = true;
                assert(named_before(ps, i + 1, name@)) by {
                    assert(ps[i as int].0 == name@);
                }
            } else {
                let p = self.profiles[i].duplicate();
                kept.push(p);
                assert(profile_views(kept@) =~= prev.push(ps[i as int]));
                proof {
                    if named_before(ps, i + 1, name@) {
                        let j = choose|j: int| 0 <= j < i + 1 && (#[trigger] ps[j]).0 == name@;
                        assert(j < i);
                    }
                }
            }
            i += 1;
        }
        assert(ps.take(i as int) =~= ps);
        self.profiles = kept;
        let clear = match &self.settings.default_profile {
            Some(d) => str_eq(d.as_str(), name),
            None => false,
        };
        if clear {
            self.settings.default_profile = None;
        }
        removed
    }
}

proof fn lemma_first_error(ps: Seq<ProfileView>, k: int)
    requires
        0 < k <= ps.len(),
        profiles_error(ps.take(k - 1)) is None,
        profiles_error(ps.take(k)) is Some,
    ensures
        profiles_error(ps) == profiles_error(ps.take(k)),
    decreases ps.len() - k,
{
    if k == ps.len() {
        assert(ps.take(k) =~= ps);
    } else {
        assert(ps.take(k + 1).drop_last() =~= ps.take(k));
        lemma_error_extends(ps, k + 1);
    }
}

proof fn lemma_error_extends(ps: Seq<ProfileView>, k: int)
    requires
        0 < k <= ps.len(),
        profiles_error(ps.take(k - 1)) is Some,
    ensures
        profiles_error(ps) == profiles_error(ps.take(k - 1)),
    decreases ps.len() - k,
{
    assert(ps.take(k).drop_last() =~= ps.take(k - 1));
    if k == ps.len() {
        assert(ps.take(k) =~= ps);
    } else {
        lemma_error_extends(ps, k + 1);
    }
}

/// A profile added under a new name is found again by that name, at the end of
/// the list.
pub proof fn law_added_profile_found(ps: Seq<ProfileView>, p: ProfileView)
    requires
        !named_before(ps, ps.len() as int, p.0),
    ensures
        find_profile(ps.push(p), p.0) == Some(ps.len() as int),
{
    lemma_find_spec(ps, p.0);
    assert(ps.push(p).drop_last() =~= ps);
}

/// After the profiles of a name are removed, no profile of that name is found.
pub proof fn law_removed_profile_gone(ps: Seq<ProfileView>, name: Seq<char>)
    ensures
        find_profile(ps.filter(not_named(name)), name) is None,
{
    let f = ps.filter(not_named(name));
    lemma_find_spec(f, name);
    if named_before(f, f.len() as int, name) {
        let j = choose|j: int| 0 <= j < f.len() && (#[trigger] f[j]).0 == name;
        ps.lemma_filter_pred(not_named(name), j);
    }
}

/// Removing the profiles of a name keeps every other profile, in order.
pub proof fn law_remove_keeps_others(ps: Seq<ProfileView>, name: Seq<char>, other: Seq<char>)
    requires
        other != name,
    ensures
        find_profile(ps.filter(not_named(name)), other) is Some <==> find_profile(ps, other) is Some,
{
    let f = ps.filter(not_named(name));
    lemma_find_spec(f, other);
    lemma_find_spec(ps, other);
    if named_before(ps, ps.len() as int, other) {
        let j = choose|j: int| 0 <= j < ps.len() && (#[trigger] ps[j]).0 == other;
        ps.lemma_filter_contains(not_named(name), j);
        let k = choose|k: int| 0 <= k < f.len() && f[k] == ps[j];
        assert(f[k].0 == other);
    }
    if named_before(f, f.len() as int, other) {
        let k = choose|k: int| 0 <= k < f.len() && (#[trigger] f[k]).0 == other;
        assert(f.contains(f[k]));
        ps.lemma_filter_contains_rev(not_named(name), f[k]);
        let j = choose|j: int| 0 <= j < ps.len() && ps[j] == f[k];
        assert(ps[j].0 == other);
    }
}

/// `std::path::PathBuf`, carried opaquely.
#[verifier::external_type_specification]
#[verifier::external_body]
pub struct ExPathBuf(std::path::PathBuf);

/// Calls `dirs::config_dir`: the user's configuration directory, when the platform
/// names one. Nothing is claimed of the answer: it depends on the environment.
#[verifier::external_body]
fn user_config_dir() -> (d: Option<std::path::PathBuf>) {
    dirs::config_dir()
}

impl Config {
    /// The directory of the configuration: "lazyjira" in the user's configuration
    /// directory; fails with `NoConfigDir` when the platform names none.
    pub fn config_dir() -> (r: Result<PathParts, ConfigError>)
        ensures
            r matches Ok(p) ==> p.names() == seq!["lazyjira"@],
            r matches Err(e) ==> e == ConfigError::NoConfigDir,
    {
        match user_config_dir() {
            Some(d) => Ok(PathParts::new(d).join("lazyjira")),
            None => Err(ConfigError::NoConfigDir),
        }
    }

    /// The configuration file: "config.toml" in `config_dir`; fails with
    /// `NoConfigDir` when the platform names no configuration directory.
    pub fn config_path() -> (r: Result<PathParts, ConfigError>)
        ensures
            r matches Ok(p) ==> p.names() == seq!["lazyjira"@, "config.toml"@],
            r matches Err(e) ==> e == ConfigError::NoConfigDir,
    {
        match Self::config_dir() {
            Ok(d) => Ok(d.join("config.toml")),
            Err(e) => Err(e),
        }
    }
}

} // verus!
