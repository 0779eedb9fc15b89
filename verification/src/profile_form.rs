//! Adding and editing profiles from the profile form: the configuration change,
//! the token in the keyring, and what the application shows afterwards.
use vstd::prelude::*;

use crate::api::auth::{delete_token, store_token};
use crate::api::error::{api_error_message, ApiError};
use crate::app::{current_name, notified, profile_view, App};
use crate::config::profile::Profile;
use crate::config::{find_profile, lemma_find_spec, named_before, not_named, opt_chars, ConfigError, ProfileView, Settings};
use crate::text::{concat2, concat3, copy_str, str_eq};
use crate::ui::components::notification::NotificationType;

verus! {

/// What the profile form submits.
pub struct ProfileFormData {
    /// The profile name.
    pub name: String,
    /// The JIRA instance URL.
    pub url: String,
    /// The user's email address.
    pub email: String,
    /// The API token.
    pub token: String,
    /// The name of the profile being edited; `None` for a new profile.
    pub original_name: Option<String>,
}

/// The default profile after the profile `from` is renamed to `to`.
pub open spec fn renamed_default(d: Option<String>, from: Seq<char>, to: Seq<char>) -> Option<Seq<char>> {
    if opt_chars(d) == Some(from) {
        Some(to)
    } else {
        opt_chars(d)
    }
}

/// The outcome on `a`, whose profiles are now `list`, of storing the token of the
/// new profile `name` with the keyring's answer `stored`: on success the first
/// profile becomes active when none was and a success message is shown; on
/// failure the profile is taken out again and the error says why.
pub open spec fn new_profile_settled(
    a: App,
    list: Seq<ProfileView>,
    name: Seq<char>,
    stored: Result<(), ApiError>,
    b: App,
    r: Result<(), ConfigError>,
) -> bool {
    match stored {
        Ok(()) => {
            &&& r is Ok
            &&& b == (App {
                config: b.config,
                current_profile: b.current_profile,
                notifications: b.notifications,
                ..a
            })
            &&& b.config.profile_list() == list
            &&& b.config.settings == a.config.settings
            &&& (a.current_profile is Some ==> b.current_profile == a.current_profile)
            &&& (a.current_profile is None && list.len() > 0 ==> (b.current_profile matches Some(q)
                && profile_view(q) == list[0]))
            &&& (a.current_profile is None && list.len() == 0 ==> b.current_profile is None)
            &&& notified(
                a.notifications,
                b.notifications,
                NotificationType::Success,
                "Profile '"@ + name + "' added"@,
            )
        },
        Err(e) => {
            &&& r matches Err(ConfigError::ValidationError(m)) && m@ == "Failed to store token: "@
                + api_error_message(e)
            &&& b == (App { config: b.config, ..a })
            &&& b.config.profile_list() == list.filter(not_named(name))
            &&& b.config.settings == (Settings {
                default_profile: b.config.settings.default_profile,
                ..a.config.settings
            })
            &&& (opt_chars(a.config.settings.default_profile) == Some(name)
                ==> b.config.settings.default_profile is None)
            &&& (opt_chars(a.config.settings.default_profile) != Some(name)
                ==> b.config.settings.default_profile == a.config.settings.default_profile)
        },
    }
}

/// The outcome on `a`, whose profiles are now `list` (the profile `orig`
/// replaced by `p`), of storing the token under the new name with the keyring's
/// answer `stored`: on success the default and the active profile follow the new
/// name and a success message is shown; on failure nothing more changes and the
/// error says why.
pub open spec fn edited_profile_settled(
    a: App,
    list: Seq<ProfileView>,
    orig: Seq<char>,
    p: ProfileView,
    stored: Result<(), ApiError>,
    b: App,
    r: Result<(), ConfigError>,
) -> bool {
    &&& b.config.profile_list() == list
    &&& match stored {
        Ok(()) => {
            &&& r is Ok
            &&& b == (App {
                config: b.config,
                current_profile: b.current_profile,
                notifications: b.notifications,
                ..a
            })
            &&& b.config.settings == (Settings {
                default_profile: b.config.settings.default_profile,
                ..a.config.settings
            })
            &&& opt_chars(b.config.settings.default_profile) == renamed_default(
                a.config.settings.default_profile,
                orig,
                p.0,
            )
            &&& (current_name(a) == Some(orig) ==> (b.current_profile matches Some(q) && profile_view(q) == p))
            &&& (current_name(a) != Some(orig) ==> b.current_profile == a.current_profile)
            &&& notified(
                a.notifications,
                b.notifications,
                NotificationType::Success,
                "Profile '"@ + p.0 + "' updated"@,
            )
        },
        Err(e) => {
            &&& r matches Err(ConfigError::ValidationError(m)) && m@ == "Failed to store token: "@
                + api_error_message(e)
            &&& b == (App { config: b.config, ..a })
            &&& b.config.settings == a.config.settings
        },
    }
}

impl App {
    /// After a new profile `name` was added to the configuration, act on the
    /// keyring's answer to storing its token (see `new_profile_settled`).
    pub fn settle_new_profile(&mut self, name: &str, stored: Result<(), ApiError>) -> (r: Result<(), ConfigError>)
        ensures
            new_profile_settled(*old(self), old(self).config.profile_list(), name@, stored, *final(self), r),
    {
        match stored {
            Ok(()) => {
                if self.current_profile.is_none() {
                    self.current_profile = match self.config.profiles.first() {
                        Some(p) => Some(p.duplicate()),
                        None => None,
                    };
                }
                let msg = concat3("Profile '", name, "' added");
                self.notifications.success(msg.as_str());
                Ok(())
            },
            Err(e) => {
                let _ = self.config.remove_profile(name);
                let m = e.to_string();
                Err(ConfigError::ValidationError(concat2("Failed to store token: ", m.as_str())))
            },
        }
    }

    /// Add a profile from the form: it must be valid and its name new; its token
    /// goes to the keyring, and when the keyring refuses it the profile is taken
    /// out again (see `new_profile_settled`). Saving the configuration is left to
    /// the caller.
    pub fn add_profile(&mut self, data: ProfileFormData) -> (r: Result<(), ConfigError>)
        ensures
            ({
                let p: ProfileView = (data.name@, data.url@, data.email@);
                match crate::config::profile::profile_error(p.0, p.1, p.2) {
                    Some(e) => r matches Err(ConfigError::ValidationError(m)) && m@ == e && *final(self)
                        == *old(self),
                    None => if named_before(
                        old(self).config.profile_list(),
                        old(self).config.profile_list().len() as int,
                        p.0,
                    ) {
                        r matches Err(ConfigError::ValidationError(m)) && m@ == "profile '"@ + p.0
                            + "' already exists"@ && *final(self) == *old(self)
                    } else {
                        exists|stored: Result<(), ApiError>|
                            new_profile_settled(
                                *old(self),
                                old(self).config.profile_list().push(p),
                                p.0,
                                stored,
                                *final(self),
                                r,
                            )
                    },
                }
            }),
    {
        let ProfileFormData { name, url, email, token, original_name: _ } = data;
        let ghost p: ProfileView = (name@, url@, email@);
        let key = copy_str(name.as_str());
        let profile = Profile::new(name, url, email);
        let ghost before = *self;
        match self.config.add_profile(profile) {
            Ok(()) => {},
            Err(e) => {
                return Err(e);
            },
        }
        proof {
            assert(self.config.profile_list() =~= before.config.profile_list().push(p));
        }
        let stored = store_token(key.as_str(), token.as_str());
        let ghost mid = *self;
        let r = self.settle_new_profile(key.as_str(), stored);
        proof {
            assert(new_profile_settled(before, mid.config.profile_list(), p.0, stored, *self, r));
        }
        r
    }
    /// After the profile `original_name` was replaced by `profile` in the
    /// configuration, act on the keyring's answer to storing its token (see
    /// `edited_profile_settled`).
    pub fn settle_edited_profile(&mut self, original_name: &str, profile: Profile, stored: Result<(), ApiError>) -> (r: Result<(), ConfigError>)
        ensures
            edited_profile_settled(
                *old(self),
                old(self).config.profile_list(),
                original_name@,
                profile_view(profile),
                stored,
                *final(self),
                r,
            ),
    {
        match stored {
            Ok(()) => {
                let is_default = match &self.config.settings.default_profile {
                    Some(d) => str_eq(d.as_str(), original_name),
                    None => false,
                };
                if is_default {
                    self.config.settings.default_profile = Some(copy_str(profile.name.as_str()));
                }
                let msg = concat3("Profile '", profile.name.as_str(), "' updated");
                let was_current = match &self.current_profile {
                    Some(p) => str_eq(p.name.as_str(), original_name),
                    None => false,
                };
                if was_current {
                    self.current_profile = Some(profile);
                }
                self.notifications.success(msg.as_str());
                Ok(())
            },
            Err(e) => {
                let m = e.to_string();
                Err(ConfigError::ValidationError(concat2("Failed to store token: ", m.as_str())))
            },
        }
    }

    /// Edit the profile named in the form's `original_name`: it must exist, and a
    /// new name must not be taken. The profile is replaced (not validated again),
    /// the token of the old name is deleted when the name changes, whatever the
    /// keyring answers, and the new token is stored (see
    /// `edited_profile_settled`). Saving the configuration is left to the caller.
    pub fn update_profile(&mut self, data: ProfileFormData) -> (r: Result<(), ConfigError>)
        ensures
            match data.original_name {
                None => r matches Err(ConfigError::ValidationError(m)) && m@ == "No original name provided"@
                    && *final(self) == *old(self),
                Some(o) => match find_profile(old(self).config.profile_list(), o@) {
                    None => r matches Err(ConfigError::ProfileNotFound(n)) && n@ == o@ && *final(self)
                        == *old(self),
                    Some(i) => if data.name@ != o@ && named_before(
                        old(self).config.profile_list(),
                        old(self).config.profile_list().len() as int,
                        data.name@,
                    ) {
                        r matches Err(ConfigError::ValidationError(m)) && m@ == "Profile '"@ + data.name@
                            + "' already exists"@ && *final(self) == *old(self)
                    } else {
                        let p: ProfileView = (data.name@, data.url@, data.email@);
                        exists|stored: Result<(), ApiError>|
                            edited_profile_settled(
                                *old(self),
                                old(self).config.profile_list().update(i, p),
                                o@,
                                p,
                                stored,
                                *final(self),
                                r,
                            )
                    },
                },
            },
    {
        let ProfileFormData { name, url, email, token, original_name } = data;
        let original = match original_name {
            Some(o) => o,
            None => {
                return Err(ConfigError::ValidationError(copy_str("No original name provided")));
            },
        };
        proof {
            lemma_find_spec(self.config.profile_list(), original@);
            lemma_find_spec(self.config.profile_list(), name@);
        }
        let index = match self.config.position(original.as_str()) {
            Some(i) => i,
            None => {
                return Err(ConfigError::ProfileNotFound(original));
            },
        };
        let n = self.config.profiles.len();
        proof {
            assert(find_profile(self.config.profile_list(), original@)->0 < n);
        }
        let renamed = !str_eq(name.as_str(), original.as_str());
        if renamed && self.config.get_profile(name.as_str()).is_some() {
            return Err(ConfigError::ValidationError(concat3("Profile '", name.as_str(), "' already exists")));
        }
        let ghost before = *self;
        let ghost p: ProfileView = (name@, url@, email@);
        let key = copy_str(name.as_str());
        let profile = Profile::new(name, url, email);
        let kept = profile.duplicate();
        self.config.profiles.set(index, profile);
        proof {
            assert(self.config.profile_list() =~= before.config.profile_list().update(index as int, p));
        }
        if renamed {
            let _ = delete_token(original.as_str());
        }
        let stored = store_token(key.as_str(), token.as_str());
        let ghost mid = *self;
        let r = self.settle_edited_profile(original.as_str(), kept, stored);
        proof {
            assert(edited_profile_settled(
                before,
                before.config.profile_list().update(index as int, p),
                original@,
                p,
                stored,
                *self,
                r,
            ));
        }
        r
    }
}

} // verus!
