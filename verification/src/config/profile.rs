//! A JIRA profile: the connection details of one JIRA instance.
use vstd::prelude::*;

use super::ConfigError;
use crate::text::{
    concat2, concat3, concat5, contains_char, contains_whitespace, copy_str, has_whitespace, seq_starts_with,
    spec_is_whitespace, starts_with,
};

verus! {

/// A JIRA profile configuration. API tokens are kept apart, in the OS keychain.
#[derive(Debug, Clone, PartialEq, Eq)]
pub struct Profile {
    /// The name of this profile; non-empty and unique across profiles.
    pub name: String,
    /// The JIRA instance URL (e.g., "https://company.atlassian.net").
    pub url: String,
    /// The user's email address, used with the API token to authenticate.
    pub email: String,
}

/// Why a profile with this name, URL and email is invalid, if it is.
pub open spec fn profile_error(name: Seq<char>, url: Seq<char>, email: Seq<char>) -> Option<Seq<char>> {
    if name.len() == 0 {
        Some("profile name cannot be empty"@)
    } else if has_whitespace(name) {
        Some("profile name '"@ + name + "' cannot contain whitespace"@)
    } else if url.len() == 0 {
        Some("profile '"@ + name + "': URL cannot be empty"@)
    } else if !seq_starts_with(url, "https://"@) && !seq_starts_with(url, "http://"@) {
        Some("profile '"@ + name + "': URL must start with http:// or https://"@)
    } else if email.len() == 0 {
        Some("profile '"@ + name + "': email cannot be empty"@)
    } else if !email.contains('@') {
        Some(
            "profile '"@ + name + "': '"@ + email + "' does not appear to be a valid email address"@,
        )
    } else {
        None
    }
}

impl Profile {
    /// Create a new profile.
    pub fn new(name: String, url: String, email: String) -> (p: Profile)
        ensures
            p.name == name,
            p.url == url,
            p.email == email,
    {
        Profile { name, url, email }
    }

    /// Why this profile is invalid, if it is.
    pub open spec fn error(&self) -> Option<Seq<char>> {
        profile_error(self.name@, self.url@, self.email@)
    }

    /// A copy of this profile.
    pub fn duplicate(&self) -> (p: Profile)
        ensures
            p.name@ == self.name@,
            p.url@ == self.url@,
            p.email@ == self.email@,
    {
        Profile { name: self.name.clone(), url: self.url.clone(), email: self.email.clone() }
    }

    /// Validate this profile: the name is non-empty and has no white space, the URL is
    /// non-empty and starts with http:// or https://, and the email is non-empty and
    /// contains '@'. The first rule broken gives the error.
    pub fn validate(&self) -> (r: Result<(), ConfigError>)
        ensures
            r is Ok <==> self.error() is None,
            r matches Err(e) ==> e is ValidationError && self.error() == Some(e->ValidationError_0@),
    {
        let name = self.name.as_str();
        if name.is_empty() {
            return Err(ConfigError::ValidationError(copy_str("profile name cannot be empty")));
        }
        if contains_whitespace(name) {
            return Err(
                ConfigError::ValidationError(
                    concat3("profile name '", name, "' cannot contain whitespace"),
                ),
            );
        }
        let url = self.url.as_str();
        if url.is_empty() {
            return Err(
                ConfigError::ValidationError(concat3("profile '", name, "': URL cannot be empty")),
            );
        }
        if !starts_with(url, "https://") && !starts_with(url, "http://") {
            return Err(
                ConfigError::ValidationError(
                    concat3("profile '", name, "': URL must start with http:// or https://"),
                ),
            );
        }
        let email = self.email.as_str();
        if email.is_empty() {
            return Err(
                ConfigError::ValidationError(concat3("profile '", name, "': email cannot be empty")),
            );
        }
        if !contains_char(email, '@') {
            return Err(
                ConfigError::ValidationError(
                    concat5(
                        "profile '",
                        name,
                        "': '",
                        email,
                        "' does not appear to be a valid email address",
                    ),
                ),
            );
        }
        Ok(())
    }

    /// The keyring service name under which this profile's token is stored.
    pub fn keyring_service(&self) -> (s: String)
        ensures
            s@ == "lazyjira:"@ + self.name@,
    {
        concat2("lazyjira:", self.name.as_str())
    }
}

/// A profile is valid exactly when its name is non-empty and has no white space,
/// its URL begins with "http://" or "https://", and its email contains '@'. When
/// only the '@' is missing from a non-empty email, the error names the profile
/// and the email.
pub proof fn law_profile_validity(name: Seq<char>, url: Seq<char>, email: Seq<char>)
    ensures
        profile_error(name, url, email) is None <==> {
            &&& name.len() > 0
            &&& forall|i: int| 0 <= i < name.len() ==> !spec_is_whitespace(#[trigger] name[i])
            &&& ((url.len() >= 8 && url.take(8) == "https://"@) || (url.len() >= 7 && url.take(7)
                == "http://"@))
            &&& exists|i: int| 0 <= i < email.len() && #[trigger] email[i] == '@'
        },
        ({
            &&& name.len() > 0
            &&& forall|i: int| 0 <= i < name.len() ==> !spec_is_whitespace(#[trigger] name[i])
            &&& ((url.len() >= 8 && url.take(8) == "https://"@) || (url.len() >= 7 && url.take(7)
                == "http://"@))
            &&& email.len() > 0
            &&& forall|i: int| 0 <= i < email.len() ==> #[trigger] email[i] != '@'
        }) ==> profile_error(name, url, email) == Some(
            "profile '"@ + name + "': '"@ + email + "' does not appear to be a valid email address"@,
        ),
{
    reveal_strlit("https://");
    reveal_strlit("http://");
    assert(url.len() >= 8 ==> url.take(8) =~= url.subrange(0, 8));
    assert(url.len() >= 7 ==> url.take(7) =~= url.subrange(0, 7));
    if exists|i: int| 0 <= i < email.len() && #[trigger] email[i] == '@' {
        let i = choose|i: int| 0 <= i < email.len() && #[trigger] email[i] == '@';
        assert(email.contains('@'));
    }
}

} // verus!
