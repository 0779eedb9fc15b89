//! Application errors, with messages written for the user and advice on what to do.
use vstd::prelude::*;

use crate::api::error::{api_error_message, ApiError};
use crate::config::{config_error_message, ConfigError};
use crate::text::{concat2, concat3, copy_str};

verus! {

/// The application's errors.
#[derive(Debug)]
pub enum AppError {
    /// A configuration error.
    Config(ConfigError),
    /// A JIRA API error.
    Api(ApiError),
    /// A file operation failed; holds the cause.
    Io(String),
    /// A terminal error.
    Terminal(String),
    /// Any other error, with its message.
    Other(String),
}

impl From<ConfigError> for AppError {
    /// A configuration error as an application error.
    fn from(e: ConfigError) -> (r: AppError)
        ensures
            r == AppError::Config(e),
    {
        AppError::Config(e)
    }
}

impl vstd::std_specs::convert::FromSpecImpl<ConfigError> for AppError {
    open spec fn obeys_from_spec() -> bool {
        true
    }

    open spec fn from_spec(e: ConfigError) -> AppError {
        AppError::Config(e)
    }
}

impl From<ApiError> for AppError {
    /// An API error as an application error.
    fn from(e: ApiError) -> (r: AppError)
        ensures
            r == AppError::Api(e),
    {
        AppError::Api(e)
    }
}

impl vstd::std_specs::convert::FromSpecImpl<ApiError> for AppError {
    open spec fn obeys_from_spec() -> bool {
        true
    }

    open spec fn from_spec(e: ApiError) -> AppError {
        AppError::Api(e)
    }
}

/// The technical message of an error.
pub open spec fn app_error_message(e: AppError) -> Seq<char> {
    match e {
        AppError::Config(c) => config_error_message(c),
        AppError::Api(a) => api_error_message(a),
        AppError::Io(m) => "IO error: "@ + m@,
        AppError::Terminal(m) => "Terminal error: "@ + m@,
        AppError::Other(m) => m@,
    }
}

/// The message shown to the user for an error.
pub open spec fn user_message_of(e: AppError) -> Seq<char> {
    match e {
        AppError::Config(c) => match c {
            ConfigError::NoConfigDir => "Could not find configuration directory. Please check your system settings."@,
            ConfigError::CreateDirError(_) => "Could not create configuration directory. Check file permissions."@,
            ConfigError::ReadError(_) => "Could not read configuration file. Please check the file exists and is readable."@,
            ConfigError::WriteError(_) => "Could not save configuration. Please check file permissions."@,
            ConfigError::ParseError(_) => "Configuration file is invalid. Please check the file format."@,
            ConfigError::SerializeError(_) => "Could not save configuration. Internal error."@,
            ConfigError::ValidationError(m) => "Configuration error: "@ + m@,
            ConfigError::ProfileNotFound(n) => "Profile '"@ + n@ + "' not found."@,
        },
        AppError::Api(a) => match a {
            ApiError::Unauthorized => "Authentication failed. Please check your email and API token."@,
            ApiError::Forbidden => "Access denied. You don't have permission to access this resource."@,
            ApiError::NotFound(r) => "'"@ + r@ + "' was not found."@,
            ApiError::RateLimited => "Too many requests. Please wait a moment and try again."@,
            ApiError::ServerError(_) => "JIRA server error. Please try again later."@,
            ApiError::Network(_) => "Connection failed. Please check your internet connection."@,
            ApiError::InvalidUrl(_) => "Invalid JIRA URL in configuration."@,
            ApiError::Keyring(_) => "Could not access secure storage. Please reconfigure your profile."@,
            ApiError::InvalidResponse(_) => "Unexpected response from JIRA. Please try again."@,
            ApiError::ConnectionFailed(_) => "Could not connect to JIRA. Please check your URL and network."@,
            ApiError::UpdateFailed(m) => "Failed to update issue: "@ + m@,
            ApiError::TransitionFailed(m) => "Failed to change issue status: "@ + m@,
            ApiError::Conflict => "This issue was modified by someone else. Please refresh and try again."@,
            ApiError::PermissionDenied => "You don't have permission to modify this issue."@,
        },
        AppError::Io(_) => "A file operation failed. Please check file permissions."@,
        AppError::Terminal(m) => "Terminal error: "@ + m@,
        AppError::Other(m) => m@,
    }
}

/// Whether an error is critical: configuration errors, authentication and
/// permission failures, and terminal errors.
pub open spec fn critical(e: AppError) -> bool {
    match e {
        AppError::Config(_) => true,
        AppError::Api(ApiError::Unauthorized) => true,
        AppError::Api(ApiError::Forbidden) => true,
        AppError::Terminal(_) => true,
        _ => false,
    }
}

/// Whether an error may go away on retry.
pub open spec fn recoverable(e: AppError) -> bool {
    match e {
        AppError::Api(ApiError::RateLimited) => true,
        AppError::Api(ApiError::ServerError(_)) => true,
        AppError::Api(ApiError::Network(_)) => true,
        AppError::Api(ApiError::NotFound(_)) => true,
        AppError::Api(ApiError::UpdateFailed(_)) => true,
        AppError::Api(ApiError::TransitionFailed(_)) => true,
        AppError::Api(ApiError::Conflict) => true,
        _ => false,
    }
}

/// The advice given for an error, if any.
pub open spec fn suggestion_for(e: AppError) -> Option<Seq<char>> {
    match e {
        AppError::Config(ConfigError::NoConfigDir) => Some("Run 'lazyjira setup' to create a configuration file."@),
        AppError::Config(ConfigError::ReadError(_)) => Some("Run 'lazyjira setup' to create a configuration file."@),
        AppError::Api(ApiError::Unauthorized) => Some("Check your API token at https://id.atlassian.com/manage-profile/security/api-tokens"@),
        AppError::Api(ApiError::RateLimited) => Some("Wait a few seconds and press 'r' to refresh."@),
        AppError::Api(ApiError::Network(_)) => Some("Check your internet connection and JIRA URL."@),
        AppError::Api(ApiError::ConnectionFailed(_)) => Some("Check your internet connection and JIRA URL."@),
        _ => None,
    }
}

impl AppError {
    /// A terminal error with the given message.
    pub fn terminal(msg: &str) -> (e: AppError)
        ensures
            e matches AppError::Terminal(m) && m@ == msg@,
    {
        AppError::Terminal(copy_str(msg))
    }

    /// Some other error with the given message.
    pub fn other(msg: &str) -> (e: AppError)
        ensures
            e matches AppError::Other(m) && m@ == msg@,
    {
        AppError::Other(copy_str(msg))
    }

    /// The technical message of the error.
    pub fn to_string(&self) -> (s: String)
        ensures
            s@ == app_error_message(*self),
    {
        match self {
            AppError::Config(c) => c.to_string(),
            AppError::Api(a) => a.to_string(),
            AppError::Io(m) => concat2("IO error: ", m.as_str()),
            AppError::Terminal(m) => concat2("Terminal error: ", m.as_str()),
            AppError::Other(m) => m.clone(),
        }
    }

    /// A message for the user.
    pub fn user_message(&self) -> (s: String)
        ensures
            s@ == user_message_of(*self),
    {
        match self {
            AppError::Config(c) => match c {
                ConfigError::NoConfigDir => copy_str("Could not find configuration directory. Please check your system settings."),
                ConfigError::CreateDirError(_) => copy_str("Could not create configuration directory. Check file permissions."),
                ConfigError::ReadError(_) => copy_str("Could not read configuration file. Please check the file exists and is readable."),
                ConfigError::WriteError(_) => copy_str("Could not save configuration. Please check file permissions."),
                ConfigError::ParseError(_) => copy_str("Configuration file is invalid. Please check the file format."),
                ConfigError::SerializeError(_) => copy_str("Could not save configuration. Internal error."),
                ConfigError::ValidationError(m) => concat2("Configuration error: ", m.as_str()),
                ConfigError::ProfileNotFound(n) => concat3("Profile '", n.as_str(), "' not found."),
            },
            AppError::Api(a) => match a {
                ApiError::Unauthorized => copy_str("Authentication failed. Please check your email and API token."),
                ApiError::Forbidden => copy_str("Access denied. You don't have permission to access this resource."),
                ApiError::NotFound(r) => concat3("'", r.as_str(), "' was not found."),
                ApiError::RateLimited => copy_str("Too many requests. Please wait a moment and try again."),
                ApiError::ServerError(_) => copy_str("JIRA server error. Please try again later."),
                ApiError::Network(_) => copy_str("Connection failed. Please check your internet connection."),
                ApiError::InvalidUrl(_) => copy_str("Invalid JIRA URL in configuration."),
                ApiError::Keyring(_) => copy_str("Could not access secure storage. Please reconfigure your profile."),
                ApiError::InvalidResponse(_) => copy_str("Unexpected response from JIRA. Please try again."),
                ApiError::ConnectionFailed(_) => copy_str("Could not connect to JIRA. Please check your URL and network."),
                ApiError::UpdateFailed(m) => concat2("Failed to update issue: ", m.as_str()),
                ApiError::TransitionFailed(m) => concat2("Failed to change issue status: ", m.as_str()),
                ApiError::Conflict => copy_str("This issue was modified by someone else. Please refresh and try again."),
                ApiError::PermissionDenied => copy_str("You don't have permission to modify this issue."),
            },
            AppError::Io(_) => copy_str("A file operation failed. Please check file permissions."),
            AppError::Terminal(m) => concat2("Terminal error: ", m.as_str()),
            AppError::Other(m) => m.clone(),
        }
    }

    /// Whether the error is critical.
    pub fn is_critical(&self) -> (b: bool)
        ensures
            b == critical(*self),
    {
        match self {
            AppError::Config(_) => true,
            AppError::Api(ApiError::Unauthorized) => true,
            AppError::Api(ApiError::Forbidden) => true,
            AppError::Terminal(_) => true,
            _ => false,
        }
    }

    /// Whether the error may go away on retry.
    pub fn is_recoverable(&self) -> (b: bool)
        ensures
            b == recoverable(*self),
    {
        match self {
            AppError::Api(ApiError::RateLimited) => true,
            AppError::Api(ApiError::ServerError(_)) => true,
            AppError::Api(ApiError::Network(_)) => true,
            AppError::Api(ApiError::NotFound(_)) => true,
            AppError::Api(ApiError::UpdateFailed(_)) => true,
            AppError::Api(ApiError::TransitionFailed(_)) => true,
            AppError::Api(ApiError::Conflict) => true,
            _ => false,
        }
    }

    /// What the user could do about the error, if there is advice.
    pub fn suggested_action(&self) -> (r: Option<&'static str>)
        ensures
            match r {
                Some(s) => suggestion_for(*self) == Some(s@),
                None => suggestion_for(*self) is None,
            },
    {
        match self {
            AppError::Config(ConfigError::NoConfigDir) => Some("Run 'lazyjira setup' to create a configuration file."),
            AppError::Config(ConfigError::ReadError(_)) => Some("Run 'lazyjira setup' to create a configuration file."),
            AppError::Api(ApiError::Unauthorized) => Some("Check your API token at https://id.atlassian.com/manage-profile/security/api-tokens"),
            AppError::Api(ApiError::RateLimited) => Some("Wait a few seconds and press 'r' to refresh."),
            AppError::Api(ApiError::Network(_)) => Some("Check your internet connection and JIRA URL."),
            AppError::Api(ApiError::ConnectionFailed(_)) => Some("Check your internet connection and JIRA URL."),
            _ => None,
        }
    }
}

/// No error is both critical and recoverable.
pub proof fn law_critical_not_recoverable(e: AppError)
    ensures
        !(critical(e) && recoverable(e)),
{
}

} // verus!
