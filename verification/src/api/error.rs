//! Errors of the JIRA API client.
use vstd::prelude::*;

use crate::text::{concat2, concat3, decimal, to_decimal};

verus! {

/// Errors that can occur when talking to the JIRA API.
#[derive(Debug)]
pub enum ApiError {
    /// Authentication failed: invalid email or API token.
    Unauthorized,
    /// Permission denied: the user lacks access to the resource.
    Forbidden,
    /// Resource not found; holds what was looked for.
    NotFound(String),
    /// Rate limited by the JIRA API.
    RateLimited,
    /// JIRA server error; holds the details.
    ServerError(String),
    /// Network or HTTP error; holds the cause.
    Network(String),
    /// Invalid URL.
    InvalidUrl(String),
    /// Keyring error when storing or retrieving tokens.
    Keyring(String),
    /// Invalid response from the API.
    InvalidResponse(String),
    /// Connection validation failed.
    ConnectionFailed(String),
    /// Failed to update an issue.
    UpdateFailed(String),
    /// Failed to transition an issue.
    TransitionFailed(String),
    /// The issue was modified by another user.
    Conflict,
    /// Permission denied for modifying this issue.
    PermissionDenied,
}

/// The message of an API error.
pub open spec fn api_error_message(e: ApiError) -> Seq<char> {
    match e {
        ApiError::Unauthorized => "Authentication failed: check your email and API token"@,
        ApiError::Forbidden => "Permission denied: you don't have access to this resource"@,
        ApiError::NotFound(s) => "Resource not found: "@ + s@,
        ApiError::RateLimited => "Rate limited: please wait before retrying"@,
        ApiError::ServerError(s) => "JIRA server error: "@ + s@,
        ApiError::Network(s) => "Network error: "@ + s@,
        ApiError::InvalidUrl(s) => "Invalid URL: "@ + s@,
        ApiError::Keyring(s) => "Keyring error: "@ + s@,
        ApiError::InvalidResponse(s) => "Invalid API response: "@ + s@,
        ApiError::ConnectionFailed(s) => "Connection validation failed: "@ + s@,
        ApiError::UpdateFailed(s) => "Failed to update issue: "@ + s@,
        ApiError::TransitionFailed(s) => "Failed to transition issue: "@ + s@,
        ApiError::Conflict => "Conflict: issue was modified by another user. Please refresh and try again"@,
        ApiError::PermissionDenied => "You don't have permission to modify this issue"@,
    }
}

/// What `http::StatusCode::canonical_reason` returns for a status code.
pub uninterp spec fn canonical_reason(code: u16) -> Option<Seq<char>>;

/// Calls `reqwest::StatusCode::from_u16` and then `StatusCode::canonical_reason`.
/// Claimed: for a code from 100 to 999 the result is the name `canonical_reason`
/// applied to the code; the reason phrases themselves are not stated.
#[verifier::external_body]
fn status_reason(code: u16) -> (r: Option<&'static str>)
    requires
        100 <= code <= 999,
    ensures
        match r {
            Some(s) => canonical_reason(code) == Some(s@),
            None => canonical_reason(code) is None,
        },
{
    match reqwest::StatusCode::from_u16(code) {
        Ok(s) => s.canonical_reason(),
        Err(_) => None,
    }
}

/// How a status code is displayed: the number, a space and the reason phrase.
pub open spec fn status_display(code: u16) -> Seq<char> {
    decimal(code as nat) + " "@ + match canonical_reason(code) {
        Some(r) => r,
        None => "<unknown status code>"@,
    }
}

/// The error for an HTTP status code, for a request about `context`.
pub open spec fn error_for_status(code: u16, context: Seq<char>) -> (int, Seq<char>) {
    if code == 401 {
        (0, Seq::empty())
    } else if code == 403 {
        (1, Seq::empty())
    } else if code == 404 {
        (2, context)
    } else if code == 409 {
        (12, Seq::empty())
    } else if code == 429 {
        (3, Seq::empty())
    } else if 500 <= code <= 599 {
        (4, "HTTP "@ + status_display(code) + ": "@ + context)
    } else {
        (4, "Unexpected HTTP "@ + status_display(code) + ": "@ + context)
    }
}

/// An error as a variant number (in declaration order) and its text, if any.
pub open spec fn api_error_view(e: ApiError) -> (int, Seq<char>) {
    match e {
        ApiError::Unauthorized => (0, Seq::empty()),
        ApiError::Forbidden => (1, Seq::empty()),
        ApiError::NotFound(s) => (2, s@),
        ApiError::RateLimited => (3, Seq::empty()),
        ApiError::ServerError(s) => (4, s@),
        ApiError::Network(s) => (5, s@),
        ApiError::InvalidUrl(s) => (6, s@),
        ApiError::Keyring(s) => (7, s@),
        ApiError::InvalidResponse(s) => (8, s@),
        ApiError::ConnectionFailed(s) => (9, s@),
        ApiError::UpdateFailed(s) => (10, s@),
        ApiError::TransitionFailed(s) => (11, s@),
        ApiError::Conflict => (12, Seq::empty()),
        ApiError::PermissionDenied => (13, Seq::empty()),
    }
}

impl ApiError {
    /// The error for an HTTP status code (a code from 100 to 999).
    pub fn from_status(status: u16, context: &str) -> (e: ApiError)
        requires
            100 <= status <= 999,
        ensures
            api_error_view(e) == error_for_status(status, context@),
    {
        if status == 401 {
            ApiError::Unauthorized
        } else if status == 403 {
            ApiError::Forbidden
        } else if status == 404 {
            ApiError::NotFound(String::from_str(context))
        } else if status == 409 {
            ApiError::Conflict
        } else if status == 429 {
            ApiError::RateLimited
        } else {
            let mut shown = to_decimal(status as u64);
            shown.append(" ");
            match status_reason(status) {
                Some(r) => shown.append(r),
                None => shown.append("<unknown status code>"),
            }
            let prefix = if 500 <= status && status <= 599 {
                "HTTP "
            } else {
                "Unexpected HTTP "
            };
            let mut message = concat3(prefix, shown.as_str(), ": ");
            message.append(context);
            ApiError::ServerError(message)
        }
    }

    /// The error's message.
    pub fn to_string(&self) -> (s: String)
        ensures
            s@ == api_error_message(*self),
    {
        match self {
            ApiError::Unauthorized => String::from_str(
                "Authentication failed: check your email and API token",
            ),
            ApiError::Forbidden => String::from_str(
                "Permission denied: you don't have access to this resource",
            ),
            ApiError::NotFound(s) => concat2("Resource not found: ", s.as_str()),
            ApiError::RateLimited => String::from_str("Rate limited: please wait before retrying"),
            ApiError::ServerError(s) => concat2("JIRA server error: ", s.as_str()),
            ApiError::Network(s) => concat2("Network error: ", s.as_str()),
            ApiError::InvalidUrl(s) => concat2("Invalid URL: ", s.as_str()),
            ApiError::Keyring(s) => concat2("Keyring error: ", s.as_str()),
            ApiError::InvalidResponse(s) => concat2("Invalid API response: ", s.as_str()),
            ApiError::ConnectionFailed(s) => concat2("Connection validation failed: ", s.as_str()),
            ApiError::UpdateFailed(s) => concat2("Failed to update issue: ", s.as_str()),
            ApiError::TransitionFailed(s) => concat2("Failed to transition issue: ", s.as_str()),
            ApiError::Conflict => String::from_str(
                "Conflict: issue was modified by another user. Please refresh and try again",
            ),
            ApiError::PermissionDenied => String::from_str(
                "You don't have permission to modify this issue",
            ),
        }
    }
}

/// How an HTTP status is classified: only 401 means the credentials were refused,
/// 403 that access is denied, 404 that the thing asked about is missing, 409 a
/// conflicting edit and 429 too many requests; a 5xx is a server error naming the
/// status and the request, and any other status an unexpected one, named alike.
pub proof fn law_status_classification(status: u16, context: Seq<char>, e: ApiError)
    requires
        api_error_view(e) == error_for_status(status, context),
    ensures
        e is Unauthorized <==> status == 401,
        e is Forbidden <==> status == 403,
        e is NotFound <==> status == 404,
        e is Conflict <==> status == 409,
        e is RateLimited <==> status == 429,
        e matches ApiError::NotFound(s) ==> s@ == context,
        500 <= status <= 599 ==> (e matches ApiError::ServerError(m) && m@ == "HTTP "@ + status_display(status)
            + ": "@ + context),
        status != 401 && status != 403 && status != 404 && status != 409 && status != 429 && !(500 <= status
            <= 599) ==> (e matches ApiError::ServerError(m) && m@ == "Unexpected HTTP "@ + status_display(
            status,
        ) + ": "@ + context),
{
}

} // verus!
