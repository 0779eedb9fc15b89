//! Authentication with JIRA: Basic Auth from email and API token, and the API
//! tokens kept in the OS keyring.
use vstd::prelude::*;
use vstd::utf8::encode_utf8;
use base64::Engine;

use super::error::ApiError;
use crate::text::{concat2, concat3, copy_str};

verus! {

/// The keyring service name for the application's tokens.
pub const KEYRING_SERVICE: &'static str = "lazyjira";

/// The character of the standard Base64 alphabet for a six-bit value: `A`-`Z`,
/// `a`-`z`, `0`-`9`, `+` and `/`.
pub open spec fn base64_char(v: int) -> char {
    if v < 26 {
        (65 + v) as char
    } else if v < 52 {
        (97 + v - 26) as char
    } else if v < 62 {
        (48 + v - 52) as char
    } else if v == 62 {
        '+'
    } else {
        '/'
    }
}

/// Standard padded Base64 (RFC 4648, section 4): every three bytes become four
/// characters of six bits each, most significant first; a last group of one or
/// two bytes is filled with zero bits and padded with `=` to four characters.
pub open spec fn base64_standard(b: Seq<u8>) -> Seq<char>
    decreases b.len(),
{
    if b.len() == 0 {
        seq![]
    } else {
        let b0 = b[0] as int;
        let b1 = if b.len() > 1 { b[1] as int } else { 0 };
        let b2 = if b.len() > 2 { b[2] as int } else { 0 };
        let c0 = base64_char(b0 / 4);
        let c1 = base64_char((b0 % 4) * 16 + b1 / 16);
        let c2 = base64_char((b1 % 16) * 4 + b2 / 64);
        let c3 = base64_char(b2 % 64);
        if b.len() == 1 {
            seq![c0, c1, '=', '=']
        } else if b.len() == 2 {
            seq![c0, c1, c2, '=']
        } else {
            seq![c0, c1, c2, c3] + base64_standard(b.skip(3))
        }
    }
}

/// Calls `Engine::encode` of `base64::engine::general_purpose::STANDARD`. Claimed: the
/// result is the standard padded Base64 of the bytes, as the crate documents it.
#[verifier::external_body]
fn base64_encode(bytes: &[u8]) -> (s: String)
    ensures
        s@ == base64_standard(bytes@),
{
    base64::engine::general_purpose::STANDARD.encode(bytes)
}

/// The Basic Auth header value for an email and token.
pub open spec fn auth_header_for(email: Seq<char>, token: Seq<char>) -> Seq<char> {
    "Basic "@ + base64_standard(encode_utf8(email + ":"@ + token))
}

/// Build the Basic Auth header value: "Basic " and the Base64 of "email:token".
pub fn build_auth_header(email: &str, token: &str) -> (s: String)
    ensures
        s@ == auth_header_for(email@, token@),
{
    let credentials = concat3(email, ":", token);
    let encoded = base64_encode(credentials.as_str().as_bytes());
    concat2("Basic ", encoded.as_str())
}

/// Authentication credentials for JIRA. The raw token is not kept.
#[derive(Debug, Clone)]
pub struct Auth {
    email: String,
    auth_header: String,
}

impl Auth {
    /// The email address.
    pub closed spec fn email_view(&self) -> Seq<char> {
        self.email@
    }

    /// The authorization header value.
    pub closed spec fn header_view(&self) -> Seq<char> {
        self.auth_header@
    }

    /// Credentials for an email and token; the token is encoded at once and not kept.
    pub fn new(email: &str, token: &str) -> (a: Auth)
        ensures
            a.email_view() == email@,
            a.header_view() == auth_header_for(email@, token@),
    {
        let auth_header = build_auth_header(email, token);
        Auth { email: copy_str(email), auth_header }
    }

    /// Credentials for a profile, with the token read from the OS keyring.
    pub fn from_keyring(profile_name: &str, email: &str) -> (r: Result<Auth, ApiError>)
        ensures
            r matches Ok(a) ==> a.email_view() == email@ && exists|t: Seq<char>|
                a.header_view() == auth_header_for(email@, t),
            r matches Err(e) ==> e matches ApiError::Keyring(m) && ((exists|c: Seq<char>|
                m@ == "failed to access keyring"@ + ": "@ + c) || (exists|c: Seq<char>| m@
                == "failed to retrieve token"@ + ": "@ + c)),
    {
        match get_token(profile_name) {
            Ok(token) => Ok(Auth::new(email, token.as_str())),
            Err(e) => Err(e),
        }
    }

    /// The complete "Basic ..." authorization header value.
    pub fn header_value(&self) -> (s: &str)
        ensures
            s@ == self.header_view(),
    {
        self.auth_header.as_str()
    }

    /// The email address.
    pub fn email(&self) -> (s: &str)
        ensures
            s@ == self.email_view(),
    {
        self.email.as_str()
    }
}

/// An entry of the OS keyring, `keyring::Entry`, carried opaquely.
#[verifier::external_type_specification]
#[verifier::external_body]
pub struct ExKeyringEntry(keyring::Entry);

/// An error of the keyring crate, `keyring::Error`, carried opaquely.
#[verifier::external_type_specification]
#[verifier::external_body]
pub struct ExKeyringError(keyring::Error);

/// Where a profile's token is kept in the OS keyring: a service and a user name.
pub struct TokenTarget {
    /// The keyring service.
    pub service: String,
    /// The keyring user name.
    pub user: String,
}

/// The keyring entry of a profile's token: the service "lazyjira" and the profile
/// name as the user.
pub fn token_target(profile_name: &str) -> (t: TokenTarget)
    ensures
        t.service@ == KEYRING_SERVICE@,
        t.user@ == profile_name@,
{
    TokenTarget { service: copy_str(KEYRING_SERVICE), user: copy_str(profile_name) }
}

/// Calls `keyring::Entry::new` with the target's service and user. Nothing is
/// claimed: whether it succeeds depends on the platform's credential store.
#[verifier::external_body]
fn keyring_entry(target: &TokenTarget) -> (r: Result<keyring::Entry, keyring::Error>) {
    keyring::Entry::new(&target.service, &target.user)
}

/// Calls `keyring::Entry::get_password`. Nothing is claimed: the result depends on
/// what the credential store holds.
#[verifier::external_body]
fn keyring_get_password(entry: &keyring::Entry) -> (r: Result<String, keyring::Error>) {
    entry.get_password()
}

/// Calls `keyring::Entry::set_password`. Nothing is claimed of the outcome.
#[verifier::external_body]
fn keyring_set_password(entry: &keyring::Entry, password: &str) -> (r: Result<(), keyring::Error>) {
    entry.set_password(password)
}

/// Calls `keyring::Entry::delete_credential`. Nothing is claimed of the outcome.
#[verifier::external_body]
fn keyring_delete_credential(entry: &keyring::Entry) -> (r: Result<(), keyring::Error>) {
    entry.delete_credential()
}

/// Formats a `keyring::Error` with its `Display` implementation. Nothing is claimed
/// of the text.
#[verifier::external_body]
fn keyring_error_text(e: &keyring::Error) -> (s: String) {
    format!("{}", e)
}

/// The keyring error `context: cause`.
fn keyring_error(context: &str, e: &keyring::Error) -> (r: ApiError)
    ensures
        r matches ApiError::Keyring(m) && exists|cause: Seq<char>| m@ == context@ + ": "@ + cause,
{
    let cause = keyring_error_text(e);
    ApiError::Keyring(concat3(context, ": ", cause.as_str()))
}

/// Store an API token in the OS keyring under the profile name.
pub fn store_token(profile_name: &str, token: &str) -> (r: Result<(), ApiError>)
    ensures
        r matches Err(e) ==> e matches ApiError::Keyring(m) && ((exists|c: Seq<char>|
            m@ == "failed to create keyring entry"@ + ": "@ + c) || (exists|c: Seq<char>| m@ == "failed to store token"@ + ": "@ + c)),
{
    let entry = match keyring_entry(&token_target(profile_name)) {
        Ok(e) => e,
        Err(e) => {
            return Err(keyring_error("failed to create keyring entry", &e));
        },
    };
    match keyring_set_password(&entry, token) {
        Ok(()) => Ok(()),
        Err(e) => Err(keyring_error("failed to store token", &e)),
    }
}

/// Retrieve the API token of a profile from the OS keyring.
pub fn get_token(profile_name: &str) -> (r: Result<String, ApiError>)
    ensures
        r matches Err(e) ==> e matches ApiError::Keyring(m) && ((exists|c: Seq<char>|
            m@ == "failed to access keyring"@ + ": "@ + c) || (exists|c: Seq<char>| m@ == "failed to retrieve token"@ + ": "@ + c)),
{
    let entry = match keyring_entry(&token_target(profile_name)) {
        Ok(e) => e,
        Err(e) => {
            return Err(keyring_error("failed to access keyring", &e));
        },
    };
    match keyring_get_password(&entry) {
        Ok(t) => Ok(t),
        Err(e) => Err(keyring_error("failed to retrieve token", &e)),
    }
}

/// Delete the API token of a profile from the OS keyring.
pub fn delete_token(profile_name: &str) -> (r: Result<(), ApiError>)
    ensures
        r matches Err(e) ==> e matches ApiError::Keyring(m) && ((exists|c: Seq<char>|
            m@ == "failed to access keyring"@ + ": "@ + c) || (exists|c: Seq<char>| m@ == "failed to delete token"@ + ": "@ + c)),
{
    let entry = match keyring_entry(&token_target(profile_name)) {
        Ok(e) => e,
        Err(e) => {
            return Err(keyring_error("failed to access keyring", &e));
        },
    };
    match keyring_delete_credential(&entry) {
        Ok(()) => Ok(()),
        Err(e) => Err(keyring_error("failed to delete token", &e)),
    }
}

/// Whether a token for the profile can be read from the OS keyring.
pub fn has_token(profile_name: &str) -> (b: bool) {
    get_token(profile_name).is_ok()
}

} // verus!
