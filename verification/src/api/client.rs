//! The JIRA API client.
use vstd::prelude::*;

use super::auth::Auth;

verus! {

/// The JIRA API client.
pub struct JiraClient {
    /// The base URL of the JIRA instance.
    pub base_url: String,
    /// Authentication credentials.
    pub auth: Auth,
}

impl JiraClient {
    /// Create a new JIRA client.
    pub fn new(base_url: String, auth: Auth) -> (c: JiraClient)
        ensures
            c.base_url == base_url,
            c.auth == auth,
    {
        JiraClient { base_url, auth }
    }
}

} // verus!
