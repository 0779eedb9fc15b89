//! The JIRA API: credentials, client, response types and errors.
pub mod auth;
pub mod client;
pub mod error;
pub mod types;

pub use auth::Auth;
pub use client::JiraClient;
pub use error::ApiError;
pub use types::Issue;
