//! Terminal client library for JIRA: configuration, command registry,
//! key bindings and the state machines of the interactive components.
pub mod text;
pub mod events;
pub mod history;
pub mod api;
pub mod commands;
pub mod config;
pub mod error;
pub mod ui;
pub mod cache;
pub mod app;
pub mod logging;
pub mod paths;
pub mod profile_form;
