//! The command palette's commands: definitions, ranked search and recent commands.
pub mod registry;

pub use registry::{Command, CommandAction, CommandCategory, CommandRegistry};
