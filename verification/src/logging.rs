//! Where the log files go: "lazyjira/logs" in the user's local data directory.
use vstd::prelude::*;

use crate::paths::PathParts;

verus! {

/// The filter used when `RUST_LOG` is not set.
pub const DEFAULT_LOG_FILTER: &'static str = "lazyjira=info,warn";

/// Calls `dirs::data_local_dir`: the user's local data directory, when the platform
/// names one. Nothing is claimed of the answer: it depends on the environment.
#[verifier::external_body]
fn user_data_local_dir() -> (d: Option<std::path::PathBuf>) {
    dirs::data_local_dir()
}

/// The directory of the log files: "lazyjira/logs" in the local data directory;
/// `None` when the platform names no such directory.
pub fn log_directory() -> (r: Option<PathParts>)
    ensures
        r matches Some(p) ==> p.names() == seq!["lazyjira"@, "logs"@],
{
    match user_data_local_dir() {
        Some(base) => Some(PathParts::new(base).join("lazyjira").join("logs")),
        None => None,
    }
}

} // verus!
