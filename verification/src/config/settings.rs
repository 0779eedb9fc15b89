//! Application-wide settings.
use vstd::prelude::*;

use crate::history::{remember, remember_in, string_views};
use crate::text::copy_str;

verus! {

/// The default theme: "dark".
pub fn default_theme() -> (s: String)
    ensures
        s@ == "dark"@,
{
    copy_str("dark")
}

/// Vim-style keybindings are on by default.
pub fn default_vim_mode() -> (b: bool)
    ensures
        b,
{
    true
}

/// The default cache lifetime: 30 minutes.
pub fn default_cache_ttl() -> (m: u32)
    ensures
        m == 30,
{
    30
}

/// The default cache size limit: 100 MB.
pub fn default_cache_max_size() -> (mb: u64)
    ensures
        mb == 100,
{
    100
}

/// Discarding unsaved changes asks for confirmation by default.
pub fn default_confirm_discard() -> (b: bool)
    ensures
        b,
{
    true
}

/// Maximum number of JQL queries to keep in history.
pub const MAX_JQL_HISTORY: usize = 10;

/// Custom colour overrides for the selected theme; each is a colour name or "#rrggbb".
#[derive(Debug, Clone, PartialEq, Eq)]
pub struct CustomThemeConfig {
    /// Accent colour.
    pub accent: Option<String>,
    /// Colour for success messages.
    pub success: Option<String>,
    /// Colour for warnings.
    pub warning: Option<String>,
    /// Colour for errors.
    pub error: Option<String>,
    /// Colour of borders.
    pub border: Option<String>,
}

/// Application-wide settings.
#[derive(Debug, Clone, PartialEq, Eq)]
pub struct Settings {
    /// The name of the default profile; when unset the first profile is used.
    pub default_profile: Option<String>,
    /// The UI theme; "dark" by default.
    pub theme: String,
    /// Whether to use vim-style keybindings; on by default.
    pub vim_mode: bool,
    /// Cache time-to-live in minutes; 30 by default.
    pub cache_ttl_minutes: u32,
    /// Maximum cache size in megabytes; 100 by default.
    pub cache_max_size_mb: u64,
    /// JQL query history, most recent first, at most 10 entries.
    pub jql_history: Vec<String>,
    /// Whether to confirm status transitions; off by default.
    pub confirm_transitions: bool,
    /// Whether to confirm discarding unsaved changes; on by default.
    pub confirm_discard_changes: bool,
    /// Custom theme colour overrides.
    pub custom_theme: Option<CustomThemeConfig>,
}

impl Default for Settings {
    fn default() -> (s: Settings)
        ensures
            s.default_profile is None,
            s.theme@ == "dark"@,
            s.vim_mode,
            s.cache_ttl_minutes == 30,
            s.cache_max_size_mb == 100,
            s.jql_history@.len() == 0,
            !s.confirm_transitions,
            s.confirm_discard_changes,
            s.custom_theme is None,
    {
        Settings {
            default_profile: None,
            theme: default_theme(),
            vim_mode: default_vim_mode(),
            cache_ttl_minutes: default_cache_ttl(),
            cache_max_size_mb: default_cache_max_size(),
            jql_history: Vec::new(),
            confirm_transitions: false,
            confirm_discard_changes: default_confirm_discard(),
            custom_theme: None,
        }
    }
}

impl Settings {
    /// Add a JQL query to the history: it moves to (or is added at) the front and
    /// the history keeps its 10 most recent entries.
    pub fn add_jql_to_history(&mut self, query: String)
        ensures
            string_views(final(self).jql_history@) == remember(
                string_views(old(self).jql_history@),
                query@,
                MAX_JQL_HISTORY as nat,
            ),
            final(self).default_profile == old(self).default_profile,
            final(self).theme == old(self).theme,
            final(self).vim_mode == old(self).vim_mode,
            final(self).cache_ttl_minutes == old(self).cache_ttl_minutes,
            final(self).cache_max_size_mb == old(self).cache_max_size_mb,
            final(self).confirm_transitions == old(self).confirm_transitions,
            final(self).confirm_discard_changes == old(self).confirm_discard_changes,
            final(self).custom_theme == old(self).custom_theme,
    {
        let updated = remember_in(&self.jql_history, query.as_str(), MAX_JQL_HISTORY);
        self.jql_history = updated;
    }
}

} // verus!
