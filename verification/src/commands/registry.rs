//! The commands of the command palette, their ranking against a search query,
//! and the list of recently used commands.
use vstd::prelude::*;

use crate::history::{law_remember, remember, remember_in_queue, string_views};
use std::collections::VecDeque;
use crate::text::{
    contains, contains_whitespace, has_whitespace, is_whitespace, lowercase, occurs_at,
    seq_contains, seq_starts_with, spec_is_whitespace, starts_with, str_eq, to_chars,
    to_lowercase, chars_occur_at,
};

verus! {

broadcast use vstd::std_specs::vecdeque::group_vec_dequeue_axioms;

/// Categories for organizing commands.
#[derive(Debug, Clone, Copy, PartialEq, Eq, Structural)]
pub enum CommandCategory {
    /// Navigation commands (go to views).
    Navigation,
    /// Issue-related commands.
    Issue,
    /// Profile management commands.
    Profile,
    /// Filter and search commands.
    Filter,
    /// Application settings.
    Settings,
    /// Help and documentation.
    Help,
}

/// The display name of a category.
pub open spec fn category_name(c: CommandCategory) -> Seq<char> {
    match c {
        CommandCategory::Navigation => "Navigation"@,
        CommandCategory::Issue => "Issue"@,
        CommandCategory::Profile => "Profile"@,
        CommandCategory::Filter => "Filter"@,
        CommandCategory::Settings => "Settings"@,
        CommandCategory::Help => "Help"@,
    }
}

impl CommandCategory {
    /// Get the display name for this category.
    pub fn display(&self) -> (s: &'static str)
        ensures
            s@ == category_name(*self),
    {
        match self {
            CommandCategory::Navigation => "Navigation",
            CommandCategory::Issue => "Issue",
            CommandCategory::Profile => "Profile",
            CommandCategory::Filter => "Filter",
            CommandCategory::Settings => "Settings",
            CommandCategory::Help => "Help",
        }
    }
}

/// Actions that can be triggered by commands.
#[derive(Debug, Clone, Copy, PartialEq, Eq, Structural)]
pub enum CommandAction {
    /// Navigate to the issue list view.
    GoToList,
    /// Navigate to profile management.
    GoToProfiles,
    /// Navigate to filter panel.
    GoToFilters,
    /// Show help screen.
    GoToHelp,
    /// Refresh the current issue list.
    RefreshIssues,
    /// Open profile switcher.
    SwitchProfile,
    /// Open JQL input.
    OpenJqlInput,
    /// Clear all active filters.
    ClearFilters,
    /// Clear the issue cache.
    ClearCache,
}

/// A command that can be executed from the command palette.
#[derive(Debug, Clone)]
pub struct Command {
    /// Unique identifier for the command.
    pub id: String,
    /// Display title shown in the palette.
    pub title: String,
    /// Optional description for additional context.
    pub description: Option<String>,
    /// Category for organization.
    pub category: CommandCategory,
    /// Additional keywords for search.
    pub keywords: Vec<String>,
    /// Keyboard shortcut hint (if any).
    pub shortcut: Option<String>,
    /// The action to perform when executed.
    pub action: CommandAction,
}

/// A command as data: id, title, description, category, keywords, shortcut, action.
pub type CommandView = (
    Seq<char>,
    Seq<char>,
    Option<Seq<char>>,
    CommandCategory,
    Seq<Seq<char>>,
    Option<Seq<char>>,
    CommandAction,
);

/// The characters of an optional string.
pub open spec fn opt_view(o: Option<String>) -> Option<Seq<char>> {
    match o {
        Some(s) => Some(s@),
        None => None,
    }
}

/// The characters of an optional string slice.
pub open spec fn opt_str_view(o: Option<&str>) -> Option<Seq<char>> {
    match o {
        Some(s) => Some(s@),
        None => None,
    }
}

impl View for Command {
    type V = CommandView;

    open spec fn view(&self) -> CommandView {
        (
            self.id@,
            self.title@,
            opt_view(self.description),
            self.category,
            string_views(self.keywords@),
            opt_view(self.shortcut),
            self.action,
        )
    }
}

/// A copy of an optional string.
fn copy_opt(o: Option<&str>) -> (r: Option<String>)
    ensures
        opt_view(r) == opt_str_view(o),
{
    match o {
        Some(s) => Some(String::from_str(s)),
        None => None,
    }
}

impl Command {
    /// A command built from its parts.
    fn make(
        id: &str,
        title: &str,
        description: Option<&str>,
        category: CommandCategory,
        keywords: Vec<String>,
        shortcut: Option<&str>,
        action: CommandAction,
    ) -> (c: Command)
        ensures
            c@ == (
                id@,
                title@,
                opt_str_view(description),
                category,
                string_views(keywords@),
                opt_str_view(shortcut),
                action,
            ),
    {
        Command {
            id: String::from_str(id),
            title: String::from_str(title),
            description: copy_opt(description),
            category,
            keywords,
            shortcut: copy_opt(shortcut),
            action,
        }
    }
}

impl Command {
    /// A copy of the command.
    pub fn duplicate(&self) -> (c: Command)
        ensures
            c@ == self@,
    {
        let mut keywords: Vec<String> = Vec::new();
        let mut i: usize = 0;
        while i < self.keywords.len()
            invariant
                i <= self.keywords@.len(),
                keywords@ == self.keywords@.take(i as int),
            decreases self.keywords.len() - i,
        {
            keywords.push(self.keywords[i].clone());
            proof {
                assert(keywords@ =~= self.keywords@.take(i + 1));
            }
            i += 1;
        }
        proof {
            assert(self.keywords@.take(self.keywords@.len() as int) =~= self.keywords@);
        }
        Command {
            id: self.id.clone(),
            title: self.title.clone(),
            description: match &self.description {
                Some(d) => Some(d.clone()),
                None => None,
            },
            category: self.category,
            keywords,
            shortcut: match &self.shortcut {
                Some(k) => Some(k.clone()),
                None => None,
            },
            action: self.action,
        }
    }
}

/// The views of a sequence of commands.
pub open spec fn views(s: Seq<Command>) -> Seq<CommandView> {
    s.map_values(|c: Command| c@)
}

/// The commands of the palette, in registration order.
pub open spec fn command_table() -> Seq<CommandView> {
    seq![
        ("goto.list"@, "Go to Issue List"@, Some("Navigate to the issue list view"@), CommandCategory::Navigation, seq!["issues"@, "home"@, "back"@], Some("Esc"@), CommandAction::GoToList),
        ("goto.profiles"@, "Manage Profiles"@, Some("View and edit JIRA profiles"@), CommandCategory::Profile, seq!["account"@, "connection"@, "jira"@], Some("P"@), CommandAction::GoToProfiles),
        ("profile.switch"@, "Switch Profile"@, Some("Quick switch to another profile"@), CommandCategory::Profile, seq!["change"@, "account"@, "select"@], Some("p"@), CommandAction::SwitchProfile),
        ("issue.refresh"@, "Refresh Issues"@, Some("Reload issues from JIRA"@), CommandCategory::Issue, seq!["reload"@, "update"@, "fetch"@], Some("r"@), CommandAction::RefreshIssues),
        ("filter.jql"@, "Enter JQL Query"@, Some("Search with JIRA Query Language"@), CommandCategory::Filter, seq!["search"@, "query"@, "find"@], Some(":"@), CommandAction::OpenJqlInput),
        ("filter.panel"@, "Open Filter Panel"@, Some("Show filter options for issues"@), CommandCategory::Filter, seq!["search"@, "status"@, "assignee"@], Some("f"@), CommandAction::GoToFilters),
        ("filter.clear"@, "Clear All Filters"@, Some("Remove all active filters"@), CommandCategory::Filter, seq!["reset"@, "remove"@], None, CommandAction::ClearFilters),
        ("cache.clear"@, "Clear Cache"@, Some("Remove cached issue data"@), CommandCategory::Settings, seq!["reset"@, "storage"@, "data"@], None, CommandAction::ClearCache),
        ("help.show"@, "Show Help"@, Some("Display keyboard shortcuts and help"@), CommandCategory::Help, seq!["shortcuts"@, "keys"@, "documentation"@], Some("?"@), CommandAction::GoToHelp),
    ]
}

/// Some word of `t` (a maximal run of characters that are not white space) starts with `q`.
pub open spec fn word_prefix_match(t: Seq<char>, q: Seq<char>) -> bool {
    if q.len() == 0 {
        exists|k: int| 0 <= k < t.len() && !spec_is_whitespace(#[trigger] t[k])
    } else {
        &&& !has_whitespace(q)
        &&& exists|i: int|
            (i == 0 || (0 < i && spec_is_whitespace(t[i - 1]))) && #[trigger] occurs_at(t, q, i)
    }
}

/// Score of a title against a lower-cased query.
pub open spec fn title_score(title: Seq<char>, q: Seq<char>) -> int {
    let t = lowercase(title);
    if seq_contains(t, q) {
        100 + (if seq_starts_with(t, q) {
            50int
        } else {
            0
        }) + (if word_prefix_match(t, q) {
            25int
        } else {
            0
        })
    } else {
        0
    }
}

/// Score of one keyword against a lower-cased query.
pub open spec fn one_keyword_score(k: Seq<char>, q: Seq<char>) -> int {
    let l = lowercase(k);
    if seq_contains(l, q) {
        50 + if seq_starts_with(l, q) {
            25int
        } else {
            0
        }
    } else {
        0
    }
}

/// Sum of the scores of the keywords against a lower-cased query.
pub open spec fn keyword_score(kws: Seq<Seq<char>>, q: Seq<char>) -> int
    decreases kws.len(),
{
    if kws.len() == 0 {
        0
    } else {
        keyword_score(kws.drop_last(), q) + one_keyword_score(kws.last(), q)
    }
}

/// Boost for a recently used command: 100 for the most recent, 10 less for each
/// older one, 0 for a command that is not in the (duplicate-free) recent list.
pub open spec fn recent_boost(recent: Seq<Seq<char>>, id: Seq<char>) -> int {
    if exists|p: int| 0 <= p < recent.len() && recent[p] == id {
        let p = choose|p: int| 0 <= p < recent.len() && recent[p] == id;
        (10 - p) * 10
    } else {
        0
    }
}

/// Score of a command against a lower-cased, non-empty query.
pub open spec fn match_score(c: CommandView, q: Seq<char>, recent: Seq<Seq<char>>) -> int {
    title_score(c.1, q) + keyword_score(c.4, q) + (if seq_contains(lowercase(c.0), q) {
        25int
    } else {
        0
    }) + (match c.2 {
        Some(d) => if seq_contains(lowercase(d), q) {
            10int
        } else {
            0
        },
        None => 0,
    }) + recent_boost(recent, c.0)
}

/// Score of a command for a query as typed: the recent boost alone for an empty
/// query, otherwise the match score against the lower-cased query.
pub open spec fn score(c: CommandView, query: Seq<char>, recent: Seq<Seq<char>>) -> int {
    if query.len() == 0 {
        recent_boost(recent, c.0)
    } else {
        match_score(c, lowercase(query), recent)
    }
}

/// Whether a command is listed for a query: every command for an empty query,
/// otherwise those with a positive score.
pub open spec fn listed(c: CommandView, query: Seq<char>, recent: Seq<Seq<char>>) -> bool {
    query.len() == 0 || score(c, query, recent) > 0
}

/// `idx` lists the positions of the listed commands, by descending score; commands
/// with equal scores keep their registration order.
pub open spec fn is_ranking(
    cmds: Seq<CommandView>,
    recent: Seq<Seq<char>>,
    query: Seq<char>,
    idx: Seq<int>,
) -> bool {
    &&& forall|k: int|
        0 <= k < idx.len() ==> 0 <= #[trigger] idx[k] < cmds.len() && listed(
            cmds[idx[k]],
            query,
            recent,
        )
    &&& forall|i: int| 0 <= i < cmds.len() && listed(cmds[i], query, recent) ==> idx.contains(i)
    &&& forall|a: int, b: int|
        #![trigger idx[a], idx[b]]
        0 <= a < b < idx.len() ==> {
            let sa = score(cmds[idx[a]], query, recent);
            let sb = score(cmds[idx[b]], query, recent);
            sa > sb || (sa == sb && idx[a] < idx[b])
        }
}

/// `vs` is the list of search results for `query`: the listed commands by
/// descending score, equal scores in registration order.
pub open spec fn ranked_as(
    cmds: Seq<CommandView>,
    recent: Seq<Seq<char>>,
    query: Seq<char>,
    vs: Seq<CommandView>,
) -> bool {
    exists|idx: Seq<int>|
        {
            &&& is_ranking(cmds, recent, query, idx)
            &&& vs.len() == idx.len()
            &&& forall|k: int| 0 <= k < idx.len() ==> #[trigger] vs[k] == cmds[idx[k]]
        }
}

/// Whether command `x` comes before command `y` in the results for `query`: a
/// higher score first, equal scores in registration order.
pub open spec fn ranks_before(
    cmds: Seq<CommandView>,
    recent: Seq<Seq<char>>,
    query: Seq<char>,
    x: int,
    y: int,
) -> bool {
    let sx = score(cmds[x], query, recent);
    let sy = score(cmds[y], query, recent);
    sx > sy || (sx == sy && x < y)
}

/// Two lists of positions, each strictly in result order, that hold the same
/// positions are the same list.
proof fn lemma_ordered_unique(
    cmds: Seq<CommandView>,
    recent: Seq<Seq<char>>,
    query: Seq<char>,
    s1: Seq<int>,
    s2: Seq<int>,
)
    requires
        forall|a: int, b: int|
            #![trigger s1[a], s1[b]]
            0 <= a < b < s1.len() ==> ranks_before(cmds, recent, query, s1[a], s1[b]),
        forall|a: int, b: int|
            #![trigger s2[a], s2[b]]
            0 <= a < b < s2.len() ==> ranks_before(cmds, recent, query, s2[a], s2[b]),
        forall|x: int| s1.contains(x) <==> s2.contains(x),
    ensures
        s1 == s2,
    decreases s1.len(),
{
    if s1.len() == 0 {
        if s2.len() > 0 {
            assert(s2.contains(s2[0]));
        }
        assert(s1 =~= s2);
    } else {
        assert(s1.contains(s1[0]));
        let j = choose|j: int| 0 <= j < s2.len() && s2[j] == s1[0];
        assert(s2.contains(s2[0]));
        let m = choose|m: int| 0 <= m < s1.len() && s1[m] == s2[0];
        if j > 0 {
            assert(ranks_before(cmds, recent, query, s2[0], s2[j]));
            if m > 0 {
                assert(ranks_before(cmds, recent, query, s1[0], s1[m]));
            }
            assert(false);
        }
        let r1 = s1.drop_first();
        let r2 = s2.drop_first();
        assert forall|x: int| r1.contains(x) <==> r2.contains(x) by {
            if r1.contains(x) {
                let k = choose|k: int| 0 <= k < r1.len() && r1[k] == x;
                assert(s1[k + 1] == x);
                assert(ranks_before(cmds, recent, query, s1[0], s1[k + 1]));
                assert(s1.contains(x));
                let k2 = choose|k2: int| 0 <= k2 < s2.len() && s2[k2] == x;
                assert(k2 != 0);
                assert(r2[k2 - 1] == x);
            }
            if r2.contains(x) {
                let k = choose|k: int| 0 <= k < r2.len() && r2[k] == x;
                assert(s2[k + 1] == x);
                assert(ranks_before(cmds, recent, query, s2[0], s2[k + 1]));
                assert(s2.contains(x));
                let k1 = choose|k1: int| 0 <= k1 < s1.len() && s1[k1] == x;
                assert(k1 != 0);
                assert(r1[k1 - 1] == x);
            }
        }
        assert forall|a: int, b: int|
            #![trigger r1[a], r1[b]]
            0 <= a < b < r1.len() implies ranks_before(cmds, recent, query, r1[a], r1[b]) by {
            assert(r1[a] == s1[a + 1] && r1[b] == s1[b + 1]);
        }
        assert forall|a: int, b: int|
            #![trigger r2[a], r2[b]]
            0 <= a < b < r2.len() implies ranks_before(cmds, recent, query, r2[a], r2[b]) by {
            assert(r2[a] == s2[a + 1] && r2[b] == s2[b + 1]);
        }
        lemma_ordered_unique(cmds, recent, query, r1, r2);
        assert(s1 =~= seq![s1[0]] + r1);
        assert(s2 =~= seq![s2[0]] + r2);
    }
}

/// Search is case-insensitive: two non-empty queries that lower-case alike rank
/// the commands alike, so they give the same results. In particular there is only
/// one ranking for a query.
pub proof fn law_search_case_insensitive(
    cmds: Seq<CommandView>,
    recent: Seq<Seq<char>>,
    q1: Seq<char>,
    q2: Seq<char>,
    idx1: Seq<int>,
    idx2: Seq<int>,
)
    requires
        q1 == q2 || (q1.len() > 0 && q2.len() > 0 && lowercase(q1) == lowercase(q2)),
        is_ranking(cmds, recent, q1, idx1),
        is_ranking(cmds, recent, q2, idx2),
    ensures
        idx1 == idx2,
{
    assert forall|i: int| 0 <= i < cmds.len() implies score(cmds[i], q1, recent) == score(cmds[i], q2, recent)
        && (listed(cmds[i], q1, recent) == listed(cmds[i], q2, recent)) by {}
    assert forall|a: int, b: int|
        #![trigger idx1[a], idx1[b]]
        0 <= a < b < idx1.len() implies ranks_before(cmds, recent, q2, idx1[a], idx1[b]) by {
        assert(0 <= idx1[a] < cmds.len() && 0 <= idx1[b] < cmds.len());
    }
    assert forall|a: int, b: int|
        #![trigger idx2[a], idx2[b]]
        0 <= a < b < idx2.len() implies ranks_before(cmds, recent, q2, idx2[a], idx2[b]) by {}
    assert forall|x: int| idx1.contains(x) <==> idx2.contains(x) by {
        if idx1.contains(x) {
            let k = choose|k: int| 0 <= k < idx1.len() && idx1[k] == x;
            assert(0 <= idx1[k] < cmds.len());
        }
        if idx2.contains(x) {
            let k = choose|k: int| 0 <= k < idx2.len() && idx2[k] == x;
            assert(0 <= idx2[k] < cmds.len());
        }
    }
    lemma_ordered_unique(cmds, recent, q2, idx1, idx2);
}

/// Keywords that lower-case alike score alike.
proof fn lemma_keyword_score_ignores_case(k1: Seq<Seq<char>>, k2: Seq<Seq<char>>, q: Seq<char>)
    requires
        k1.len() == k2.len(),
        forall|i: int| 0 <= i < k1.len() ==> lowercase(#[trigger] k1[i]) == lowercase(k2[i]),
    ensures
        keyword_score(k1, q) == keyword_score(k2, q),
    decreases k1.len(),
{
    if k1.len() > 0 {
        assert(lowercase(k1[k1.len() - 1]) == lowercase(k2[k2.len() - 1]));
        lemma_keyword_score_ignores_case(k1.drop_last(), k2.drop_last(), q);
    }
}

/// Matching ignores case in every field: two commands with the same id whose
/// titles, keywords and descriptions lower-case alike get the same score for
/// every query.
pub proof fn law_match_ignores_case(c1: CommandView, c2: CommandView, q: Seq<char>, recent: Seq<Seq<char>>)
    requires
        c1.0 == c2.0,
        lowercase(c1.1) == lowercase(c2.1),
        c1.4.len() == c2.4.len(),
        forall|i: int| 0 <= i < c1.4.len() ==> lowercase(#[trigger] c1.4[i]) == lowercase(c2.4[i]),
        (c1.2 is None && c2.2 is None) || (c1.2 is Some && c2.2 is Some && lowercase(c1.2->0) == lowercase(
            c2.2->0,
        )),
    ensures
        match_score(c1, q, recent) == match_score(c2, q, recent),
{
    lemma_keyword_score_ignores_case(c1.4, c2.4, q);
}

/// A command whose description, lower-cased, contains the lower-cased query
/// scores at least the description's 10 points and is listed (with a recent
/// list of at most 10 entries, as the registry keeps).
pub proof fn law_description_match_listed(c: CommandView, query: Seq<char>, recent: Seq<Seq<char>>)
    requires
        query.len() > 0,
        recent.len() <= 10,
        c.2 matches Some(d) && seq_contains(lowercase(d), lowercase(query)),
    ensures
        score(c, query, recent) >= 10,
        listed(c, query, recent),
{
    lemma_keyword_score_bounds(c.4, lowercase(query));
    if exists|p: int| 0 <= p < recent.len() && recent[p] == c.0 {
        let p = choose|p: int| 0 <= p < recent.len() && recent[p] == c.0;
        assert(recent_boost(recent, c.0) == (10 - p) * 10);
    }
}

/// The registry of all commands, with the list of recently used command ids.
pub struct CommandRegistry {
    commands: Vec<Command>,
    recent: VecDeque<String>,
}

impl CommandRegistry {
    /// Maximum number of recent commands to track.
    pub const MAX_RECENT: usize = 10;

    #[verifier::type_invariant]
    closed spec fn inv(self) -> bool {
        &&& views(self.commands@) == command_table()
        &&& string_views(self.recent@).no_duplicates()
        &&& self.recent@.len() <= 10
    }

    /// The registered commands.
    pub closed spec fn command_views(&self) -> Seq<CommandView> {
        views(self.commands@)
    }

    /// The ids of recently used commands, most recent first.
    pub closed spec fn recent_ids(&self) -> Seq<Seq<char>> {
        string_views(self.recent@)
    }

    /// Create a new command registry with the default commands and no recent ones.
    #[verifier::rlimit(100)]
    pub fn new() -> (r: CommandRegistry)
        ensures
            r.command_views() == command_table(),
            r.recent_ids().len() == 0,
    {
        let mut commands: Vec<Command> = Vec::new();
    let mut kw: Vec<String> = Vec::new();
    kw.push(String::from_str("issues"));
    kw.push(String::from_str("home"));
    kw.push(String::from_str("back"));
    assert(string_views(kw@) =~= seq!["issues"@, "home"@, "back"@]);
    commands.push(Command::make("goto.list", "Go to Issue List", Some("Navigate to the issue list view"), CommandCategory::Navigation, kw, Some("Esc"), CommandAction::GoToList));
    let mut kw: Vec<String> = Vec::new();
    kw.push(String::from_str("account"));
    kw.push(String::from_str("connection"));
    kw.push(String::from_str("jira"));
    assert(string_views(kw@) =~= seq!["account"@, "connection"@, "jira"@]);
    commands.push(Command::make("goto.profiles", "Manage Profiles", Some("View and edit JIRA profiles"), CommandCategory::Profile, kw, Some("P"), CommandAction::GoToProfiles));
    let mut kw: Vec<String> = Vec::new();
    kw.push(String::from_str("change"));
    kw.push(String::from_str("account"));
    kw.push(String::from_str("select"));
    assert(string_views(kw@) =~= seq!["change"@, "account"@, "select"@]);
    commands.push(Command::make("profile.switch", "Switch Profile", Some("Quick switch to another profile"), CommandCategory::Profile, kw, Some("p"), CommandAction::SwitchProfile));
    let mut kw: Vec<String> = Vec::new();
    kw.push(String::from_str("reload"));
    kw.push(String::from_str("update"));
    kw.push(String::from_str("fetch"));
    assert(string_views(kw@) =~= seq!["reload"@, "update"@, "fetch"@]);
    commands.push(Command::make("issue.refresh", "Refresh Issues", Some("Reload issues from JIRA"), CommandCategory::Issue, kw, Some("r"), CommandAction::RefreshIssues));
    let mut kw: Vec<String> = Vec::new();
    kw.push(String::from_str("search"));
    kw.push(String::from_str("query"));
    kw.push(String::from_str("find"));
    assert(string_views(kw@) =~= seq!["search"@, "query"@, "find"@]);
    commands.push(Command::make("filter.jql", "Enter JQL Query", Some("Search with JIRA Query Language"), CommandCategory::Filter, kw, Some(":"), CommandAction::OpenJqlInput));
    let mut kw: Vec<String> = Vec::new();
    kw.push(String::from_str("search"));
    kw.push(String::from_str("status"));
    kw.push(String::from_str("assignee"));
    assert(string_views(kw@) =~= seq!["search"@, "status"@, "assignee"@]);
    commands.push(Command::make("filter.panel", "Open Filter Panel", Some("Show filter options for issues"), CommandCategory::Filter, kw, Some("f"), CommandAction::GoToFilters));
    let mut kw: Vec<String> = Vec::new();
    kw.push(String::from_str("reset"));
    kw.push(String::from_str("remove"));
    assert(string_views(kw@) =~= seq!["reset"@, "remove"@]);
    commands.push(Command::make("filter.clear", "Clear All Filters", Some("Remove all active filters"), CommandCategory::Filter, kw, None, CommandAction::ClearFilters));
    let mut kw: Vec<String> = Vec::new();
    kw.push(String::from_str("reset"));
    kw.push(String::from_str("storage"));
    kw.push(String::from_str("data"));
    assert(string_views(kw@) =~= seq!["reset"@, "storage"@, "data"@]);
    commands.push(Command::make("cache.clear", "Clear Cache", Some("Remove cached issue data"), CommandCategory::Settings, kw, None, CommandAction::ClearCache));
    let mut kw: Vec<String> = Vec::new();
    kw.push(String::from_str("shortcuts"));
    kw.push(String::from_str("keys"));
    kw.push(String::from_str("documentation"));
    assert(string_views(kw@) =~= seq!["shortcuts"@, "keys"@, "documentation"@]);
    commands.push(Command::make("help.show", "Show Help", Some("Display keyboard shortcuts and help"), CommandCategory::Help, kw, Some("?"), CommandAction::GoToHelp));
        assert(views(commands@) =~= command_table());
        let r = CommandRegistry { commands, recent: VecDeque::with_capacity(Self::MAX_RECENT) };
        assert(string_views(r.recent@) =~= Seq::<Seq<char>>::empty());
        r
    }

    /// Get all registered commands.
    pub fn commands(&self) -> (r: &[Command])
        ensures
            views(r@) == self.command_views(),
    {
        self.commands.as_slice()
    }

    /// Get recent command ids, most recent first.
    pub fn recent(&self) -> (r: Vec<&str>)
        ensures
            r@.map_values(|s: &str| s@) == self.recent_ids(),
    {
        let mut out: Vec<&str> = Vec::new();
        let mut i: usize = 0;
        while i < self.recent.len()
            invariant
                i <= self.recent@.len(),
                out@.map_values(|s: &str| s@) == string_views(self.recent@).take(i as int),
            decreases self.recent.len() - i,
        {
            let ghost prev = out@;
            let s = self.recent[i].as_str();
            out.push(s);
            assert(out@ == prev.push(s));
            assert(string_views(self.recent@).take(i + 1) =~= string_views(self.recent@).take(
                i as int,
            ).push(self.recent@[i as int]@));
            assert(out@.map_values(|s: &str| s@) =~= prev.map_values(|s: &str| s@).push(s@));
            i += 1;
        }
        assert(string_views(self.recent@).take(i as int) =~= string_views(self.recent@));
        out
    }

    /// Record a command as recently used: it moves to the front of the recent list,
    /// which keeps at most `MAX_RECENT` entries.
    pub fn record_used(&mut self, id: &str)
        ensures
            final(self).command_views() == old(self).command_views(),
            final(self).recent_ids() == remember(old(self).recent_ids(), id@, 10),
            final(self).recent_ids()[0] == id@,
            final(self).recent_ids().len() <= Self::MAX_RECENT,
            final(self).recent_ids().no_duplicates(),
    {
        proof {
            use_type_invariant(&*self);
            law_remember(string_views(self.recent@), id@, 10);
        }
        let updated = remember_in_queue(&self.recent, id, Self::MAX_RECENT);
        self.recent = updated;
    }
}

/// Whether some word of `t` starts with `q`.
fn word_prefix_match_exec(t: &str, q: &str) -> (b: bool)
    ensures
        b == word_prefix_match(t@, q@),
{
    let tv = to_chars(t);
    let qv = to_chars(q);
    if qv.len() == 0 {
        let mut k: usize = 0;
        while k < tv.len()
            invariant
                tv@ == t@,
                qv@ == q@,
                qv@.len() == 0,
                k <= tv@.len(),
                forall|j: int| 0 <= j < k ==> spec_is_whitespace(#[trigger] tv@[j]),
            decreases tv.len() - k,
        {
            if !is_whitespace(tv[k]) {
                assert(!spec_is_whitespace(t@[k as int]));
                return true;
            }
            k += 1;
        }
        return false;
    }
    if contains_whitespace(q) {
        return false;
    }
    if qv.len() > tv.len() {
        return false;
    }
    let last = tv.len() - qv.len();
    let mut i: usize = 0;
    loop
        invariant
            tv@ == t@,
            qv@ == q@,
            qv@.len() > 0,
            !has_whitespace(q@),
            last == tv@.len() - qv@.len(),
            i <= last,
            forall|j: int|
                0 <= j < i ==> !((j == 0 || (0 < j && spec_is_whitespace(tv@[j - 1])))
                    && #[trigger] occurs_at(tv@, qv@, j)),
        decreases last - i,
    {
        let boundary = i == 0 || is_whitespace(tv[i - 1]);
        if boundary && chars_occur_at(&tv, &qv, i) {
            assert(occurs_at(t@, q@, i as int));
            return true;
        }
        if i == last {
            return false;
        }
        i += 1;
    }
}

/// Score of one keyword against a lower-cased query.
fn one_keyword_score_exec(k: &str, q: &str) -> (s: i32)
    ensures
        s == one_keyword_score(k@, q@),
        0 <= s <= 75,
{
    let l = to_lowercase(k);
    if contains(l.as_str(), q) {
        if starts_with(l.as_str(), q) {
            75
        } else {
            50
        }
    } else {
        0
    }
}

proof fn lemma_keyword_score_bounds(kws: Seq<Seq<char>>, q: Seq<char>)
    ensures
        0 <= keyword_score(kws, q) <= 75 * kws.len(),
    decreases kws.len(),
{
    if kws.len() > 0 {
        lemma_keyword_score_bounds(kws.drop_last(), q);
    }
}

proof fn lemma_table_keywords()
    ensures
        command_table().len() == 9,
        forall|i: int| 0 <= i < command_table().len() ==> (#[trigger] command_table()[i]).4.len() <= 3,
{
    assert forall|i: int| 0 <= i < command_table().len() implies (
    #[trigger] command_table()[i]).4.len() <= 3 by {
        if i == 0 {
        } else if i == 1 {
        } else if i == 2 {
        } else if i == 3 {
        } else if i == 4 {
        } else if i == 5 {
        } else if i == 6 {
        } else if i == 7 {
        } else {
        }
    }
}

/// Sum of keyword scores against a lower-cased query.
fn keyword_score_exec(kws: &Vec<String>, q: &str) -> (s: i32)
    requires
        kws@.len() <= 3,
    ensures
        s == keyword_score(string_views(kws@), q@),
{
    let ghost kv = string_views(kws@);
    let mut acc: i32 = 0;
    let mut j: usize = 0;
    while j < kws.len()
        invariant
            kws@.len() <= 3,
            j <= kws@.len(),
            kv == string_views(kws@),
            acc == keyword_score(kv.take(j as int), q@),
            0 <= acc <= 75 * j,
        decreases kws.len() - j,
    {
        let one = one_keyword_score_exec(kws[j].as_str(), q);
        proof {
            assert(kv.take(j + 1).drop_last() =~= kv.take(j as int));
            assert(kv.take(j + 1).last() == kws@[j as int]@);
        }
        acc = acc + one;
        j += 1;
    }
    assert(kv.take(j as int) =~= kv);
    acc
}

/// Score of a title against a lower-cased query.
fn title_score_exec(title: &str, q: &str) -> (s: i32)
    ensures
        s == title_score(title@, q@),
        0 <= s <= 175,
{
    let t = to_lowercase(title);
    if contains(t.as_str(), q) {
        let mut s: i32 = 100;
        if starts_with(t.as_str(), q) {
            s = s + 50;
        }
        if word_prefix_match_exec(t.as_str(), q) {
            s = s + 25;
        }
        s
    } else {
        0
    }
}

impl CommandRegistry {
    /// The boost of the command `id` for recent use.
    fn recent_boost_exec(&self, id: &str) -> (b: i32)
        ensures
            b == recent_boost(self.recent_ids(), id@),
            0 <= b <= 100,
    {
        proof {
            use_type_invariant(self);
        }
        let ghost r = string_views(self.recent@);
        let mut i: usize = 0;
        while i < self.recent.len()
            invariant
                r == string_views(self.recent@),
                r.no_duplicates(),
                r.len() <= 10,
                i <= r.len(),
                forall|j: int| 0 <= j < i ==> r[j] != id@,
            decreases self.recent.len() - i,
        {
            if str_eq(self.recent[i].as_str(), id) {
                proof {
                    assert(r[i as int] == id@);
                    let p = choose|p: int| 0 <= p < r.len() && r[p] == id@;
                    assert(p == i);
                }
                return ((10 - i) * 10) as i32;
            }
            i += 1;
        }
        0
    }

    /// Score of command `i` against a lower-cased, non-empty query.
    fn match_score_exec(&self, i: usize, q: &str) -> (s: i32)
        requires
            i < self.command_views().len(),
        ensures
            s == match_score(self.command_views()[i as int], q@, self.recent_ids()),
            0 <= s <= 535,
    {
        proof {
            use_type_invariant(self);
            lemma_table_keywords();
            assert(self.command_views()[i as int] == self.commands@[i as int]@);
        }
        let cmd = &self.commands[i];
        let t = title_score_exec(cmd.title.as_str(), q);
        let k = keyword_score_exec(&cmd.keywords, q);
        proof {
            lemma_keyword_score_bounds(string_views(cmd.keywords@), q@);
        }
        let mut s = t + k;
        let id_lower = to_lowercase(cmd.id.as_str());
        if contains(id_lower.as_str(), q) {
            s = s + 25;
        }
        match &cmd.description {
            Some(d) => {
                let dl = to_lowercase(d.as_str());
                if contains(dl.as_str(), q) {
                    s = s + 10;
                }
            },
            None => {},
        }
        let b = self.recent_boost_exec(cmd.id.as_str());
        s + b
    }

    /// Score of command `i` against the query as typed.
    fn score_exec(&self, i: usize, query: &str, q_lower: &str) -> (s: i32)
        requires
            i < self.command_views().len(),
            q_lower@ == lowercase(query@),
        ensures
            s == score(self.command_views()[i as int], query@, self.recent_ids()),
    {
        if query.is_empty() {
            proof {
                use_type_invariant(self);
                assert(self.command_views()[i as int].0 == self.commands@[i as int].id@);
            }
            self.recent_boost_exec(self.commands[i].id.as_str())
        } else {
            self.match_score_exec(i, q_lower)
        }
    }

    /// Search for commands matching the query.
    ///
    /// Returns the matching commands by descending score; commands with equal scores
    /// keep their registration order. An empty query lists every command, recently
    /// used ones first.
    pub fn search(&self, query: &str) -> (r: Vec<&Command>)
        ensures
            exists|idx: Seq<int>|
                {
                    &&& is_ranking(self.command_views(), self.recent_ids(), query@, idx)
                    &&& r@.len() == idx.len()
                    &&& forall|k: int|
                        0 <= k < idx.len() ==> (#[trigger] r@[k])@ == self.command_views()[idx[k]]
                },
    {
        proof {
            use_type_invariant(self);
            lemma_table_keywords();
        }
        let ghost cmds = self.command_views();
        let ghost recent = self.recent_ids();
        let q_lower = to_lowercase(query);
        let empty = query.is_empty();
        let n = self.commands.len();
        let mut ranked: Vec<(usize, i32)> = Vec::new();
        let mut i: usize = 0;
        while i < n
            invariant
                n == cmds.len(),
                cmds == self.command_views(),
                recent == self.recent_ids(),
                q_lower@ == lowercase(query@),
                empty == (query@.len() == 0),
                i <= n,
                forall|k: int|
                    0 <= k < ranked@.len() ==> {
                        &&& (#[trigger] ranked@[k]).0 < i
                        &&& ranked@[k].1 == score(cmds[ranked@[k].0 as int], query@, recent)
                        &&& listed(cmds[ranked@[k].0 as int], query@, recent)
                    },
                forall|j: int|
                    0 <= j < i && listed(cmds[j], query@, recent) ==> exists|k: int|
                        0 <= k < ranked@.len() && (#[trigger] ranked@[k]).0 == j,
                forall|a: int, b: int|
                    #![trigger ranked@[a], ranked@[b]]
                    0 <= a < b < ranked@.len() ==> ranked@[a].1 > ranked@[b].1 || (ranked@[a].1
                        == ranked@[b].1 && ranked@[a].0 < ranked@[b].0),
            decreases n - i,
        {
            let s = self.score_exec(i, query, q_lower.as_str());
            if empty || s > 0 {
                let mut p: usize = 0;
                while p < ranked.len() && ranked[p].1 >= s
                    invariant
                        p <= ranked@.len(),
                        forall|k: int| 0 <= k < p ==> (#[trigger] ranked@[k]).1 >= s,
                    decreases ranked.len() - p,
                {
                    p += 1;
                }
                let ghost old_ranked = ranked@;
                ranked.insert(p, (i, s));
                proof {
                    assert forall|a: int, b: int|
                        #![trigger ranked@[a], ranked@[b]]
                        0 <= a < b < ranked@.len() implies ranked@[a].1 > ranked@[b].1 || (
                        ranked@[a].1 == ranked@[b].1 && ranked@[a].0 < ranked@[b].0) by {
                        if b < p {
                            assert(ranked@[a] == old_ranked[a] && ranked@[b] == old_ranked[b]);
                        } else if b == p {
                            assert(ranked@[a] == old_ranked[a]);
                        } else if a == p {
                            assert(ranked@[b] == old_ranked[b - 1]);
                            if b - 1 > p {
                                assert(old_ranked[p as int].1 >= old_ranked[b - 1].1);
                            }
                        } else if a < p {
                            assert(ranked@[a] == old_ranked[a] && ranked@[b] == old_ranked[b - 1]);
                        } else {
                            assert(ranked@[a] == old_ranked[a - 1] && ranked@[b] == old_ranked[b
                                - 1]);
                        }
                    }
                    assert forall|j: int|
                        0 <= j < i + 1 && listed(cmds[j], query@, recent) implies exists|k: int|
                        0 <= k < ranked@.len() && (#[trigger] ranked@[k]).0 == j by {
                        if j == i {
                            assert(ranked@[p as int].0 == j);
                        } else {
                            let k = choose|k: int|
                                0 <= k < old_ranked.len() && (#[trigger] old_ranked[k]).0 == j;
                            if k < p {
                                assert(ranked@[k] == old_ranked[k]);
                            } else {
                                assert(ranked@[k + 1] == old_ranked[k]);
                            }
                        }
                    }
                    assert forall|k: int| 0 <= k < ranked@.len() implies {
                        &&& (#[trigger] ranked@[k]).0 < i + 1
                        &&& ranked@[k].1 == score(cmds[ranked@[k].0 as int], query@, recent)
                        &&& listed(cmds[ranked@[k].0 as int], query@, recent)
                    } by {
                        if k < p {
                            assert(ranked@[k] == old_ranked[k]);
                        } else if k > p {
                            assert(ranked@[k] == old_ranked[k - 1]);
                        }
                    }
                }
            } else {
                proof {
                    assert(!listed(cmds[i as int], query@, recent));
                }
            }
            i += 1;
        }
        let ghost idx = ranked@.map_values(|x: (usize, i32)| x.0 as int);
        let mut out: Vec<&Command> = Vec::new();
        let mut k: usize = 0;
        while k < ranked.len()
            invariant
                k <= ranked@.len(),
                idx == ranked@.map_values(|x: (usize, i32)| x.0 as int),
                cmds == self.command_views(),
                n == cmds.len(),
                forall|m: int| 0 <= m < ranked@.len() ==> (#[trigger] ranked@[m]).0 < n,
                out@.len() == k,
                forall|m: int| 0 <= m < k ==> (#[trigger] out@[m])@ == cmds[idx[m]],
            decreases ranked.len() - k,
        {
            let j = ranked[k].0;
            proof {
                assert(cmds[j as int] == self.commands@[j as int]@);
            }
            out.push(&self.commands[j]);
            k += 1;
        }
        proof {
            assert forall|m: int| 0 <= m < idx.len() implies 0 <= #[trigger] idx[m] < cmds.len()
                && listed(cmds[idx[m]], query@, recent) by {
                assert(idx[m] == ranked@[m].0 as int);
            }
            assert forall|j: int| 0 <= j < cmds.len() && listed(cmds[j], query@, recent) implies idx.contains(j) by {
                let k = choose|k: int| 0 <= k < ranked@.len() && (#[trigger] ranked@[k]).0 == j;
                assert(idx[k] == j);
            }
            assert forall|a: int, b: int|
                #![trigger idx[a], idx[b]]
                0 <= a < b < idx.len() implies {
                let sa = score(cmds[idx[a]], query@, recent);
                let sb = score(cmds[idx[b]], query@, recent);
                sa > sb || (sa == sb && idx[a] < idx[b])
            } by {
                assert(idx[a] == ranked@[a].0 as int && idx[b] == ranked@[b].0 as int);
                assert(ranked@[a].1 > ranked@[b].1 || (ranked@[a].1 == ranked@[b].1 && ranked@[a].0
                    < ranked@[b].0));
            }
            assert(is_ranking(cmds, recent, query@, idx));
        }
        out
    }
}

impl Default for CommandRegistry {
    fn default() -> (r: CommandRegistry)
        ensures
            r.command_views() == command_table(),
            r.recent_ids().len() == 0,
    {
        CommandRegistry::new()
    }
}

/// The boost of a command at position `p` of a duplicate-free recent list of at
/// most 10 ids.
proof fn lemma_recent_boost_at(recent: Seq<Seq<char>>, p: int)
    requires
        recent.no_duplicates(),
        recent.len() <= 10,
        0 <= p < recent.len(),
    ensures
        recent_boost(recent, recent[p]) == (10 - p) * 10,
        recent_boost(recent, recent[p]) > 0,
{
    let id = recent[p];
    assert(0 <= p < recent.len() && recent[p] == id);
    let q = choose|q: int| 0 <= q < recent.len() && recent[q] == id;
    assert(q == p);
}

/// With an empty query every command is listed, the recently used ones first and,
/// among them (for commands with distinct ids), the most recent first.
pub proof fn law_empty_query_recent_first(
    cmds: Seq<CommandView>,
    recent: Seq<Seq<char>>,
    idx: Seq<int>,
)
    requires
        is_ranking(cmds, recent, Seq::empty(), idx),
        recent.no_duplicates(),
        recent.len() <= 10,
        forall|i: int, j: int| 0 <= i < j < cmds.len() ==> cmds[i].0 != cmds[j].0,
    ensures
        forall|i: int| 0 <= i < cmds.len() ==> idx.contains(i),
        forall|a: int, b: int|
            #![trigger idx[a], idx[b]]
            0 <= a < b < idx.len() && recent.contains(cmds[idx[b]].0) ==> recent.contains(
                cmds[idx[a]].0,
            ),
        forall|a: int, b: int, pa: int, pb: int|
            #![trigger idx[a], idx[b], recent[pa], recent[pb]]
            0 <= a < b < idx.len() && 0 <= pa < recent.len() && 0 <= pb < recent.len()
                && recent[pa] == cmds[idx[a]].0 && recent[pb] == cmds[idx[b]].0 ==> pa < pb,
{
    let q = Seq::<char>::empty();
    assert forall|i: int| 0 <= i < cmds.len() implies idx.contains(i) by {
        assert(listed(cmds[i], q, recent));
    }
    assert forall|a: int, b: int|
        #![trigger idx[a], idx[b]]
        0 <= a < b < idx.len() && recent.contains(cmds[idx[b]].0) implies recent.contains(
            cmds[idx[a]].0,
        ) by {
        let pb = choose|p: int| 0 <= p < recent.len() && recent[p] == cmds[idx[b]].0;
        lemma_recent_boost_at(recent, pb);
        if !recent.contains(cmds[idx[a]].0) {
            assert(recent_boost(recent, cmds[idx[a]].0) == 0);
        }
    }
    assert forall|a: int, b: int, pa: int, pb: int|
        #![trigger idx[a], idx[b], recent[pa], recent[pb]]
        0 <= a < b < idx.len() && 0 <= pa < recent.len() && 0 <= pb < recent.len()
            && recent[pa] == cmds[idx[a]].0 && recent[pb] == cmds[idx[b]].0 implies pa < pb by {
        lemma_recent_boost_at(recent, pa);
        lemma_recent_boost_at(recent, pb);
        assert(score(cmds[idx[a]], q, recent) == (10 - pa) * 10);
        assert(score(cmds[idx[b]], q, recent) == (10 - pb) * 10);
        if pa == pb {
            assert(idx[a] == idx[b]);
        }
    }
}

} // verus!
