//! The registry of keyboard shortcuts, organised by the context in which they apply.
use vstd::prelude::*;

verus! {

/// Key binding configuration.
pub struct KeyBindings {
    /// Whether vim-style bindings are enabled.
    pub vim_mode: bool,
}

impl KeyBindings {
    /// Create new key bindings.
    pub fn new(vim_mode: bool) -> (k: KeyBindings)
        ensures
            k.vim_mode == vim_mode,
    {
        KeyBindings { vim_mode }
    }
}

impl Default for KeyBindings {
    /// Vim-style bindings are on by default.
    fn default() -> (k: KeyBindings)
        ensures
            k.vim_mode,
    {
        KeyBindings::new(true)
    }
}

/// The context in which a keybinding is active.
#[derive(Debug, Clone, Copy, PartialEq, Eq, Structural)]
pub enum KeyContext {
    /// Global keybindings available in all views.
    Global,
    /// Keybindings for the issue list view.
    IssueList,
    /// Keybindings for the issue detail view.
    IssueDetail,
    /// Keybindings for profile management.
    ProfileManagement,
    /// Keybindings for the filter panel.
    FilterPanel,
    /// Keybindings for text editor/input mode.
    Editor,
    /// Keybindings for JQL input.
    JqlInput,
}

/// The display name of a context.
pub open spec fn context_name(c: KeyContext) -> Seq<char> {
    match c {
        KeyContext::Global => "Global"@,
        KeyContext::IssueList => "Issue List"@,
        KeyContext::IssueDetail => "Issue Detail"@,
        KeyContext::ProfileManagement => "Profile Management"@,
        KeyContext::FilterPanel => "Filter Panel"@,
        KeyContext::Editor => "Editor"@,
        KeyContext::JqlInput => "JQL Input"@,
    }
}

impl KeyContext {
    /// Get the display name for this context.
    pub fn display(&self) -> (s: &'static str)
        ensures
            s@ == context_name(*self),
    {
        match self {
            KeyContext::Global => "Global",
            KeyContext::IssueList => "Issue List",
            KeyContext::IssueDetail => "Issue Detail",
            KeyContext::ProfileManagement => "Profile Management",
            KeyContext::FilterPanel => "Filter Panel",
            KeyContext::Editor => "Editor",
            KeyContext::JqlInput => "JQL Input",
        }
    }
}

/// A keybinding as data: key, action, description and context.
pub type KeybindingView = (Seq<char>, Seq<char>, Seq<char>, KeyContext);

/// A single keybinding definition.
#[derive(Debug, Clone)]
pub struct Keybinding {
    /// The key or key combination (e.g., "?", "Ctrl+C", "j / ↓").
    pub key: String,
    /// Short action name for internal use.
    pub action: String,
    /// Human-readable description of what the key does.
    pub description: String,
    /// The context in which this keybinding is active.
    pub context: KeyContext,
}

impl View for Keybinding {
    type V = KeybindingView;

    open spec fn view(&self) -> KeybindingView {
        (self.key@, self.action@, self.description@, self.context)
    }
}

impl Keybinding {
    /// Create a new keybinding.
    pub fn new(key: &str, action: &str, description: &str, context: KeyContext) -> (b: Keybinding)
        ensures
            b@ == (key@, action@, description@, context),
    {
        Keybinding {
            key: String::from_str(key),
            action: String::from_str(action),
            description: String::from_str(description),
            context,
        }
    }

    /// A copy of this keybinding.
    pub fn duplicate(&self) -> (b: Keybinding)
        ensures
            b@ == self@,
    {
        Keybinding {
            key: self.key.clone(),
            action: self.action.clone(),
            description: self.description.clone(),
            context: self.context,
        }
    }
}

/// The view of a keybinding written with string literals.
pub open spec fn kb_view(key: &str, action: &str, description: &str, context: KeyContext) -> KeybindingView {
    (key@, action@, description@, context)
}

/// The views of a sequence of keybindings.
pub open spec fn views(s: Seq<Keybinding>) -> Seq<KeybindingView> {
    s.map_values(|b: Keybinding| b@)
}

/// Every keybinding of the application, in the order in which the help panel lists them.
pub open spec fn keybinding_table() -> Seq<KeybindingView> {
    seq![
        kb_view("?", "help", "Show this help panel", KeyContext::Global),
        kb_view("Ctrl+C", "quit", "Quit application", KeyContext::Global),
        kb_view("p", "switch_profile", "Switch JIRA profile (quick)", KeyContext::Global),
        kb_view("P", "manage_profiles", "Manage profiles (CRUD)", KeyContext::Global),
        kb_view("r", "refresh", "Refresh current view", KeyContext::Global),
        kb_view("Ctrl+P / Ctrl+K", "command_palette", "Open command palette", KeyContext::Global),
        kb_view("j / ↓", "move_down", "Move down", KeyContext::IssueList),
        kb_view("k / ↑", "move_up", "Move up", KeyContext::IssueList),
        kb_view("gg", "go_top", "Go to first issue", KeyContext::IssueList),
        kb_view("G", "go_bottom", "Go to last issue", KeyContext::IssueList),
        kb_view("Ctrl+d", "page_down", "Page down", KeyContext::IssueList),
        kb_view("Ctrl+u", "page_up", "Page up", KeyContext::IssueList),
        kb_view("Enter", "open_issue", "Open issue details", KeyContext::IssueList),
        kb_view("f", "filter", "Open filter panel", KeyContext::IssueList),
        kb_view(": / /", "jql", "Open JQL query input", KeyContext::IssueList),
        kb_view("q", "quit", "Quit application", KeyContext::IssueList),
        kb_view("j / ↓", "scroll_down", "Scroll down", KeyContext::IssueDetail),
        kb_view("k / ↑", "scroll_up", "Scroll up", KeyContext::IssueDetail),
        kb_view("g", "go_top", "Go to top", KeyContext::IssueDetail),
        kb_view("G", "go_bottom", "Go to bottom", KeyContext::IssueDetail),
        kb_view("Ctrl+d", "page_down", "Page down", KeyContext::IssueDetail),
        kb_view("Ctrl+u", "page_up", "Page up", KeyContext::IssueDetail),
        kb_view("e", "edit", "Edit issue", KeyContext::IssueDetail),
        kb_view("s", "status", "Change status", KeyContext::IssueDetail),
        kb_view("c", "comment", "Add comment", KeyContext::IssueDetail),
        kb_view("a", "assign", "Change assignee", KeyContext::IssueDetail),
        kb_view("y", "priority", "Change priority", KeyContext::IssueDetail),
        kb_view("l", "labels", "Edit labels", KeyContext::IssueDetail),
        kb_view("o", "components", "Edit components", KeyContext::IssueDetail),
        kb_view("L", "link", "Link issue", KeyContext::IssueDetail),
        kb_view("q / Esc", "back", "Go back to list", KeyContext::IssueDetail),
        kb_view("Enter", "execute", "Execute query", KeyContext::JqlInput),
        kb_view("↑ / ↓", "history", "Browse history", KeyContext::JqlInput),
        kb_view("Esc", "cancel", "Cancel", KeyContext::JqlInput),
        kb_view("a", "add", "Add new profile", KeyContext::ProfileManagement),
        kb_view("e", "edit", "Edit selected profile", KeyContext::ProfileManagement),
        kb_view("d", "delete", "Delete selected profile", KeyContext::ProfileManagement),
        kb_view("s", "set_default", "Set as default profile", KeyContext::ProfileManagement),
        kb_view("Space", "switch", "Switch to profile", KeyContext::ProfileManagement),
        kb_view("q / Esc", "back", "Go back", KeyContext::ProfileManagement),
        kb_view("Tab / ← / →", "switch_section", "Switch section", KeyContext::FilterPanel),
        kb_view("↑ / ↓", "navigate", "Navigate in section", KeyContext::FilterPanel),
        kb_view("Space", "toggle", "Toggle selection", KeyContext::FilterPanel),
        kb_view("c", "clear", "Clear all filters", KeyContext::FilterPanel),
        kb_view("Enter", "apply", "Apply filters", KeyContext::FilterPanel),
        kb_view("Esc", "cancel", "Cancel", KeyContext::FilterPanel),
        kb_view("Ctrl+S", "save", "Save changes", KeyContext::Editor),
        kb_view("Esc", "cancel", "Cancel editing", KeyContext::Editor),
    ]
}

/// The keybindings of the table that apply in context `c`, in table order.
pub open spec fn bindings_for(c: KeyContext) -> Seq<KeybindingView> {
    keybinding_table().filter(in_context(c))
}

/// The test of whether a binding applies in context `c`.
pub open spec fn in_context(c: KeyContext) -> spec_fn(KeybindingView) -> bool {
    |b: KeybindingView| b.3 == c
}

/// Get all keybindings organized by context.
#[verifier::rlimit(100)]
pub fn get_keybindings() -> (r: Vec<Keybinding>)
    ensures
        views(r@) == keybinding_table(),
{
    let mut v: Vec<Keybinding> = Vec::new();
    v.push(Keybinding::new("?", "help", "Show this help panel", KeyContext::Global));
    v.push(Keybinding::new("Ctrl+C", "quit", "Quit application", KeyContext::Global));
    v.push(Keybinding::new("p", "switch_profile", "Switch JIRA profile (quick)", KeyContext::Global));
    v.push(Keybinding::new("P", "manage_profiles", "Manage profiles (CRUD)", KeyContext::Global));
    v.push(Keybinding::new("r", "refresh", "Refresh current view", KeyContext::Global));
    v.push(Keybinding::new("Ctrl+P / Ctrl+K", "command_palette", "Open command palette", KeyContext::Global));
    v.push(Keybinding::new("j / ↓", "move_down", "Move down", KeyContext::IssueList));
    v.push(Keybinding::new("k / ↑", "move_up", "Move up", KeyContext::IssueList));
    v.push(Keybinding::new("gg", "go_top", "Go to first issue", KeyContext::IssueList));
    v.push(Keybinding::new("G", "go_bottom", "Go to last issue", KeyContext::IssueList));
    v.push(Keybinding::new("Ctrl+d", "page_down", "Page down", KeyContext::IssueList));
    v.push(Keybinding::new("Ctrl+u", "page_up", "Page up", KeyContext::IssueList));
    v.push(Keybinding::new("Enter", "open_issue", "Open issue details", KeyContext::IssueList));
    v.push(Keybinding::new("f", "filter", "Open filter panel", KeyContext::IssueList));
    v.push(Keybinding::new(": / /", "jql", "Open JQL query input", KeyContext::IssueList));
    v.push(Keybinding::new("q", "quit", "Quit application", KeyContext::IssueList));
    v.push(Keybinding::new("j / ↓", "scroll_down", "Scroll down", KeyContext::IssueDetail));
    v.push(Keybinding::new("k / ↑", "scroll_up", "Scroll up", KeyContext::IssueDetail));
    v.push(Keybinding::new("g", "go_top", "Go to top", KeyContext::IssueDetail));
    v.push(Keybinding::new("G", "go_bottom", "Go to bottom", KeyContext::IssueDetail));
    v.push(Keybinding::new("Ctrl+d", "page_down", "Page down", KeyContext::IssueDetail));
    v.push(Keybinding::new("Ctrl+u", "page_up", "Page up", KeyContext::IssueDetail));
    v.push(Keybinding::new("e", "edit", "Edit issue", KeyContext::IssueDetail));
    v.push(Keybinding::new("s", "status", "Change status", KeyContext::IssueDetail));
    v.push(Keybinding::new("c", "comment", "Add comment", KeyContext::IssueDetail));
    v.push(Keybinding::new("a", "assign", "Change assignee", KeyContext::IssueDetail));
    v.push(Keybinding::new("y", "priority", "Change priority", KeyContext::IssueDetail));
    v.push(Keybinding::new("l", "labels", "Edit labels", KeyContext::IssueDetail));
    v.push(Keybinding::new("o", "components", "Edit components", KeyContext::IssueDetail));
    v.push(Keybinding::new("L", "link", "Link issue", KeyContext::IssueDetail));
    v.push(Keybinding::new("q / Esc", "back", "Go back to list", KeyContext::IssueDetail));
    v.push(Keybinding::new("Enter", "execute", "Execute query", KeyContext::JqlInput));
    v.push(Keybinding::new("↑ / ↓", "history", "Browse history", KeyContext::JqlInput));
    v.push(Keybinding::new("Esc", "cancel", "Cancel", KeyContext::JqlInput));
    v.push(Keybinding::new("a", "add", "Add new profile", KeyContext::ProfileManagement));
    v.push(Keybinding::new("e", "edit", "Edit selected profile", KeyContext::ProfileManagement));
    v.push(Keybinding::new("d", "delete", "Delete selected profile", KeyContext::ProfileManagement));
    v.push(Keybinding::new("s", "set_default", "Set as default profile", KeyContext::ProfileManagement));
    v.push(Keybinding::new("Space", "switch", "Switch to profile", KeyContext::ProfileManagement));
    v.push(Keybinding::new("q / Esc", "back", "Go back", KeyContext::ProfileManagement));
    v.push(Keybinding::new("Tab / ← / →", "switch_section", "Switch section", KeyContext::FilterPanel));
    v.push(Keybinding::new("↑ / ↓", "navigate", "Navigate in section", KeyContext::FilterPanel));
    v.push(Keybinding::new("Space", "toggle", "Toggle selection", KeyContext::FilterPanel));
    v.push(Keybinding::new("c", "clear", "Clear all filters", KeyContext::FilterPanel));
    v.push(Keybinding::new("Enter", "apply", "Apply filters", KeyContext::FilterPanel));
    v.push(Keybinding::new("Esc", "cancel", "Cancel", KeyContext::FilterPanel));
    v.push(Keybinding::new("Ctrl+S", "save", "Save changes", KeyContext::Editor));
    v.push(Keybinding::new("Esc", "cancel", "Cancel editing", KeyContext::Editor));
    assert(views(v@) =~= keybinding_table());
    v
}

/// Get keybindings filtered by context.
pub fn get_keybindings_for_context(context: KeyContext) -> (r: Vec<Keybinding>)
    ensures
        views(r@) == bindings_for(context),
{
    let all = get_keybindings();
    let ghost tbl = keybinding_table();
    let ghost pred = in_context(context);
    let mut out: Vec<Keybinding> = Vec::new();
    let mut i: usize = 0;
    while i < all.len()
        invariant
            i <= all@.len(),
            views(all@) == tbl,
            tbl == keybinding_table(),
            pred == in_context(context),
            views(out@) == tbl.take(i as int).filter(pred),
        decreases all.len() - i,
    {
        proof {
            reveal_with_fuel(Seq::<_>::filter, 1);
            assert(tbl.take(i + 1).drop_last() =~= tbl.take(i as int));
            assert(tbl[i as int] == all@[i as int]@);
        }
        if all[i].context == context {
            let ghost prev = out@;
            let b = all[i].duplicate();
            out.push(b);
            assert(views(out@) =~= views(prev).push(all@[i as int]@));
        }
        i += 1;
    }
    assert(tbl.take(all@.len() as int) =~= tbl);
    out
}

/// The order in which the help panel groups contexts.
pub open spec fn context_order() -> Seq<KeyContext> {
    seq![
        KeyContext::Global,
        KeyContext::IssueList,
        KeyContext::IssueDetail,
        KeyContext::JqlInput,
        KeyContext::ProfileManagement,
        KeyContext::FilterPanel,
        KeyContext::Editor,
    ]
}

/// For each context of `ctxs` in order that has some binding, the context with its bindings.
pub open spec fn grouped(ctxs: Seq<KeyContext>) -> Seq<(KeyContext, Seq<KeybindingView>)>
    decreases ctxs.len(),
{
    if ctxs.len() == 0 {
        seq![]
    } else {
        let rest = grouped(ctxs.drop_last());
        let c = ctxs.last();
        if bindings_for(c).len() > 0 {
            rest.push((c, bindings_for(c)))
        } else {
            rest
        }
    }
}

/// The views of a list of groups.
pub open spec fn group_views(s: Seq<(KeyContext, Vec<Keybinding>)>) -> Seq<(KeyContext, Seq<KeybindingView>)> {
    s.map_values(|g: (KeyContext, Vec<Keybinding>)| (g.0, views(g.1@)))
}

/// Get keybindings grouped by context.
pub fn get_keybindings_grouped() -> (r: Vec<(KeyContext, Vec<Keybinding>)>)
    ensures
        group_views(r@) == grouped(context_order()),
        flatten_groups(group_views(r@)) == keybinding_table(),
{
    let contexts = vec![
        KeyContext::Global,
        KeyContext::IssueList,
        KeyContext::IssueDetail,
        KeyContext::JqlInput,
        KeyContext::ProfileManagement,
        KeyContext::FilterPanel,
        KeyContext::Editor,
    ];
    assert(contexts@ =~= context_order());
    let mut out: Vec<(KeyContext, Vec<Keybinding>)> = Vec::new();
    let mut i: usize = 0;
    while i < contexts.len()
        invariant
            i <= contexts@.len(),
            contexts@ == context_order(),
            group_views(out@) == grouped(contexts@.take(i as int)),
        decreases contexts.len() - i,
    {
        let ctx = contexts[i];
        let bindings = get_keybindings_for_context(ctx);
        let ghost prev = out@;
        assert(contexts@.take(i + 1).drop_last() =~= contexts@.take(i as int));
        if bindings.len() > 0 {
            out.push((ctx, bindings));
            assert(group_views(out@) =~= group_views(prev).push((ctx, bindings_for(ctx))));
        }
        i += 1;
    }
    assert(contexts@.take(contexts@.len() as int) =~= contexts@);
    proof {
        lemma_flat_groups(group_views(out@));
    }
    out
}

/// Groups equal to the help panel's cover the table.
proof fn lemma_flat_groups(gs: Seq<(KeyContext, Seq<KeybindingView>)>)
    requires
        gs == grouped(context_order()),
    ensures
        flatten_groups(gs) == keybinding_table(),
{
    law_groups_cover_all_bindings();
}

/// The bindings of a list of groups, one group after the other.
pub open spec fn flatten_groups(gs: Seq<(KeyContext, Seq<KeybindingView>)>) -> Seq<KeybindingView>
    decreases gs.len(),
{
    if gs.len() == 0 {
        seq![]
    } else {
        flatten_groups(gs.drop_last()) + gs.last().1
    }
}

/// Where the bindings of the `k`-th context of `context_order` start in the table.
spec fn part_start(k: int) -> int {
    if k <= 0 {
        0
    } else if k == 1 {
        6
    } else if k == 2 {
        16
    } else if k == 3 {
        31
    } else if k == 4 {
        34
    } else if k == 5 {
        40
    } else if k == 6 {
        46
    } else {
        48
    }
}

/// The table lists the bindings context by context, in `context_order`.
proof fn lemma_table_parts()
    ensures
        keybinding_table().len() == 48,
        forall|i: int| 0 <= i < 6 ==> (#[trigger] keybinding_table()[i]).3 == KeyContext::Global,
        forall|i: int| 6 <= i < 16 ==> (#[trigger] keybinding_table()[i]).3 == KeyContext::IssueList,
        forall|i: int| 16 <= i < 31 ==> (#[trigger] keybinding_table()[i]).3 == KeyContext::IssueDetail,
        forall|i: int| 31 <= i < 34 ==> (#[trigger] keybinding_table()[i]).3 == KeyContext::JqlInput,
        forall|i: int| 34 <= i < 40 ==> (#[trigger] keybinding_table()[i]).3 == KeyContext::ProfileManagement,
        forall|i: int| 40 <= i < 46 ==> (#[trigger] keybinding_table()[i]).3 == KeyContext::FilterPanel,
        forall|i: int| 46 <= i < 48 ==> (#[trigger] keybinding_table()[i]).3 == KeyContext::Editor,
{
    let t = keybinding_table();
    assert forall|i: int| 0 <= i < 6 implies (#[trigger] t[i]).3 == KeyContext::Global by {}
    assert forall|i: int| 6 <= i < 16 implies (#[trigger] t[i]).3 == KeyContext::IssueList by {}
    assert forall|i: int| 16 <= i < 31 implies (#[trigger] t[i]).3 == KeyContext::IssueDetail by {}
    assert forall|i: int| 31 <= i < 34 implies (#[trigger] t[i]).3 == KeyContext::JqlInput by {}
    assert forall|i: int| 34 <= i < 40 implies (#[trigger] t[i]).3 == KeyContext::ProfileManagement by {}
    assert forall|i: int| 40 <= i < 46 implies (#[trigger] t[i]).3 == KeyContext::FilterPanel by {}
    assert forall|i: int| 46 <= i < 48 implies (#[trigger] t[i]).3 == KeyContext::Editor by {}
}

/// Keeping the bindings of context `c` keeps all of `s` when all are in `c`.
proof fn lemma_filter_all(s: Seq<KeybindingView>, c: KeyContext)
    requires
        forall|i: int| 0 <= i < s.len() ==> (#[trigger] s[i]).3 == c,
    ensures
        s.filter(in_context(c)) == s,
    decreases s.len(),
{
    reveal_with_fuel(Seq::<_>::filter, 1);
    if s.len() > 0 {
        lemma_filter_all(s.drop_last(), c);
        assert(s.drop_last().push(s.last()) =~= s);
    }
}

/// Keeping the bindings of context `c` keeps nothing of `s` when none is in `c`.
proof fn lemma_filter_none(s: Seq<KeybindingView>, c: KeyContext)
    requires
        forall|i: int| 0 <= i < s.len() ==> (#[trigger] s[i]).3 != c,
    ensures
        s.filter(in_context(c)) == Seq::<KeybindingView>::empty(),
    decreases s.len(),
{
    reveal_with_fuel(Seq::<_>::filter, 1);
    if s.len() > 0 {
        lemma_filter_none(s.drop_last(), c);
    }
}

/// The bindings of context `c` are the part of the table between `a` and `b`
/// when exactly those are in `c`.
proof fn lemma_bindings_part(a: int, b: int, c: KeyContext)
    requires
        0 <= a <= b <= keybinding_table().len(),
        forall|i: int| a <= i < b ==> (#[trigger] keybinding_table()[i]).3 == c,
        forall|i: int|
            0 <= i < keybinding_table().len() && !(a <= i < b) ==> (#[trigger] keybinding_table()[i]).3 != c,
    ensures
        bindings_for(c) == keybinding_table().subrange(a, b),
{
    let t = keybinding_table();
    let n = t.len() as int;
    let p = in_context(c);
    let x = t.subrange(0, a);
    let y = t.subrange(a, b);
    let z = t.subrange(b, n);
    assert(t =~= x + y + z);
    Seq::filter_distributes_over_add(x + y, z, p);
    Seq::filter_distributes_over_add(x, y, p);
    assert forall|i: int| 0 <= i < x.len() implies (#[trigger] x[i]).3 != c by {
        assert(x[i] == t[i]);
    }
    assert forall|i: int| 0 <= i < z.len() implies (#[trigger] z[i]).3 != c by {
        assert(z[i] == t[b + i]);
    }
    assert forall|i: int| 0 <= i < y.len() implies (#[trigger] y[i]).3 == c by {
        assert(y[i] == t[a + i]);
    }
    lemma_filter_none(x, c);
    lemma_filter_none(z, c);
    lemma_filter_all(y, c);
    assert(Seq::<KeybindingView>::empty() + y + Seq::<KeybindingView>::empty() =~= y);
}

/// One more context of `context_order` adds its part of the table to the groups.
proof fn lemma_group_step(k: int, a: int, b: int)
    requires
        0 <= k < 7,
        0 <= a < b <= keybinding_table().len(),
        flatten_groups(grouped(context_order().take(k))) == keybinding_table().subrange(0, a),
        bindings_for(context_order()[k]) == keybinding_table().subrange(a, b),
    ensures
        flatten_groups(grouped(context_order().take(k + 1))) == keybinding_table().subrange(0, b),
{
    let o = context_order();
    let t = keybinding_table();
    assert(o.take(k + 1).drop_last() =~= o.take(k));
    assert(o.take(k + 1).last() == o[k]);
    let g = grouped(o.take(k));
    let grp = (o[k], bindings_for(o[k]));
    assert(grouped(o.take(k + 1)) == g.push(grp));
    assert(g.push(grp).drop_last() =~= g);
    assert(flatten_groups(g.push(grp)) == flatten_groups(g) + t.subrange(a, b));
    assert(t.subrange(0, a) + t.subrange(a, b) =~= t.subrange(0, b));
}

/// The groups of the help panel, one after the other, hold every keybinding
/// once, in the order of the full table: grouping loses, repeats and reorders
/// nothing, and so the groups together are a permutation of all bindings.
pub proof fn law_groups_cover_all_bindings()
    ensures
        flatten_groups(grouped(context_order())) == keybinding_table(),
        flatten_groups(grouped(context_order())).to_multiset() == keybinding_table().to_multiset(),
{
    lemma_table_parts();
    lemma_bindings_part(0, 6, KeyContext::Global);
    lemma_bindings_part(6, 16, KeyContext::IssueList);
    lemma_bindings_part(16, 31, KeyContext::IssueDetail);
    lemma_bindings_part(31, 34, KeyContext::JqlInput);
    lemma_bindings_part(34, 40, KeyContext::ProfileManagement);
    lemma_bindings_part(40, 46, KeyContext::FilterPanel);
    lemma_bindings_part(46, 48, KeyContext::Editor);
    let o = context_order();
    assert(o.take(0) =~= Seq::<KeyContext>::empty());
    assert(keybinding_table().subrange(0, 0) =~= Seq::<KeybindingView>::empty());
    lemma_group_step(0, 0, 6);
    lemma_group_step(1, 6, 16);
    lemma_group_step(2, 16, 31);
    lemma_group_step(3, 31, 34);
    lemma_group_step(4, 34, 40);
    lemma_group_step(5, 40, 46);
    lemma_group_step(6, 46, 48);
    assert(o.take(7) =~= o);
    assert(keybinding_table().subrange(0, 48) =~= keybinding_table());
}

/// The hint line shown at the bottom of the screen in a context.
pub open spec fn context_hint(c: KeyContext) -> Seq<char> {
    match c {
        KeyContext::Global => "[?] help"@,
        KeyContext::IssueList => "[j/k] navigate  [Enter] open  [f] filter  [/] search  [?] help"@,
        KeyContext::IssueDetail => "[e] edit  [c] comment  [s] status  [a] assign  [q] back  [?] help"@,
        KeyContext::ProfileManagement => "[a] add  [e] edit  [d] delete  [s] default  [q] back"@,
        KeyContext::FilterPanel => "[Space] toggle  [Tab] section  [Enter] apply  [c] clear  [Esc] close"@,
        KeyContext::JqlInput => "[Enter] execute  [↑/↓] history  [Esc] cancel"@,
        KeyContext::Editor => "[Ctrl+S] save  [Esc] cancel"@,
    }
}

/// Get contextual hint text for a given context.
pub fn get_context_hints(context: KeyContext) -> (s: &'static str)
    ensures
        s@ == context_hint(context),
{
    match context {
        KeyContext::Global => "[?] help",
        KeyContext::IssueList => "[j/k] navigate  [Enter] open  [f] filter  [/] search  [?] help",
        KeyContext::IssueDetail => "[e] edit  [c] comment  [s] status  [a] assign  [q] back  [?] help",
        KeyContext::ProfileManagement => "[a] add  [e] edit  [d] delete  [s] default  [q] back",
        KeyContext::FilterPanel => "[Space] toggle  [Tab] section  [Enter] apply  [c] clear  [Esc] close",
        KeyContext::JqlInput => "[Enter] execute  [↑/↓] history  [Esc] cancel",
        KeyContext::Editor => "[Ctrl+S] save  [Esc] cancel",
    }
}

} // verus!
