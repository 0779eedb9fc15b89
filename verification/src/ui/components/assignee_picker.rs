//! Picker for changing an issue's assignee.
//!
//! The first entry is "Unassigned", the users follow. In normal mode j/k move,
//! `/` starts a search, Enter or Space selects and Esc or q cancels. In search
//! mode letters and spaces narrow the list to the users whose display name
//! contains the query, ignoring case; Enter or Esc go back to normal mode.
use vstd::prelude::*;

use crate::api::types::User;
use crate::events::key::{is_down, is_plain_char, is_up, key_is_down, key_is_up, pressed, pressed_char, KeyCode, KeyEvent, KeyModifiers};
use crate::text::{alphabetic, contains, copy_str, is_alphabetic, is_whitespace, lowercase, pop_char, push_char, seq_contains, spec_is_whitespace, to_lowercase};
use crate::ui::components::input::InputMode;

verus! {

/// Action resulting from assignee picker input.
#[derive(Debug, Clone, PartialEq)]
pub enum AssigneeAction {
    /// A user was selected (account id, display name).
    Select(String, String),
    /// The "Unassigned" entry was selected.
    Unassign,
    /// The picker was closed without selection.
    Cancel,
}

/// An assignee action as data.
pub enum AssigneeOutcome {
    /// A user was selected (account id, display name).
    Select(Seq<char>, Seq<char>),
    /// The "Unassigned" entry was selected.
    Unassign,
    /// The picker was closed without selection.
    Cancel,
}

/// The data of an action.
pub open spec fn assignee_outcome(a: Option<AssigneeAction>) -> Option<AssigneeOutcome> {
    match a {
        None => None,
        Some(AssigneeAction::Select(id, name)) => Some(AssigneeOutcome::Select(id@, name@)),
        Some(AssigneeAction::Unassign) => Some(AssigneeOutcome::Unassign),
        Some(AssigneeAction::Cancel) => Some(AssigneeOutcome::Cancel),
    }
}

/// The assignee picker.
#[derive(Debug)]
pub struct AssigneePicker {
    /// Users that can be assigned.
    pub users: Vec<User>,
    /// Highlighted entry: 0 is "Unassigned", k > 0 the k-th listed user.
    pub selected: usize,
    /// Whether the picker is visible.
    pub visible: bool,
    /// Whether users are being loaded.
    pub loading: bool,
    /// Display name of the current assignee.
    pub current_assignee: String,
    /// The search query.
    pub search_query: String,
    /// Positions in `users` of the listed users.
    pub filtered_indices: Vec<usize>,
    /// Navigation or search mode.
    pub input_mode: InputMode,
}

/// The picker as data.
pub struct AssigneeState {
    /// Users that can be assigned.
    pub users: Seq<User>,
    /// Highlighted entry.
    pub selected: int,
    /// Whether the picker is visible.
    pub visible: bool,
    /// Whether users are being loaded.
    pub loading: bool,
    /// Display name of the current assignee.
    pub current_assignee: Seq<char>,
    /// The search query.
    pub query: Seq<char>,
    /// Positions of the listed users.
    pub filtered: Seq<usize>,
    /// Navigation or search mode.
    pub mode: InputMode,
}

impl View for AssigneePicker {
    type V = AssigneeState;

    open spec fn view(&self) -> AssigneeState {
        AssigneeState {
            users: self.users@,
            selected: self.selected as int,
            visible: self.visible,
            loading: self.loading,
            current_assignee: self.current_assignee@,
            query: self.search_query@,
            filtered: self.filtered_indices@,
            mode: self.input_mode,
        }
    }
}

/// Whether a user is listed for the query: every user for an empty query, else
/// those whose lower-cased display name contains the lower-cased query.
pub open spec fn user_matches(u: User, query: Seq<char>) -> bool {
    query.len() == 0 || seq_contains(lowercase(u.display_name@), lowercase(query))
}

/// The positions, in order, of the users listed for the query.
pub open spec fn matching_users(users: Seq<User>, query: Seq<char>) -> Seq<usize>
    decreases users.len(),
{
    if users.len() == 0 {
        Seq::empty()
    } else {
        let rest = matching_users(users.drop_last(), query);
        if user_matches(users.last(), query) {
            rest.push((users.len() - 1) as usize)
        } else {
            rest
        }
    }
}

/// The picker hidden, with the query cleared and navigation mode back.
pub open spec fn closed(s: AssigneeState) -> AssigneeState {
    AssigneeState { visible: false, loading: false, query: Seq::empty(), mode: InputMode::Normal, ..s }
}

/// The highlight moved one entry down, if not on the last entry.
pub open spec fn moved_down(s: AssigneeState) -> AssigneeState {
    if s.selected < s.filtered.len() {
        AssigneeState { selected: s.selected + 1, ..s }
    } else {
        s
    }
}

/// The highlight moved one entry up, if not on the first entry.
pub open spec fn moved_up(s: AssigneeState) -> AssigneeState {
    if s.selected > 0 {
        AssigneeState { selected: s.selected - 1, ..s }
    } else {
        s
    }
}

/// The picker with a new query: the list is recomputed and the highlight reset.
pub open spec fn requeried(s: AssigneeState, query: Seq<char>) -> AssigneeState {
    AssigneeState { query, filtered: matching_users(s.users, query), selected: 0, ..s }
}

/// What choosing the highlighted entry produces (the picker closes either way).
pub open spec fn chosen(s: AssigneeState) -> Option<AssigneeOutcome> {
    if s.selected == 0 {
        Some(AssigneeOutcome::Unassign)
    } else if s.selected - 1 < s.filtered.len() && (s.filtered[s.selected - 1] as int) < s.users.len() {
        let u = s.users[s.filtered[s.selected - 1] as int];
        Some(AssigneeOutcome::Select(u.account_id@, u.display_name@))
    } else {
        None
    }
}

/// The picker after a key press, with the action it produced.
pub open spec fn assignee_step(s: AssigneeState, key: KeyEvent) -> (AssigneeState, Option<AssigneeOutcome>) {
    if !s.visible {
        (s, None)
    } else if s.loading {
        if key.code == KeyCode::Esc {
            (closed(s), Some(AssigneeOutcome::Cancel))
        } else {
            (s, None)
        }
    } else if s.mode == InputMode::Normal {
        if is_down(key) {
            (moved_down(s), None)
        } else if is_up(key) {
            (moved_up(s), None)
        } else if pressed_char(key, '/') {
            (AssigneeState { mode: InputMode::Insert, ..s }, None)
        } else if pressed(key, KeyCode::Enter) || pressed_char(key, ' ') {
            (closed(s), chosen(s))
        } else if pressed(key, KeyCode::Esc) || pressed_char(key, 'q') {
            (closed(s), Some(AssigneeOutcome::Cancel))
        } else {
            (s, None)
        }
    } else {
        if pressed(key, KeyCode::Enter) || pressed(key, KeyCode::Esc) {
            (AssigneeState { mode: InputMode::Normal, ..s }, None)
        } else if key.code == KeyCode::Down {
            (moved_down(s), None)
        } else if key.code == KeyCode::Up {
            (moved_up(s), None)
        } else if pressed(key, KeyCode::Backspace) {
            if s.query.len() > 0 {
                (requeried(s, s.query.drop_last()), None)
            } else {
                (s, None)
            }
        } else if is_plain_char(key) && (alphabetic(key.code->Char_0) || spec_is_whitespace(
            key.code->Char_0,
        )) {
            (requeried(s, s.query.push(key.code->Char_0)), None)
        } else {
            (s, None)
        }
    }
}

/// The positions of the users listed for `query`.
fn filter_users(users: &Vec<User>, query: &str) -> (v: Vec<usize>)
    ensures
        v@ == matching_users(users@, query@),
{
    let mut v: Vec<usize> = Vec::new();
    let empty = query.unicode_len() == 0;
    let q = to_lowercase(query);
    let mut i: usize = 0;
    while i < users.len()
        invariant
            i <= users@.len(),
            empty == (query@.len() == 0),
            q@ == lowercase(query@),
            v@ == matching_users(users@.take(i as int), query@),
        decreases users.len() - i,
    {
        let keep = if empty {
            true
        } else {
            let name = to_lowercase(users[i].display_name.as_str());
            contains(name.as_str(), q.as_str())
        };
        if keep {
            v.push(i);
        }
        proof {
            assert(users@.take(i + 1).drop_last() =~= users@.take(i as int));
        }
        i += 1;
    }
    proof {
        assert(users@.take(users@.len() as int) =~= users@);
    }
    v
}

impl AssigneePicker {
    /// Create a hidden picker.
    pub fn new() -> (p: AssigneePicker)
        ensures
            p@.users.len() == 0,
            p@.selected == 0,
            !p@.visible,
            !p@.loading,
            p@.current_assignee.len() == 0,
            p@.query.len() == 0,
            p@.filtered.len() == 0,
            p@.mode == InputMode::Normal,
    {
        AssigneePicker {
            users: Vec::new(),
            selected: 0,
            visible: false,
            loading: false,
            current_assignee: String::new(),
            search_query: String::new(),
            filtered_indices: Vec::new(),
            input_mode: InputMode::Normal,
        }
    }

    /// Whether the picker is visible.
    pub fn is_visible(&self) -> (b: bool)
        ensures
            b == self.visible,
    {
        self.visible
    }

    /// Whether users are being loaded.
    pub fn is_loading(&self) -> (b: bool)
        ensures
            b == self.loading,
    {
        self.loading
    }

    /// Set the loading state.
    pub fn set_loading(&mut self, loading: bool)
        ensures
            final(self)@ == (AssigneeState { loading, ..old(self)@ }),
    {
        self.loading = loading;
    }

    /// Show the picker while users load: the list, query and highlight are cleared.
    pub fn show_loading(&mut self, current_assignee: &str)
        ensures
            final(self)@ == (AssigneeState {
                users: Seq::empty(),
                selected: 0,
                visible: true,
                loading: true,
                current_assignee: current_assignee@,
                query: Seq::empty(),
                filtered: Seq::empty(),
                ..old(self)@
            }),
    {
        self.current_assignee = copy_str(current_assignee);
        self.users = Vec::new();
        self.selected = 0;
        self.search_query = String::new();
        self.filtered_indices = Vec::new();
        self.loading = true;
        self.visible = true;
    }

    /// Show the picker with the given users, all of them listed, "Unassigned" highlighted.
    pub fn show(&mut self, users: Vec<User>, current_assignee: &str)
        ensures
            final(self)@ == (AssigneeState {
                users: users@,
                selected: 0,
                visible: true,
                loading: false,
                current_assignee: current_assignee@,
                query: Seq::empty(),
                filtered: matching_users(users@, Seq::empty()),
                ..old(self)@
            }),
    {
        self.current_assignee = copy_str(current_assignee);
        self.users = users;
        self.search_query = String::new();
        let all = filter_users(&self.users, "");
        proof {
            reveal_strlit("");
            assert(""@ =~= Seq::<char>::empty());
        }
        self.filtered_indices = all;
        self.selected = 0;
        self.loading = false;
        self.visible = true;
    }

    /// Close (hide) the picker, clearing the query and returning to navigation mode.
    pub fn close(&mut self)
        ensures
            final(self)@ == closed(old(self)@),
    {
        self.visible = false;
        self.loading = false;
        self.search_query = String::new();
        self.input_mode = InputMode::Normal;
    }

    /// The number of users.
    pub fn user_count(&self) -> (n: usize)
        ensures
            n == self.users@.len(),
    {
        self.users.len()
    }

    /// The number of entries: "Unassigned" and the listed users.
    pub fn selectable_count(&self) -> (n: usize)
        requires
            self.filtered_indices@.len() < usize::MAX,
        ensures
            n == 1 + self.filtered_indices@.len(),
    {
        1 + self.filtered_indices.len()
    }

    /// Recompute the listed users for the query; the selection goes back to the top.
    fn update_filtered_indices(&mut self)
        ensures
            final(self)@ == requeried(old(self)@, old(self)@.query),
    {
        self.filtered_indices = filter_users(&self.users, self.search_query.as_str());
        self.selected = 0;
    }

    fn move_down(&mut self)
        ensures
            final(self)@ == moved_down(old(self)@),
    {
        if self.selected < self.filtered_indices.len() {
            self.selected = self.selected + 1;
        }
    }

    fn move_up(&mut self)
        ensures
            final(self)@ == moved_up(old(self)@),
    {
        if self.selected > 0 {
            self.selected = self.selected - 1;
        }
    }

    /// Close the picker and report the highlighted entry.
    fn select_current(&mut self) -> (r: Option<AssigneeAction>)
        ensures
            final(self)@ == closed(old(self)@),
            assignee_outcome(r) == chosen(old(self)@),
    {
        self.close();
        if self.selected == 0 {
            Some(AssigneeAction::Unassign)
        } else {
            let fi = self.selected - 1;
            if fi < self.filtered_indices.len() {
                let ui = self.filtered_indices[fi];
                if ui < self.users.len() {
                    let u = &self.users[ui];
                    return Some(AssigneeAction::Select(u.account_id.clone(), u.display_name.clone()));
                }
            }
            None
        }
    }

    /// Handle a key press (see the module documentation); nothing happens while
    /// hidden, and only Esc while loading.
    pub fn handle_input(&mut self, key: KeyEvent) -> (r: Option<AssigneeAction>)
        ensures
            (final(self)@, assignee_outcome(r)) == assignee_step(old(self)@, key),
    {
        if !self.visible {
            return None;
        }
        if self.loading {
            if key.code == KeyCode::Esc {
                self.close();
                return Some(AssigneeAction::Cancel);
            }
            return None;
        }
        match self.input_mode {
            InputMode::Normal => self.handle_normal_input(key),
            InputMode::Insert => self.handle_insert_input(key),
        }
    }

    /// A key press while browsing the list.
    fn handle_normal_input(&mut self, key: KeyEvent) -> (r: Option<AssigneeAction>)
        requires
            old(self).visible,
            !old(self).loading,
            old(self).input_mode == InputMode::Normal,
        ensures
            (final(self)@, assignee_outcome(r)) == assignee_step(old(self)@, key),
    {
        if key_is_down(key) {
            self.move_down();
            None
        } else if key_is_up(key) {
            self.move_up();
            None
        } else {
            match (key.code, key.modifiers) {
                (KeyCode::Char('/'), KeyModifiers::NONE) => {
                    self.input_mode = InputMode::Insert;
                    None
                },
                (KeyCode::Enter, KeyModifiers::NONE) | (KeyCode::Char(' '), KeyModifiers::NONE) => {
                    self.select_current()
                },
                (KeyCode::Esc, KeyModifiers::NONE) | (KeyCode::Char('q'), KeyModifiers::NONE) => {
                    self.close();
                    Some(AssigneeAction::Cancel)
                },
                _ => None,
            }
        }
    }

    /// A key press while typing the filter.
    fn handle_insert_input(&mut self, key: KeyEvent) -> (r: Option<AssigneeAction>)
        requires
            old(self).visible,
            !old(self).loading,
            old(self).input_mode == InputMode::Insert,
        ensures
            (final(self)@, assignee_outcome(r)) == assignee_step(old(self)@, key),
    {
        match (key.code, key.modifiers) {
            (KeyCode::Enter, KeyModifiers::NONE) | (KeyCode::Esc, KeyModifiers::NONE) => {
                self.input_mode = InputMode::Normal;
                None
            },
            (KeyCode::Down, _) => {
                self.move_down();
                None
            },
            (KeyCode::Up, _) => {
                self.move_up();
                None
            },
            (KeyCode::Backspace, KeyModifiers::NONE) => {
                if self.search_query.unicode_len() > 0 {
                    pop_char(&mut self.search_query);
                    self.update_filtered_indices();
                }
                None
            },
            (KeyCode::Char(c), KeyModifiers::NONE) | (KeyCode::Char(c), KeyModifiers::SHIFT) => {
                if is_alphabetic(c) || is_whitespace(c) {
                    push_char(&mut self.search_query, c);
                    self.update_filtered_indices();
                }
                None
            },
            _ => None,
        }
    }
}

impl Default for AssigneePicker {
    fn default() -> (p: AssigneePicker)
        ensures
            p@.users.len() == 0,
            !p@.visible,
            !p@.loading,
            p@.mode == InputMode::Normal,
    {
        AssigneePicker::new()
    }
}


/// With an empty query every user is listed, in order.
pub proof fn law_empty_query_lists_all(users: Seq<User>)
    requires
        users.len() <= usize::MAX,
    ensures
        matching_users(users, Seq::empty()) == Seq::new(users.len(), |i: int| i as usize),
    decreases users.len(),
{
    if users.len() > 0 {
        law_empty_query_lists_all(users.drop_last());
        assert(matching_users(users, Seq::empty()) =~= Seq::new(users.len(), |i: int| i as usize));
    } else {
        assert(matching_users(users, Seq::empty()) =~= Seq::new(users.len(), |i: int| i as usize));
    }
}

} // verus!
