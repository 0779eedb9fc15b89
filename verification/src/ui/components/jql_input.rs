//! Input for JQL (JIRA Query Language) queries: a text line with a history of
//! recent queries browsed with the arrow keys, a hint for the clause being typed,
//! and an error line.
use vstd::prelude::*;

use super::input::{edit, TextInput};
use crate::events::key::{pressed, KeyCode, KeyEvent, KeyModifiers};
use crate::history::{remember, remember_in_queue, string_views};
use std::collections::VecDeque;
use crate::text::{copy_str, ends_with, lowercase, seq_ends_with, spec_trim, spec_trim_end, to_lowercase, trim, trim_end};

verus! {

broadcast use vstd::std_specs::vecdeque::group_vec_dequeue_axioms;

/// Action resulting from JQL input.
#[derive(Debug, Clone, PartialEq, Eq)]
pub enum JqlAction {
    /// Run the query.
    Execute(String),
    /// Cancel input.
    Cancel,
}

/// An action as data: `None` for a cancel, the query for an execution.
pub open spec fn jql_action_view(a: Option<JqlAction>) -> Option<Option<Seq<char>>> {
    match a {
        None => None,
        Some(JqlAction::Cancel) => Some(None),
        Some(JqlAction::Execute(q)) => Some(Some(q@)),
    }
}

/// The clause prefixes for which a hint is shown, with their hints, in the order tried.
pub open spec fn jql_hints() -> Seq<(Seq<char>, Seq<char>)> {
    seq![
        ("project = "@, "Filter by project key"@),
        ("status = "@, "Filter by status name"@),
        ("assignee = "@, "Filter by assignee (use currentUser() for self)"@),
        ("reporter = "@, "Filter by reporter"@),
        ("priority = "@, "Filter by priority"@),
        ("labels = "@, "Filter by label"@),
        ("sprint = "@, "Filter by sprint"@),
        ("created >= "@, "Filter by creation date"@),
        ("updated >= "@, "Filter by update date"@),
        ("ORDER BY "@, "Sort results"@),
    ]
}

/// Whether the hint at position `i` applies to `input`: the input, lower-cased and
/// without trailing white space, ends with the hint's prefix, trimmed and lower-cased.
pub open spec fn hint_applies(input: Seq<char>, i: int) -> bool {
    seq_ends_with(spec_trim_end(lowercase(input)), lowercase(spec_trim(jql_hints()[i].0)))
}

/// The hint for what is being typed: the first hint that applies.
pub open spec fn hint_for(input: Seq<char>) -> Option<Seq<char>> {
    if exists|i: int| 0 <= i < jql_hints().len() && hint_applies(input, i) {
        let i = choose|i: int|
            0 <= i < jql_hints().len() && hint_applies(input, i) && forall|j: int|
                0 <= j < i ==> !hint_applies(input, j);
        Some(jql_hints()[i].1)
    } else {
        None
    }
}

fn hint_entry(i: usize) -> (r: (&'static str, &'static str))
    requires
        i < 10,
    ensures
        (r.0@, r.1@) == jql_hints()[i as int],
{
    if i == 0 {
        ("project = ", "Filter by project key")
    } else if i == 1 {
        ("status = ", "Filter by status name")
    } else if i == 2 {
        ("assignee = ", "Filter by assignee (use currentUser() for self)")
    } else if i == 3 {
        ("reporter = ", "Filter by reporter")
    } else if i == 4 {
        ("priority = ", "Filter by priority")
    } else if i == 5 {
        ("labels = ", "Filter by label")
    } else if i == 6 {
        ("sprint = ", "Filter by sprint")
    } else if i == 7 {
        ("created >= ", "Filter by creation date")
    } else if i == 8 {
        ("updated >= ", "Filter by update date")
    } else {
        ("ORDER BY ", "Sort results")
    }
}

/// The hint for the clause at the end of the input, if any.
pub fn get_hint_for_input(input: &str) -> (r: Option<&'static str>)
    ensures
        match r {
            Some(h) => hint_for(input@) == Some(h@),
            None => hint_for(input@) is None,
        },
{
    let lower = to_lowercase(input);
    let trimmed = trim_end(lower.as_str());
    let mut i: usize = 0;
    while i < 10
        invariant
            i <= 10,
            jql_hints().len() == 10,
            trimmed@ == spec_trim_end(lowercase(input@)),
            forall|j: int| 0 <= j < i ==> !hint_applies(input@, j),
        decreases 10 - i,
    {
        let (prefix, hint) = hint_entry(i);
        let p = trim(prefix);
        let pl = to_lowercase(p.as_str());
        if ends_with(trimmed.as_str(), pl.as_str()) {
            assert(hint_applies(input@, i as int));
            return Some(hint);
        }
        i += 1;
    }
    None
}

/// The JQL query input.
pub struct JqlInput {
    /// The text being typed.
    pub input: TextInput,
    /// Query history, most recent first.
    pub history: VecDeque<String>,
    /// The history entry shown, if browsing the history.
    pub history_index: Option<usize>,
    /// The text typed before browsing the history.
    pub pre_history_text: String,
    /// Whether the input is visible.
    pub visible: bool,
    /// Error message to show, if any.
    pub error: Option<String>,
}

impl JqlInput {
    /// Maximum number of queries kept in the history.
    pub const MAX_HISTORY: usize = 10;

    /// The text input is well formed.
    pub open spec fn wf(&self) -> bool {
        self.input.wf()
    }

    /// Create a hidden input with no history.
    pub fn new() -> (j: JqlInput)
        ensures
            j.wf(),
            j.input.value@.len() == 0,
            j.input.cursor == 0,
            !j.input.masked,
            j.input.placeholder@.len() == 0,
            j.history@.len() == 0,
            j.history_index is None,
            j.pre_history_text@.len() == 0,
            !j.visible,
            j.error is None,
    {
        JqlInput {
            input: TextInput::new(),
            history: VecDeque::new(),
            history_index: None,
            pre_history_text: String::new(),
            visible: false,
            error: None,
        }
    }

    /// Create a hidden input with the given history (its first 10 entries).
    pub fn with_history(history: Vec<String>) -> (j: JqlInput)
        ensures
            j.wf(),
            j.input.value@.len() == 0,
            string_views(j.history@) == string_views(history@).take(
                if history@.len() < 10 { history@.len() as int } else { 10 },
            ),
            j.history_index is None,
            !j.visible,
            j.error is None,
    {
        let mut j = JqlInput::new();
        j.set_history(history);
        j
    }

    /// Replace the history with the first 10 entries of `history`.
    pub fn set_history(&mut self, history: Vec<String>)
        ensures
            string_views(final(self).history@) == string_views(history@).take(
                if history@.len() < 10 { history@.len() as int } else { 10 },
            ),
            final(self).input == old(self).input,
            final(self).history_index == old(self).history_index,
            final(self).pre_history_text == old(self).pre_history_text,
            final(self).visible == old(self).visible,
            final(self).error == old(self).error,
    {
        let ghost full = string_views(history@);
        let n = if history.len() > Self::MAX_HISTORY {
            Self::MAX_HISTORY
        } else {
            history.len()
        };
        let mut h: VecDeque<String> = VecDeque::new();
        let mut i: usize = 0;
        while i < n
            invariant
                n <= history@.len(),
                n == (if full.len() < 10 { full.len() as int } else { 10 }),
                full == string_views(history@),
                i <= n,
                string_views(h@) == full.take(i as int),
            decreases n - i,
        {
            let ghost prev = string_views(h@);
            h.push_back(history[i].clone());
            assert(string_views(h@) =~= prev.push(history@[i as int]@));
            assert(full.take(i + 1) =~= full.take(i as int).push(history@[i as int]@));
            i += 1;
        }
        self.history = h;
    }

    /// A copy of the history, most recent first.
    pub fn history(&self) -> (h: Vec<String>)
        ensures
            string_views(h@) == string_views(self.history@),
    {
        let mut out: Vec<String> = Vec::new();
        let mut i: usize = 0;
        while i < self.history.len()
            invariant
                i <= self.history@.len(),
                string_views(out@) == string_views(self.history@).take(i as int),
            decreases self.history.len() - i,
        {
            let ghost prev = string_views(out@);
            out.push(self.history[i].clone());
            assert(string_views(out@) =~= prev.push(self.history@[i as int]@));
            assert(string_views(self.history@).take(i + 1) =~= string_views(self.history@).take(
                i as int,
            ).push(self.history@[i as int]@));
            i += 1;
        }
        assert(string_views(self.history@).take(i as int) =~= string_views(self.history@));
        out
    }

    /// Show the input, empty, outside the history and without error.
    pub fn show(&mut self)
        ensures
            final(self).wf(),
            final(self).visible,
            final(self).input.value@.len() == 0,
            final(self).input.cursor == 0,
            final(self).history_index is None,
            final(self).pre_history_text@.len() == 0,
            final(self).error is None,
            final(self).history == old(self).history,
    {
        self.visible = true;
        self.input.clear();
        self.history_index = None;
        self.pre_history_text = String::new();
        self.error = None;
    }

    /// Close (hide) the input and clear the error.
    pub fn close(&mut self)
        ensures
            *final(self) == (JqlInput { visible: false, error: None, ..*old(self) }),
    {
        self.visible = false;
        self.error = None;
    }

    /// Whether the input is visible.
    pub fn is_visible(&self) -> (b: bool)
        ensures
            b == self.visible,
    {
        self.visible
    }

    /// Set the error message.
    pub fn set_error(&mut self, error: &str)
        ensures
            final(self).error matches Some(e) && e@ == error@,
            final(self).input == old(self).input,
            final(self).history == old(self).history,
            final(self).history_index == old(self).history_index,
            final(self).pre_history_text == old(self).pre_history_text,
            final(self).visible == old(self).visible,
    {
        self.error = Some(copy_str(error));
    }

    /// Clear the error message.
    pub fn clear_error(&mut self)
        ensures
            *final(self) == (JqlInput { error: None, ..*old(self) }),
    {
        self.error = None;
    }

    /// The query typed so far.
    pub fn value(&self) -> (s: &str)
        ensures
            s@ == self.input.value@,
    {
        self.input.value()
    }

    /// Add a query to the front of the history (moving it there if present),
    /// keeping the 10 most recent.
    pub fn add_to_history(&mut self, query: String)
        ensures
            string_views(final(self).history@) == remember(string_views(old(self).history@), query@, 10),
            final(self).input == old(self).input,
            final(self).history_index == old(self).history_index,
            final(self).pre_history_text == old(self).pre_history_text,
            final(self).visible == old(self).visible,
            final(self).error == old(self).error,
    {
        let updated = remember_in_queue(&self.history, query.as_str(), Self::MAX_HISTORY);
        self.history = updated;
    }

    /// Show an older history entry (the most recent first, remembering the typed text).
    fn history_prev(&mut self)
        requires
            old(self).wf(),
        ensures
            final(self).wf(),
            final(self).history == old(self).history,
            final(self).visible == old(self).visible,
            final(self).error == old(self).error,
            final(self).input.masked == old(self).input.masked,
            final(self).input.placeholder == old(self).input.placeholder,
            history_prev_step(*old(self), *final(self)),
    {
        if self.history.len() == 0 {
            return;
        }
        match self.history_index {
            None => {
                self.pre_history_text = self.input.value.clone();
                self.history_index = Some(0);
                let q = self.history[0].clone();
                self.input.set_value(q.as_str());
            },
            Some(idx) => {
                if idx < self.history.len() - 1 {
                    self.history_index = Some(idx + 1);
                    let q = self.history[idx + 1].clone();
                    self.input.set_value(q.as_str());
                }
            },
        }
    }

    /// Show a more recent history entry, or the typed text after the most recent.
    fn history_next(&mut self)
        requires
            old(self).wf(),
        ensures
            final(self).wf(),
            final(self).history == old(self).history,
            final(self).visible == old(self).visible,
            final(self).error == old(self).error,
            final(self).pre_history_text == old(self).pre_history_text,
            final(self).input.masked == old(self).input.masked,
            final(self).input.placeholder == old(self).input.placeholder,
            history_next_step(*old(self), *final(self)),
    {
        match self.history_index {
            None => {},
            Some(idx) => {
                if idx == 0 {
                    self.history_index = None;
                    let t = self.pre_history_text.clone();
                    self.input.set_value(t.as_str());
                } else {
                    self.history_index = Some(idx - 1);
                    if idx - 1 < self.history.len() {
                        let q = self.history[idx - 1].clone();
                        self.input.set_value(q.as_str());
                    }
                }
            },
        }
    }

    /// Handle a key press (see `jql_input_handled`).
    pub fn handle_input(&mut self, key: KeyEvent) -> (r: Option<JqlAction>)
        requires
            old(self).wf(),
        ensures
            final(self).wf(),
            jql_input_handled(*old(self), key, *final(self), r),
    {
        self.error = None;
        match (key.code, key.modifiers) {
            (KeyCode::Enter, KeyModifiers::NONE) => {
                let query = trim(self.input.value());
                if !query.as_str().is_empty() {
                    self.add_to_history(query.clone());
                    self.close();
                    return Some(JqlAction::Execute(query));
                }
                None
            },
            (KeyCode::Esc, KeyModifiers::NONE) => {
                self.close();
                Some(JqlAction::Cancel)
            },
            (KeyCode::Up, KeyModifiers::NONE) => {
                self.history_prev();
                None
            },
            (KeyCode::Down, KeyModifiers::NONE) => {
                self.history_next();
                None
            },
            _ => {
                let modified = self.input.handle_input(key);
                if modified {
                    self.history_index = None;
                }
                None
            },
        }
    }
}

/// The outcome of a key press on the JQL input `o`, giving `f` and the action
/// `r`. Any key clears the error. Enter runs the trimmed query, if not empty
/// (adding it to the history and closing); Esc cancels and closes; the up and
/// down arrows browse the history; other keys edit the text, and an edit leaves
/// the history.
pub open spec fn jql_input_handled(o: JqlInput, key: KeyEvent, f: JqlInput, r: Option<JqlAction>) -> bool {
    &&& (f.error is None)
    &&& (pressed(key, KeyCode::Enter) ==> {
        let q = spec_trim(o.input.value@);
        if q.len() > 0 {
            &&& jql_action_view(r) == Some(Some(q))
            &&& string_views(f.history@) == remember(string_views(o.history@), q, 10)
            &&& !f.visible
            &&& f.input == o.input
            &&& f.history_index == o.history_index
        } else {
            &&& r is None
            &&& f == (JqlInput { error: None, ..o })
        }
    })
    &&& (pressed(key, KeyCode::Esc) ==> jql_action_view(r) == Some(None::<Seq<char>>) && f
        == (JqlInput { visible: false, error: None, ..o }))
    &&& (pressed(key, KeyCode::Up) ==> r is None && f.history == o.history
        && f.visible == o.visible && history_prev_step(o, f))
    &&& (pressed(key, KeyCode::Down) ==> r is None && f.history == o.history
        && f.visible == o.visible
        && f.pre_history_text == o.pre_history_text
        && history_next_step(o, f))
    &&& (!pressed(key, KeyCode::Enter) && !pressed(key, KeyCode::Esc) && !pressed(key, KeyCode::Up)
        && !pressed(key, KeyCode::Down) ==> {
        let (v, c, modified) = edit(o.input.value@, o.input.cursor as int, key);
        &&& r is None
        &&& f.input.value@ == v
        &&& f.input.cursor == c
        &&& f.history_index == (if modified { None } else { o.history_index })
        &&& f.history == o.history
        &&& f.pre_history_text == o.pre_history_text
        &&& f.visible == o.visible
    })
}

/// What the up arrow does to the history browsing: enter the history at the most
/// recent entry (remembering the typed text), or step to an older entry if there
/// is one; with an empty history nothing changes.
pub open spec fn history_prev_step(o: JqlInput, f: JqlInput) -> bool {
    let h = string_views(o.history@);
    if h.len() == 0 {
        f.input == o.input && f.history_index == o.history_index && f.pre_history_text == o.pre_history_text
    } else {
        match o.history_index {
            None => {
                &&& f.history_index == Some(0usize)
                &&& f.pre_history_text@ == o.input.value@
                &&& f.input.value@ == h[0]
                &&& f.input.cursor == h[0].len()
            },
            Some(i) => if i + 1 < h.len() {
                &&& f.history_index == Some((i + 1) as usize)
                &&& f.pre_history_text == o.pre_history_text
                &&& f.input.value@ == h[i + 1]
                &&& f.input.cursor == h[i + 1].len()
            } else {
                f.input == o.input && f.history_index == o.history_index && f.pre_history_text == o.pre_history_text
            },
        }
    }
}

/// What the down arrow does to the history browsing: leave the history for the
/// typed text from the most recent entry, or step to a more recent entry.
pub open spec fn history_next_step(o: JqlInput, f: JqlInput) -> bool {
    let h = string_views(o.history@);
    match o.history_index {
        None => f.input == o.input && f.history_index == o.history_index,
        Some(i) => if i == 0 {
            &&& f.history_index is None
            &&& f.input.value@ == o.pre_history_text@
            &&& f.input.cursor == o.pre_history_text@.len()
        } else if i - 1 < h.len() {
            &&& f.history_index == Some((i - 1) as usize)
            &&& f.input.value@ == h[i - 1]
            &&& f.input.cursor == h[i - 1].len()
        } else {
            f.history_index == Some((i - 1) as usize) && f.input == o.input
        },
    }
}

/// Up then down from outside the history gives back the text that was typed.
pub proof fn law_history_round_trip(o: JqlInput, m: JqlInput, f: JqlInput)
    requires
        o.history@.len() > 0,
        o.history_index is None,
        history_prev_step(o, m),
        m.history == o.history,
        history_next_step(m, f),
    ensures
        f.input.value@ == o.input.value@,
        f.history_index is None,
{
}

} // verus!
