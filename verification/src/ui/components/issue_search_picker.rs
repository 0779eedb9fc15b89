//! Picker for the target issue of a new link.
//!
//! In normal mode j/k move through the suggestions, `/` starts typing a query,
//! Enter or Space selects and Esc or q cancels. In search mode characters edit
//! the query (clearing the old suggestions), Enter asks for a search and Esc goes
//! back to normal mode.
use vstd::prelude::*;
use vstd::utf8::{decode_utf8, encode_utf8, is_ascii_chars, is_char_boundary, valid_utf8};

use crate::api::types::IssueSuggestion;
use crate::events::key::{is_down, is_plain_char, is_up, key_is_down, key_is_up, pressed, pressed_char, KeyCode, KeyEvent, KeyModifiers};
use crate::text::{concat2, pop_char, push_char};
use crate::ui::components::input::InputMode;

verus! {

/// Action resulting from issue search picker input.
#[derive(Debug, Clone, PartialEq)]
pub enum IssueSearchPickerAction {
    /// An issue was selected (its key).
    Select(String),
    /// A search was asked for (the query); the caller answers with `set_suggestions`.
    Search(String),
    /// The picker was closed without selection.
    Cancel,
}

/// An action as data.
pub enum IssueSearchOutcome {
    /// An issue was selected (its key).
    Select(Seq<char>),
    /// A search was asked for (the query).
    Search(Seq<char>),
    /// The picker was closed without selection.
    Cancel,
}

/// The data of an action.
pub open spec fn search_outcome(a: Option<IssueSearchPickerAction>) -> Option<IssueSearchOutcome> {
    match a {
        None => None,
        Some(IssueSearchPickerAction::Select(k)) => Some(IssueSearchOutcome::Select(k@)),
        Some(IssueSearchPickerAction::Search(q)) => Some(IssueSearchOutcome::Search(q@)),
        Some(IssueSearchPickerAction::Cancel) => Some(IssueSearchOutcome::Cancel),
    }
}

/// The issue search picker.
#[derive(Debug)]
pub struct IssueSearchPicker {
    /// The search query.
    pub query: String,
    /// Suggestions from the last search.
    pub suggestions: Vec<IssueSuggestion>,
    /// Index of the highlighted suggestion.
    pub selected: usize,
    /// Whether the picker is visible.
    pub visible: bool,
    /// Whether suggestions are being loaded.
    pub loading: bool,
    /// Key of the issue being linked from, left out of the suggestions by the caller.
    pub current_issue_key: Option<String>,
    /// Navigation or search mode.
    pub input_mode: InputMode,
}

/// The picker as data.
pub struct IssueSearchState {
    /// The search query.
    pub query: Seq<char>,
    /// The suggestions.
    pub suggestions: Seq<IssueSuggestion>,
    /// Index of the highlighted suggestion.
    pub selected: int,
    /// Whether the picker is visible.
    pub visible: bool,
    /// Whether suggestions are being loaded.
    pub loading: bool,
    /// Key of the issue being linked from.
    pub current_issue_key: Option<Seq<char>>,
    /// Navigation or search mode.
    pub mode: InputMode,
}

/// An optional string as data.
pub open spec fn opt_view(o: Option<String>) -> Option<Seq<char>> {
    match o {
        Some(s) => Some(s@),
        None => None,
    }
}

impl View for IssueSearchPicker {
    type V = IssueSearchState;

    open spec fn view(&self) -> IssueSearchState {
        IssueSearchState {
            query: self.query@,
            suggestions: self.suggestions@,
            selected: self.selected as int,
            visible: self.visible,
            loading: self.loading,
            current_issue_key: opt_view(self.current_issue_key),
            mode: self.input_mode,
        }
    }
}

/// The picker hidden, back in navigation mode.
pub open spec fn search_closed(s: IssueSearchState) -> IssueSearchState {
    IssueSearchState { visible: false, loading: false, mode: InputMode::Normal, ..s }
}

/// The highlight moved one suggestion down, if not on the last one.
pub open spec fn search_down(s: IssueSearchState) -> IssueSearchState {
    if s.suggestions.len() > 0 && s.selected < s.suggestions.len() - 1 {
        IssueSearchState { selected: s.selected + 1, ..s }
    } else {
        s
    }
}

/// The highlight moved one suggestion up, if not on the first one.
pub open spec fn search_up(s: IssueSearchState) -> IssueSearchState {
    if s.selected > 0 {
        IssueSearchState { selected: s.selected - 1, ..s }
    } else {
        s
    }
}

/// The picker with an edited query: the old suggestions are dropped.
pub open spec fn search_edited(s: IssueSearchState, query: Seq<char>) -> IssueSearchState {
    IssueSearchState { query, suggestions: Seq::empty(), selected: 0, ..s }
}

/// The picker after a key press, with the action it produced.
pub open spec fn search_step(s: IssueSearchState, key: KeyEvent) -> (IssueSearchState, Option<IssueSearchOutcome>) {
    if !s.visible {
        (s, None)
    } else if s.loading {
        if key.code == KeyCode::Esc {
            (search_closed(s), Some(IssueSearchOutcome::Cancel))
        } else {
            (s, None)
        }
    } else if s.mode == InputMode::Normal {
        if is_down(key) {
            (search_down(s), None)
        } else if is_up(key) {
            (search_up(s), None)
        } else if pressed_char(key, '/') {
            (IssueSearchState { mode: InputMode::Insert, ..s }, None)
        } else if pressed(key, KeyCode::Enter) || pressed_char(key, ' ') {
            if s.selected < s.suggestions.len() {
                (search_closed(s), Some(IssueSearchOutcome::Select(s.suggestions[s.selected].key@)))
            } else {
                (IssueSearchState { mode: InputMode::Insert, ..s }, None)
            }
        } else if pressed(key, KeyCode::Esc) || pressed_char(key, 'q') {
            (search_closed(s), Some(IssueSearchOutcome::Cancel))
        } else {
            (s, None)
        }
    } else {
        if pressed(key, KeyCode::Enter) {
            if s.query.len() > 0 {
                (IssueSearchState { loading: true, ..s }, Some(IssueSearchOutcome::Search(s.query)))
            } else {
                (IssueSearchState { mode: InputMode::Normal, ..s }, None)
            }
        } else if pressed(key, KeyCode::Esc) {
            (IssueSearchState { mode: InputMode::Normal, ..s }, None)
        } else if key.code == KeyCode::Down {
            (search_down(s), None)
        } else if key.code == KeyCode::Up {
            (search_up(s), None)
        } else if pressed(key, KeyCode::Backspace) {
            if s.query.len() > 0 {
                (search_edited(s, s.query.drop_last()), None)
            } else {
                (s, None)
            }
        } else if is_plain_char(key) {
            (search_edited(s, s.query.push(key.code->Char_0)), None)
        } else {
            (s, None)
        }
    }
}

/// Where `truncate` cuts a string longer than `max_len` bytes: three bytes short
/// of the limit, to leave room for the ellipsis.
pub open spec fn cut_point(max_len: usize) -> int {
    if max_len >= 3 {
        max_len - 3
    } else {
        0
    }
}

/// A string of at most `max_len` bytes is kept; a longer one keeps the characters
/// of its first `cut_point(max_len)` bytes, followed by "...".
pub open spec fn truncated(s: Seq<char>, max_len: usize) -> Seq<char> {
    if encode_utf8(s).len() <= max_len {
        s
    } else {
        decode_utf8(encode_utf8(s).subrange(0, cut_point(max_len))) + "..."@
    }
}

/// `s` cut to `max_len` bytes as `truncated` says.
pub fn truncate(s: &str, max_len: usize) -> (r: String)
    requires
        encode_utf8(s@).len() > max_len ==> is_char_boundary(encode_utf8(s@), cut_point(max_len)),
    ensures
        r@ == truncated(s@, max_len),
{
    let n = s.as_bytes().len();
    if n <= max_len {
        String::from_str(s)
    } else {
        let cut: usize = if max_len >= 3 {
            max_len - 3
        } else {
            0
        };
        let (head, _rest) = s.split_at(cut);
        proof {
            vstd::utf8::encode_utf8_decode_utf8(head@);
            assert(encode_utf8(head@) =~= encode_utf8(s@).subrange(0, cut_point(max_len)));
        }
        concat2(head, "...")
    }
}

impl IssueSearchPicker {
    /// Create a hidden picker.
    pub fn new() -> (p: IssueSearchPicker)
        ensures
            p@ == (IssueSearchState {
                query: Seq::empty(),
                suggestions: Seq::empty(),
                selected: 0,
                visible: false,
                loading: false,
                current_issue_key: None,
                mode: InputMode::Normal,
            }),
    {
        IssueSearchPicker {
            query: String::new(),
            suggestions: Vec::new(),
            selected: 0,
            visible: false,
            loading: false,
            current_issue_key: None,
            input_mode: InputMode::Normal,
        }
    }

    /// Whether the picker is visible.
    pub fn is_visible(&self) -> (b: bool)
        ensures
            b == self.visible,
    {
        self.visible
    }

    /// Whether suggestions are being loaded.
    pub fn is_loading(&self) -> (b: bool)
        ensures
            b == self.loading,
    {
        self.loading
    }

    /// The search query.
    pub fn query(&self) -> (q: &str)
        ensures
            q@ == self.query@,
    {
        self.query.as_str()
    }

    /// Key of the issue being linked from.
    pub fn current_issue_key(&self) -> (k: Option<&str>)
        ensures
            k is Some <==> self.current_issue_key is Some,
            k is Some ==> k->0@ == self.current_issue_key->0@,
    {
        match &self.current_issue_key {
            Some(key) => Some(key.as_str()),
            None => None,
        }
    }

    /// Show the picker with an empty query and no suggestions.
    pub fn show(&mut self, current_issue_key: Option<String>)
        ensures
            final(self)@ == (IssueSearchState {
                query: Seq::empty(),
                suggestions: Seq::empty(),
                selected: 0,
                visible: true,
                loading: false,
                current_issue_key: opt_view(current_issue_key),
                mode: InputMode::Normal,
            }),
    {
        self.query = String::new();
        self.suggestions = Vec::new();
        self.selected = 0;
        self.loading = false;
        self.visible = true;
        self.current_issue_key = current_issue_key;
        self.input_mode = InputMode::Normal;
    }

    /// Show the picker while the first suggestions load.
    pub fn show_loading(&mut self, current_issue_key: Option<String>)
        ensures
            final(self)@ == (IssueSearchState {
                query: Seq::empty(),
                suggestions: Seq::empty(),
                selected: 0,
                visible: true,
                loading: true,
                current_issue_key: opt_view(current_issue_key),
                mode: InputMode::Normal,
            }),
    {
        self.query = String::new();
        self.suggestions = Vec::new();
        self.selected = 0;
        self.loading = true;
        self.visible = true;
        self.current_issue_key = current_issue_key;
        self.input_mode = InputMode::Normal;
    }

    /// Close (hide) the picker, back in navigation mode.
    pub fn close(&mut self)
        ensures
            final(self)@ == search_closed(old(self)@),
    {
        self.visible = false;
        self.loading = false;
        self.input_mode = InputMode::Normal;
    }

    /// Set the loading state.
    pub fn set_loading(&mut self, loading: bool)
        ensures
            final(self)@ == (IssueSearchState { loading, ..old(self)@ }),
    {
        self.loading = loading;
    }

    /// Take the suggestions of a finished search, back in navigation mode.
    pub fn set_suggestions(&mut self, suggestions: Vec<IssueSuggestion>)
        ensures
            final(self)@ == (IssueSearchState {
                suggestions: suggestions@,
                selected: 0,
                loading: false,
                mode: InputMode::Normal,
                ..old(self)@
            }),
    {
        self.suggestions = suggestions;
        self.selected = 0;
        self.loading = false;
        self.input_mode = InputMode::Normal;
    }

    /// The number of suggestions.
    pub fn suggestion_count(&self) -> (n: usize)
        ensures
            n == self.suggestions@.len(),
    {
        self.suggestions.len()
    }

    fn move_down(&mut self)
        ensures
            final(self)@ == search_down(old(self)@),
    {
        if self.suggestions.len() > 0 && self.selected < self.suggestions.len() - 1 {
            self.selected = self.selected + 1;
        }
    }

    fn move_up(&mut self)
        ensures
            final(self)@ == search_up(old(self)@),
    {
        if self.selected > 0 {
            self.selected = self.selected - 1;
        }
    }

    /// Handle a key press (see the module documentation); nothing happens while
    /// hidden, and only Esc while loading.
    pub fn handle_input(&mut self, key: KeyEvent) -> (r: Option<IssueSearchPickerAction>)
        ensures
            (final(self)@, search_outcome(r)) == search_step(old(self)@, key),
    {
        if !self.visible {
            return None;
        }
        if self.loading {
            if key.code == KeyCode::Esc {
                self.close();
                return Some(IssueSearchPickerAction::Cancel);
            }
            return None;
        }
        match self.input_mode {
            InputMode::Normal => self.handle_normal_input(key),
            InputMode::Insert => self.handle_insert_input(key),
        }
    }

    /// A key press while browsing the suggestions.
    fn handle_normal_input(&mut self, key: KeyEvent) -> (r: Option<IssueSearchPickerAction>)
        requires
            old(self).visible,
            !old(self).loading,
            old(self).input_mode == InputMode::Normal,
        ensures
            (final(self)@, search_outcome(r)) == search_step(old(self)@, key),
    {
        if key_is_down(key) {
            self.move_down();
            None
        } else if key_is_up(key) {
            self.move_up();
            None
        } else {
            match (key.code, key.modifiers) {
                (KeyCode::Char('/'), KeyModifiers::NONE) => {
                    self.input_mode = InputMode::Insert;
                    None
                },
                (KeyCode::Enter, KeyModifiers::NONE) | (KeyCode::Char(' '), KeyModifiers::NONE) => {
                    if self.selected < self.suggestions.len() {
                        let k = self.suggestions[self.selected].key.clone();
                        self.close();
                        Some(IssueSearchPickerAction::Select(k))
                    } else {
                        self.input_mode = InputMode::Insert;
                        None
                    }
                },
                (KeyCode::Esc, KeyModifiers::NONE) | (KeyCode::Char('q'), KeyModifiers::NONE) => {
                    self.close();
                    Some(IssueSearchPickerAction::Cancel)
                },
                _ => None,
            }
        }
    }

    /// A key press while typing the query.
    fn handle_insert_input(&mut self, key: KeyEvent) -> (r: Option<IssueSearchPickerAction>)
        requires
            old(self).visible,
            !old(self).loading,
            old(self).input_mode == InputMode::Insert,
        ensures
            (final(self)@, search_outcome(r)) == search_step(old(self)@, key),
    {
        match (key.code, key.modifiers) {
            (KeyCode::Enter, KeyModifiers::NONE) => {
                if self.query.unicode_len() > 0 {
                    self.loading = true;
                    Some(IssueSearchPickerAction::Search(self.query.clone()))
                } else {
                    self.input_mode = InputMode::Normal;
                    None
                }
            },
            (KeyCode::Esc, KeyModifiers::NONE) => {
                self.input_mode = InputMode::Normal;
                None
            },
            (KeyCode::Down, _) => {
                self.move_down();
                None
            },
            (KeyCode::Up, _) => {
                self.move_up();
                None
            },
            (KeyCode::Backspace, KeyModifiers::NONE) => {
                if self.query.unicode_len() > 0 {
                    pop_char(&mut self.query);
                    self.suggestions = Vec::new();
                    self.selected = 0;
                }
                None
            },
            (KeyCode::Char(c), KeyModifiers::NONE) | (KeyCode::Char(c), KeyModifiers::SHIFT) => {
                push_char(&mut self.query, c);
                self.suggestions = Vec::new();
                self.selected = 0;
                None
            },
            _ => None,
        }
    }
}

impl Default for IssueSearchPicker {
    fn default() -> (p: IssueSearchPicker)
        ensures
            !p@.visible,
            !p@.loading,
            p@.query.len() == 0,
            p@.suggestions.len() == 0,
    {
        IssueSearchPicker::new()
    }
}

/// The encoding of two character sequences one after the other is the two
/// encodings one after the other.
proof fn lemma_encode_concat(a: Seq<char>, b: Seq<char>)
    ensures
        encode_utf8(a + b) == encode_utf8(a) + encode_utf8(b),
    decreases a.len(),
{
    if a.len() > 0 {
        assert((a + b).drop_first() =~= a.drop_first() + b);
        lemma_encode_concat(a.drop_first(), b);
        assert(encode_utf8(a + b) =~= encode_utf8(a) + encode_utf8(b));
    } else {
        assert(a + b =~= b);
    }
}

/// A string cut short fits its limit: with room for the ellipsis (a limit of at
/// least 3 bytes), the result is at most `max_len` bytes long.
pub proof fn law_truncate_fits(s: Seq<char>, max_len: usize)
    requires
        max_len >= 3,
        encode_utf8(s).len() > max_len ==> is_char_boundary(encode_utf8(s), cut_point(max_len)),
    ensures
        encode_utf8(truncated(s, max_len)).len() <= max_len,
{
    if encode_utf8(s).len() > max_len {
        let bytes = encode_utf8(s);
        let head = bytes.subrange(0, cut_point(max_len));
        vstd::utf8::encode_utf8_valid_utf8(s);
        vstd::utf8::valid_utf8_split(bytes, cut_point(max_len));
        assert(valid_utf8(head));
        vstd::utf8::decode_utf8_encode_utf8(head);
        reveal_strlit("...");
        assert(is_ascii_chars("..."@));
        vstd::utf8::is_ascii_chars_encode_utf8("..."@);
        lemma_encode_concat(decode_utf8(head), "..."@);
    }
}

} // verus!
