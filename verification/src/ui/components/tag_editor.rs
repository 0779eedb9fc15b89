//! Editor for an issue's labels or components.
//!
//! It shows the issue's current tags and the available ones, narrowed by a
//! search query. Tab (or Shift+Tab) switches between the two sections, j/k move,
//! Enter or Space removes the highlighted current tag or adds the highlighted
//! available one (unless the issue has it already), Esc or q close. While the
//! available section has the focus, letters, digits, '-', '_' and spaces edit the
//! query and Backspace deletes from it.
use vstd::prelude::*;

use crate::events::key::{is_down, is_plain_char, is_up, key_is_down, key_is_up, pressed, pressed_char, KeyCode, KeyEvent, KeyModifiers};
use crate::history::string_views;
use crate::text::{alphanumeric, contains, copy_str, is_alphanumeric, is_whitespace, lowercase, pop_char, push_char, seq_contains, spec_is_whitespace, str_eq, to_lowercase};

verus! {

/// Action resulting from tag editor input.
#[derive(Debug, Clone, PartialEq)]
pub enum TagAction {
    /// A tag was added (its name).
    Add(String),
    /// A tag was removed (its name).
    Remove(String),
    /// The editor was closed.
    Cancel,
}

/// An action as data.
pub enum TagOutcome {
    /// A tag was added.
    Add(Seq<char>),
    /// A tag was removed.
    Remove(Seq<char>),
    /// The editor was closed.
    Cancel,
}

/// The data of an action.
pub open spec fn tag_outcome(a: Option<TagAction>) -> Option<TagOutcome> {
    match a {
        None => None,
        Some(TagAction::Add(t)) => Some(TagOutcome::Add(t@)),
        Some(TagAction::Remove(t)) => Some(TagOutcome::Remove(t@)),
        Some(TagAction::Cancel) => Some(TagOutcome::Cancel),
    }
}

/// The colour of the tag chips.
#[derive(Debug, Clone, Copy, PartialEq, Eq, Structural)]
pub enum TagColor {
    /// Blue, for labels.
    Blue,
    /// Magenta, for components.
    Magenta,
}

/// How the editor looks.
#[derive(Debug, Clone)]
pub struct TagEditorConfig {
    /// Title of the dialog.
    pub title: String,
    /// Colour of the chips.
    pub tag_color: TagColor,
    /// Heading of the current tags.
    pub current_label: String,
    /// Heading of the available tags.
    pub available_label: String,
}

impl TagEditorConfig {
    /// The editor of labels.
    pub fn labels() -> (c: TagEditorConfig)
        ensures
            c.title@ == " Edit Labels "@,
            c.tag_color == TagColor::Blue,
            c.current_label@ == "Current Labels"@,
            c.available_label@ == "Available Labels"@,
    {
        TagEditorConfig {
            title: copy_str(" Edit Labels "),
            tag_color: TagColor::Blue,
            current_label: copy_str("Current Labels"),
            available_label: copy_str("Available Labels"),
        }
    }

    /// The editor of components.
    pub fn components() -> (c: TagEditorConfig)
        ensures
            c.title@ == " Edit Components "@,
            c.tag_color == TagColor::Magenta,
            c.current_label@ == "Current Components"@,
            c.available_label@ == "Available Components"@,
    {
        TagEditorConfig {
            title: copy_str(" Edit Components "),
            tag_color: TagColor::Magenta,
            current_label: copy_str("Current Components"),
            available_label: copy_str("Available Components"),
        }
    }
}

/// The tag editor.
#[derive(Debug)]
pub struct TagEditor {
    /// How the editor looks.
    pub config: TagEditorConfig,
    /// The issue's tags.
    pub current_tags: Vec<String>,
    /// The tags that can be added.
    pub available_tags: Vec<String>,
    /// Whether the current tags have the focus (else the available ones).
    pub focus_on_current: bool,
    /// Index of the highlighted entry of the focused section.
    pub selected: usize,
    /// Whether the editor is visible.
    pub visible: bool,
    /// Whether the available tags are being loaded.
    pub loading: bool,
    /// The search query.
    pub search_query: String,
    /// Positions in `available_tags` of the listed tags.
    pub filtered_indices: Vec<usize>,
}

/// The editor as data.
pub struct TagEditorState {
    /// How the editor looks.
    pub config: TagEditorConfig,
    /// The issue's tags.
    pub current: Seq<Seq<char>>,
    /// The tags that can be added.
    pub available: Seq<Seq<char>>,
    /// Whether the current tags have the focus.
    pub focus_on_current: bool,
    /// Index of the highlighted entry.
    pub selected: int,
    /// Whether the editor is visible.
    pub visible: bool,
    /// Whether the available tags are being loaded.
    pub loading: bool,
    /// The search query.
    pub query: Seq<char>,
    /// Positions of the listed tags.
    pub filtered: Seq<usize>,
}

impl View for TagEditor {
    type V = TagEditorState;

    open spec fn view(&self) -> TagEditorState {
        TagEditorState {
            config: self.config,
            current: string_views(self.current_tags@),
            available: string_views(self.available_tags@),
            focus_on_current: self.focus_on_current,
            selected: self.selected as int,
            visible: self.visible,
            loading: self.loading,
            query: self.search_query@,
            filtered: self.filtered_indices@,
        }
    }
}

/// Whether a tag is listed for the query: every tag for an empty query, else those
/// whose lower-cased name contains the lower-cased query.
pub open spec fn tag_matches(tag: Seq<char>, query: Seq<char>) -> bool {
    query.len() == 0 || seq_contains(lowercase(tag), lowercase(query))
}

/// The positions, in order, of the tags listed for the query.
pub open spec fn matching_tags(tags: Seq<Seq<char>>, query: Seq<char>) -> Seq<usize>
    decreases tags.len(),
{
    if tags.len() == 0 {
        Seq::empty()
    } else {
        let rest = matching_tags(tags.drop_last(), query);
        if tag_matches(tags.last(), query) {
            rest.push((tags.len() - 1) as usize)
        } else {
            rest
        }
    }
}

/// The characters that may be typed into the query.
pub open spec fn query_char(c: char) -> bool {
    alphanumeric(c) || c == '-' || c == '_' || spec_is_whitespace(c)
}

/// The number of entries of the focused section.
pub open spec fn focused_count(s: TagEditorState) -> int {
    if s.focus_on_current {
        s.current.len() as int
    } else {
        s.filtered.len() as int
    }
}

/// The editor hidden, with the query cleared.
pub open spec fn tags_closed(s: TagEditorState) -> TagEditorState {
    TagEditorState { visible: false, loading: false, query: Seq::empty(), ..s }
}

/// The editor with a new query: the list is recomputed and the highlight reset.
pub open spec fn tags_requeried(s: TagEditorState, query: Seq<char>) -> TagEditorState {
    TagEditorState { query, filtered: matching_tags(s.available, query), selected: 0, ..s }
}

/// The effect of Enter or Space: remove the highlighted current tag (keeping the
/// highlight on an entry), or add the highlighted available tag when the issue
/// does not have it.
pub open spec fn tags_choose(s: TagEditorState) -> (TagEditorState, Option<TagOutcome>) {
    if s.focus_on_current {
        if s.selected < s.current.len() {
            let t = s.current[s.selected];
            let rest = s.current.remove(s.selected);
            let sel = if s.selected >= rest.len() && s.selected > 0 {
                s.selected - 1
            } else {
                s.selected
            };
            (TagEditorState { current: rest, selected: sel, ..s }, Some(TagOutcome::Remove(t)))
        } else {
            (s, None)
        }
    } else if s.selected < s.filtered.len() && (s.filtered[s.selected] as int) < s.available.len() {
        let t = s.available[s.filtered[s.selected] as int];
        if !s.current.contains(t) {
            (TagEditorState { current: s.current.push(t), ..s }, Some(TagOutcome::Add(t)))
        } else {
            (s, None)
        }
    } else {
        (s, None)
    }
}

/// The editor after a key press, with the action it produced.
pub open spec fn tags_step(s: TagEditorState, key: KeyEvent) -> (TagEditorState, Option<TagOutcome>) {
    if !s.visible {
        (s, None)
    } else if s.loading {
        if key.code == KeyCode::Esc {
            (tags_closed(s), Some(TagOutcome::Cancel))
        } else {
            (s, None)
        }
    } else if is_down(key) {
        (if focused_count(s) > 0 && s.selected < focused_count(s) - 1 {
            TagEditorState { selected: s.selected + 1, ..s }
        } else {
            s
        }, None)
    } else if is_up(key) {
        (if s.selected > 0 {
            TagEditorState { selected: s.selected - 1, ..s }
        } else {
            s
        }, None)
    } else if pressed(key, KeyCode::Tab) || key == (KeyEvent { code: KeyCode::BackTab, modifiers: KeyModifiers::SHIFT }) {
        (TagEditorState { focus_on_current: !s.focus_on_current, selected: 0, ..s }, None)
    } else if pressed(key, KeyCode::Enter) || pressed_char(key, ' ') {
        tags_choose(s)
    } else if pressed(key, KeyCode::Esc) || pressed_char(key, 'q') {
        (tags_closed(s), Some(TagOutcome::Cancel))
    } else if pressed(key, KeyCode::Backspace) {
        if s.query.len() > 0 && !s.focus_on_current {
            (tags_requeried(s, s.query.drop_last()), None)
        } else {
            (s, None)
        }
    } else if is_plain_char(key) && !s.focus_on_current && query_char(key.code->Char_0) {
        (tags_requeried(s, s.query.push(key.code->Char_0)), None)
    } else {
        (s, None)
    }
}

/// The positions of the tags listed for `query`.
fn filter_tags(tags: &Vec<String>, query: &str) -> (v: Vec<usize>)
    ensures
        v@ == matching_tags(string_views(tags@), query@),
{
    let ghost names = string_views(tags@);
    let mut v: Vec<usize> = Vec::new();
    let empty = query.unicode_len() == 0;
    let q = to_lowercase(query);
    let mut i: usize = 0;
    while i < tags.len()
        invariant
            i <= tags@.len(),
            names == string_views(tags@),
            empty == (query@.len() == 0),
            q@ == lowercase(query@),
            v@ == matching_tags(names.take(i as int), query@),
        decreases tags.len() - i,
    {
        let keep = if empty {
            true
        } else {
            let name = to_lowercase(tags[i].as_str());
            contains(name.as_str(), q.as_str())
        };
        if keep {
            v.push(i);
        }
        proof {
            assert(names.take(i + 1).drop_last() =~= names.take(i as int));
            assert(names[i as int] == tags@[i as int]@);
        }
        i += 1;
    }
    proof {
        assert(names.take(names.len() as int) =~= names);
    }
    v
}

/// Whether `t` is one of the strings of `v`.
fn has_string(v: &Vec<String>, t: &str) -> (b: bool)
    ensures
        b == string_views(v@).contains(t@),
{
    let mut i: usize = 0;
    while i < v.len()
        invariant
            i <= v@.len(),
            forall|k: int| 0 <= k < i ==> v@[k]@ != t@,
        decreases v.len() - i,
    {
        if str_eq(v[i].as_str(), t) {
            proof {
                assert(string_views(v@)[i as int] == t@);
            }
            return true;
        }
        i += 1;
    }
    proof {
        assert forall|k: int| 0 <= k < string_views(v@).len() implies string_views(v@)[k] != t@ by {
            assert(string_views(v@)[k] == v@[k]@);
        }
    }
    false
}

impl TagEditor {
    /// A hidden editor with the given looks and no tags.
    pub fn new(config: TagEditorConfig) -> (e: TagEditor)
        ensures
            e@ == (TagEditorState {
                config,
                current: Seq::empty(),
                available: Seq::empty(),
                focus_on_current: false,
                selected: 0,
                visible: false,
                loading: false,
                query: Seq::empty(),
                filtered: Seq::empty(),
            }),
    {
        let e = TagEditor {
            config,
            current_tags: Vec::new(),
            available_tags: Vec::new(),
            focus_on_current: false,
            selected: 0,
            visible: false,
            loading: false,
            search_query: String::new(),
            filtered_indices: Vec::new(),
        };
        proof {
            assert(e@.current =~= Seq::empty());
            assert(e@.available =~= Seq::empty());
        }
        e
    }

    /// A hidden editor of labels.
    pub fn for_labels() -> (e: TagEditor)
        ensures
            e@.config.tag_color == TagColor::Blue,
            e@.config.title@ == " Edit Labels "@,
            !e@.visible,
            !e@.loading,
            e@.current.len() == 0,
            e@.available.len() == 0,
    {
        Self::new(TagEditorConfig::labels())
    }

    /// A hidden editor of components.
    pub fn for_components() -> (e: TagEditor)
        ensures
            e@.config.tag_color == TagColor::Magenta,
            e@.config.title@ == " Edit Components "@,
            !e@.visible,
            !e@.loading,
            e@.current.len() == 0,
            e@.available.len() == 0,
    {
        Self::new(TagEditorConfig::components())
    }

    /// Whether the editor is visible.
    pub fn is_visible(&self) -> (b: bool)
        ensures
            b == self.visible,
    {
        self.visible
    }

    /// Whether the available tags are being loaded.
    pub fn is_loading(&self) -> (b: bool)
        ensures
            b == self.loading,
    {
        self.loading
    }

    /// Show the editor while the available tags load.
    pub fn show_loading(&mut self, current_tags: Vec<String>)
        ensures
            final(self)@ == (TagEditorState {
                current: string_views(current_tags@),
                available: Seq::empty(),
                focus_on_current: false,
                selected: 0,
                query: Seq::empty(),
                filtered: Seq::empty(),
                loading: true,
                visible: true,
                ..old(self)@
            }),
    {
        self.current_tags = current_tags;
        self.available_tags = Vec::new();
        self.focus_on_current = false;
        self.selected = 0;
        self.search_query = String::new();
        self.filtered_indices = Vec::new();
        self.loading = true;
        self.visible = true;
        proof {
            assert(self@.available =~= Seq::empty());
        }
    }

    /// Show the editor with the available tags, all listed, the available section
    /// focused.
    pub fn show(&mut self, current_tags: Vec<String>, available_tags: Vec<String>)
        ensures
            final(self)@ == (TagEditorState {
                current: string_views(current_tags@),
                available: string_views(available_tags@),
                focus_on_current: false,
                selected: 0,
                query: Seq::empty(),
                filtered: matching_tags(string_views(available_tags@), Seq::empty()),
                loading: false,
                visible: true,
                ..old(self)@
            }),
    {
        self.current_tags = current_tags;
        self.available_tags = available_tags;
        self.focus_on_current = false;
        self.search_query = String::new();
        let all = filter_tags(&self.available_tags, "");
        proof {
            reveal_strlit("");
            assert(""@ =~= Seq::<char>::empty());
        }
        self.filtered_indices = all;
        self.selected = 0;
        self.loading = false;
        self.visible = true;
    }

    /// Close (hide) the editor, clearing the query.
    pub fn close(&mut self)
        ensures
            final(self)@ == tags_closed(old(self)@),
    {
        self.visible = false;
        self.loading = false;
        self.search_query = String::new();
    }

    fn requery(&mut self)
        ensures
            final(self)@ == tags_requeried(old(self)@, old(self)@.query),
    {
        self.filtered_indices = filter_tags(&self.available_tags, self.search_query.as_str());
        self.selected = 0;
    }

    fn focused_len(&self) -> (n: usize)
        ensures
            n == focused_count(self@),
    {
        if self.focus_on_current {
            self.current_tags.len()
        } else {
            self.filtered_indices.len()
        }
    }

    fn choose_highlighted(&mut self) -> (r: Option<TagAction>)
        ensures
            (final(self)@, tag_outcome(r)) == tags_choose(old(self)@),
    {
        if self.focus_on_current {
            if self.selected < self.current_tags.len() {
                let tag = self.current_tags[self.selected].clone();
                let ghost before = string_views(self.current_tags@);
                self.current_tags.remove(self.selected);
                proof {
                    assert(string_views(self.current_tags@) =~= before.remove(self.selected as int));
                }
                if self.selected >= self.current_tags.len() && self.selected > 0 {
                    self.selected = self.selected - 1;
                }
                return Some(TagAction::Remove(tag));
            }
            None
        } else {
            if self.selected < self.filtered_indices.len() {
                let idx = self.filtered_indices[self.selected];
                if idx < self.available_tags.len() {
                    let tag = self.available_tags[idx].clone();
                    if !has_string(&self.current_tags, tag.as_str()) {
                        let ghost before = string_views(self.current_tags@);
                        self.current_tags.push(tag.clone());
                        proof {
                            assert(string_views(self.current_tags@) =~= before.push(tag@));
                        }
                        return Some(TagAction::Add(tag));
                    }
                }
            }
            None
        }
    }

    /// Handle a key press (see the module documentation); nothing happens while
    /// hidden, and only Esc while loading.
    pub fn handle_input(&mut self, key: KeyEvent) -> (r: Option<TagAction>)
        ensures
            (final(self)@, tag_outcome(r)) == tags_step(old(self)@, key),
    {
        if !self.visible {
            return None;
        }
        if self.loading {
            if key.code == KeyCode::Esc {
                self.close();
                return Some(TagAction::Cancel);
            }
            return None;
        }
        if key_is_down(key) {
            let n = self.focused_len();
            if n > 0 && self.selected < n - 1 {
                self.selected = self.selected + 1;
            }
            return None;
        }
        if key_is_up(key) {
            if self.selected > 0 {
                self.selected = self.selected - 1;
            }
            return None;
        }
        match (key.code, key.modifiers) {
            (KeyCode::Tab, KeyModifiers::NONE) | (KeyCode::BackTab, KeyModifiers::SHIFT) => {
                self.focus_on_current = !self.focus_on_current;
                self.selected = 0;
                None
            },
            (KeyCode::Enter, KeyModifiers::NONE) | (KeyCode::Char(' '), KeyModifiers::NONE) => {
                self.choose_highlighted()
            },
            (KeyCode::Esc, KeyModifiers::NONE) | (KeyCode::Char('q'), KeyModifiers::NONE) => {
                self.close();
                Some(TagAction::Cancel)
            },
            (KeyCode::Backspace, KeyModifiers::NONE) => {
                if self.search_query.unicode_len() > 0 && !self.focus_on_current {
                    pop_char(&mut self.search_query);
                    self.requery();
                }
                None
            },
            (KeyCode::Char(c), KeyModifiers::NONE) | (KeyCode::Char(c), KeyModifiers::SHIFT) => {
                if !self.focus_on_current && (is_alphanumeric(c) || c == '-' || c == '_' || is_whitespace(c)) {
                    push_char(&mut self.search_query, c);
                    self.requery();
                }
                None
            },
            _ => None,
        }
    }
}


/// With an empty query every available tag is listed, in order.
pub proof fn law_empty_query_lists_all_tags(tags: Seq<Seq<char>>)
    requires
        tags.len() <= usize::MAX,
    ensures
        matching_tags(tags, Seq::empty()) == Seq::new(tags.len(), |i: int| i as usize),
    decreases tags.len(),
{
    if tags.len() > 0 {
        law_empty_query_lists_all_tags(tags.drop_last());
        assert(matching_tags(tags, Seq::empty()) =~= Seq::new(tags.len(), |i: int| i as usize));
    } else {
        assert(matching_tags(tags, Seq::empty()) =~= Seq::new(tags.len(), |i: int| i as usize));
    }
}

} // verus!
