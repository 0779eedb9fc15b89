//! Single-line text input: character insertion and deletion, cursor movement,
//! word and line deletion, and masking for secrets.
//!
//! The cursor is a position between characters, counted in characters from the
//! start of the value.
use vstd::prelude::*;
use vstd::utf8::encode_utf8;

use crate::events::key::{is_plain_char, pressed, KeyCode, KeyEvent, KeyModifiers};
use crate::text::{alphanumeric, is_alphanumeric, push_char, to_chars};

verus! {

/// Whether a component is navigating (keys such as j/k act as shortcuts) or
/// editing text (character keys go to the focused input).
#[derive(Debug, Clone, Copy, PartialEq, Eq, Structural)]
pub enum InputMode {
    /// Navigation mode: j/k/q and other keys work as shortcuts.
    Normal,
    /// Editing mode: all character keys go to text input.
    Insert,
}

impl Default for InputMode {
    /// Components start in navigation mode.
    fn default() -> (m: InputMode)
        ensures
            m == InputMode::Normal,
    {
        InputMode::Normal
    }
}

/// A text input widget.
#[derive(Debug, Clone)]
pub struct TextInput {
    /// The current value.
    pub value: String,
    /// Cursor position within the value, in characters.
    pub cursor: usize,
    /// Whether the value is shown masked (for passwords and tokens).
    pub masked: bool,
    /// Text shown when the value is empty.
    pub placeholder: String,
}

/// The press of character `c` with Control held.
pub open spec fn ctrl(key: KeyEvent, c: char) -> bool {
    key.code == KeyCode::Char(c) && key.modifiers == KeyModifiers::CONTROL
}

/// Where the word that ends at position `c` starts: one past the last character
/// before `c` that is not alphanumeric, or 0 if there is none.
pub open spec fn word_start(v: Seq<char>, c: int) -> int
    decreases c,
{
    if c <= 0 {
        0
    } else if !alphanumeric(v[c - 1]) {
        c
    } else {
        word_start(v, c - 1)
    }
}

/// The effect of a key on a value `v` with cursor `c`: the new value, the new
/// cursor, and whether the value changed.
pub open spec fn edit(v: Seq<char>, c: int, key: KeyEvent) -> (Seq<char>, int, bool) {
    if is_plain_char(key) {
        (v.insert(c, key.code->Char_0), c + 1, true)
    } else if key.code == KeyCode::Backspace {
        if c > 0 {
            (v.remove(c - 1), c - 1, true)
        } else {
            (v, c, false)
        }
    } else if key.code == KeyCode::Delete {
        if c < v.len() {
            (v.remove(c), c, true)
        } else {
            (v, c, false)
        }
    } else if pressed(key, KeyCode::Left) {
        (v, if c > 0 { c - 1 } else { c }, false)
    } else if pressed(key, KeyCode::Right) {
        (v, if c < v.len() { c + 1 } else { c }, false)
    } else if key.code == KeyCode::Home || ctrl(key, 'a') {
        (v, 0, false)
    } else if key.code == KeyCode::End || ctrl(key, 'e') {
        (v, v.len() as int, false)
    } else if ctrl(key, 'u') {
        if v.len() > 0 {
            (Seq::empty(), 0, true)
        } else {
            (v, c, false)
        }
    } else if ctrl(key, 'w') {
        if c > 0 {
            (
                v.subrange(0, word_start(v, c)) + v.subrange(c, v.len() as int),
                word_start(v, c),
                word_start(v, c) < c,
            )
        } else {
            (v, c, false)
        }
    } else {
        (v, c, false)
    }
}

proof fn lemma_word_start_bounds(v: Seq<char>, c: int)
    requires
        0 <= c <= v.len(),
    ensures
        0 <= word_start(v, c) <= c,
    decreases c,
{
    if c > 0 && alphanumeric(v[c - 1]) {
        lemma_word_start_bounds(v, c - 1);
    }
}

/// The string `s` with `c` inserted at character position `at`.
fn insert_at(s: &str, at: usize, c: char) -> (r: String)
    requires
        at <= s@.len(),
    ensures
        r@ == s@.insert(at as int, c),
{
    let n = s.unicode_len();
    let mut r = String::from_str(s.substring_char(0, at));
    push_char(&mut r, c);
    r.append(s.substring_char(at, n));
    assert(r@ =~= s@.insert(at as int, c));
    r
}

/// The string `s` without the characters at positions `from` up to `to`.
fn remove_range(s: &str, from: usize, to: usize) -> (r: String)
    requires
        from <= to <= s@.len(),
    ensures
        r@ == s@.subrange(0, from as int) + s@.subrange(to as int, s@.len() as int),
{
    let n = s.unicode_len();
    let mut r = String::from_str(s.substring_char(0, from));
    r.append(s.substring_char(to, n));
    r
}

impl TextInput {
    /// The cursor stands within the value.
    pub open spec fn wf(&self) -> bool {
        self.cursor <= self.value@.len()
    }

    /// Create a new empty input.
    pub fn new() -> (t: TextInput)
        ensures
            t.wf(),
            t.value@.len() == 0,
            t.cursor == 0,
            !t.masked,
            t.placeholder@.len() == 0,
    {
        TextInput { value: String::new(), cursor: 0, masked: false, placeholder: String::new() }
    }

    /// Create a new masked input (for passwords and tokens).
    pub fn masked() -> (t: TextInput)
        ensures
            t.wf(),
            t.value@.len() == 0,
            t.cursor == 0,
            t.masked,
            t.placeholder@.len() == 0,
    {
        TextInput { value: String::new(), cursor: 0, masked: true, placeholder: String::new() }
    }

    /// Create a new input with an initial value and the cursor at its end.
    pub fn with_value(value: &str) -> (t: TextInput)
        ensures
            t.wf(),
            t.value@ == value@,
            t.cursor == value@.len(),
            !t.masked,
            t.placeholder@.len() == 0,
    {
        let cursor = value.unicode_len();
        TextInput { value: String::from_str(value), cursor, masked: false, placeholder: String::new() }
    }

    /// Set whether the input is masked.
    pub fn set_masked(&mut self, masked: bool)
        ensures
            *final(self) == (TextInput { masked, ..*old(self) }),
    {
        self.masked = masked;
    }

    /// Set the placeholder text.
    pub fn set_placeholder(&mut self, placeholder: &str)
        ensures
            final(self).placeholder@ == placeholder@,
            final(self).value == old(self).value,
            final(self).cursor == old(self).cursor,
            final(self).masked == old(self).masked,
    {
        self.placeholder = String::from_str(placeholder);
    }

    /// Get the current value.
    pub fn value(&self) -> (s: &str)
        ensures
            s@ == self.value@,
    {
        self.value.as_str()
    }

    /// Set the value and move the cursor to its end.
    pub fn set_value(&mut self, value: &str)
        ensures
            final(self).wf(),
            final(self).value@ == value@,
            final(self).cursor == value@.len(),
            final(self).masked == old(self).masked,
            final(self).placeholder == old(self).placeholder,
    {
        self.value = String::from_str(value);
        self.cursor = value.unicode_len();
    }

    /// Clear the input.
    pub fn clear(&mut self)
        ensures
            final(self).wf(),
            final(self).value@.len() == 0,
            final(self).cursor == 0,
            final(self).masked == old(self).masked,
            final(self).placeholder == old(self).placeholder,
    {
        self.value = String::new();
        self.cursor = 0;
    }

    /// Check if the input is empty.
    pub fn is_empty(&self) -> (b: bool)
        ensures
            b == (self.value@.len() == 0),
    {
        self.value.as_str().is_empty()
    }

    /// Get the cursor position as a byte offset into the value (the number of
    /// bytes of the characters before the cursor).
    pub fn cursor(&self) -> (c: usize)
        requires
            self.wf(),
        ensures
            c == encode_utf8(self.value@.take(self.cursor as int)).len() as usize,
    {
        let before = self.value.as_str().substring_char(0, self.cursor);
        proof {
            assert(self.value@.subrange(0, self.cursor as int) =~= self.value@.take(self.cursor as int));
        }
        before.len()
    }

    /// The text to show: the value, or as many bullets as the value has bytes when masked.
    pub fn display_value(&self) -> (s: String)
        ensures
            !self.masked ==> s@ == self.value@,
            self.masked ==> s@ == Seq::new(encode_utf8(self.value@).len() as usize as nat, |i: int| '•'),
    {
        if self.masked {
            let n = self.value.as_str().len();
            let mut s = String::new();
            let mut i: usize = 0;
            while i < n
                invariant
                    i <= n,
                    s@ == Seq::new(i as nat, |j: int| '•'),
                decreases n - i,
            {
                push_char(&mut s, '•');
                i += 1;
                assert(s@ =~= Seq::new(i as nat, |j: int| '•'));
            }
            s
        } else {
            self.value.clone()
        }
    }

    /// Insert a character at the cursor and move the cursor past it.
    fn insert_char(&mut self, c: char)
        requires
            old(self).wf(),
        ensures
            final(self).wf(),
            final(self).value@ == old(self).value@.insert(old(self).cursor as int, c),
            final(self).cursor == old(self).cursor + 1,
            final(self).masked == old(self).masked,
            final(self).placeholder == old(self).placeholder,
    {
        self.value = insert_at(self.value.as_str(), self.cursor, c);
        let new_len = self.value.as_str().unicode_len();
        assert(new_len == old(self).value@.len() + 1);
        self.cursor = self.cursor + 1;
    }

    /// Handle a key press; returns whether the value changed.
    pub fn handle_input(&mut self, key: KeyEvent) -> (modified: bool)
        requires
            old(self).wf(),
        ensures
            final(self).wf(),
            (final(self).value@, final(self).cursor as int, modified) == edit(
                old(self).value@,
                old(self).cursor as int,
                key,
            ),
            final(self).masked == old(self).masked,
            final(self).placeholder == old(self).placeholder,
    {
        let len = self.value.as_str().unicode_len();
        match (key.code, key.modifiers) {
            (KeyCode::Char(c), KeyModifiers::NONE) | (KeyCode::Char(c), KeyModifiers::SHIFT) => {
                self.insert_char(c);
                true
            },
            (KeyCode::Backspace, _) => {
                if self.cursor > 0 {
                    self.cursor = self.cursor - 1;
                    self.value = remove_range(self.value.as_str(), self.cursor, self.cursor + 1);
                    true
                } else {
                    false
                }
            },
            (KeyCode::Delete, _) => {
                if self.cursor < len {
                    self.value = remove_range(self.value.as_str(), self.cursor, self.cursor + 1);
                    true
                } else {
                    false
                }
            },
            (KeyCode::Left, KeyModifiers::NONE) => {
                if self.cursor > 0 {
                    self.cursor = self.cursor - 1;
                }
                false
            },
            (KeyCode::Right, KeyModifiers::NONE) => {
                if self.cursor < len {
                    self.cursor = self.cursor + 1;
                }
                false
            },
            (KeyCode::Home, _) => {
                self.cursor = 0;
                false
            },
            (KeyCode::End, _) => {
                self.cursor = len;
                false
            },
            (KeyCode::Char('a'), KeyModifiers::CONTROL) => {
                self.cursor = 0;
                false
            },
            (KeyCode::Char('e'), KeyModifiers::CONTROL) => {
                self.cursor = len;
                false
            },
            (KeyCode::Char('u'), KeyModifiers::CONTROL) => {
                if len > 0 {
                    self.value = String::new();
                    self.cursor = 0;
                    true
                } else {
                    false
                }
            },
            (KeyCode::Char('w'), KeyModifiers::CONTROL) => {
                if self.cursor > 0 {
                    let chars = to_chars(self.value.as_str());
                    let mut start = self.cursor;
                    while start > 0 && is_alphanumeric(chars[start - 1])
                        invariant
                            chars@ == self.value@,
                            start <= self.cursor <= chars@.len(),
                            word_start(chars@, start as int) == word_start(
                                chars@,
                                self.cursor as int,
                            ),
                        decreases start,
                    {
                        start = start - 1;
                    }
                    let modified = start < self.cursor;
                    self.value = remove_range(self.value.as_str(), start, self.cursor);
                    self.cursor = start;
                    modified
                } else {
                    false
                }
            },
            _ => false,
        }
    }
}

impl Default for TextInput {
    /// An empty, unmasked input.
    fn default() -> (t: TextInput)
        ensures
            t.wf(),
            t.value@.len() == 0,
            t.cursor == 0,
            !t.masked,
            t.placeholder@.len() == 0,
    {
        TextInput::new()
    }
}


/// Typing a character and deleting it with Backspace gives back the value and
/// the cursor.
pub proof fn law_type_then_backspace(v: Seq<char>, c: int, ch: char, m: KeyModifiers)
    requires
        0 <= c <= v.len(),
        m == KeyModifiers::NONE || m == KeyModifiers::SHIFT,
    ensures
        ({
            let typed = edit(v, c, KeyEvent { code: KeyCode::Char(ch), modifiers: m });
            let back = edit(typed.0, typed.1, KeyEvent { code: KeyCode::Backspace, modifiers: KeyModifiers::NONE });
            back.0 == v && back.1 == c
        }),
{
    assert(v.insert(c, ch).remove(c) =~= v);
}

} // verus!
