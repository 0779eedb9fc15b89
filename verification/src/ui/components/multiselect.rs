//! A list with check boxes, for choosing several filter options.
//!
//! j/k or the arrows move the cursor, Home and End jump to the ends, Space
//! checks or unchecks the item under the cursor and Ctrl+a checks every item.
//! The checked items are kept as a set of ids.
use vstd::prelude::*;

use crate::events::key::{is_down, is_up, key_is_down, key_is_up, pressed_char, KeyCode, KeyEvent, KeyModifiers};
use crate::history::string_views;
use crate::text::{copy_str, str_eq};
use crate::ui::components::input::ctrl;

verus! {

/// An item of the list.
#[derive(Debug, Clone)]
pub struct SelectItem {
    /// The item's id.
    pub id: String,
    /// The text shown.
    pub label: String,
}

impl SelectItem {
    /// An item with the given id and label.
    pub fn new(id: &str, label: &str) -> (item: SelectItem)
        ensures
            item.id@ == id@,
            item.label@ == label@,
    {
        SelectItem { id: copy_str(id), label: copy_str(label) }
    }
}

/// The multi-select list.
#[derive(Debug)]
pub struct MultiSelect {
    /// The items.
    pub items: Vec<SelectItem>,
    /// The ids of the checked items, each once.
    pub selected: Vec<String>,
    /// Index of the item under the cursor.
    pub cursor: usize,
    /// Index of the first item shown.
    pub scroll: usize,
    /// The title of the list.
    pub title: String,
}

/// The set of ids in a list of strings.
pub open spec fn id_set(v: Seq<String>) -> Set<Seq<char>> {
    string_views(v).to_set()
}

/// The ids of the items, in order.
pub open spec fn item_ids(items: Seq<SelectItem>) -> Seq<Seq<char>> {
    items.map_values(|i: SelectItem| i.id@)
}

/// The set with `id` removed if it holds it, added otherwise.
pub open spec fn toggled(set: Set<Seq<char>>, id: Seq<char>) -> Set<Seq<char>> {
    if set.contains(id) {
        set.remove(id)
    } else {
        set.insert(id)
    }
}

impl MultiSelect {
    /// The checked ids are listed once each.
    pub open spec fn wf(&self) -> bool {
        string_views(self.selected@).no_duplicates()
    }

    /// The set of checked ids.
    pub open spec fn checked(&self) -> Set<Seq<char>> {
        id_set(self.selected@)
    }
}

/// Where `id` stands in `v`, if it does.
fn position_of(v: &Vec<String>, id: &str) -> (r: Option<usize>)
    ensures
        r is None ==> !string_views(v@).contains(id@),
        r matches Some(i) ==> i < v@.len() && v@[i as int]@ == id@,
{
    let mut i: usize = 0;
    while i < v.len()
        invariant
            i <= v@.len(),
            forall|k: int| 0 <= k < i ==> v@[k]@ != id@,
        decreases v.len() - i,
    {
        if str_eq(v[i].as_str(), id) {
            return Some(i);
        }
        i += 1;
    }
    proof {
        assert forall|k: int| 0 <= k < string_views(v@).len() implies string_views(v@)[k] != id@ by {
            assert(string_views(v@)[k] == v@[k]@);
        }
    }
    None
}

/// Removing the entry at `i` from a list without duplicates removes that entry
/// from its set.
proof fn lemma_remove_from_set(s: Seq<Seq<char>>, i: int)
    requires
        s.no_duplicates(),
        0 <= i < s.len(),
    ensures
        s.remove(i).to_set() == s.to_set().remove(s[i]),
        s.remove(i).no_duplicates(),
{
    let r = s.remove(i);
    assert forall|x: Seq<char>| r.to_set().contains(x) <==> s.to_set().remove(s[i]).contains(x) by {
        if r.to_set().contains(x) {
            let j = choose|j: int| 0 <= j < r.len() && r[j] == x;
            if j < i {
                assert(s[j] == x);
            } else {
                assert(s[j + 1] == x);
            }
        }
        if s.to_set().remove(s[i]).contains(x) {
            let j = choose|j: int| 0 <= j < s.len() && s[j] == x;
            assert(j != i);
            if j < i {
                assert(r[j] == x);
            } else {
                assert(r[j - 1] == x);
            }
        }
    }
    assert(r.to_set() =~= s.to_set().remove(s[i]));
    assert forall|a: int, b: int| 0 <= a < r.len() && 0 <= b < r.len() && a != b implies r[a] != r[b] by {
        let sa = if a < i { a } else { a + 1 };
        let sb = if b < i { b } else { b + 1 };
        assert(r[a] == s[sa]);
        assert(r[b] == s[sb]);
    }
}

/// Adding an entry not in a list adds it to its set, without making duplicates.
proof fn lemma_push_to_set(s: Seq<Seq<char>>, x: Seq<char>)
    requires
        s.no_duplicates(),
        !s.contains(x),
    ensures
        s.push(x).to_set() == s.to_set().insert(x),
        s.push(x).no_duplicates(),
{
    s.lemma_push_to_set_commute(x);
    let p = s.push(x);
    assert forall|a: int, b: int| 0 <= a < p.len() && 0 <= b < p.len() && a != b implies p[a] != p[b] by {
        if a < s.len() && b < s.len() {
            assert(p[a] == s[a] && p[b] == s[b]);
        } else if a < s.len() {
            assert(s.contains(s[a]));
        } else {
            assert(s.contains(s[b]));
        }
    }
}

/// The cursor one item down, unless on the last.
pub open spec fn cursor_down(m: MultiSelect) -> usize {
    if m.items@.len() > 0 && m.cursor < m.items@.len() - 1 {
        (m.cursor + 1) as usize
    } else {
        m.cursor
    }
}

/// The cursor one item up, unless on the first.
pub open spec fn cursor_up(m: MultiSelect) -> usize {
    if m.cursor > 0 {
        (m.cursor - 1) as usize
    } else {
        m.cursor
    }
}

/// The cursor on the last item (unchanged for an empty list).
pub open spec fn cursor_end(m: MultiSelect) -> usize {
    if m.items@.len() > 0 {
        (m.items@.len() - 1) as usize
    } else {
        m.cursor
    }
}

impl MultiSelect {
    /// An empty list with a title, nothing checked.
    pub fn new(title: &str) -> (m: MultiSelect)
        ensures
            m.wf(),
            m.items@.len() == 0,
            m.selected@.len() == 0,
            m.cursor == 0,
            m.scroll == 0,
            m.title@ == title@,
    {
        MultiSelect {
            items: Vec::new(),
            selected: Vec::new(),
            cursor: 0,
            scroll: 0,
            title: copy_str(title),
        }
    }

    /// Replace the items; the cursor goes back to the first.
    pub fn set_items(&mut self, items: Vec<SelectItem>)
        ensures
            *final(self) == (MultiSelect { items, cursor: 0, scroll: 0, ..*old(self) }),
    {
        self.items = items;
        self.cursor = 0;
        self.scroll = 0;
    }

    /// Replace the checked ids by those listed (each kept once).
    pub fn set_selected(&mut self, selected: Vec<String>)
        ensures
            final(self).wf(),
            final(self).checked() == id_set(selected@),
            final(self).items == old(self).items,
            final(self).cursor == old(self).cursor,
            final(self).scroll == old(self).scroll,
            final(self).title == old(self).title,
    {
        let mut kept: Vec<String> = Vec::new();
        let mut i: usize = 0;
        while i < selected.len()
            invariant
                i <= selected@.len(),
                string_views(kept@).no_duplicates(),
                id_set(kept@) == id_set(selected@.take(i as int)),
            decreases selected.len() - i,
        {
            let ghost before = string_views(kept@);
            proof {
                assert(string_views(selected@.take(i + 1)) =~= string_views(selected@.take(i as int)).push(
                    selected@[i as int]@,
                ));
                string_views(selected@.take(i as int)).lemma_push_to_set_commute(selected@[i as int]@);
                assert(string_views(selected@.take(i + 1)).to_set() =~= string_views(selected@.take(i as int)).to_set().insert(
                    selected@[i as int]@,
                ));
            }
            match position_of(&kept, selected[i].as_str()) {
                Some(k) => {
                    proof {
                        assert(before[k as int] == selected@[i as int]@);
                        assert(before.contains(selected@[i as int]@));
                        assert(before.to_set().contains(selected@[i as int]@));
                        assert(before.to_set().insert(selected@[i as int]@) =~= before.to_set());
                    }
                },
                None => {
                    kept.push(selected[i].clone());
                    proof {
                        assert(string_views(kept@) =~= before.push(selected@[i as int]@));
                        lemma_push_to_set(before, selected@[i as int]@);
                    }
                },
            }
            i += 1;
        }
        proof {
            assert(selected@.take(selected@.len() as int) =~= selected@);
        }
        self.selected = kept;
    }

    /// The checked ids.
    pub fn selected(&self) -> (v: &Vec<String>)
        ensures
            v@ == self.selected@,
    {
        &self.selected
    }

    /// A copy of the checked ids.
    pub fn selected_ids(&self) -> (v: Vec<String>)
        ensures
            v@ == self.selected@,
    {
        let mut out: Vec<String> = Vec::new();
        let mut i: usize = 0;
        while i < self.selected.len()
            invariant
                i <= self.selected@.len(),
                out@ == self.selected@.take(i as int),
            decreases self.selected.len() - i,
        {
            out.push(self.selected[i].clone());
            proof {
                assert(out@ =~= self.selected@.take(i + 1));
            }
            i += 1;
        }
        proof {
            assert(self.selected@.take(self.selected@.len() as int) =~= self.selected@);
        }
        out
    }

    /// Whether an id is checked.
    pub fn is_selected(&self, id: &str) -> (b: bool)
        ensures
            b == self.checked().contains(id@),
    {
        match position_of(&self.selected, id) {
            Some(i) => {
                proof {
                    assert(string_views(self.selected@)[i as int] == id@);
                }
                true
            },
            None => false,
        }
    }

    /// Check the item under the cursor if it is unchecked, uncheck it otherwise;
    /// nothing happens when the list is empty.
    pub fn toggle_current(&mut self)
        requires
            old(self).wf(),
        ensures
            final(self).wf(),
            final(self).items == old(self).items,
            final(self).cursor == old(self).cursor,
            final(self).scroll == old(self).scroll,
            final(self).title == old(self).title,
            old(self).cursor >= old(self).items@.len() ==> final(self).checked() == old(self).checked(),
            old(self).cursor < old(self).items@.len() ==> {
                let id = old(self).items@[old(self).cursor as int].id@;
                final(self).checked() == toggled(old(self).checked(), id)
            },
    {
        if self.cursor < self.items.len() {
            let id = self.items[self.cursor].id.clone();
            let ghost before = string_views(self.selected@);
            match position_of(&self.selected, id.as_str()) {
                Some(i) => {
                    self.selected.remove(i);
                    proof {
                        assert(before[i as int] == id@);
                        lemma_remove_from_set(before, i as int);
                        assert(string_views(self.selected@) =~= before.remove(i as int));
                        assert(before.to_set().contains(id@));
                    }
                },
                None => {
                    self.selected.push(id);
                    proof {
                        lemma_push_to_set(before, id@);
                        assert(string_views(self.selected@) =~= before.push(id@));
                    }
                },
            }
        }
    }

    /// Check every item.
    pub fn select_all(&mut self)
        requires
            old(self).wf(),
        ensures
            final(self).wf(),
            final(self).checked() == old(self).checked() + item_ids(old(self).items@).to_set(),
            final(self).items == old(self).items,
            final(self).cursor == old(self).cursor,
            final(self).scroll == old(self).scroll,
            final(self).title == old(self).title,
    {
        let ghost start = self.checked();
        let mut i: usize = 0;
        while i < self.items.len()
            invariant
                i <= self.items@.len(),
                self.wf(),
                self.items == old(self).items,
                self.cursor == old(self).cursor,
                self.scroll == old(self).scroll,
                self.title == old(self).title,
                self.checked() == start + item_ids(self.items@.take(i as int)).to_set(),
            decreases self.items.len() - i,
        {
            let ghost before = string_views(self.selected@);
            let ghost before_set = self.checked();
            proof {
                assert(item_ids(self.items@.take(i + 1)) =~= item_ids(self.items@.take(i as int)).push(
                    self.items@[i as int].id@,
                ));
                item_ids(self.items@.take(i as int)).lemma_push_to_set_commute(self.items@[i as int].id@);
            }
            match position_of(&self.selected, self.items[i].id.as_str()) {
                Some(k) => {
                    proof {
                        assert(before[k as int] == self.items@[i as int].id@);
                        assert(before.contains(self.items@[i as int].id@));
                        assert(before.to_set().contains(self.items@[i as int].id@));
                    }
                },
                None => {
                    let id = self.items[i].id.clone();
                    self.selected.push(id);
                    proof {
                        lemma_push_to_set(before, id@);
                        assert(string_views(self.selected@) =~= before.push(id@));
                    }
                },
            }
            proof {
                let x = self.items@[i as int].id@;
                assert(item_ids(self.items@.take(i + 1)).to_set() =~= item_ids(self.items@.take(i as int)).to_set().insert(x));
                assert(self.checked() =~= start + item_ids(self.items@.take(i + 1)).to_set());
            }
            i += 1;
        }
        proof {
            assert(self.items@.take(self.items@.len() as int) =~= self.items@);
        }
    }

    /// Uncheck every item.
    pub fn clear_selection(&mut self)
        ensures
            final(self).wf(),
            final(self).selected@.len() == 0,
            final(self).items == old(self).items,
            final(self).cursor == old(self).cursor,
            final(self).scroll == old(self).scroll,
            final(self).title == old(self).title,
    {
        self.selected = Vec::new();
    }

    /// Move the cursor up one item, unless on the first.
    pub fn move_up(&mut self)
        ensures
            *final(self) == (MultiSelect { cursor: cursor_up(*old(self)), ..*old(self) }),
    {
        if self.cursor > 0 {
            self.cursor = self.cursor - 1;
        }
    }

    /// Move the cursor down one item, unless on the last.
    pub fn move_down(&mut self)
        ensures
            *final(self) == (MultiSelect { cursor: cursor_down(*old(self)), ..*old(self) }),
    {
        if self.items.len() > 0 && self.cursor < self.items.len() - 1 {
            self.cursor = self.cursor + 1;
        }
    }

    /// Move the cursor to the first item.
    pub fn move_to_start(&mut self)
        ensures
            *final(self) == (MultiSelect { cursor: 0, scroll: 0, ..*old(self) }),
    {
        self.cursor = 0;
        self.scroll = 0;
    }

    /// Move the cursor to the last item (nothing happens on an empty list).
    pub fn move_to_end(&mut self)
        ensures
            *final(self) == (MultiSelect { cursor: cursor_end(*old(self)), ..*old(self) }),
    {
        if self.items.len() > 0 {
            self.cursor = self.items.len() - 1;
        }
    }

    /// The number of items.
    pub fn len(&self) -> (n: usize)
        ensures
            n == self.items@.len(),
    {
        self.items.len()
    }

    /// Whether there are no items.
    pub fn is_empty(&self) -> (b: bool)
        ensures
            b == (self.items@.len() == 0),
    {
        self.items.len() == 0
    }

    /// The number of checked ids.
    pub fn selected_count(&self) -> (n: usize)
        requires
            self.wf(),
        ensures
            n == self.checked().len(),
    {
        proof {
            string_views(self.selected@).unique_seq_to_set();
        }
        self.selected.len()
    }

    /// Handle a key press (see the module documentation); returns whether the
    /// key was used.
    pub fn handle_input(&mut self, key: KeyEvent) -> (used: bool)
        requires
            old(self).wf(),
        ensures
            final(self).wf(),
            final(self).items == old(self).items,
            final(self).title == old(self).title,
            used == (is_down(key) || is_up(key) || pressed_char(key, ' ') || ctrl(key, 'a') || key.code
                == KeyCode::Home || key.code == KeyCode::End),
            !used ==> *final(self) == *old(self),
            is_down(key) ==> *final(self) == (MultiSelect { cursor: cursor_down(*old(self)), ..*old(self) }),
            !is_down(key) && is_up(key) ==> *final(self) == (MultiSelect {
                cursor: cursor_up(*old(self)),
                ..*old(self)
            }),
            !is_down(key) && !is_up(key) && pressed_char(key, ' ') ==> final(self).cursor == old(self).cursor
                && (old(self).cursor < old(self).items@.len() ==> {
                let id = old(self).items@[old(self).cursor as int].id@;
                final(self).checked() == toggled(old(self).checked(), id)
            }) && (old(self).cursor >= old(self).items@.len() ==> final(self).checked() == old(self).checked()),
            ctrl(key, 'a') ==> final(self).cursor == old(self).cursor && final(self).checked() == old(self).checked()
                + item_ids(old(self).items@).to_set(),
            key.code == KeyCode::Home ==> *final(self) == (MultiSelect { cursor: 0, scroll: 0, ..*old(self) }),
            key.code == KeyCode::End ==> *final(self) == (MultiSelect { cursor: cursor_end(*old(self)), ..*old(self) }),
    {
        if key_is_down(key) {
            self.move_down();
            return true;
        }
        if key_is_up(key) {
            self.move_up();
            return true;
        }
        match (key.code, key.modifiers) {
            (KeyCode::Char(' '), KeyModifiers::NONE) => {
                self.toggle_current();
                true
            },
            (KeyCode::Char('a'), KeyModifiers::CONTROL) => {
                self.select_all();
                true
            },
            (KeyCode::Home, _) => {
                self.move_to_start();
                true
            },
            (KeyCode::End, _) => {
                self.move_to_end();
                true
            },
            _ => false,
        }
    }
}

impl Default for MultiSelect {
    fn default() -> (m: MultiSelect)
        ensures
            m.wf(),
            m.items@.len() == 0,
            m.selected@.len() == 0,
            m.cursor == 0,
            m.title@.len() == 0,
    {
        let m = MultiSelect::new("");
        proof {
            reveal_strlit("");
        }
        m
    }
}

/// Checking or unchecking the same id twice leaves the checked set as it was.
pub proof fn law_toggle_twice(set: Set<Seq<char>>, id: Seq<char>)
    ensures
        toggled(toggled(set, id), id) == set,
{
    if set.contains(id) {
        assert(set.remove(id).insert(id) =~= set);
    } else {
        assert(set.insert(id).remove(id) =~= set);
    }
}

} // verus!
