//! Dropdown for choosing one of a list of options.
//!
//! Collapsed, it shows the selected value; left/right (or h/l) step through the
//! options. Enter expands it into a list navigated with j/k or the arrows; Enter
//! selects and Esc or q cancels. An optional dropdown lists a "none" entry first,
//! labelled with the placeholder.
use vstd::prelude::*;

use crate::events::key::{is_down, is_up, key_is_down, key_is_up, pressed, pressed_char, KeyCode, KeyEvent, KeyModifiers};
use crate::text::copy_str;
use crate::ui::layout::{min_u16, sat_sub, Rect};

verus! {

/// A single item in a dropdown.
#[derive(Debug, Clone, PartialEq, Eq)]
pub struct DropdownItem {
    /// Unique identifier for the item.
    pub id: String,
    /// Display label for the item.
    pub label: String,
}

impl DropdownItem {
    /// Create a new dropdown item.
    pub fn new(id: &str, label: &str) -> (item: DropdownItem)
        ensures
            item.id@ == id@,
            item.label@ == label@,
    {
        DropdownItem { id: copy_str(id), label: copy_str(label) }
    }
}

/// Action resulting from dropdown input.
#[derive(Debug, Clone, PartialEq, Eq)]
pub enum DropdownAction {
    /// An item was selected (id, label).
    Select(String, String),
    /// The dropdown was closed without selection.
    Cancel,
}

/// An action as data: `None` for a cancel, the id and label of a selection otherwise.
pub open spec fn dropdown_action_view(a: Option<DropdownAction>) -> Option<Option<(Seq<char>, Seq<char>)>> {
    match a {
        None => None,
        Some(DropdownAction::Cancel) => Some(None),
        Some(DropdownAction::Select(id, label)) => Some(Some((id@, label@))),
    }
}

/// Dropdown component for selecting from a list of options.
#[derive(Debug)]
pub struct Dropdown {
    /// Available items.
    pub items: Vec<DropdownItem>,
    /// Index of the selected item, if any.
    pub selected: Option<usize>,
    /// Index of the highlighted entry of the expanded list.
    pub highlighted: usize,
    /// Whether the dropdown is expanded.
    pub expanded: bool,
    /// Text shown when nothing is selected.
    pub placeholder: String,
    /// Label of the field.
    pub label: String,
    /// Whether the field is required (shows * in the label, and lists no "none" entry).
    pub required: bool,
}

/// The selection of an item, as an action view.
pub open spec fn select_view(item: DropdownItem) -> Option<Option<(Seq<char>, Seq<char>)>> {
    Some(Some((item.id@, item.label@)))
}

/// The number of entries of the expanded list (one more than the items when optional).
pub open spec fn expanded_count(d: Dropdown) -> int {
    if d.required {
        d.items@.len() as int
    } else {
        d.items@.len() + 1int
    }
}

/// The dropdown after `expand`.
pub open spec fn expanded(d: Dropdown) -> Dropdown {
    if d.items@.len() > 0 || !d.required {
        Dropdown {
            expanded: true,
            highlighted: match d.selected {
                Some(i) => if d.required {
                    i
                } else {
                    (i + 1) as usize
                },
                None => 0,
            },
            ..d
        }
    } else {
        d
    }
}

/// The dropdown after a key press, with the action the key produced.
pub open spec fn dropdown_step(d: Dropdown, key: KeyEvent) -> (Dropdown, Option<Option<(Seq<char>, Seq<char>)>>) {
    let n = d.items@.len();
    if d.expanded {
        let count = expanded_count(d);
        if is_down(key) {
            (Dropdown { highlighted: if count > 0 && d.highlighted < count - 1 { (d.highlighted + 1) as usize } else { d.highlighted }, ..d }, None)
        } else if is_up(key) {
            (Dropdown { highlighted: if d.highlighted > 0 { (d.highlighted - 1) as usize } else { d.highlighted }, ..d }, None)
        } else if pressed(key, KeyCode::Enter) {
            if !d.required && d.highlighted == 0 {
                (Dropdown { expanded: false, selected: None, ..d }, Some(Some((Seq::empty(), d.placeholder@))))
            } else {
                let idx = if d.required { d.highlighted as int } else { d.highlighted - 1 };
                if idx < n {
                    (Dropdown { expanded: false, selected: Some(idx as usize), ..d }, select_view(d.items@[idx]))
                } else {
                    (Dropdown { expanded: false, ..d }, None)
                }
            }
        } else if key.code == KeyCode::Esc || pressed_char(key, 'q') {
            (Dropdown { expanded: false, ..d }, Some(None))
        } else {
            (d, None)
        }
    } else {
        if pressed(key, KeyCode::Enter) {
            (expanded(d), None)
        } else if pressed(key, KeyCode::Left) || pressed_char(key, 'h') {
            let cur = match d.selected { Some(i) => i as int, None => 0 };
            if n > 0 && cur > 0 {
                (Dropdown { selected: Some((cur - 1) as usize), highlighted: (cur - 1) as usize, ..d }, select_view(d.items@[cur - 1]))
            } else {
                (d, None)
            }
        } else if pressed(key, KeyCode::Right) || pressed_char(key, 'l') {
            if n == 0 {
                (d, None)
            } else {
                match d.selected {
                    None => (Dropdown { selected: Some(0), highlighted: 0, ..d }, select_view(d.items@[0])),
                    Some(cur) => if cur < n - 1 {
                        (Dropdown { selected: Some((cur + 1) as usize), highlighted: (cur + 1) as usize, ..d }, select_view(d.items@[cur + 1]))
                    } else {
                        (d, None)
                    },
                }
            }
        } else {
            (d, None)
        }
    }
}

/// Where the expanded list of `count` entries goes for a dropdown field at `d` on a
/// screen `s`: at most 8 entries plus borders high, below the field overlapping its
/// bottom border when there is room for the whole list or at least as much room as
/// above, else above it overlapping its top border; clipped to the room there is.
pub open spec fn list_area_spec(count: int, d: Rect, s: Rect) -> Rect {
    let h = (if count < 8 { count } else { 8 }) + 2;
    let below = sat_sub(s.height, (d.y + d.height) as u16);
    let above = sat_sub(d.y, s.y);
    if below >= h || below >= above {
        Rect {
            x: d.x,
            y: (d.y + d.height - 1) as u16,
            width: d.width,
            height: min_u16(h as u16, below as u16),
        }
    } else {
        Rect {
            x: d.x,
            y: sat_sub(d.y, (h - 1) as u16) as u16,
            width: d.width,
            height: min_u16(h as u16, above as u16),
        }
    }
}

impl Dropdown {
    /// The selection, if any, is an index of an item.
    pub open spec fn wf(&self) -> bool {
        self.selected matches Some(i) ==> i < self.items@.len()
    }

    /// Create a new dropdown with a label.
    pub fn new(label: &str) -> (d: Dropdown)
        ensures
            d.wf(),
            d.items@.len() == 0,
            d.selected is None,
            d.highlighted == 0,
            !d.expanded,
            d.placeholder@ == "Select..."@,
            d.label@ == label@,
            !d.required,
    {
        Dropdown {
            items: Vec::new(),
            selected: None,
            highlighted: 0,
            expanded: false,
            placeholder: copy_str("Select..."),
            label: copy_str(label),
            required: false,
        }
    }

    /// The number of entries of the expanded list.
    pub fn expanded_item_count(&self) -> (n: usize)
        requires
            self.items@.len() < usize::MAX,
        ensures
            n == expanded_count(*self),
    {
        if self.required {
            self.items.len()
        } else {
            self.items.len() + 1
        }
    }

    /// Where the expanded list is drawn for the field at `dropdown_area` on
    /// `screen_area`; `None` when the dropdown is collapsed or the list is empty.
    pub fn expanded_list_area(&self, dropdown_area: Rect, screen_area: Rect) -> (r: Option<Rect>)
        requires
            self.items@.len() < usize::MAX,
            dropdown_area.y + dropdown_area.height <= u16::MAX,
            dropdown_area.y + dropdown_area.height >= 1,
        ensures
            !self.expanded || expanded_count(*self) == 0 ==> r is None,
            self.expanded && expanded_count(*self) > 0 ==> r == Some(
                list_area_spec(expanded_count(*self), dropdown_area, screen_area),
            ),
    {
        let count = self.expanded_item_count();
        if !self.expanded || count == 0 {
            return None;
        }
        let visible: u16 = if count < 8 {
            count as u16
        } else {
            8
        };
        let list_height: u16 = visible + 2;
        let bottom: u16 = dropdown_area.y + dropdown_area.height;
        let space_below = screen_area.height.saturating_sub(bottom);
        let space_above = dropdown_area.y.saturating_sub(screen_area.y);
        if space_below >= list_height || space_below >= space_above {
            let h = if list_height <= space_below {
                list_height
            } else {
                space_below
            };
            Some(Rect::new(dropdown_area.x, bottom - 1, dropdown_area.width, h))
        } else {
            let y = dropdown_area.y.saturating_sub(list_height - 1);
            let h = if list_height <= space_above {
                list_height
            } else {
                space_above
            };
            Some(Rect::new(dropdown_area.x, y, dropdown_area.width, h))
        }
    }

    /// Set whether this field is required.
    pub fn set_required(&mut self, required: bool)
        ensures
            *final(self) == (Dropdown { required, ..*old(self) }),
    {
        self.required = required;
    }

    /// Set the placeholder text.
    pub fn set_placeholder(&mut self, placeholder: &str)
        ensures
            final(self).placeholder@ == placeholder@,
            final(self).items == old(self).items,
            final(self).selected == old(self).selected,
            final(self).highlighted == old(self).highlighted,
            final(self).expanded == old(self).expanded,
            final(self).label == old(self).label,
            final(self).required == old(self).required,
    {
        self.placeholder = copy_str(placeholder);
    }

    /// Set the available items; the highlight returns to the start and a selection
    /// that no longer names an item is cleared.
    pub fn set_items(&mut self, items: Vec<DropdownItem>)
        ensures
            final(self).wf(),
            final(self).items == items,
            final(self).highlighted == 0,
            final(self).selected == (match old(self).selected {
                Some(i) => if i < items@.len() { Some(i) } else { None },
                None => None,
            }),
            final(self).expanded == old(self).expanded,
            final(self).placeholder == old(self).placeholder,
            final(self).label == old(self).label,
            final(self).required == old(self).required,
    {
        self.items = items;
        self.highlighted = 0;
        match self.selected {
            Some(idx) => {
                if idx >= self.items.len() {
                    self.selected = None;
                }
            },
            None => {},
        }
    }

    /// Get the available items.
    pub fn items(&self) -> (r: &[DropdownItem])
        ensures
            r@ == self.items@,
    {
        self.items.as_slice()
    }

    /// Get the number of items.
    pub fn item_count(&self) -> (n: usize)
        ensures
            n == self.items@.len(),
    {
        self.items.len()
    }

    /// Check if the dropdown has no items.
    pub fn is_empty(&self) -> (b: bool)
        ensures
            b == (self.items@.len() == 0),
    {
        self.items.len() == 0
    }

    /// Get the selected item.
    pub fn selected_item(&self) -> (r: Option<&DropdownItem>)
        ensures
            r == (match self.selected {
                Some(i) => if i < self.items@.len() { Some(&self.items@[i as int]) } else { None },
                None => None,
            }),
    {
        match self.selected {
            Some(idx) => {
                if idx < self.items.len() {
                    Some(&self.items[idx])
                } else {
                    None
                }
            },
            None => None,
        }
    }

    /// Get the selected index.
    pub fn selected_index(&self) -> (r: Option<usize>)
        ensures
            r == self.selected,
    {
        self.selected
    }

    /// Select the item at `index`, if there is one, and highlight it.
    pub fn select_index(&mut self, index: usize)
        ensures
            *final(self) == (if index < old(self).items@.len() {
                Dropdown { selected: Some(index), highlighted: index, ..*old(self) }
            } else {
                *old(self)
            }),
    {
        if index < self.items.len() {
            self.selected = Some(index);
            self.highlighted = index;
        }
    }

    /// Select the first item with the given id, if there is one, and highlight it.
    pub fn select_by_id(&mut self, id: &str)
        ensures
            (exists|i: int| 0 <= i < old(self).items@.len() && old(self).items@[i].id@ == id@) ==> {
                let i = final(self).highlighted as int;
                &&& *final(self) == (Dropdown { selected: Some(i as usize), highlighted: i as usize, ..*old(self) })
                &&& 0 <= i < old(self).items@.len()
                &&& old(self).items@[i].id@ == id@
                &&& forall|j: int| 0 <= j < i ==> old(self).items@[j].id@ != id@
            },
            !(exists|i: int| 0 <= i < old(self).items@.len() && old(self).items@[i].id@ == id@) ==> *final(self) == *old(self),
    {
        let mut i: usize = 0;
        while i < self.items.len()
            invariant
                i <= self.items@.len(),
                *self == *old(self),
                forall|j: int| 0 <= j < i ==> self.items@[j].id@ != id@,
            decreases self.items.len() - i,
        {
            if crate::text::str_eq(self.items[i].id.as_str(), id) {
                self.selected = Some(i);
                self.highlighted = i;
                return;
            }
            i += 1;
        }
    }

    /// Clear the selection.
    pub fn clear_selection(&mut self)
        ensures
            *final(self) == (Dropdown { selected: None, highlighted: 0, ..*old(self) }),
    {
        self.selected = None;
        self.highlighted = 0;
    }

    /// Check if the dropdown is expanded.
    pub fn is_expanded(&self) -> (b: bool)
        ensures
            b == self.expanded,
    {
        self.expanded
    }

    /// Expand the dropdown (a required dropdown with no items stays collapsed); the
    /// highlight starts at the selected entry, or at the first entry.
    pub fn expand(&mut self)
        requires
            old(self).wf(),
        ensures
            *final(self) == expanded(*old(self)),
    {
        let n = self.items.len();
        if n > 0 || !self.required {
            self.expanded = true;
            match self.selected {
                Some(idx) => {
                    self.highlighted = if self.required { idx } else { idx + 1 };
                },
                None => {
                    self.highlighted = 0;
                },
            }
        }
    }

    /// Collapse the dropdown.
    pub fn collapse(&mut self)
        ensures
            *final(self) == (Dropdown { expanded: false, ..*old(self) }),
    {
        self.expanded = false;
    }

    /// Reset to no selection, collapsed.
    pub fn reset(&mut self)
        ensures
            *final(self) == (Dropdown { selected: None, highlighted: 0, expanded: false, ..*old(self) }),
    {
        self.selected = None;
        self.highlighted = 0;
        self.expanded = false;
    }

    /// Handle a key press; returns the action for the parent, if any.
    pub fn handle_input(&mut self, key: KeyEvent) -> (r: Option<DropdownAction>)
        requires
            old(self).wf(),
        ensures
            final(self).wf(),
            (*final(self), dropdown_action_view(r)) == dropdown_step(*old(self), key),
    {
        if self.expanded {
            self.handle_expanded_input(key)
        } else {
            self.handle_collapsed_input(key)
        }
    }

    fn select_action(&self, i: usize) -> (r: Option<DropdownAction>)
        requires
            i < self.items@.len(),
        ensures
            dropdown_action_view(r) == select_view(self.items@[i as int]),
    {
        let item = &self.items[i];
        Some(DropdownAction::Select(item.id.clone(), item.label.clone()))
    }

    fn handle_collapsed_input(&mut self, key: KeyEvent) -> (r: Option<DropdownAction>)
        requires
            old(self).wf(),
            !old(self).expanded,
        ensures
            final(self).wf(),
            (*final(self), dropdown_action_view(r)) == dropdown_step(*old(self), key),
    {
        match (key.code, key.modifiers) {
            (KeyCode::Enter, KeyModifiers::NONE) => {
                self.expand();
                None
            },
            (KeyCode::Left, KeyModifiers::NONE) | (KeyCode::Char('h'), KeyModifiers::NONE) => {
                if !self.items.is_empty() {
                    let current = match self.selected {
                        Some(i) => i,
                        None => 0,
                    };
                    if current > 0 {
                        self.selected = Some(current - 1);
                        self.highlighted = current - 1;
                        return self.select_action(current - 1);
                    }
                }
                None
            },
            (KeyCode::Right, KeyModifiers::NONE) | (KeyCode::Char('l'), KeyModifiers::NONE) => {
                if !self.items.is_empty() {
                    match self.selected {
                        None => {
                            self.selected = Some(0);
                            self.highlighted = 0;
                            return self.select_action(0);
                        },
                        Some(current) => {
                            if current < self.items.len() - 1 {
                                self.selected = Some(current + 1);
                                self.highlighted = current + 1;
                                return self.select_action(current + 1);
                            }
                        },
                    }
                }
                None
            },
            _ => None,
        }
    }

    fn handle_expanded_input(&mut self, key: KeyEvent) -> (r: Option<DropdownAction>)
        requires
            old(self).wf(),
            old(self).expanded,
        ensures
            final(self).wf(),
            (*final(self), dropdown_action_view(r)) == dropdown_step(*old(self), key),
    {
        let n = self.items.len();
        if key_is_down(key) {
            let can_move = if self.required {
                n > 0 && self.highlighted < n - 1
            } else {
                self.highlighted < n
            };
            if can_move {
                self.highlighted = self.highlighted + 1;
            }
            return None;
        }
        if key_is_up(key) {
            if self.highlighted > 0 {
                self.highlighted = self.highlighted - 1;
            }
            return None;
        }
        match (key.code, key.modifiers) {
            (KeyCode::Enter, KeyModifiers::NONE) => {
                self.expanded = false;
                if !self.required && self.highlighted == 0 {
                    self.selected = None;
                    Some(DropdownAction::Select(String::new(), self.placeholder.clone()))
                } else {
                    let item_idx = if self.required {
                        self.highlighted
                    } else {
                        self.highlighted - 1
                    };
                    if item_idx < n {
                        self.selected = Some(item_idx);
                        self.select_action(item_idx)
                    } else {
                        None
                    }
                }
            },
            (KeyCode::Esc, _) | (KeyCode::Char('q'), KeyModifiers::NONE) => {
                self.expanded = false;
                Some(DropdownAction::Cancel)
            },
            _ => None,
        }
    }

    /// Get the label of this dropdown.
    pub fn label(&self) -> (s: &str)
        ensures
            s@ == self.label@,
    {
        self.label.as_str()
    }
}

impl Default for Dropdown {
    /// A dropdown with an empty label.
    fn default() -> (d: Dropdown)
        ensures
            d.wf(),
            d.items@.len() == 0,
            d.selected is None,
            d.highlighted == 0,
            !d.expanded,
            d.placeholder@ == "Select..."@,
            d.label@.len() == 0,
            !d.required,
    {
        proof {
            reveal_strlit("");
        }
        Dropdown::new("")
    }
}

} // verus!
