//! Picker for changing an issue's priority.
use vstd::prelude::*;

use crate::api::types::Priority;
use crate::events::key::{is_down, is_up, key_is_cancel, key_is_down, key_is_up, pressed, pressed_char, KeyCode, KeyEvent, KeyModifiers};
use crate::text::{copy_str, lowercase, str_eq, to_lowercase};

verus! {

/// Action resulting from priority picker input.
#[derive(Debug, Clone, PartialEq)]
pub enum PriorityAction {
    /// A priority was selected (id, name).
    Select(String, String),
    /// The picker was closed without selection.
    Cancel,
}

/// An action as data: `None` for a cancel, the id and name of a selection otherwise.
pub open spec fn priority_action_view(a: Option<PriorityAction>) -> Option<Option<(Seq<char>, Seq<char>)>> {
    match a {
        None => None,
        Some(PriorityAction::Cancel) => Some(None),
        Some(PriorityAction::Select(id, name)) => Some(Some((id@, name@))),
    }
}

/// The priority picker.
#[derive(Debug)]
pub struct PriorityPicker {
    /// Available priorities.
    pub priorities: Vec<Priority>,
    /// Index of the highlighted priority.
    pub selected: usize,
    /// Whether the picker is visible.
    pub visible: bool,
    /// Whether priorities are being loaded.
    pub loading: bool,
    /// Name of the issue's current priority.
    pub current_priority: String,
}

/// Whether `k` is the position of the first priority named `name`, or 0 when none is.
pub open spec fn is_preselect(ps: Seq<Priority>, name: Seq<char>, k: int) -> bool {
    ||| (0 <= k < ps.len() && ps[k].name@ == name && forall|j: int| 0 <= j < k ==> ps[j].name@ != name)
    ||| (k == 0 && forall|j: int| 0 <= j < ps.len() ==> ps[j].name@ != name)
}

/// The picker after a key press, with the action the key produced.
pub open spec fn priority_step(p: PriorityPicker, key: KeyEvent) -> (PriorityPicker, Option<Option<(Seq<char>, Seq<char>)>>) {
    let n = p.priorities@.len();
    if !p.visible {
        (p, None)
    } else if p.loading {
        if key.code == KeyCode::Esc {
            (PriorityPicker { visible: false, loading: false, ..p }, Some(None))
        } else {
            (p, None)
        }
    } else if is_down(key) {
        (PriorityPicker { selected: if n > 0 && p.selected < n - 1 { (p.selected + 1) as usize } else { p.selected }, ..p }, None)
    } else if is_up(key) {
        (PriorityPicker { selected: if p.selected > 0 { (p.selected - 1) as usize } else { p.selected }, ..p }, None)
    } else if pressed(key, KeyCode::Enter) {
        if p.selected < n {
            let pr = p.priorities@[p.selected as int];
            (PriorityPicker { visible: false, loading: false, ..p }, Some(Some((pr.id@, pr.name@))))
        } else {
            (p, None)
        }
    } else if pressed(key, KeyCode::Esc) || pressed_char(key, 'q') {
        (PriorityPicker { visible: false, loading: false, ..p }, Some(None))
    } else {
        (p, None)
    }
}

impl PriorityPicker {
    /// Create a hidden picker.
    pub fn new() -> (p: PriorityPicker)
        ensures
            p.priorities@.len() == 0,
            p.selected == 0,
            !p.visible,
            !p.loading,
            p.current_priority@.len() == 0,
    {
        PriorityPicker {
            priorities: Vec::new(),
            selected: 0,
            visible: false,
            loading: false,
            current_priority: String::new(),
        }
    }

    /// Whether the picker is visible.
    pub fn is_visible(&self) -> (b: bool)
        ensures
            b == self.visible,
    {
        self.visible
    }

    /// Whether priorities are being loaded.
    pub fn is_loading(&self) -> (b: bool)
        ensures
            b == self.loading,
    {
        self.loading
    }

    /// Set the loading state.
    pub fn set_loading(&mut self, loading: bool)
        ensures
            *final(self) == (PriorityPicker { loading, ..*old(self) }),
    {
        self.loading = loading;
    }

    /// Show the picker while priorities load.
    pub fn show_loading(&mut self, current_priority: &str)
        ensures
            final(self).current_priority@ == current_priority@,
            final(self).priorities@.len() == 0,
            final(self).selected == 0,
            final(self).loading,
            final(self).visible,
    {
        self.current_priority = copy_str(current_priority);
        self.priorities = Vec::new();
        self.selected = 0;
        self.loading = true;
        self.visible = true;
    }

    /// Show the picker with the given priorities, highlighting the current one.
    pub fn show(&mut self, priorities: Vec<Priority>, current_priority: &str)
        ensures
            final(self).current_priority@ == current_priority@,
            final(self).priorities == priorities,
            is_preselect(priorities@, current_priority@, final(self).selected as int),
            !final(self).loading,
            final(self).visible,
    {
        self.current_priority = copy_str(current_priority);
        let mut pre: usize = 0;
        let mut i: usize = 0;
        while i < priorities.len()
            invariant_except_break
                i <= priorities@.len(),
                pre == 0,
                forall|j: int| 0 <= j < i ==> priorities@[j].name@ != current_priority@,
            ensures
                is_preselect(priorities@, current_priority@, pre as int),
            decreases priorities.len() - i,
        {
            if str_eq(priorities[i].name.as_str(), current_priority) {
                pre = i;
                break;
            }
            i += 1;
        }
        self.priorities = priorities;
        self.selected = pre;
        self.loading = false;
        self.visible = true;
    }

    /// Close (hide) the picker and stop loading.
    pub fn close(&mut self)
        ensures
            *final(self) == (PriorityPicker { visible: false, loading: false, ..*old(self) }),
    {
        self.visible = false;
        self.loading = false;
    }

    /// The number of priorities.
    pub fn priority_count(&self) -> (n: usize)
        ensures
            n == self.priorities@.len(),
    {
        self.priorities.len()
    }

    /// The highlighted priority, if any.
    pub fn selected_priority(&self) -> (r: Option<&Priority>)
        ensures
            r == (if self.selected < self.priorities@.len() {
                Some(&self.priorities@[self.selected as int])
            } else {
                None
            }),
    {
        if self.selected < self.priorities.len() {
            Some(&self.priorities[self.selected])
        } else {
            None
        }
    }

    /// Handle a key press: j/k or the arrows move, Enter selects, Esc or q cancels.
    /// While loading only Esc is handled; when hidden nothing is.
    pub fn handle_input(&mut self, key: KeyEvent) -> (r: Option<PriorityAction>)
        ensures
            (*final(self), priority_action_view(r)) == priority_step(*old(self), key),
    {
        if !self.visible {
            return None;
        }
        if self.loading {
            if key.code == KeyCode::Esc {
                self.close();
                return Some(PriorityAction::Cancel);
            }
            return None;
        }
        if key_is_down(key) {
            if self.priorities.len() > 0 && self.selected < self.priorities.len() - 1 {
                self.selected = self.selected + 1;
            }
            return None;
        }
        if key_is_up(key) {
            if self.selected > 0 {
                self.selected = self.selected - 1;
            }
            return None;
        }
        match (key.code, key.modifiers) {
            (KeyCode::Enter, KeyModifiers::NONE) => {
                if self.selected < self.priorities.len() {
                    let p = &self.priorities[self.selected];
                    let action = PriorityAction::Select(p.id.clone(), p.name.clone());
                    self.close();
                    Some(action)
                } else {
                    None
                }
            },
            _ => {
                if key_is_cancel(key) {
                    self.close();
                    Some(PriorityAction::Cancel)
                } else {
                    None
                }
            },
        }
    }
}

impl Default for PriorityPicker {
    fn default() -> (p: PriorityPicker)
        ensures
            p.priorities@.len() == 0,
            p.selected == 0,
            !p.visible,
            !p.loading,
            p.current_priority@.len() == 0,
    {
        PriorityPicker::new()
    }
}

/// The indicator symbol for a priority name, by its lower-cased form.
pub open spec fn indicator_for(lower: Seq<char>) -> Seq<char> {
    if lower == "highest"@ || lower == "blocker"@ || lower == "critical"@ {
        "⬆⬆"@
    } else if lower == "high"@ || lower == "major"@ {
        "⬆"@
    } else if lower == "medium"@ || lower == "normal"@ {
        "⬌"@
    } else if lower == "low"@ || lower == "minor"@ {
        "⬇"@
    } else if lower == "lowest"@ || lower == "trivial"@ {
        "⬇⬇"@
    } else {
        "•"@
    }
}

/// The indicator symbol shown for a priority name.
pub fn priority_indicator(name: &str) -> (s: &'static str)
    ensures
        s@ == indicator_for(lowercase(name@)),
{
    let l = to_lowercase(name);
    let l = l.as_str();
    if str_eq(l, "highest") || str_eq(l, "blocker") || str_eq(l, "critical") {
        "⬆⬆"
    } else if str_eq(l, "high") || str_eq(l, "major") {
        "⬆"
    } else if str_eq(l, "medium") || str_eq(l, "normal") {
        "⬌"
    } else if str_eq(l, "low") || str_eq(l, "minor") {
        "⬇"
    } else if str_eq(l, "lowest") || str_eq(l, "trivial") {
        "⬇⬇"
    } else {
        "•"
    }
}

/// The colours a priority is shown in.
#[derive(Debug, Clone, Copy, PartialEq, Eq, Structural)]
pub enum PriorityColor {
    /// Highest, blocker, critical.
    Red,
    /// High, major.
    LightRed,
    /// Medium, normal.
    Yellow,
    /// Low, minor.
    Green,
    /// Lowest, trivial.
    DarkGray,
    /// Any other priority.
    White,
}

/// The colour for a priority name, by its lower-cased form.
pub open spec fn color_for(lower: Seq<char>) -> PriorityColor {
    if lower == "highest"@ || lower == "blocker"@ || lower == "critical"@ {
        PriorityColor::Red
    } else if lower == "high"@ || lower == "major"@ {
        PriorityColor::LightRed
    } else if lower == "medium"@ || lower == "normal"@ {
        PriorityColor::Yellow
    } else if lower == "low"@ || lower == "minor"@ {
        PriorityColor::Green
    } else if lower == "lowest"@ || lower == "trivial"@ {
        PriorityColor::DarkGray
    } else {
        PriorityColor::White
    }
}

/// The colour a priority name is shown in.
pub fn priority_color(name: &str) -> (c: PriorityColor)
    ensures
        c == color_for(lowercase(name@)),
{
    let l = to_lowercase(name);
    let l = l.as_str();
    if str_eq(l, "highest") || str_eq(l, "blocker") || str_eq(l, "critical") {
        PriorityColor::Red
    } else if str_eq(l, "high") || str_eq(l, "major") {
        PriorityColor::LightRed
    } else if str_eq(l, "medium") || str_eq(l, "normal") {
        PriorityColor::Yellow
    } else if str_eq(l, "low") || str_eq(l, "minor") {
        PriorityColor::Green
    } else if str_eq(l, "lowest") || str_eq(l, "trivial") {
        PriorityColor::DarkGray
    } else {
        PriorityColor::White
    }
}

} // verus!
