//! The quick profile switcher: a list of profile names, the active one
//! highlighted when shown. j/k or the arrows move, Enter picks, Esc or q cancel.
use vstd::prelude::*;

use crate::events::key::{is_down, is_up, key_is_down, key_is_up, pressed, pressed_char, KeyCode, KeyEvent, KeyModifiers};
use crate::text::{copy_str, str_eq};

verus! {

/// Action returned from the profile picker.
#[derive(Debug, Clone, PartialEq, Eq)]
pub enum ProfilePickerAction {
    /// A profile was picked (its name).
    Select(String),
    /// The picker was closed without a choice.
    Cancel,
}

/// An action as data: `None` for a cancel, the name of a choice otherwise.
pub open spec fn picker_action_view(a: Option<ProfilePickerAction>) -> Option<Option<Seq<char>>> {
    match a {
        None => None,
        Some(ProfilePickerAction::Cancel) => Some(None),
        Some(ProfilePickerAction::Select(n)) => Some(Some(n@)),
    }
}

/// The profile picker.
#[derive(Debug)]
pub struct ProfilePicker {
    /// Names of the profiles.
    pub profiles: Vec<String>,
    /// Index of the highlighted name.
    pub selected: usize,
    /// Whether the picker is visible.
    pub visible: bool,
    /// Name of the active profile.
    pub current_profile: String,
}

/// Whether `k` is the position of the first name equal to `name`, or 0 when none is.
pub open spec fn is_position_or_first(names: Seq<String>, name: Seq<char>, k: int) -> bool {
    ||| (0 <= k < names.len() && names[k]@ == name && forall|j: int| 0 <= j < k ==> names[j]@ != name)
    ||| (k == 0 && forall|j: int| 0 <= j < names.len() ==> names[j]@ != name)
}

/// The picker after a key press, with the action it produced.
pub open spec fn profile_picker_step(p: ProfilePicker, key: KeyEvent) -> (ProfilePicker, Option<Option<Seq<char>>>) {
    let n = p.profiles@.len();
    if is_down(key) {
        (if n > 0 && p.selected < n - 1 {
            ProfilePicker { selected: (p.selected + 1) as usize, ..p }
        } else {
            p
        }, None)
    } else if is_up(key) {
        (if p.selected > 0 {
            ProfilePicker { selected: (p.selected - 1) as usize, ..p }
        } else {
            p
        }, None)
    } else if pressed(key, KeyCode::Enter) {
        (ProfilePicker { visible: false, ..p }, if p.selected < n {
            Some(Some(p.profiles@[p.selected as int]@))
        } else {
            None
        })
    } else if key.code == KeyCode::Esc || pressed_char(key, 'q') {
        (ProfilePicker { visible: false, ..p }, Some(None))
    } else {
        (p, None)
    }
}

impl ProfilePicker {
    /// A hidden picker with no profiles.
    pub fn new() -> (p: ProfilePicker)
        ensures
            p.profiles@.len() == 0,
            p.selected == 0,
            !p.visible,
            p.current_profile@.len() == 0,
    {
        ProfilePicker { profiles: Vec::new(), selected: 0, visible: false, current_profile: String::new() }
    }

    /// Show the picker with the given names, the active one highlighted (the first
    /// name when the active one is not listed).
    pub fn show(&mut self, profiles: Vec<String>, current: &str)
        ensures
            final(self).profiles == profiles,
            final(self).current_profile@ == current@,
            is_position_or_first(profiles@, current@, final(self).selected as int),
            final(self).visible,
    {
        let mut pos: usize = 0;
        let mut i: usize = 0;
        while i < profiles.len()
            invariant_except_break
                i <= profiles@.len(),
                pos == 0,
                forall|j: int| 0 <= j < i ==> profiles@[j]@ != current@,
            ensures
                is_position_or_first(profiles@, current@, pos as int),
            decreases profiles.len() - i,
        {
            if str_eq(profiles[i].as_str(), current) {
                pos = i;
                break;
            }
            i += 1;
        }
        self.profiles = profiles;
        self.current_profile = copy_str(current);
        self.selected = pos;
        self.visible = true;
    }

    /// Close (hide) the picker.
    pub fn close(&mut self)
        ensures
            *final(self) == (ProfilePicker { visible: false, ..*old(self) }),
    {
        self.visible = false;
    }

    /// Whether the picker is visible.
    pub fn is_visible(&self) -> (b: bool)
        ensures
            b == self.visible,
    {
        self.visible
    }

    /// The highlighted name, if any.
    pub fn selected_profile(&self) -> (r: Option<&String>)
        ensures
            r == (if self.selected < self.profiles@.len() {
                Some(&self.profiles@[self.selected as int])
            } else {
                None
            }),
    {
        if self.selected < self.profiles.len() {
            Some(&self.profiles[self.selected])
        } else {
            None
        }
    }

    /// The number of profiles.
    pub fn profile_count(&self) -> (n: usize)
        ensures
            n == self.profiles@.len(),
    {
        self.profiles.len()
    }

    /// Handle a key press (see the module documentation).
    pub fn handle_input(&mut self, key: KeyEvent) -> (r: Option<ProfilePickerAction>)
        ensures
            (*final(self), picker_action_view(r)) == profile_picker_step(*old(self), key),
    {
        if key_is_down(key) {
            if self.profiles.len() > 0 && self.selected < self.profiles.len() - 1 {
                self.selected = self.selected + 1;
            }
            return None;
        }
        if key_is_up(key) {
            if self.selected > 0 {
                self.selected = self.selected - 1;
            }
            return None;
        }
        match (key.code, key.modifiers) {
            (KeyCode::Enter, KeyModifiers::NONE) => {
                self.visible = false;
                if self.selected < self.profiles.len() {
                    Some(ProfilePickerAction::Select(self.profiles[self.selected].clone()))
                } else {
                    None
                }
            },
            (KeyCode::Esc, _) | (KeyCode::Char('q'), KeyModifiers::NONE) => {
                self.visible = false;
                Some(ProfilePickerAction::Cancel)
            },
            _ => None,
        }
    }
}

impl Default for ProfilePicker {
    fn default() -> (p: ProfilePicker)
        ensures
            p.profiles@.len() == 0,
            p.selected == 0,
            !p.visible,
            p.current_profile@.len() == 0,
    {
        ProfilePicker::new()
    }
}

} // verus!
