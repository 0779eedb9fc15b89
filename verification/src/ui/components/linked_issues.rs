//! The linked issues section of the issue detail view.
//!
//! It lists the parent issue first, then the linked issues, then the subtasks.
//! When focused and expanded, j/k move, Enter opens the highlighted issue and `d`
//! asks to delete the highlighted link; Tab expands or collapses the section.
use vstd::prelude::*;

use crate::api::types::{IssueLink, ParentIssue, Status, Subtask};
use crate::events::key::{is_down, is_up, key_is_down, key_is_up, pressed, pressed_char, KeyCode, KeyEvent, KeyModifiers};
use crate::text::concat4;

verus! {

/// Action that can be triggered from the linked issues section.
#[derive(Debug, Clone, PartialEq)]
pub enum LinkedIssuesAction {
    /// Open the issue with this key.
    Navigate(String),
    /// Delete a link (link id, description for the confirmation).
    Delete(String, String),
}

/// An action as data.
pub enum LinkedIssuesOutcome {
    /// Open the issue with this key.
    Navigate(Seq<char>),
    /// Delete a link (link id, description).
    Delete(Seq<char>, Seq<char>),
}

/// The data of an action.
pub open spec fn linked_outcome(a: Option<LinkedIssuesAction>) -> Option<LinkedIssuesOutcome> {
    match a {
        None => None,
        Some(LinkedIssuesAction::Navigate(k)) => Some(LinkedIssuesOutcome::Navigate(k@)),
        Some(LinkedIssuesAction::Delete(id, d)) => Some(LinkedIssuesOutcome::Delete(id@, d@)),
    }
}

/// Direction of a link, seen from the current issue.
#[derive(Debug, Clone, Copy, PartialEq, Eq, Structural)]
pub enum LinkDirection {
    /// The other issue acts on this one (an inward link).
    Inward,
    /// This issue acts on the other one (an outward link).
    Outward,
}

/// A link as it is shown.
#[derive(Debug, Clone)]
pub struct DisplayLink {
    /// The link id (for deletion).
    pub link_id: String,
    /// Key of the other issue.
    pub key: String,
    /// Summary of the other issue.
    pub summary: String,
    /// Status of the other issue.
    pub status: Status,
    /// Wording of the link from this issue's side (e.g., "blocks").
    pub link_description: String,
    /// Direction of the link.
    pub direction: LinkDirection,
}

/// The linked issues section.
#[derive(Debug)]
pub struct LinkedIssuesSection {
    /// Links, as shown.
    pub links: Vec<DisplayLink>,
    /// Subtasks of the issue.
    pub subtasks: Vec<Subtask>,
    /// Parent of the issue.
    pub parent: Option<ParentIssue>,
    /// Index of the highlighted entry.
    pub selected: usize,
    /// Whether the section is expanded.
    pub expanded: bool,
    /// Whether the section has the focus.
    pub focused: bool,
}

/// How a link is shown: through its inward issue if it has one, else through its
/// outward issue; a link with neither is not shown.
pub open spec fn display_link(l: IssueLink) -> Option<DisplayLink> {
    match l.inward_issue {
        Some(i) => Some(
            DisplayLink {
                link_id: l.id,
                key: i.key,
                summary: i.fields.summary,
                status: i.fields.status,
                link_description: l.link_type.inward,
                direction: LinkDirection::Inward,
            },
        ),
        None => match l.outward_issue {
            Some(o) => Some(
                DisplayLink {
                    link_id: l.id,
                    key: o.key,
                    summary: o.fields.summary,
                    status: o.fields.status,
                    link_description: l.link_type.outward,
                    direction: LinkDirection::Outward,
                },
            ),
            None => None,
        },
    }
}

/// The shown links, in order.
pub open spec fn display_links(ls: Seq<IssueLink>) -> Seq<DisplayLink>
    decreases ls.len(),
{
    if ls.len() == 0 {
        Seq::empty()
    } else {
        let rest = display_links(ls.drop_last());
        match display_link(ls.last()) {
            Some(d) => rest.push(d),
            None => rest,
        }
    }
}

/// The number of entries: the parent, the links and the subtasks.
pub open spec fn total(s: LinkedIssuesSection) -> int {
    (if s.parent is Some {
        1int
    } else {
        0
    }) + s.links@.len() + s.subtasks@.len()
}

/// The counts of the section fit a machine word with room for the parent.
pub open spec fn counts_fit(s: LinkedIssuesSection) -> bool {
    s.links@.len() + s.subtasks@.len() < usize::MAX
}

/// The key of the entry at `i`: the parent first, then the links, then the subtasks.
pub open spec fn entry_key(s: LinkedIssuesSection, i: int) -> Option<Seq<char>> {
    let j = if s.parent is Some {
        i - 1
    } else {
        i
    };
    if s.parent is Some && i == 0 {
        Some(s.parent->0.key@)
    } else if j < s.links@.len() {
        Some(s.links@[j].key@)
    } else if j - s.links@.len() < s.subtasks@.len() {
        Some(s.subtasks@[j - s.links@.len()].key@)
    } else {
        None
    }
}

/// The link at entry `i` (id, "KEY (description)"), if that entry is a link.
pub open spec fn entry_link(s: LinkedIssuesSection, i: int) -> Option<(Seq<char>, Seq<char>)> {
    let j = if s.parent is Some {
        i - 1
    } else {
        i
    };
    if s.parent is Some && i == 0 {
        None
    } else if j < s.links@.len() {
        let l = s.links@[j];
        Some((l.link_id@, l.key@ + " ("@ + l.link_description@ + ")"@))
    } else {
        None
    }
}

/// The section with the highlight one entry further down, if not on the last.
pub open spec fn linked_next(s: LinkedIssuesSection) -> LinkedIssuesSection {
    if s.selected < total(s) - 1 {
        LinkedIssuesSection { selected: (s.selected + 1) as usize, ..s }
    } else {
        s
    }
}

/// The section with the highlight one entry further up, if not on the first.
pub open spec fn linked_previous(s: LinkedIssuesSection) -> LinkedIssuesSection {
    if s.selected > 0 {
        LinkedIssuesSection { selected: (s.selected - 1) as usize, ..s }
    } else {
        s
    }
}

/// The section after a key press, with the action it produced.
pub open spec fn linked_step(s: LinkedIssuesSection, key: KeyEvent) -> (LinkedIssuesSection, Option<LinkedIssuesOutcome>) {
    if !s.focused || total(s) == 0 {
        (s, None)
    } else if is_down(key) {
        (if s.expanded {
            linked_next(s)
        } else {
            s
        }, None)
    } else if is_up(key) {
        (if s.expanded {
            linked_previous(s)
        } else {
            s
        }, None)
    } else if pressed(key, KeyCode::Enter) {
        (s, if s.expanded && entry_key(s, s.selected as int) is Some {
            Some(LinkedIssuesOutcome::Navigate(entry_key(s, s.selected as int)->0))
        } else {
            None
        })
    } else if pressed(key, KeyCode::Tab) {
        (LinkedIssuesSection { expanded: !s.expanded, ..s }, None)
    } else if pressed_char(key, 'd') {
        (s, if s.expanded && entry_link(s, s.selected as int) is Some {
            let l = entry_link(s, s.selected as int)->0;
            Some(LinkedIssuesOutcome::Delete(l.0, l.1))
        } else {
            None
        })
    } else {
        (s, None)
    }
}

/// The height before the cap: borders, the parent line, the links under their
/// header, and the subtasks under theirs (after a blank line when links precede);
/// each count is taken modulo 2^16.
pub open spec fn raw_height(s: LinkedIssuesSection) -> int {
    let nl = s.links@.len();
    let ns = s.subtasks@.len();
    2 + (if s.parent is Some {
        1int
    } else {
        0
    }) + (if nl > 0 {
        1 + (nl as u16) as int
    } else {
        0
    }) + (if ns > 0 {
        (if nl > 0 {
            1int
        } else {
            0
        }) + 1 + (ns as u16) as int
    } else {
        0
    })
}

impl LinkedIssuesSection {
    /// A section for the given links, subtasks and parent, expanded, not focused,
    /// with the first entry highlighted.
    pub fn new(links: &[IssueLink], subtasks: &[Subtask], parent: Option<ParentIssue>) -> (s: LinkedIssuesSection)
        ensures
            s.links@ == display_links(links@),
            s.subtasks@ == subtasks@,
            s.parent == parent,
            s.selected == 0,
            s.expanded,
            !s.focused,
    {
        let mut shown: Vec<DisplayLink> = Vec::new();
        let mut i: usize = 0;
        while i < links.len()
            invariant
                i <= links@.len(),
                shown@ == display_links(links@.take(i as int)),
            decreases links.len() - i,
        {
            let l = &links[i];
            match &l.inward_issue {
                Some(inward) => {
                    shown.push(
                        DisplayLink {
                            link_id: l.id.clone(),
                            key: inward.key.clone(),
                            summary: inward.fields.summary.clone(),
                            status: inward.fields.status.clone(),
                            link_description: l.link_type.inward.clone(),
                            direction: LinkDirection::Inward,
                        },
                    );
                },
                None => {
                    match &l.outward_issue {
                        Some(outward) => {
                            shown.push(
                                DisplayLink {
                                    link_id: l.id.clone(),
                                    key: outward.key.clone(),
                                    summary: outward.fields.summary.clone(),
                                    status: outward.fields.status.clone(),
                                    link_description: l.link_type.outward.clone(),
                                    direction: LinkDirection::Outward,
                                },
                            );
                        },
                        None => {},
                    }
                },
            }
            proof {
                assert(links@.take(i + 1).drop_last() =~= links@.take(i as int));
            }
            i += 1;
        }
        proof {
            assert(links@.take(links@.len() as int) =~= links@);
        }
        let mut subs: Vec<Subtask> = Vec::new();
        let mut k: usize = 0;
        while k < subtasks.len()
            invariant
                k <= subtasks@.len(),
                subs@ == subtasks@.take(k as int),
            decreases subtasks.len() - k,
        {
            subs.push(subtasks[k].clone());
            proof {
                assert(subs@ =~= subtasks@.take(k + 1));
            }
            k += 1;
        }
        proof {
            assert(subtasks@.take(subtasks@.len() as int) =~= subtasks@);
        }
        LinkedIssuesSection { links: shown, subtasks: subs, parent, selected: 0, expanded: true, focused: false }
    }

    /// A section with nothing in it.
    pub fn empty() -> (s: LinkedIssuesSection)
        ensures
            s.links@.len() == 0,
            s.subtasks@.len() == 0,
            s.parent is None,
            s.selected == 0,
            s.expanded,
            !s.focused,
    {
        LinkedIssuesSection {
            links: Vec::new(),
            subtasks: Vec::new(),
            parent: None,
            selected: 0,
            expanded: true,
            focused: false,
        }
    }

    /// The number of entries: the parent, the links and the subtasks.
    pub fn total_items(&self) -> (n: usize)
        requires
            counts_fit(*self),
        ensures
            n == total(*self),
    {
        let parent_count: usize = if self.parent.is_some() {
            1
        } else {
            0
        };
        parent_count + self.links.len() + self.subtasks.len()
    }

    /// Whether the section has no entries.
    pub fn is_empty(&self) -> (b: bool)
        requires
            counts_fit(*self),
        ensures
            b == (total(*self) == 0),
    {
        self.total_items() == 0
    }

    /// Whether the section is expanded.
    pub fn is_expanded(&self) -> (b: bool)
        ensures
            b == self.expanded,
    {
        self.expanded
    }

    /// Expand a collapsed section, collapse an expanded one.
    pub fn toggle_expand(&mut self)
        ensures
            *final(self) == (LinkedIssuesSection { expanded: !old(self).expanded, ..*old(self) }),
    {
        self.expanded = !self.expanded;
    }

    /// Give or take the focus.
    pub fn set_focused(&mut self, focused: bool)
        ensures
            *final(self) == (LinkedIssuesSection { focused, ..*old(self) }),
    {
        self.focused = focused;
    }

    /// Whether the section has the focus.
    pub fn is_focused(&self) -> (b: bool)
        ensures
            b == self.focused,
    {
        self.focused
    }

    /// Index of the highlighted entry.
    pub fn selected(&self) -> (i: usize)
        ensures
            i == self.selected,
    {
        self.selected
    }

    /// Move the highlight one entry down, unless on the last.
    pub fn select_next(&mut self)
        requires
            counts_fit(*old(self)),
        ensures
            *final(self) == linked_next(*old(self)),
    {
        if self.selected < self.total_items().saturating_sub(1) {
            self.selected = self.selected + 1;
        }
    }

    /// Move the highlight one entry up, unless on the first.
    pub fn select_previous(&mut self)
        ensures
            *final(self) == linked_previous(*old(self)),
    {
        if self.selected > 0 {
            self.selected = self.selected - 1;
        }
    }

    /// The key of the highlighted issue.
    pub fn selected_key(&self) -> (k: Option<String>)
        ensures
            k is Some <==> entry_key(*self, self.selected as int) is Some,
            k is Some ==> k->0@ == entry_key(*self, self.selected as int)->0,
    {
        let mut index = self.selected;
        if let Some(parent) = &self.parent {
            if index == 0 {
                return Some(parent.key.clone());
            }
            index = index - 1;
        }
        if index < self.links.len() {
            return Some(self.links[index].key.clone());
        }
        index = index - self.links.len();
        if index < self.subtasks.len() {
            return Some(self.subtasks[index].key.clone());
        }
        None
    }

    /// The highlighted link: its id and "KEY (description)" for the confirmation;
    /// `None` when the parent or a subtask is highlighted.
    pub fn selected_link(&self) -> (r: Option<(String, String)>)
        ensures
            r is Some <==> entry_link(*self, self.selected as int) is Some,
            r matches Some((id, d)) ==> (id@, d@) == entry_link(*self, self.selected as int)->0,
    {
        let mut index = self.selected;
        if self.parent.is_some() {
            if index == 0 {
                return None;
            }
            index = index - 1;
        }
        if index < self.links.len() {
            let link = &self.links[index];
            let description = concat4(link.key.as_str(), " (", link.link_description.as_str(), ")");
            return Some((link.link_id.clone(), description));
        }
        None
    }

    /// Handle a key press (see the module documentation); nothing happens unless
    /// the section is focused and has entries.
    pub fn handle_input(&mut self, key: KeyEvent) -> (r: Option<LinkedIssuesAction>)
        requires
            counts_fit(*old(self)),
        ensures
            (*final(self), linked_outcome(r)) == linked_step(*old(self), key),
    {
        if !self.focused || self.is_empty() {
            return None;
        }
        if key_is_down(key) {
            if self.expanded {
                self.select_next();
            }
            return None;
        }
        if key_is_up(key) {
            if self.expanded {
                self.select_previous();
            }
            return None;
        }
        match (key.code, key.modifiers) {
            (KeyCode::Enter, KeyModifiers::NONE) => {
                if self.expanded {
                    match self.selected_key() {
                        Some(k) => Some(LinkedIssuesAction::Navigate(k)),
                        None => None,
                    }
                } else {
                    None
                }
            },
            (KeyCode::Tab, KeyModifiers::NONE) => {
                self.toggle_expand();
                None
            },
            (KeyCode::Char('d'), KeyModifiers::NONE) => {
                if self.expanded {
                    match self.selected_link() {
                        Some((link_id, description)) => Some(LinkedIssuesAction::Delete(link_id, description)),
                        None => None,
                    }
                } else {
                    None
                }
            },
            _ => None,
        }
    }

    /// Rows needed to draw the section: 0 when empty, 3 when collapsed, else the
    /// raw height capped at 15.
    pub fn height(&self) -> (h: u16)
        requires
            counts_fit(*self),
            raw_height(*self) <= u16::MAX,
        ensures
            total(*self) == 0 ==> h == 0,
            total(*self) != 0 && !self.expanded ==> h == 3,
            total(*self) != 0 && self.expanded ==> h == (if raw_height(*self) < 15 {
                raw_height(*self)
            } else {
                15
            }),
    {
        if self.is_empty() {
            return 0;
        }
        if !self.expanded {
            return 3;
        }
        let mut height: u16 = 2;
        if self.parent.is_some() {
            height = height + 1;
        }
        if self.links.len() > 0 {
            height = height + 1;
            height = height + self.links.len() as u16;
        }
        if self.subtasks.len() > 0 {
            if self.links.len() > 0 {
                height = height + 1;
            }
            height = height + 1;
            height = height + self.subtasks.len() as u16;
        }
        if height < 15 {
            height
        } else {
            15
        }
    }
}

impl Default for LinkedIssuesSection {
    fn default() -> (s: LinkedIssuesSection)
        ensures
            s.links@.len() == 0,
            s.subtasks@.len() == 0,
            s.parent is None,
            s.selected == 0,
            s.expanded,
            !s.focused,
    {
        LinkedIssuesSection::empty()
    }
}


/// Moving the highlight down and back up returns to the same entry, when it was
/// not on the last one.
pub proof fn law_next_then_previous(s: LinkedIssuesSection)
    requires
        counts_fit(s),
        s.selected < total(s) - 1,
    ensures
        linked_previous(linked_next(s)) == s,
{
}

/// Moving the highlight keeps it on an entry.
pub proof fn law_navigation_in_range(s: LinkedIssuesSection)
    requires
        s.selected < total(s),
    ensures
        linked_next(s).selected < total(s),
        linked_previous(s).selected < total(s),
{
}

} // verus!
