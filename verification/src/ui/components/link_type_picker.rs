//! The link manager: lists an issue's parent, links and subtasks, and starts the
//! creation of new links.
//!
//! In view mode j/k move over the entries (skipping the section headers), Enter
//! opens the highlighted issue, `c` or `n` starts a new link, `d` asks to delete
//! the highlighted link and Esc or q close. In link type mode j/k move over the
//! two directions of each link type, Enter picks one, and Esc or q go back to
//! view mode (or close, when there is nothing to view).
use vstd::prelude::*;

use crate::api::types::{status_done, IssueLink, IssueLinkType, ParentIssue, Status, Subtask};
use crate::events::key::{is_down, is_up, key_is_down, key_is_up, pressed, pressed_char, KeyCode, KeyEvent, KeyModifiers};
use crate::text::{concat3, concat4};

verus! {

/// Action resulting from link manager input.
#[derive(Debug, Clone, PartialEq)]
pub enum LinkManagerAction {
    /// Open the issue with this key.
    Navigate(String),
    /// Delete a link (link id, description for the confirmation).
    Delete(String, String),
    /// Start creating a new link: the caller fetches the link types.
    CreateNew,
    /// A link type was chosen for the new link (the type, whether the current
    /// issue is its outward end).
    SelectLinkType(IssueLinkType, bool),
    /// The manager was closed.
    Cancel,
}

/// An action as data.
pub enum LinkManagerOutcome {
    /// Open the issue with this key.
    Navigate(Seq<char>),
    /// Delete a link (link id, description).
    Delete(Seq<char>, Seq<char>),
    /// Start creating a new link.
    CreateNew,
    /// A link type was chosen (the type, whether outward).
    SelectLinkType(IssueLinkType, bool),
    /// The manager was closed.
    Cancel,
}

/// The data of an action.
pub open spec fn manager_outcome(a: Option<LinkManagerAction>) -> Option<LinkManagerOutcome> {
    match a {
        None => None,
        Some(LinkManagerAction::Navigate(k)) => Some(LinkManagerOutcome::Navigate(k@)),
        Some(LinkManagerAction::Delete(id, d)) => Some(LinkManagerOutcome::Delete(id@, d@)),
        Some(LinkManagerAction::CreateNew) => Some(LinkManagerOutcome::CreateNew),
        Some(LinkManagerAction::SelectLinkType(t, o)) => Some(LinkManagerOutcome::SelectLinkType(t, o)),
        Some(LinkManagerAction::Cancel) => Some(LinkManagerOutcome::Cancel),
    }
}

/// Mode of the link manager.
#[derive(Debug, Clone, Copy, PartialEq, Eq, Structural)]
pub enum LinkManagerMode {
    /// Viewing the existing links.
    ViewLinks,
    /// Choosing the type of a new link.
    SelectLinkType,
}

/// Direction of a link, seen from the current issue.
#[derive(Debug, Clone, Copy, PartialEq, Eq, Structural)]
pub enum LinkDirection {
    /// The other issue acts on this one (an inward link).
    Inward,
    /// This issue acts on the other one (an outward link).
    Outward,
}

/// An entry of the view mode list.
#[derive(Debug, Clone)]
pub enum LinkItem {
    /// The parent issue (no link to delete).
    Parent { key: String, summary: String, status: Status },
    /// A linked issue.
    Link {
        link_id: String,
        key: String,
        summary: String,
        status: Status,
        link_description: String,
        direction: LinkDirection,
    },
    /// A subtask (no link to delete).
    Subtask { key: String, summary: String, status: Status, is_done: bool },
    /// A section header, which cannot be highlighted.
    Header(String),
}

/// An entry as data.
pub enum ItemView {
    /// The parent issue.
    Parent { key: Seq<char>, summary: Seq<char>, status: Status },
    /// A linked issue.
    Link {
        link_id: Seq<char>,
        key: Seq<char>,
        summary: Seq<char>,
        status: Status,
        link_description: Seq<char>,
        direction: LinkDirection,
    },
    /// A subtask.
    Subtask { key: Seq<char>, summary: Seq<char>, status: Status, is_done: bool },
    /// A section header.
    Header(Seq<char>),
}

/// The data of an entry.
pub open spec fn item_view(i: LinkItem) -> ItemView {
    match i {
        LinkItem::Parent { key, summary, status } => ItemView::Parent { key: key@, summary: summary@, status },
        LinkItem::Link { link_id, key, summary, status, link_description, direction } => ItemView::Link {
            link_id: link_id@,
            key: key@,
            summary: summary@,
            status,
            link_description: link_description@,
            direction,
        },
        LinkItem::Subtask { key, summary, status, is_done } => ItemView::Subtask {
            key: key@,
            summary: summary@,
            status,
            is_done,
        },
        LinkItem::Header(t) => ItemView::Header(t@),
    }
}

/// Whether an entry can be highlighted (every entry but a header).
pub open spec fn selectable(i: ItemView) -> bool {
    !(i is Header)
}

/// The key of the issue an entry stands for.
pub open spec fn item_key(i: ItemView) -> Option<Seq<char>> {
    match i {
        ItemView::Parent { key, .. } => Some(key),
        ItemView::Link { key, .. } => Some(key),
        ItemView::Subtask { key, .. } => Some(key),
        ItemView::Header(_) => None,
    }
}

/// The id of a link entry and its description "KEY (wording)".
pub open spec fn item_link_info(i: ItemView) -> Option<(Seq<char>, Seq<char>)> {
    match i {
        ItemView::Link { link_id, key, link_description, .. } => Some(
            (link_id, key + " ("@ + link_description + ")"@),
        ),
        _ => None,
    }
}

/// One direction of a link type, as offered in link type mode.
#[derive(Debug, Clone)]
pub struct LinkTypeItem {
    /// The link type.
    pub link_type: IssueLinkType,
    /// The text shown ("This issue blocks ...").
    pub display: String,
    /// Whether choosing it makes the current issue the outward end.
    pub is_outward: bool,
}

/// The link manager.
#[derive(Debug)]
pub struct LinkManager {
    /// View mode or link type mode.
    pub mode: LinkManagerMode,
    /// Entries of view mode.
    pub items: Vec<LinkItem>,
    /// Entries of link type mode.
    pub link_type_items: Vec<LinkTypeItem>,
    /// Highlighted entry of view mode.
    pub selected: usize,
    /// Highlighted entry of link type mode.
    pub link_type_selected: usize,
    /// Whether the manager is visible.
    pub visible: bool,
    /// Whether link types are being loaded.
    pub loading: bool,
}

/// The manager as data.
pub struct ManagerState {
    /// View mode or link type mode.
    pub mode: LinkManagerMode,
    /// Entries of view mode.
    pub items: Seq<ItemView>,
    /// Entries of link type mode: the type, the text shown, whether outward.
    pub link_types: Seq<(IssueLinkType, Seq<char>, bool)>,
    /// Highlighted entry of view mode.
    pub selected: int,
    /// Highlighted entry of link type mode.
    pub link_type_selected: int,
    /// Whether the manager is visible.
    pub visible: bool,
    /// Whether link types are being loaded.
    pub loading: bool,
}

impl View for LinkManager {
    type V = ManagerState;

    open spec fn view(&self) -> ManagerState {
        ManagerState {
            mode: self.mode,
            items: self.items@.map_values(|i: LinkItem| item_view(i)),
            link_types: self.link_type_items@.map_values(
                |t: LinkTypeItem| (t.link_type, t.display@, t.is_outward),
            ),
            selected: self.selected as int,
            link_type_selected: self.link_type_selected as int,
            visible: self.visible,
            loading: self.loading,
        }
    }
}

/// The entry shown for a link: through its inward issue if it has one, else its
/// outward issue; a link with neither is not shown.
pub open spec fn link_entry(l: IssueLink) -> Option<ItemView> {
    match l.inward_issue {
        Some(i) => Some(
            ItemView::Link {
                link_id: l.id@,
                key: i.key@,
                summary: i.fields.summary@,
                status: i.fields.status,
                link_description: l.link_type.inward@,
                direction: LinkDirection::Inward,
            },
        ),
        None => match l.outward_issue {
            Some(o) => Some(
                ItemView::Link {
                    link_id: l.id@,
                    key: o.key@,
                    summary: o.fields.summary@,
                    status: o.fields.status,
                    link_description: l.link_type.outward@,
                    direction: LinkDirection::Outward,
                },
            ),
            None => None,
        },
    }
}

/// The entries shown for the links, in order.
pub open spec fn link_entries(ls: Seq<IssueLink>) -> Seq<ItemView>
    decreases ls.len(),
{
    if ls.len() == 0 {
        Seq::empty()
    } else {
        let rest = link_entries(ls.drop_last());
        match link_entry(ls.last()) {
            Some(e) => rest.push(e),
            None => rest,
        }
    }
}

/// The entry shown for a subtask.
pub open spec fn subtask_entry(st: Subtask) -> ItemView {
    ItemView::Subtask {
        key: st.key@,
        summary: st.fields.summary@,
        status: st.fields.status,
        is_done: status_done(st.fields.status),
    }
}

/// The entries of view mode: the parent, then the links under a "Linked Issues"
/// header, then the subtasks under a "Subtasks" header; an empty section has no
/// header.
pub open spec fn view_entries(links: Seq<IssueLink>, subtasks: Seq<Subtask>, parent: Option<ParentIssue>) -> Seq<ItemView> {
    let p: Seq<ItemView> = match parent {
        Some(p) => seq![ItemView::Parent { key: p.key@, summary: p.fields.summary@, status: p.fields.status }],
        None => Seq::empty(),
    };
    let ls = link_entries(links);
    let l: Seq<ItemView> = if ls.len() > 0 {
        seq![ItemView::Header("Linked Issues"@)] + ls
    } else {
        Seq::empty()
    };
    let s: Seq<ItemView> = if subtasks.len() > 0 {
        seq![ItemView::Header("Subtasks"@)] + subtasks.map_values(|st: Subtask| subtask_entry(st))
    } else {
        Seq::empty()
    };
    p + l + s
}

/// Whether `k` is the first entry that can be highlighted, or 0 when none can.
pub open spec fn is_first_selectable(items: Seq<ItemView>, k: int) -> bool {
    ||| (0 <= k < items.len() && selectable(items[k]) && forall|j: int| 0 <= j < k ==> !selectable(items[j]))
    ||| (k == 0 && forall|j: int| 0 <= j < items.len() ==> !selectable(items[j]))
}

/// The entries of link type mode for the given types: for each, first the outward
/// direction, then the inward one.
pub open spec fn type_entries(lts: Seq<IssueLinkType>) -> Seq<(IssueLinkType, Seq<char>, bool)>
    decreases lts.len(),
{
    if lts.len() == 0 {
        Seq::empty()
    } else {
        let t = lts.last();
        type_entries(lts.drop_last()).push((t, "This issue "@ + t.outward@ + " ..."@, true)).push(
            (t, "This issue "@ + t.inward@ + " ..."@, false),
        )
    }
}

/// The first entry at or after `i` that can be highlighted.
pub open spec fn next_selectable(items: Seq<ItemView>, i: int) -> Option<int>
    decreases items.len() - i,
{
    if i < 0 || i >= items.len() {
        None
    } else if selectable(items[i]) {
        Some(i)
    } else {
        next_selectable(items, i + 1)
    }
}

/// The last entry at or before `i` that can be highlighted.
pub open spec fn previous_selectable(items: Seq<ItemView>, i: int) -> Option<int>
    decreases i + 1,
{
    if i < 0 || i >= items.len() {
        None
    } else if selectable(items[i]) {
        Some(i)
    } else {
        previous_selectable(items, i - 1)
    }
}

/// The number of entries that can be highlighted.
pub open spec fn count_selectable(items: Seq<ItemView>) -> nat
    decreases items.len(),
{
    if items.len() == 0 {
        0
    } else {
        count_selectable(items.drop_last()) + if selectable(items.last()) {
            1nat
        } else {
            0
        }
    }
}

/// The manager hidden, back in view mode.
pub open spec fn manager_closed(s: ManagerState) -> ManagerState {
    ManagerState { visible: false, loading: false, mode: LinkManagerMode::ViewLinks, ..s }
}

/// The highlight on the next entry that can be highlighted, if any.
pub open spec fn manager_next(s: ManagerState) -> ManagerState {
    match next_selectable(s.items, s.selected + 1) {
        Some(k) => ManagerState { selected: k, ..s },
        None => s,
    }
}

/// The highlight on the previous entry that can be highlighted, if any.
pub open spec fn manager_previous(s: ManagerState) -> ManagerState {
    if s.selected == 0 {
        s
    } else {
        match previous_selectable(s.items, s.selected - 1) {
            Some(k) => ManagerState { selected: k, ..s },
            None => s,
        }
    }
}

/// The keys on which the manager would fail: moving up from beyond the entries,
/// or down from the largest index.
pub open spec fn manager_key_fails(s: ManagerState, key: KeyEvent) -> bool {
    &&& s.visible
    &&& !s.loading
    &&& s.mode == LinkManagerMode::ViewLinks
    &&& ((is_up(key) && s.selected > s.items.len()) || (is_down(key) && s.items.len() > 0
        && s.selected == usize::MAX))
}

/// The manager after a key press, with the action it produced.
pub open spec fn manager_step(s: ManagerState, key: KeyEvent) -> (ManagerState, Option<LinkManagerOutcome>) {
    if !s.visible {
        (s, None)
    } else if s.loading {
        if key.code == KeyCode::Esc {
            (manager_closed(s), Some(LinkManagerOutcome::Cancel))
        } else {
            (s, None)
        }
    } else if s.mode == LinkManagerMode::ViewLinks {
        if is_down(key) {
            (manager_next(s), None)
        } else if is_up(key) {
            (manager_previous(s), None)
        } else if pressed(key, KeyCode::Enter) {
            if s.selected < s.items.len() && item_key(s.items[s.selected]) is Some {
                (manager_closed(s), Some(LinkManagerOutcome::Navigate(item_key(s.items[s.selected])->0)))
            } else {
                (s, None)
            }
        } else if pressed_char(key, 'c') || pressed_char(key, 'n') {
            (s, Some(LinkManagerOutcome::CreateNew))
        } else if pressed_char(key, 'd') {
            if s.selected < s.items.len() && item_link_info(s.items[s.selected]) is Some {
                let info = item_link_info(s.items[s.selected])->0;
                (manager_closed(s), Some(LinkManagerOutcome::Delete(info.0, info.1)))
            } else {
                (s, None)
            }
        } else if pressed(key, KeyCode::Esc) || pressed_char(key, 'q') {
            (manager_closed(s), Some(LinkManagerOutcome::Cancel))
        } else {
            (s, None)
        }
    } else {
        if is_down(key) {
            (if s.link_types.len() > 0 && s.link_type_selected < s.link_types.len() - 1 {
                ManagerState { link_type_selected: s.link_type_selected + 1, ..s }
            } else {
                s
            }, None)
        } else if is_up(key) {
            (if s.link_type_selected > 0 {
                ManagerState { link_type_selected: s.link_type_selected - 1, ..s }
            } else {
                s
            }, None)
        } else if pressed(key, KeyCode::Enter) {
            if s.link_type_selected < s.link_types.len() {
                let t = s.link_types[s.link_type_selected];
                (manager_closed(s), Some(LinkManagerOutcome::SelectLinkType(t.0, t.2)))
            } else {
                (s, None)
            }
        } else if pressed(key, KeyCode::Esc) || pressed_char(key, 'q') {
            if s.items.len() > 0 {
                (ManagerState { mode: LinkManagerMode::ViewLinks, ..s }, None)
            } else {
                (manager_closed(s), Some(LinkManagerOutcome::Cancel))
            }
        } else {
            (s, None)
        }
    }
}

/// The entry shown for a link, if it is shown.
fn make_link_entry(l: &IssueLink) -> (e: Option<LinkItem>)
    ensures
        e is Some <==> link_entry(*l) is Some,
        e is Some ==> item_view(e->0) == link_entry(*l)->0,
{
    match &l.inward_issue {
        Some(inward) => Some(
            LinkItem::Link {
                link_id: l.id.clone(),
                key: inward.key.clone(),
                summary: inward.fields.summary.clone(),
                status: inward.fields.status.clone(),
                link_description: l.link_type.inward.clone(),
                direction: LinkDirection::Inward,
            },
        ),
        None => match &l.outward_issue {
            Some(outward) => Some(
                LinkItem::Link {
                    link_id: l.id.clone(),
                    key: outward.key.clone(),
                    summary: outward.fields.summary.clone(),
                    status: outward.fields.status.clone(),
                    link_description: l.link_type.outward.clone(),
                    direction: LinkDirection::Outward,
                },
            ),
            None => None,
        },
    }
}

impl LinkManager {
    /// A hidden manager with nothing in it.
    pub fn new() -> (m: LinkManager)
        ensures
            m@ == (ManagerState {
                mode: LinkManagerMode::ViewLinks,
                items: Seq::empty(),
                link_types: Seq::empty(),
                selected: 0,
                link_type_selected: 0,
                visible: false,
                loading: false,
            }),
    {
        let m = LinkManager {
            mode: LinkManagerMode::ViewLinks,
            items: Vec::new(),
            link_type_items: Vec::new(),
            selected: 0,
            link_type_selected: 0,
            visible: false,
            loading: false,
        };
        proof {
            assert(m@.items =~= Seq::empty());
            assert(m@.link_types =~= Seq::empty());
        }
        m
    }

    /// Whether the manager is visible.
    pub fn is_visible(&self) -> (b: bool)
        ensures
            b == self.visible,
    {
        self.visible
    }

    /// Whether link types are being loaded.
    pub fn is_loading(&self) -> (b: bool)
        ensures
            b == self.loading,
    {
        self.loading
    }

    /// Show link type mode while the link types load.
    pub fn show_loading(&mut self)
        ensures
            final(self)@ == (ManagerState {
                link_types: Seq::empty(),
                link_type_selected: 0,
                loading: true,
                mode: LinkManagerMode::SelectLinkType,
                visible: true,
                ..old(self)@
            }),
    {
        self.link_type_items = Vec::new();
        self.link_type_selected = 0;
        self.loading = true;
        self.mode = LinkManagerMode::SelectLinkType;
        self.visible = true;
        proof {
            assert(self@.link_types =~= Seq::empty());
        }
    }

    /// Show view mode with the entries of the given issue, the first entry that
    /// can be highlighted highlighted.
    pub fn show(&mut self, links: &[IssueLink], subtasks: &[Subtask], parent: Option<&ParentIssue>)
        ensures
            final(self)@.items == view_entries(
                links@,
                subtasks@,
                match parent {
                    Some(p) => Some(*p),
                    None => None,
                },
            ),
            is_first_selectable(final(self)@.items, final(self)@.selected),
            final(self)@.mode == LinkManagerMode::ViewLinks,
            !final(self)@.loading,
            final(self)@.visible,
            final(self)@.link_types == old(self)@.link_types,
            final(self)@.link_type_selected == old(self)@.link_type_selected,
    {
        let mut items: Vec<LinkItem> = Vec::new();
        let ghost pv: Seq<ItemView> = match parent {
            Some(p) => seq![ItemView::Parent { key: p.key@, summary: p.fields.summary@, status: p.fields.status }],
            None => Seq::empty(),
        };
        if let Some(p) = parent {
            items.push(
                LinkItem::Parent {
                    key: p.key.clone(),
                    summary: p.fields.summary.clone(),
                    status: p.fields.status.clone(),
                },
            );
        }
        proof {
            assert(items@.map_values(|i: LinkItem| item_view(i)) =~= pv);
        }
        let mut shown: Vec<LinkItem> = Vec::new();
        let mut i: usize = 0;
        while i < links.len()
            invariant
                i <= links@.len(),
                shown@.map_values(|x: LinkItem| item_view(x)) == link_entries(links@.take(i as int)),
            decreases links.len() - i,
        {
            let e = make_link_entry(&links[i]);
            match e {
                Some(item) => {
                    shown.push(item);
                },
                None => {},
            }
            proof {
                assert(links@.take(i + 1).drop_last() =~= links@.take(i as int));
                assert(shown@.map_values(|x: LinkItem| item_view(x)) =~= link_entries(
                    links@.take(i + 1),
                ));
            }
            i += 1;
        }
        proof {
            assert(links@.take(links@.len() as int) =~= links@);
        }
        let ghost lv = link_entries(links@);
        if shown.len() > 0 {
            items.push(LinkItem::Header(String::from_str("Linked Issues")));
            let mut k: usize = 0;
            let ghost before = items@.map_values(|x: LinkItem| item_view(x));
            while k < shown.len()
                invariant
                    k <= shown@.len(),
                    items@.map_values(|x: LinkItem| item_view(x)) == before + lv.take(k as int),
                    shown@.map_values(|x: LinkItem| item_view(x)) == lv,
                decreases shown.len() - k,
            {
                let ghost old_m = items@.map_values(|x: LinkItem| item_view(x));
                let c = shown[k].clone_item();
                items.push(c);
                proof {
                    assert(item_view(c) == shown@.map_values(|x: LinkItem| item_view(x))[k as int]);
                    assert(items@.map_values(|x: LinkItem| item_view(x)) =~= old_m.push(item_view(c)));
                    assert(lv.take(k + 1) =~= lv.take(k as int).push(lv[k as int]));
                    assert(items@.map_values(|x: LinkItem| item_view(x)) =~= before + lv.take(k + 1));
                }
                k += 1;
            }
            proof {
                assert(lv.take(lv.len() as int) =~= lv);
                assert(before =~= pv + seq![ItemView::Header("Linked Issues"@)]);
                assert(items@.map_values(|x: LinkItem| item_view(x)) =~= pv + (seq![
                    ItemView::Header("Linked Issues"@),
                ] + lv));
            }
        }
        let ghost after_links = items@.map_values(|x: LinkItem| item_view(x));
        if subtasks.len() > 0 {
            items.push(LinkItem::Header(String::from_str("Subtasks")));
            let mut k: usize = 0;
            let ghost before = items@.map_values(|x: LinkItem| item_view(x));
            while k < subtasks.len()
                invariant
                    k <= subtasks@.len(),
                    items@.map_values(|x: LinkItem| item_view(x)) == before + subtasks@.take(
                        k as int,
                    ).map_values(|st: Subtask| subtask_entry(st)),
                decreases subtasks.len() - k,
            {
                let st = &subtasks[k];
                let ghost old_m = items@.map_values(|x: LinkItem| item_view(x));
                let e = LinkItem::Subtask {
                    key: st.key.clone(),
                    summary: st.fields.summary.clone(),
                    status: st.fields.status.clone(),
                    is_done: st.fields.status.is_done(),
                };
                items.push(e);
                proof {
                    assert(item_view(e) == subtask_entry(subtasks@[k as int]));
                    assert(items@.map_values(|x: LinkItem| item_view(x)) =~= old_m.push(item_view(e)));
                    assert(subtasks@.take(k + 1).map_values(|st: Subtask| subtask_entry(st))
                        =~= subtasks@.take(k as int).map_values(|st: Subtask| subtask_entry(st)).push(
                        subtask_entry(subtasks@[k as int]),
                    ));
                    assert(items@.map_values(|x: LinkItem| item_view(x)) =~= before + subtasks@.take(
                        k + 1,
                    ).map_values(|st: Subtask| subtask_entry(st)));
                }
                k += 1;
            }
            proof {
                assert(subtasks@.take(subtasks@.len() as int) =~= subtasks@);
                assert(items@.map_values(|x: LinkItem| item_view(x)) =~= after_links + (seq![
                    ItemView::Header("Subtasks"@),
                ] + subtasks@.map_values(|st: Subtask| subtask_entry(st))));
            }
        } else {
            proof {
                assert(after_links =~= after_links + Seq::<ItemView>::empty());
            }
        }
        proof {
            let ls: Seq<ItemView> = if lv.len() > 0 {
                seq![ItemView::Header("Linked Issues"@)] + lv
            } else {
                Seq::empty()
            };
            assert(after_links =~= pv + ls);
        }
        let mut first: usize = 0;
        let mut j: usize = 0;
        while j < items.len()
            invariant_except_break
                j <= items@.len(),
                first == 0,
                forall|m: int| 0 <= m < j ==> !selectable(#[trigger] item_view(items@[m])),
            ensures
                is_first_selectable(items@.map_values(|x: LinkItem| item_view(x)), first as int),
            decreases items.len() - j,
        {
            if items[j].is_selectable() {
                first = j;
                break;
            }
            j += 1;
        }
        self.items = items;
        self.selected = first;
        self.mode = LinkManagerMode::ViewLinks;
        self.loading = false;
        self.visible = true;
    }

    /// Offer both directions of each link type, the first highlighted.
    pub fn set_link_types(&mut self, link_types: Vec<IssueLinkType>)
        ensures
            final(self)@ == (ManagerState {
                link_types: type_entries(link_types@),
                link_type_selected: 0,
                loading: false,
                ..old(self)@
            }),
    {
        let mut entries: Vec<LinkTypeItem> = Vec::new();
        let mut i: usize = 0;
        while i < link_types.len()
            invariant
                i <= link_types@.len(),
                entries@.map_values(|t: LinkTypeItem| (t.link_type, t.display@, t.is_outward))
                    == type_entries(link_types@.take(i as int)),
            decreases link_types.len() - i,
        {
            let lt = &link_types[i];
            entries.push(
                LinkTypeItem {
                    display: concat3("This issue ", lt.outward.as_str(), " ..."),
                    link_type: lt.clone(),
                    is_outward: true,
                },
            );
            entries.push(
                LinkTypeItem {
                    display: concat3("This issue ", lt.inward.as_str(), " ..."),
                    link_type: lt.clone(),
                    is_outward: false,
                },
            );
            proof {
                assert(link_types@.take(i + 1).drop_last() =~= link_types@.take(i as int));
                assert(entries@.map_values(|t: LinkTypeItem| (t.link_type, t.display@, t.is_outward))
                    =~= type_entries(link_types@.take(i + 1)));
            }
            i += 1;
        }
        proof {
            assert(link_types@.take(link_types@.len() as int) =~= link_types@);
        }
        self.link_type_items = entries;
        self.link_type_selected = 0;
        self.loading = false;
    }

    /// Switch to link type mode, the first entry highlighted.
    pub fn start_link_type_selection(&mut self)
        ensures
            final(self)@ == (ManagerState {
                mode: LinkManagerMode::SelectLinkType,
                link_type_selected: 0,
                ..old(self)@
            }),
    {
        self.mode = LinkManagerMode::SelectLinkType;
        self.link_type_selected = 0;
    }

    /// Close (hide) the manager, back in view mode.
    pub fn close(&mut self)
        ensures
            final(self)@ == manager_closed(old(self)@),
    {
        self.visible = false;
        self.loading = false;
        self.mode = LinkManagerMode::ViewLinks;
    }

    /// The number of entries that can be highlighted.
    pub fn selectable_count(&self) -> (n: usize)
        ensures
            n == count_selectable(self@.items),
    {
        let mut n: usize = 0;
        let mut i: usize = 0;
        while i < self.items.len()
            invariant
                i <= self.items@.len(),
                n == count_selectable(self@.items.take(i as int)),
                n <= i,
            decreases self.items.len() - i,
        {
            if self.items[i].is_selectable() {
                n = n + 1;
            }
            proof {
                assert(self@.items.take(i + 1).drop_last() =~= self@.items.take(i as int));
            }
            i += 1;
        }
        proof {
            assert(self@.items.take(self@.items.len() as int) =~= self@.items);
        }
        n
    }

    /// Whether there is no entry that can be highlighted.
    pub fn is_empty(&self) -> (b: bool)
        ensures
            b == (count_selectable(self@.items) == 0),
    {
        self.selectable_count() == 0
    }

    fn select_next(&mut self)
        requires
            old(self).items@.len() > 0 ==> old(self).selected < usize::MAX,
        ensures
            final(self)@ == manager_next(old(self)@),
    {
        let len = self.items.len();
        if len == 0 {
            return;
        }
        let mut next = self.selected + 1;
        while next < len
            invariant_except_break
                len == self.items@.len(),
                next_selectable(self@.items, self.selected + 1) == next_selectable(self@.items, next as int),
                self.selected + 1 <= next,
            ensures
                next_selectable(self@.items, self.selected + 1) == (if next < len {
                    Some(next as int)
                } else {
                    None::<int>
                }),
            decreases len - next,
        {
            proof {
                assert(self@.items[next as int] == item_view(self.items@[next as int]));
            }
            if self.items[next].is_selectable() {
                break;
            }
            next += 1;
        }
        if next < len {
            self.selected = next;
        }
    }

    fn select_previous(&mut self)
        requires
            old(self).selected <= old(self).items@.len(),
        ensures
            final(self)@ == manager_previous(old(self)@),
    {
        if self.selected == 0 {
            return;
        }
        let mut prev = self.selected - 1;
        loop
            invariant_except_break
                prev < self.items@.len(),
                previous_selectable(self@.items, self.selected - 1) == previous_selectable(self@.items, prev as int),
            ensures
                previous_selectable(self@.items, self.selected - 1) is Some ==> prev < self.items@.len()
                    && previous_selectable(self@.items, self.selected - 1) == Some(prev as int),
                previous_selectable(self@.items, self.selected - 1) is None ==> prev == usize::MAX,
            decreases prev,
        {
            proof {
                assert(self@.items[prev as int] == item_view(self.items@[prev as int]));
            }
            if self.items[prev].is_selectable() {
                break;
            }
            if prev == 0 {
                assert(previous_selectable(self@.items, -1) is None);
                assert(previous_selectable(self@.items, 0) is None);
                prev = usize::MAX;
                break;
            }
            prev -= 1;
        }
        if prev < self.items.len() {
            self.selected = prev;
        }
    }

    /// Handle a key press (see the module documentation); nothing happens while
    /// hidden, and only Esc while loading.
    pub fn handle_input(&mut self, key: KeyEvent) -> (r: Option<LinkManagerAction>)
        requires
            !manager_key_fails(old(self)@, key),
        ensures
            (final(self)@, manager_outcome(r)) == manager_step(old(self)@, key),
    {
        if !self.visible {
            return None;
        }
        if self.loading {
            if key.code == KeyCode::Esc {
                self.close();
                return Some(LinkManagerAction::Cancel);
            }
            return None;
        }
        match self.mode {
            LinkManagerMode::ViewLinks => self.handle_view_mode_input(key),
            LinkManagerMode::SelectLinkType => self.handle_link_type_selection_input(key),
        }
    }

    /// A key press while the links are listed.
    fn handle_view_mode_input(&mut self, key: KeyEvent) -> (r: Option<LinkManagerAction>)
        requires
            old(self).visible,
            !old(self).loading,
            old(self).mode == LinkManagerMode::ViewLinks,
            !manager_key_fails(old(self)@, key),
        ensures
            (final(self)@, manager_outcome(r)) == manager_step(old(self)@, key),
    {
        if key_is_down(key) {
            self.select_next();
            return None;
        }
        if key_is_up(key) {
            self.select_previous();
            return None;
        }
        match (key.code, key.modifiers) {
            (KeyCode::Enter, KeyModifiers::NONE) => {
                if self.selected < self.items.len() {
                    match self.items[self.selected].key() {
                        Some(k) => {
                            self.close();
                            return Some(LinkManagerAction::Navigate(k));
                        },
                        None => {},
                    }
                }
                None
            },
            (KeyCode::Char('c'), KeyModifiers::NONE) | (KeyCode::Char('n'), KeyModifiers::NONE) => {
                Some(LinkManagerAction::CreateNew)
            },
            (KeyCode::Char('d'), KeyModifiers::NONE) => {
                if self.selected < self.items.len() {
                    match self.items[self.selected].link_info() {
                        Some((link_id, description)) => {
                            self.close();
                            return Some(LinkManagerAction::Delete(link_id, description));
                        },
                        None => {},
                    }
                }
                None
            },
            (KeyCode::Esc, KeyModifiers::NONE) | (KeyCode::Char('q'), KeyModifiers::NONE) => {
                self.close();
                Some(LinkManagerAction::Cancel)
            },
            _ => None,
        }
    }

    /// A key press while a link type is chosen.
    fn handle_link_type_selection_input(&mut self, key: KeyEvent) -> (r: Option<LinkManagerAction>)
        requires
            old(self).visible,
            !old(self).loading,
            old(self).mode == LinkManagerMode::SelectLinkType,
            !manager_key_fails(old(self)@, key),
        ensures
            (final(self)@, manager_outcome(r)) == manager_step(old(self)@, key),
    {
        if key_is_down(key) {
            if self.link_type_items.len() > 0 && self.link_type_selected
                < self.link_type_items.len() - 1 {
                self.link_type_selected = self.link_type_selected + 1;
            }
            return None;
        }
        if key_is_up(key) {
            if self.link_type_selected > 0 {
                self.link_type_selected = self.link_type_selected - 1;
            }
            return None;
        }
        match (key.code, key.modifiers) {
            (KeyCode::Enter, KeyModifiers::NONE) => {
                if self.link_type_selected < self.link_type_items.len() {
                    let item = &self.link_type_items[self.link_type_selected];
                    let result = LinkManagerAction::SelectLinkType(item.link_type.clone(), item.is_outward);
                    self.close();
                    return Some(result);
                }
                None
            },
            (KeyCode::Esc, KeyModifiers::NONE) | (KeyCode::Char('q'), KeyModifiers::NONE) => {
                if self.items.len() > 0 {
                    self.mode = LinkManagerMode::ViewLinks;
                    None
                } else {
                    self.close();
                    Some(LinkManagerAction::Cancel)
                }
            },
            _ => None,
        }
    }
}

impl LinkItem {
    /// Whether the entry can be highlighted (it is not a section header).
    fn is_selectable(&self) -> (b: bool)
        ensures
            b == selectable(item_view(*self)),
    {
        match self {
            LinkItem::Header(_) => false,
            _ => true,
        }
    }

    /// The key of the issue the entry stands for.
    fn key(&self) -> (k: Option<String>)
        ensures
            k is Some <==> item_key(item_view(*self)) is Some,
            k is Some ==> k->0@ == item_key(item_view(*self))->0,
    {
        match self {
            LinkItem::Parent { key, .. } => Some(key.clone()),
            LinkItem::Link { key, .. } => Some(key.clone()),
            LinkItem::Subtask { key, .. } => Some(key.clone()),
            LinkItem::Header(_) => None,
        }
    }

    /// The id of a link entry and its description "KEY (wording)".
    fn link_info(&self) -> (r: Option<(String, String)>)
        ensures
            r is Some <==> item_link_info(item_view(*self)) is Some,
            r matches Some((id, d)) ==> (id@, d@) == item_link_info(item_view(*self))->0,
    {
        match self {
            LinkItem::Link { link_id, key, link_description, .. } => Some(
                (link_id.clone(), concat4(key.as_str(), " (", link_description.as_str(), ")")),
            ),
            _ => None,
        }
    }

    /// A copy of the entry.
    fn clone_item(&self) -> (c: LinkItem)
        ensures
            c == *self,
    {
        match self {
            LinkItem::Parent { key, summary, status } => LinkItem::Parent {
                key: key.clone(),
                summary: summary.clone(),
                status: status.clone(),
            },
            LinkItem::Link { link_id, key, summary, status, link_description, direction } => LinkItem::Link {
                link_id: link_id.clone(),
                key: key.clone(),
                summary: summary.clone(),
                status: status.clone(),
                link_description: link_description.clone(),
                direction: *direction,
            },
            LinkItem::Subtask { key, summary, status, is_done } => LinkItem::Subtask {
                key: key.clone(),
                summary: summary.clone(),
                status: status.clone(),
                is_done: *is_done,
            },
            LinkItem::Header(t) => LinkItem::Header(t.clone()),
        }
    }
}

impl Default for LinkManager {
    fn default() -> (m: LinkManager)
        ensures
            !m@.visible,
            !m@.loading,
            m@.items.len() == 0,
            m@.mode == LinkManagerMode::ViewLinks,
    {
        LinkManager::new()
    }
}

proof fn lemma_next_selectable(items: Seq<ItemView>, i: int)
    ensures
        next_selectable(items, i) matches Some(k) ==> i <= k < items.len() && selectable(items[k]),
    decreases items.len() - i,
{
    if 0 <= i < items.len() && !selectable(items[i]) {
        lemma_next_selectable(items, i + 1);
    }
}

proof fn lemma_previous_selectable(items: Seq<ItemView>, i: int)
    ensures
        previous_selectable(items, i) matches Some(k) ==> 0 <= k <= i && k < items.len() && selectable(items[k]),
    decreases i + 1,
{
    if 0 <= i < items.len() && !selectable(items[i]) {
        lemma_previous_selectable(items, i - 1);
    }
}

/// Moving the highlight never leaves it on a section header: from an entry that
/// can be highlighted it moves to another such entry, or stays.
pub proof fn law_navigation_skips_headers(s: ManagerState)
    requires
        0 <= s.selected < s.items.len(),
        selectable(s.items[s.selected]),
    ensures
        0 <= manager_next(s).selected < s.items.len(),
        selectable(s.items[manager_next(s).selected]),
        manager_next(s).selected >= s.selected,
        0 <= manager_previous(s).selected < s.items.len(),
        selectable(s.items[manager_previous(s).selected]),
        manager_previous(s).selected <= s.selected,
{
    lemma_next_selectable(s.items, s.selected + 1);
    lemma_previous_selectable(s.items, s.selected - 1);
}

} // verus!
