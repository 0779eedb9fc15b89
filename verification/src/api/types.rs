//! Data exchanged with the JIRA REST API.
use vstd::prelude::*;

use crate::text::str_eq;

verus! {

/// A JIRA issue.
#[derive(Debug, Clone)]
pub struct Issue {
    /// The issue key (e.g., "PROJ-123").
    pub key: String,
    /// The issue summary.
    pub summary: String,
    /// The name of the issue's status.
    pub status: String,
}

/// The category of a status (to do, in progress, done).
#[derive(Debug)]
pub struct StatusCategory {
    /// Category id.
    pub id: u64,
    /// Category key: "new", "indeterminate" or "done".
    pub key: String,
    /// Category name.
    pub name: String,
    /// Name of the category's colour.
    pub color_name: Option<String>,
}

/// The status of an issue.
#[derive(Debug)]
pub struct Status {
    /// Status id.
    pub id: String,
    /// Status name.
    pub name: String,
    /// The status category, when known.
    pub status_category: Option<StatusCategory>,
}

impl Clone for StatusCategory {
    fn clone(&self) -> (c: StatusCategory)
        ensures
            c == *self,
    {
        StatusCategory {
            id: self.id,
            key: self.key.clone(),
            name: self.name.clone(),
            color_name: match &self.color_name {
                Some(n) => Some(n.clone()),
                None => None,
            },
        }
    }
}

impl Clone for Status {
    fn clone(&self) -> (s: Status)
        ensures
            s == *self,
    {
        Status {
            id: self.id.clone(),
            name: self.name.clone(),
            status_category: match &self.status_category {
                Some(c) => Some(c.clone()),
                None => None,
            },
        }
    }
}

/// A status is done when its category's key is "done".
pub open spec fn status_done(s: Status) -> bool {
    s.status_category matches Some(c) && c.key@ == "done"@
}

impl Status {
    /// Whether the status is in the "done" category.
    pub fn is_done(&self) -> (b: bool)
        ensures
            b == status_done(*self),
    {
        match &self.status_category {
            Some(c) => str_eq(c.key.as_str(), "done"),
            None => false,
        }
    }
}

/// A type of link between issues, with the wording of both directions.
#[derive(Debug, PartialEq, Eq)]
pub struct IssueLinkType {
    /// Link type id.
    pub id: String,
    /// Link type name (e.g., "Blocks").
    pub name: String,
    /// Wording seen from the inward issue (e.g., "is blocked by").
    pub inward: String,
    /// Wording seen from the outward issue (e.g., "blocks").
    pub outward: String,
}

impl Clone for IssueLinkType {
    fn clone(&self) -> (t: IssueLinkType)
        ensures
            t == *self,
    {
        IssueLinkType {
            id: self.id.clone(),
            name: self.name.clone(),
            inward: self.inward.clone(),
            outward: self.outward.clone(),
        }
    }
}

/// The fields of a linked issue that are shown.
#[derive(Debug, Clone)]
pub struct LinkedIssueFields {
    /// Summary of the linked issue.
    pub summary: String,
    /// Status of the linked issue.
    pub status: Status,
}

/// The issue at the other end of a link.
#[derive(Debug, Clone)]
pub struct LinkedIssue {
    /// Issue id.
    pub id: String,
    /// Issue key.
    pub key: String,
    /// Shown fields.
    pub fields: LinkedIssueFields,
}

/// A link from the current issue to another.
#[derive(Debug, Clone)]
pub struct IssueLink {
    /// Link id.
    pub id: String,
    /// The type of the link.
    pub link_type: IssueLinkType,
    /// The other issue, when the current issue is the outward end.
    pub inward_issue: Option<LinkedIssue>,
    /// The other issue, when the current issue is the inward end.
    pub outward_issue: Option<LinkedIssue>,
}

/// The fields of a subtask that are shown.
#[derive(Debug)]
pub struct SubtaskFields {
    /// Summary of the subtask.
    pub summary: String,
    /// Status of the subtask.
    pub status: Status,
}

/// A subtask of the current issue.
#[derive(Debug)]
pub struct Subtask {
    /// Issue id.
    pub id: String,
    /// Issue key.
    pub key: String,
    /// Shown fields.
    pub fields: SubtaskFields,
}

impl Clone for SubtaskFields {
    fn clone(&self) -> (f: SubtaskFields)
        ensures
            f == *self,
    {
        SubtaskFields { summary: self.summary.clone(), status: self.status.clone() }
    }
}

impl Clone for Subtask {
    fn clone(&self) -> (t: Subtask)
        ensures
            t == *self,
    {
        Subtask { id: self.id.clone(), key: self.key.clone(), fields: self.fields.clone() }
    }
}

/// The fields of a parent issue that are shown.
#[derive(Debug, Clone)]
pub struct ParentIssueFields {
    /// Summary of the parent.
    pub summary: String,
    /// Status of the parent.
    pub status: Status,
}

/// The parent of the current issue.
#[derive(Debug, Clone)]
pub struct ParentIssue {
    /// Issue id.
    pub id: String,
    /// Issue key.
    pub key: String,
    /// Shown fields.
    pub fields: ParentIssueFields,
}

/// A JIRA user.
#[derive(Debug, Clone)]
pub struct User {
    /// Account id.
    pub account_id: String,
    /// Display name.
    pub display_name: String,
    /// Email address, when visible.
    pub email_address: Option<String>,
    /// Whether the account is active.
    pub active: bool,
}

/// An issue priority.
#[derive(Debug, Clone)]
pub struct Priority {
    /// Priority id.
    pub id: String,
    /// Priority name (e.g., "High").
    pub name: String,
    /// URL of the priority's icon.
    pub icon_url: Option<String>,
}

/// An issue suggested by the issue picker search.
#[derive(Debug, Clone)]
pub struct IssueSuggestion {
    /// Issue key.
    pub key: String,
    /// Summary as plain text.
    pub summary_text: Option<String>,
    /// Summary with highlighting markup.
    pub summary: Option<String>,
    /// Issue id.
    pub id: Option<u64>,
}

/// One page of issue search results.
#[derive(Debug, Clone)]
pub struct SearchResult {
    /// Index of the first issue of the page.
    pub start_at: u32,
    /// Page size asked for.
    pub max_results: u32,
    /// Total number of matching issues.
    pub total: u32,
    /// The issues of the page.
    pub issues: Vec<Issue>,
    /// Token of the next page, if any.
    pub next_page_token: Option<String>,
    /// Whether this is the last page.
    pub is_last: bool,
}

} // verus!
