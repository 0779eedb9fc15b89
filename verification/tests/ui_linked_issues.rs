use lazyjira::api::types::{
    IssueLink, IssueLinkType, LinkedIssue, LinkedIssueFields, ParentIssue, ParentIssueFields, Status,
    StatusCategory, Subtask, SubtaskFields,
};
use lazyjira::events::key::{KeyCode, KeyEvent, KeyModifiers};
use lazyjira::ui::components::issue_search_picker::truncate;
use lazyjira::ui::components::linked_issues::{LinkedIssuesAction, LinkedIssuesSection};

fn create_test_status(name: &str, done: bool) -> Status {
    Status {
        id: "1".to_string(),
        name: name.to_string(),
        status_category: Some(StatusCategory {
            id: if done { 3 } else { 2 },
            key: if done { "done" } else { "indeterminate" }.to_string(),
            name: if done { "Done" } else { "In Progress" }.to_string(),
            color_name: None,
        }),
    }
}

fn create_test_link(id: &str, key: &str, summary: &str, link_type: &str) -> IssueLink {
    IssueLink {
        id: format!("link-{}", id),
        link_type: IssueLinkType {
            id: "1".to_string(),
            name: link_type.to_string(),
            inward: format!("is {} by", link_type.to_lowercase()),
            outward: link_type.to_lowercase(),
        },
        inward_issue: None,
        outward_issue: Some(LinkedIssue {
            id: id.to_string(),
            key: key.to_string(),
            fields: LinkedIssueFields {
                summary: summary.to_string(),
                status: create_test_status("Open", false),
            },
        }),
    }
}

fn create_test_subtask(id: &str, key: &str, summary: &str, done: bool) -> Subtask {
    Subtask {
        id: id.to_string(),
        key: key.to_string(),
        fields: SubtaskFields {
            summary: summary.to_string(),
            status: create_test_status(if done { "Done" } else { "To Do" }, done),
        },
    }
}

fn create_test_parent(key: &str, summary: &str) -> ParentIssue {
    ParentIssue {
        id: "1".to_string(),
        key: key.to_string(),
        fields: ParentIssueFields {
            summary: summary.to_string(),
            status: create_test_status("In Progress", false),
        },
    }
}

#[test]
fn test_empty_section() {
    let section = LinkedIssuesSection::empty();
    assert!(section.is_empty());
    assert_eq!(section.total_items(), 0);
    assert!(section.selected_key().is_none());
}

#[test]
fn test_section_with_parent() {
    let parent = create_test_parent("PROJ-100", "Parent issue");
    let section = LinkedIssuesSection::new(&[], &[], Some(parent));

    assert!(!section.is_empty());
    assert_eq!(section.total_items(), 1);
    assert_eq!(section.selected_key(), Some("PROJ-100".to_string()));
}

#[test]
fn test_section_with_links() {
    let links = vec![
        create_test_link("1", "PROJ-200", "Blocked issue", "Blocks"),
        create_test_link("2", "PROJ-201", "Related issue", "Relates"),
    ];
    let section = LinkedIssuesSection::new(&links, &[], None);

    assert!(!section.is_empty());
    assert_eq!(section.total_items(), 2);
    assert_eq!(section.links.len(), 2);
}

#[test]
fn test_section_with_subtasks() {
    let subtasks = vec![
        create_test_subtask("1", "PROJ-101", "Subtask 1", false),
        create_test_subtask("2", "PROJ-102", "Subtask 2", true),
    ];
    let section = LinkedIssuesSection::new(&[], &subtasks, None);

    assert!(!section.is_empty());
    assert_eq!(section.total_items(), 2);
    assert_eq!(section.subtasks.len(), 2);
}

#[test]
fn test_section_with_all() {
    let parent = create_test_parent("PROJ-100", "Parent");
    let links = vec![create_test_link("1", "PROJ-200", "Linked", "Blocks")];
    let subtasks = vec![create_test_subtask("1", "PROJ-101", "Subtask", false)];

    let section = LinkedIssuesSection::new(&links, &subtasks, Some(parent));

    assert_eq!(section.total_items(), 3);
}

#[test]
fn linked_issues_test_navigation() {
    let parent = create_test_parent("PROJ-100", "Parent");
    let links = vec![create_test_link("1", "PROJ-200", "Linked", "Blocks")];
    let subtasks = vec![create_test_subtask("1", "PROJ-101", "Subtask", false)];

    let mut section = LinkedIssuesSection::new(&links, &subtasks, Some(parent));
    section.set_focused(true);

    // Initially at parent
    assert_eq!(section.selected(), 0);
    assert_eq!(section.selected_key(), Some("PROJ-100".to_string()));

    // Move to link
    section.select_next();
    assert_eq!(section.selected(), 1);
    assert_eq!(section.selected_key(), Some("PROJ-200".to_string()));

    // Move to subtask
    section.select_next();
    assert_eq!(section.selected(), 2);
    assert_eq!(section.selected_key(), Some("PROJ-101".to_string()));

    // Can't go past end
    section.select_next();
    assert_eq!(section.selected(), 2);

    // Move back up
    section.select_previous();
    assert_eq!(section.selected(), 1);
}

#[test]
fn linked_issues_test_expand_collapse() {
    let mut section = LinkedIssuesSection::new(&[], &[], None);

    assert!(section.is_expanded());
    section.toggle_expand();
    assert!(!section.is_expanded());
    section.toggle_expand();
    assert!(section.is_expanded());
}

#[test]
fn test_handle_input_navigation() {
    let links = vec![
        create_test_link("1", "PROJ-200", "Link 1", "Blocks"),
        create_test_link("2", "PROJ-201", "Link 2", "Relates"),
    ];
    let mut section = LinkedIssuesSection::new(&links, &[], None);
    section.set_focused(true);

    // Navigate down with j
    let key = KeyEvent::new(KeyCode::Char('j'), KeyModifiers::NONE);
    let action = section.handle_input(key);
    assert!(action.is_none());
    assert_eq!(section.selected(), 1);

    // Navigate up with k
    let key = KeyEvent::new(KeyCode::Char('k'), KeyModifiers::NONE);
    let action = section.handle_input(key);
    assert!(action.is_none());
    assert_eq!(section.selected(), 0);
}

#[test]
fn test_handle_input_enter() {
    let links = vec![create_test_link("1", "PROJ-200", "Linked", "Blocks")];
    let mut section = LinkedIssuesSection::new(&links, &[], None);
    section.set_focused(true);

    let key = KeyEvent::new(KeyCode::Enter, KeyModifiers::NONE);
    let action = section.handle_input(key);

    assert_eq!(
        action,
        Some(LinkedIssuesAction::Navigate("PROJ-200".to_string()))
    );
}

#[test]
fn test_handle_input_tab_toggles_expand() {
    let links = vec![create_test_link("1", "PROJ-200", "Linked", "Blocks")];
    let mut section = LinkedIssuesSection::new(&links, &[], None);
    section.set_focused(true);

    assert!(section.is_expanded());

    let key = KeyEvent::new(KeyCode::Tab, KeyModifiers::NONE);
    let action = section.handle_input(key);
    assert!(action.is_none());
    assert!(!section.is_expanded());
}

#[test]
fn test_input_ignored_when_not_focused() {
    let links = vec![create_test_link("1", "PROJ-200", "Linked", "Blocks")];
    let mut section = LinkedIssuesSection::new(&links, &[], None);

    let key = KeyEvent::new(KeyCode::Enter, KeyModifiers::NONE);
    let action = section.handle_input(key);
    assert!(action.is_none());
}

#[test]
fn test_input_ignored_when_collapsed() {
    let links = vec![create_test_link("1", "PROJ-200", "Linked", "Blocks")];
    let mut section = LinkedIssuesSection::new(&links, &[], None);
    section.set_focused(true);
    section.toggle_expand(); // Collapse

    // Navigation should be ignored
    let key = KeyEvent::new(KeyCode::Char('j'), KeyModifiers::NONE);
    let action = section.handle_input(key);
    assert!(action.is_none());

    // Enter should be ignored
    let key = KeyEvent::new(KeyCode::Enter, KeyModifiers::NONE);
    let action = section.handle_input(key);
    assert!(action.is_none());
}

#[test]
fn linked_issues_test_truncate() {
    assert_eq!(truncate("short", 10), "short");
    assert_eq!(truncate("this is a long string", 10), "this is...");
    assert_eq!(truncate("exactly10!", 10), "exactly10!");
}

#[test]
fn test_status_is_done() {
    let done_status = create_test_status("Done", true);
    let in_progress_status = create_test_status("In Progress", false);

    assert!(done_status.is_done());
    assert!(!in_progress_status.is_done());
}

#[test]
fn test_height_calculation() {
    // Empty section
    let empty = LinkedIssuesSection::empty();
    assert_eq!(empty.height(), 0);

    // Collapsed section
    let mut section = LinkedIssuesSection::new(
        &[create_test_link("1", "PROJ-1", "Link", "Blocks")],
        &[],
        None,
    );
    section.toggle_expand();
    assert_eq!(section.height(), 3);

    // With parent only
    let section =
        LinkedIssuesSection::new(&[], &[], Some(create_test_parent("PROJ-1", "Parent")));
    assert!(section.height() >= 3);
}

#[test]
fn linked_issues_test_default_impl() {
    let section = LinkedIssuesSection::default();
    assert!(section.is_empty());
}

#[test]
fn test_selected_link_on_link() {
    let links = vec![create_test_link("1", "PROJ-200", "Linked", "Blocks")];
    let section = LinkedIssuesSection::new(&links, &[], None);

    // First item is the link
    let result = section.selected_link();
    assert!(result.is_some());
    let (link_id, description) = result.unwrap();
    assert_eq!(link_id, "link-1");
    assert!(description.contains("PROJ-200"));
    assert!(description.contains("blocks"));
}

#[test]
fn test_selected_link_on_parent() {
    let parent = create_test_parent("PROJ-100", "Parent");
    let links = vec![create_test_link("1", "PROJ-200", "Linked", "Blocks")];
    let section = LinkedIssuesSection::new(&links, &[], Some(parent));

    // First item is parent, not a link
    let result = section.selected_link();
    assert!(result.is_none());
}

#[test]
fn test_selected_link_on_subtask() {
    let links = vec![create_test_link("1", "PROJ-200", "Linked", "Blocks")];
    let subtasks = vec![create_test_subtask("1", "PROJ-101", "Subtask", false)];
    let mut section = LinkedIssuesSection::new(&links, &subtasks, None);

    // Move to subtask (past the link)
    section.select_next();

    // Subtask is not a deletable link
    let result = section.selected_link();
    assert!(result.is_none());
}

#[test]
fn test_delete_key_on_link() {
    let links = vec![create_test_link("1", "PROJ-200", "Linked", "Blocks")];
    let mut section = LinkedIssuesSection::new(&links, &[], None);
    section.set_focused(true);

    let key = KeyEvent::new(KeyCode::Char('d'), KeyModifiers::NONE);
    let action = section.handle_input(key);

    match action {
        Some(LinkedIssuesAction::Delete(link_id, _)) => {
            assert_eq!(link_id, "link-1");
        }
        _ => panic!("Expected Delete action"),
    }
}

#[test]
fn test_delete_key_on_parent_does_nothing() {
    let parent = create_test_parent("PROJ-100", "Parent");
    let links = vec![create_test_link("1", "PROJ-200", "Linked", "Blocks")];
    let mut section = LinkedIssuesSection::new(&links, &[], Some(parent));
    section.set_focused(true);

    // Focused on parent
    let key = KeyEvent::new(KeyCode::Char('d'), KeyModifiers::NONE);
    let action = section.handle_input(key);

    assert!(action.is_none());
}

#[test]
fn test_delete_key_on_subtask_does_nothing() {
    let subtasks = vec![create_test_subtask("1", "PROJ-101", "Subtask", false)];
    let mut section = LinkedIssuesSection::new(&[], &subtasks, None);
    section.set_focused(true);

    let key = KeyEvent::new(KeyCode::Char('d'), KeyModifiers::NONE);
    let action = section.handle_input(key);

    assert!(action.is_none());
}

#[test]
fn test_delete_ignored_when_collapsed() {
    let links = vec![create_test_link("1", "PROJ-200", "Linked", "Blocks")];
    let mut section = LinkedIssuesSection::new(&links, &[], None);
    section.set_focused(true);
    section.toggle_expand(); // Collapse

    let key = KeyEvent::new(KeyCode::Char('d'), KeyModifiers::NONE);
    let action = section.handle_input(key);

    assert!(action.is_none());
}

#[test]
fn selected_link_description_is_exact() {
    let links = vec![create_test_link("1", "PROJ-200", "Linked", "Blocks")];
    let section = LinkedIssuesSection::new(&links, &[], None);
    assert_eq!(
        section.selected_link(),
        Some(("link-1".to_string(), "PROJ-200 (blocks)".to_string()))
    );
}

#[test]
fn height_counts_headers_and_caps_at_fifteen() {
    let links = vec![create_test_link("1", "PROJ-200", "Linked", "Blocks")];
    let subtasks = vec![create_test_subtask("1", "PROJ-101", "Subtask", false)];
    let section = LinkedIssuesSection::new(&links, &subtasks, Some(create_test_parent("P-1", "p")));
    // 2 borders + parent + header + link + blank + header + subtask
    assert_eq!(section.height(), 8);
    let many: Vec<IssueLink> = (0..20)
        .map(|i| create_test_link(&i.to_string(), "K-1", "s", "Blocks"))
        .collect();
    let section = LinkedIssuesSection::new(&many, &[], None);
    assert_eq!(section.height(), 15);
}

#[test]
fn inward_links_use_inward_wording() {
    let mut link = create_test_link("1", "PROJ-200", "Linked", "Blocks");
    let issue = link.outward_issue.take();
    link.inward_issue = issue;
    let section = LinkedIssuesSection::new(&[link], &[], None);
    assert_eq!(section.links[0].link_description, "is blocks by");
}
