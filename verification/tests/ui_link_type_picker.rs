use lazyjira::api::types::{
    IssueLink, IssueLinkType, LinkedIssue, LinkedIssueFields, ParentIssue, ParentIssueFields, Status,
    StatusCategory, Subtask, SubtaskFields,
};
use lazyjira::events::key::{KeyCode, KeyEvent, KeyModifiers};
use lazyjira::ui::components::link_type_picker::{LinkItem, LinkManager, LinkManagerAction, LinkManagerMode};

fn create_test_status(name: &str, done: bool) -> Status {
    Status {
        id: "1".to_string(),
        name: name.to_string(),
        status_category: Some(StatusCategory {
            id: if done { 3 } else { 2 },
            key: if done { "done" } else { "indeterminate" }.to_string(),
            name: if done { "Done" } else { "In Progress" }.to_string(),
            color_name: None,
        }),
    }
}

fn create_test_link_type(id: &str, name: &str, inward: &str, outward: &str) -> IssueLinkType {
    IssueLinkType {
        id: id.to_string(),
        name: name.to_string(),
        inward: inward.to_string(),
        outward: outward.to_string(),
    }
}

fn create_test_link(id: &str, key: &str, summary: &str, link_type_name: &str) -> IssueLink {
    IssueLink {
        id: format!("link-{}", id),
        link_type: IssueLinkType {
            id: "1".to_string(),
            name: link_type_name.to_string(),
            inward: format!("is {} by", link_type_name.to_lowercase()),
            outward: link_type_name.to_lowercase(),
        },
        inward_issue: None,
        outward_issue: Some(LinkedIssue {
            id: id.to_string(),
            key: key.to_string(),
            fields: LinkedIssueFields {
                summary: summary.to_string(),
                status: create_test_status("Open", false),
            },
        }),
    }
}

fn create_test_subtask(id: &str, key: &str, summary: &str, done: bool) -> Subtask {
    Subtask {
        id: id.to_string(),
        key: key.to_string(),
        fields: SubtaskFields {
            summary: summary.to_string(),
            status: create_test_status(if done { "Done" } else { "To Do" }, done),
        },
    }
}

fn create_test_parent(key: &str, summary: &str) -> ParentIssue {
    ParentIssue {
        id: "1".to_string(),
        key: key.to_string(),
        fields: ParentIssueFields {
            summary: summary.to_string(),
            status: create_test_status("In Progress", false),
        },
    }
}

#[test]
fn test_new_manager() {
    let manager = LinkManager::new();
    assert!(!manager.is_visible());
    assert!(!manager.is_loading());
    assert!(manager.is_empty());
}

#[test]
fn test_show_with_links() {
    let mut manager = LinkManager::new();
    let links = vec![
        create_test_link("1", "PROJ-200", "Blocked issue", "Blocks"),
        create_test_link("2", "PROJ-201", "Related issue", "Relates"),
    ];

    manager.show(&links, &[], None);

    assert!(manager.is_visible());
    assert!(!manager.is_loading());
    // Header + 2 links
    assert_eq!(manager.selectable_count(), 2);
}

#[test]
fn test_show_with_parent_links_subtasks() {
    let mut manager = LinkManager::new();
    let parent = create_test_parent("PROJ-100", "Parent issue");
    let links = vec![create_test_link("1", "PROJ-200", "Linked", "Blocks")];
    let subtasks = vec![create_test_subtask("1", "PROJ-101", "Subtask", false)];

    manager.show(&links, &subtasks, Some(&parent));

    assert!(manager.is_visible());
    // Parent + 1 link + 1 subtask (headers are not selectable)
    assert_eq!(manager.selectable_count(), 3);
}

#[test]
fn test_navigation_skips_headers() {
    let mut manager = LinkManager::new();
    let parent = create_test_parent("PROJ-100", "Parent");
    let links = vec![create_test_link("1", "PROJ-200", "Linked", "Blocks")];
    let subtasks = vec![create_test_subtask("1", "PROJ-101", "Subtask", false)];

    manager.show(&links, &subtasks, Some(&parent));

    // Should start at parent (first selectable)
    assert_eq!(manager.selected, 0);

    // Move down - should skip header and go to link
    let key = KeyEvent::new(KeyCode::Char('j'), KeyModifiers::NONE);
    manager.handle_input(key);
    // selected should now be at link (index 2, skipping header at 1)
    assert_eq!(manager.selected, 2);

    // Move down again - should skip header and go to subtask
    manager.handle_input(key);
    assert_eq!(manager.selected, 4);
}

#[test]
fn test_navigate_to_issue() {
    let mut manager = LinkManager::new();
    let links = vec![create_test_link("1", "PROJ-200", "Linked", "Blocks")];

    manager.show(&links, &[], None);

    // Skip to the link (first item is header)
    manager.selected = 1;

    let key = KeyEvent::new(KeyCode::Enter, KeyModifiers::NONE);
    let action = manager.handle_input(key);

    match action {
        Some(LinkManagerAction::Navigate(key)) => {
            assert_eq!(key, "PROJ-200");
        }
        _ => panic!("Expected Navigate action"),
    }
    assert!(!manager.is_visible());
}

#[test]
fn test_create_new_link_with_c() {
    let mut manager = LinkManager::new();
    let links = vec![create_test_link("1", "PROJ-200", "Linked", "Blocks")];

    manager.show(&links, &[], None);

    let key = KeyEvent::new(KeyCode::Char('c'), KeyModifiers::NONE);
    let action = manager.handle_input(key);

    assert_eq!(action, Some(LinkManagerAction::CreateNew));
}

#[test]
fn test_create_new_link_with_n() {
    let mut manager = LinkManager::new();
    let links = vec![create_test_link("1", "PROJ-200", "Linked", "Blocks")];

    manager.show(&links, &[], None);

    let key = KeyEvent::new(KeyCode::Char('n'), KeyModifiers::NONE);
    let action = manager.handle_input(key);

    assert_eq!(action, Some(LinkManagerAction::CreateNew));
}

#[test]
fn test_delete_link() {
    let mut manager = LinkManager::new();
    let links = vec![create_test_link("1", "PROJ-200", "Linked", "Blocks")];

    manager.show(&links, &[], None);

    // Move to link (first selectable after header)
    manager.selected = 1;

    let key = KeyEvent::new(KeyCode::Char('d'), KeyModifiers::NONE);
    let action = manager.handle_input(key);

    match action {
        Some(LinkManagerAction::Delete(link_id, description)) => {
            assert_eq!(link_id, "link-1");
            assert!(description.contains("PROJ-200"));
        }
        _ => panic!("Expected Delete action"),
    }
    // Manager should hide when delete is triggered
    assert!(!manager.is_visible());
}

#[test]
fn test_delete_parent_does_nothing() {
    let mut manager = LinkManager::new();
    let parent = create_test_parent("PROJ-100", "Parent");

    manager.show(&[], &[], Some(&parent));

    // Selected on parent
    let key = KeyEvent::new(KeyCode::Char('d'), KeyModifiers::NONE);
    let action = manager.handle_input(key);

    assert!(action.is_none());
}

#[test]
fn test_delete_subtask_does_nothing() {
    let mut manager = LinkManager::new();
    let subtasks = vec![create_test_subtask("1", "PROJ-101", "Subtask", false)];

    manager.show(&[], &subtasks, None);

    // Move to subtask
    manager.selected = 1;

    let key = KeyEvent::new(KeyCode::Char('d'), KeyModifiers::NONE);
    let action = manager.handle_input(key);

    assert!(action.is_none());
}

#[test]
fn test_link_type_selection() {
    let mut manager = LinkManager::new();
    let link_types = vec![create_test_link_type(
        "1",
        "Blocks",
        "is blocked by",
        "blocks",
    )];

    manager.show_loading();
    manager.set_link_types(link_types);

    assert!(manager.is_visible());
    assert!(!manager.is_loading());
    assert_eq!(manager.mode, LinkManagerMode::SelectLinkType);

    // Select first link type (outward)
    let key = KeyEvent::new(KeyCode::Enter, KeyModifiers::NONE);
    let action = manager.handle_input(key);

    match action {
        Some(LinkManagerAction::SelectLinkType(lt, is_outward)) => {
            assert_eq!(lt.id, "1");
            assert!(is_outward);
        }
        _ => panic!("Expected SelectLinkType action"),
    }
}

#[test]
fn link_type_picker_test_cancel_with_esc() {
    let mut manager = LinkManager::new();
    manager.show(&[], &[], None);

    let key = KeyEvent::new(KeyCode::Esc, KeyModifiers::NONE);
    let action = manager.handle_input(key);

    assert_eq!(action, Some(LinkManagerAction::Cancel));
    assert!(!manager.is_visible());
}

#[test]
fn link_type_picker_test_cancel_with_q() {
    let mut manager = LinkManager::new();
    manager.show(&[], &[], None);

    let key = KeyEvent::new(KeyCode::Char('q'), KeyModifiers::NONE);
    let action = manager.handle_input(key);

    assert_eq!(action, Some(LinkManagerAction::Cancel));
    assert!(!manager.is_visible());
}

#[test]
fn link_type_picker_test_esc_while_loading() {
    let mut manager = LinkManager::new();
    manager.show_loading();

    let key = KeyEvent::new(KeyCode::Esc, KeyModifiers::NONE);
    let action = manager.handle_input(key);

    assert_eq!(action, Some(LinkManagerAction::Cancel));
    assert!(!manager.is_visible());
}

#[test]
fn link_type_picker_test_input_ignored_when_not_visible() {
    let mut manager = LinkManager::new();

    let key = KeyEvent::new(KeyCode::Enter, KeyModifiers::NONE);
    let action = manager.handle_input(key);
    assert!(action.is_none());
}

#[test]
fn link_type_picker_test_default_impl() {
    let manager = LinkManager::default();
    assert!(!manager.is_visible());
}

#[test]
fn link_type_picker_test_hide() {
    let mut manager = LinkManager::new();
    manager.show(&[], &[], None);
    assert!(manager.is_visible());

    manager.close();
    assert!(!manager.is_visible());
}

#[test]
fn test_navigation_vim_keys() {
    let mut manager = LinkManager::new();
    let links = vec![
        create_test_link("1", "PROJ-200", "Link 1", "Blocks"),
        create_test_link("2", "PROJ-201", "Link 2", "Relates"),
    ];
    manager.show(&links, &[], None);

    // Start after header
    manager.selected = 1;

    // Move down with j
    let key = KeyEvent::new(KeyCode::Char('j'), KeyModifiers::NONE);
    manager.handle_input(key);
    assert_eq!(manager.selected, 2);

    // Move up with k
    let key = KeyEvent::new(KeyCode::Char('k'), KeyModifiers::NONE);
    manager.handle_input(key);
    assert_eq!(manager.selected, 1);
}

#[test]
fn test_esc_in_link_type_selection_returns_to_view() {
    let mut manager = LinkManager::new();
    let links = vec![create_test_link("1", "PROJ-200", "Linked", "Blocks")];

    manager.show(&links, &[], None);
    manager.set_link_types(vec![create_test_link_type(
        "1",
        "Blocks",
        "is blocked by",
        "blocks",
    )]);
    manager.start_link_type_selection();

    // Esc should return to view mode
    let key = KeyEvent::new(KeyCode::Esc, KeyModifiers::NONE);
    let action = manager.handle_input(key);

    assert!(action.is_none());
    assert_eq!(manager.mode, LinkManagerMode::ViewLinks);
    assert!(manager.is_visible());
}

#[test]
fn test_esc_in_link_type_selection_closes_if_empty() {
    let mut manager = LinkManager::new();
    manager.show_loading();
    manager.set_link_types(vec![create_test_link_type(
        "1",
        "Blocks",
        "is blocked by",
        "blocks",
    )]);

    // No items in view mode, Esc should close
    let key = KeyEvent::new(KeyCode::Esc, KeyModifiers::NONE);
    let action = manager.handle_input(key);

    assert_eq!(action, Some(LinkManagerAction::Cancel));
    assert!(!manager.is_visible());
}

#[test]
fn link_types_offer_both_directions() {
    let mut manager = LinkManager::new();
    manager.show_loading();
    manager.set_link_types(vec![create_test_link_type("1", "Blocks", "is blocked by", "blocks")]);
    assert_eq!(manager.link_type_items.len(), 2);
    assert_eq!(manager.link_type_items[0].display, "This issue blocks ...");
    assert!(manager.link_type_items[0].is_outward);
    assert_eq!(manager.link_type_items[1].display, "This issue is blocked by ...");
    assert!(!manager.link_type_items[1].is_outward);
    manager.handle_input(KeyEvent::new(KeyCode::Char('j'), KeyModifiers::NONE));
    let action = manager.handle_input(KeyEvent::new(KeyCode::Enter, KeyModifiers::NONE));
    match action {
        Some(LinkManagerAction::SelectLinkType(lt, is_outward)) => {
            assert_eq!(lt.inward, "is blocked by");
            assert!(!is_outward);
        }
        _ => panic!("Expected SelectLinkType action"),
    }
}

#[test]
fn navigation_up_skips_headers() {
    let mut manager = LinkManager::new();
    let parent = create_test_parent("PROJ-100", "Parent");
    let links = vec![create_test_link("1", "PROJ-200", "Linked", "Blocks")];
    manager.show(&links, &[], Some(&parent));
    assert!(matches!(manager.items[1], LinkItem::Header(_)));
    manager.selected = 2;
    manager.handle_input(KeyEvent::new(KeyCode::Up, KeyModifiers::NONE));
    assert_eq!(manager.selected, 0);
    assert_eq!(manager.mode, LinkManagerMode::ViewLinks);
}

#[test]
fn delete_description_names_key_and_wording() {
    let mut manager = LinkManager::new();
    let links = vec![create_test_link("7", "PROJ-9", "S", "Blocks")];
    manager.show(&links, &[], None);
    assert_eq!(manager.selected, 1);
    let action = manager.handle_input(KeyEvent::new(KeyCode::Char('d'), KeyModifiers::NONE));
    assert_eq!(
        action,
        Some(LinkManagerAction::Delete("link-7".to_string(), "PROJ-9 (blocks)".to_string()))
    );
}
