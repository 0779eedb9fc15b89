use lazyjira::ui::components::notification::{Notification, NotificationManager, NotificationType};
use lazyjira::ui::layout::Rect;

fn wait_ms(ms: u128) {
    let start = std::time::Instant::now();
    while start.elapsed().as_millis() < ms {}
}

#[test]
fn test_notification_type_icon() {
    assert_eq!(NotificationType::Info.icon(), "ℹ");
    assert_eq!(NotificationType::Success.icon(), "✓");
    assert_eq!(NotificationType::Warning.icon(), "⚠");
    assert_eq!(NotificationType::Error.icon(), "✗");
}

#[test]
fn test_notification_info() {
    let n = Notification::info("Test message");
    assert_eq!(n.message, "Test message");
    assert_eq!(n.notification_type, NotificationType::Info);
    assert_eq!(n.duration_ms, 3000);
}

#[test]
fn test_notification_success() {
    let n = Notification::success("Success!");
    assert_eq!(n.notification_type, NotificationType::Success);
    assert_eq!(n.duration_ms, 3000);
}

#[test]
fn test_notification_warning() {
    let n = Notification::warning("Warning!");
    assert_eq!(n.notification_type, NotificationType::Warning);
    assert_eq!(n.duration_ms, 5000);
}

#[test]
fn test_notification_error() {
    let n = Notification::error("Error!");
    assert_eq!(n.notification_type, NotificationType::Error);
    assert_eq!(n.duration_ms, 5000);
}

#[test]
fn test_notification_with_duration() {
    let n = Notification::info("Test").with_duration(10000);
    assert_eq!(n.duration_ms, 10000);
}

#[test]
fn test_notification_is_expired() {
    let n = Notification::new("Test", NotificationType::Info, 1);
    wait_ms(5);
    assert!(n.is_expired());
}

#[test]
fn test_notification_not_expired() {
    let n = Notification::info("Test");
    assert!(!n.is_expired());
}

#[test]
fn test_notification_manager_new() {
    let manager = NotificationManager::new();
    assert!(manager.is_empty());
    assert_eq!(manager.len(), 0);
}

#[test]
fn test_notification_manager_push() {
    let mut manager = NotificationManager::new();
    manager.push(Notification::info("Test"));
    assert!(!manager.is_empty());
    assert_eq!(manager.len(), 1);
}

#[test]
fn test_notification_manager_convenience_methods() {
    let mut manager = NotificationManager::new();
    manager.info("Info");
    manager.success("Success");
    manager.warning("Warning");
    // Only 3 max visible, so adding 4th should remove first
    assert_eq!(manager.len(), 3);
}

#[test]
fn test_notification_manager_max_visible() {
    let mut manager = NotificationManager::with_max_visible(2);
    manager.push(Notification::info("1"));
    manager.push(Notification::info("2"));
    manager.push(Notification::info("3"));
    assert_eq!(manager.len(), 2);
}

#[test]
fn test_notification_manager_tick() {
    let mut manager = NotificationManager::new();
    manager.push(Notification::new(
        "Expires",
        NotificationType::Info,
        1,
    ));
    wait_ms(5);
    manager.tick();
    assert!(manager.is_empty());
}

#[test]
fn test_notification_manager_clear() {
    let mut manager = NotificationManager::new();
    manager.info("Test");
    manager.clear();
    assert!(manager.is_empty());
}

#[test]
fn test_notification_manager_iter() {
    let mut manager = NotificationManager::new();
    manager.info("Test 1");
    manager.info("Test 2");
    let messages: Vec<&str> = manager.iter().map(|n| n.message.as_str()).collect();
    assert_eq!(messages, vec!["Test 1", "Test 2"]);
}

#[test]
fn notification_expiry_by_elapsed_time() {
    let n = Notification::new("x", NotificationType::Info, 100);
    assert!(!n.is_expired_after(100));
    assert!(n.is_expired_after(101));
    assert_eq!(n.remaining_after(40), 60);
    assert_eq!(n.remaining_after(400), 0);
}

#[test]
fn manager_keeps_newest_when_full() {
    let mut manager = NotificationManager::with_max_visible(2);
    manager.info("1");
    manager.info("2");
    manager.info("3");
    let messages: Vec<&str> = manager.iter().map(|n| n.message.as_str()).collect();
    assert_eq!(messages, vec!["2", "3"]);
}

#[test]
fn test_layout_bottom_right_stack() {
    let mut manager = NotificationManager::new();
    manager.info("Hello");
    let (area, heights) = manager.layout(Rect::new(0, 0, 80, 24));
    assert_eq!(heights, vec![3]);
    assert_eq!(area, Rect::new(28, 20, 50, 3));

    manager.error(&"x".repeat(100));
    let (area, heights) = manager.layout(Rect::new(0, 0, 80, 24));
    assert_eq!(heights, vec![3, 5]);
    assert_eq!(area, Rect::new(28, 15, 50, 8));
}

#[test]
fn test_layout_clipped_to_screen() {
    let mut manager = NotificationManager::new();
    manager.info("one");
    manager.info("two");
    manager.info("three");
    let (area, heights) = manager.layout(Rect::new(0, 0, 30, 8));
    assert_eq!(heights, vec![3, 3, 3]);
    assert_eq!(area, Rect::new(2, 1, 26, 6));
}

#[test]
fn expiry_compares_the_full_elapsed_time() {
    let n = Notification::info("Test").with_duration(100);
    assert!(!n.is_expired_at(100_000_000));
    assert!(n.is_expired_at(100_000_001));
    assert!(n.is_expired_at(100_500_000));
}
