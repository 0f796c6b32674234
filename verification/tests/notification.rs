use qtshut::notification::{
    NotificationBuilder, NotificationManager, NotificationMessage, NotificationPriority,
    NotificationType,
};

#[test]
fn test_notification_message_creation() {
    let notification = NotificationMessage::new("测试标题", "测试内容", NotificationType::Info);

    assert_eq!(notification.title, "测试标题");
    assert_eq!(notification.content, "测试内容");
    assert_eq!(notification.notification_type, NotificationType::Info);
    assert_eq!(notification.priority, NotificationPriority::Normal);
    assert!(notification.dismissible);
    assert!(!notification.play_sound);
}

#[test]
fn test_notification_builder_methods() {
    let notification = NotificationMessage::new("标题", "内容", NotificationType::Info)
        .with_priority(NotificationPriority::High)
        .with_duration(Some(3000))
        .with_dismissible(false)
        .with_sound(true);

    assert_eq!(notification.priority, NotificationPriority::High);
    assert_eq!(notification.duration_ms, Some(3000));
    assert!(!notification.dismissible);
    assert!(notification.play_sound);
}

#[test]
fn test_notification_expiration() {
    let notification =
        NotificationMessage::new("测试", "内容", NotificationType::Info).with_duration(Some(100));

    assert!(!notification.is_expired_at(notification.created_at + 50));
    assert!(notification.is_expired_at(notification.created_at + 150));
    assert_eq!(notification.remaining_time_ms_at(notification.created_at + 40), Some(60));
    assert_eq!(notification.remaining_time_ms_at(notification.created_at + 500), Some(0));
}

#[test]
fn test_notification_manager() {
    let mut manager = NotificationManager::new(5, 10);

    let notification = NotificationBuilder::info("测试", "内容");
    let id = manager.show_notification(notification).unwrap();

    assert_eq!(manager.get_active_notifications().len(), 1);
    assert!(manager.dismiss_notification(&id));
    assert_eq!(manager.get_active_notifications().len(), 0);
}

#[test]
fn test_notification_builder() {
    let info = NotificationBuilder::info("信息", "内容");
    assert_eq!(info.notification_type, NotificationType::Info);

    let warning = NotificationBuilder::warning("警告", "内容");
    assert_eq!(warning.notification_type, NotificationType::Warning);
    assert_eq!(warning.priority, NotificationPriority::High);

    let error = NotificationBuilder::error("错误", "内容");
    assert_eq!(error.notification_type, NotificationType::Error);
    assert_eq!(error.priority, NotificationPriority::Critical);
    assert_eq!(error.duration_ms, None);
}

#[test]
fn test_notification_stats() {
    let manager = NotificationManager::new(5, 10);
    let stats = manager.get_stats();

    assert_eq!(stats.active_count, 0);
    assert_eq!(stats.history_count, 0);
    assert!(stats.enabled);
    assert!(stats.sound_enabled);
}

#[test]
fn test_priority_ordering_and_eviction() {
    let mut manager = NotificationManager::new(2, 10);

    manager.show_notification(NotificationBuilder::info("one", "a")).unwrap();
    manager.show_notification(NotificationBuilder::error("two", "b")).unwrap();
    // The list is ordered most urgent first.
    let active = manager.get_active_notifications();
    assert_eq!(active[0].priority, NotificationPriority::Critical);
    assert_eq!(active[1].priority, NotificationPriority::Normal);

    // A third notification evicts the oldest low-priority entry.
    manager.show_notification(NotificationBuilder::warning("three", "c")).unwrap();
    let active = manager.get_active_notifications();
    assert_eq!(active.len(), 2);
    assert!(active.iter().all(|n| n.title != "one"));
    assert_eq!(manager.get_notification_history().len(), 3);
}

#[test]
fn test_cleanup_expired() {
    let mut manager = NotificationManager::new(5, 10);
    let n = NotificationBuilder::info("short", "a").with_duration(Some(100));
    let created = n.created_at;
    manager.show_notification(n).unwrap();
    manager.show_notification(NotificationBuilder::error("keep", "b")).unwrap();

    let removed = manager.cleanup_expired_notifications_at(created + 200);
    assert_eq!(removed, 1);
    assert_eq!(manager.get_active_notifications().len(), 1);
    assert_eq!(manager.get_active_notifications()[0].title, "keep");
}

#[test]
fn test_get_by_id_and_disable() {
    let mut manager = NotificationManager::new(5, 10);
    let n = NotificationBuilder::info("find me", "a");
    let id = manager.show_notification(n).unwrap();
    assert!(manager.get_notification_by_id(&id).is_some());
    assert!(manager.get_notification_by_id("no-such-id").is_none());

    manager.set_enabled(false);
    let other = NotificationBuilder::info("hidden", "b");
    manager.show_notification(other).unwrap();
    assert_eq!(manager.get_active_notifications().len(), 1);
}
