use qtshut::countdown::{CountdownManager, EngineError};
use qtshut::types::{ClockTime, CountdownStatus, CountdownUpdate, TaskData, TaskType};

fn now_ms() -> i64 {
    chrono::Local::now().timestamp_millis()
}

#[test]
fn countdown_test_format_duration() {
    assert_eq!(CountdownManager::format_duration(3661), "01:01:01");
    assert_eq!(CountdownManager::format_duration(61), "01:01");
    assert_eq!(CountdownManager::format_duration(0), "00:00:00");
}

#[test]
fn test_countdown_basic() {
    let mut manager = CountdownManager::new();

    assert!(matches!(manager.get_status(), CountdownStatus::Idle));
    assert!(!manager.is_active());

    let t0 = now_ms();
    manager.start_countdown_at(t0 + 2000, t0).unwrap();
    manager.tick(t0 + 100);

    assert!(manager.is_active());
    assert!(manager.get_remaining_time().is_some());
}

#[test]
fn test_countdown_cancel() {
    let mut manager = CountdownManager::new();

    let t0 = now_ms();
    manager.start_countdown_at(t0 + 10000, t0).unwrap();
    manager.cancel_countdown();

    assert!(!manager.is_active());
    assert!(matches!(manager.get_status(), CountdownStatus::Cancelled));
}

#[test]
fn test_start_in_past_rejected() {
    let mut manager = CountdownManager::new();
    let t0 = 1700000000000i64;

    let before = manager.get_status();
    let result = manager.start_countdown_at(t0 - 5000, t0);
    assert_eq!(result, Err(EngineError::InvalidTarget));
    assert_eq!(manager.get_status(), before);
    assert!(!manager.is_active());

    let result = manager.start_countdown_at(t0, t0);
    assert_eq!(result, Err(EngineError::InvalidTarget));
}

#[test]
fn test_cancel_twice_publishes_once() {
    let mut manager = CountdownManager::new();
    let t0 = 1700000000000i64;
    manager.start_countdown_at(t0 + 10000, t0).unwrap();

    let first = manager.cancel_countdown();
    assert_eq!(first.len(), 1);
    assert!(matches!(first[0], CountdownUpdate::Cancelled));
    assert!(matches!(manager.get_status(), CountdownStatus::Cancelled));

    let second = manager.cancel_countdown();
    assert_eq!(second.len(), 0);
    assert!(matches!(manager.get_status(), CountdownStatus::Cancelled));
}

#[test]
fn test_pause_excludes_time_from_deadline() {
    let mut manager = CountdownManager::new();
    let t0 = 1700000000000i64;
    manager.start_countdown_at(t0 + 10000, t0).unwrap();
    manager.tick(t0 + 1000);
    assert!(manager.is_active());

    let paused = manager.pause_countdown_at(t0 + 3000);
    assert_eq!(paused.len(), 1);
    assert!(matches!(paused[0], CountdownUpdate::Paused));
    assert!(manager.is_paused());

    // A tick while paused advances nothing.
    let idle_events = manager.tick(t0 + 4000);
    assert!(idle_events.is_empty());

    let resumed = manager.resume_countdown_at(t0 + 5000);
    assert_eq!(resumed.len(), 1);
    assert!(matches!(resumed[0], CountdownUpdate::Resumed));
    assert_eq!(manager.get_total_paused_duration(), 2000);

    // The original deadline would have been t0 + 10000; the two paused
    // seconds push it to t0 + 12000.
    let events = manager.tick(t0 + 10500);
    assert!(manager.is_active(), "paused time must not count toward the deadline");
    assert!(matches!(events[0], CountdownUpdate::Progress { .. }));

    let events = manager.tick(t0 + 11500);
    assert!(matches!(manager.get_status(), CountdownStatus::Finished));
    assert_eq!(events.len(), 1);
    assert!(matches!(events[0], CountdownUpdate::Finished));
}

#[test]
fn test_finish_publishes_task_completed_once() {
    let mut manager = CountdownManager::new();
    let t0 = 1700000000000i64;
    let task = TaskData {
        task_type: TaskType::Once,
        target_time: Some(t0 + 2000),
        daily_time: None,
        enabled: true,
        created_at: t0,
    };
    let now = qtshut::clock::LocalStamp { epoch_ms: t0, secs_of_day: 36000 };
    manager.start_countdown_from_task_at(task, &now).unwrap();

    // After two and a half seconds the stream shows exactly one Finished
    // and exactly one TaskCompleted event.
    let events = manager.tick(t0 + 2500);
    assert_eq!(events.len(), 2);
    assert!(matches!(events[0], CountdownUpdate::Finished));
    assert!(matches!(events[1], CountdownUpdate::TaskCompleted { .. }));

    // No further ticks publish anything for this run.
    let after = manager.tick(t0 + 3500);
    assert!(after.is_empty());
    assert!(matches!(manager.get_status(), CountdownStatus::Finished));
}

#[test]
fn test_daily_task_target_rolls() {
    let t0 = 1700000000000i64;
    // The stamp says the local day is at ten o'clock (36000 seconds).
    let now = qtshut::clock::LocalStamp { epoch_ms: t0, secs_of_day: 36000 };
    let task = TaskData {
        task_type: TaskType::Daily,
        target_time: None,
        daily_time: Some(ClockTime::new(8, 0, 0)),
        enabled: true,
        created_at: t0,
    };
    let target = CountdownManager::task_target_ms(&task, &now).unwrap();
    // Eight o'clock has passed, so the target is tomorrow's occurrence.
    let midnight_s = t0 / 1000 - 36000;
    assert_eq!(target, (midnight_s + 86400 + 8 * 3600) * 1000);

    let later = TaskData { daily_time: Some(ClockTime::new(12, 0, 0)), ..task };
    let target = CountdownManager::task_target_ms(&later, &now).unwrap();
    assert_eq!(target, (midnight_s + 12 * 3600) * 1000);
}

#[test]
fn test_reset_returns_to_idle() {
    let mut manager = CountdownManager::new();
    let t0 = 1700000000000i64;
    manager.start_countdown_at(t0 + 10000, t0).unwrap();
    manager.reset();
    assert!(matches!(manager.get_status(), CountdownStatus::Idle));
    assert!(!manager.is_active());
}

#[test]
fn test_set_error_state() {
    let mut manager = CountdownManager::new();
    let events = manager.set_error("action failed".to_string());
    assert_eq!(events.len(), 1);
    assert!(matches!(manager.get_status(), CountdownStatus::Error(_)));
}

#[test]
fn test_error_is_terminal() {
    let mut manager = CountdownManager::new();
    let t0 = 1700000000000i64;
    manager.start_countdown_at(t0 + 10000, t0).unwrap();
    manager.tick(t0 + 1000);
    assert!(manager.is_active());

    let events = manager.set_error("action failed".to_string());
    assert_eq!(events.len(), 1);
    assert!(matches!(manager.get_status(), CountdownStatus::Error(_)));

    // No tick advances an errored engine, and no cancel leaves the
    // error state; only a fresh start does.
    let events = manager.tick(t0 + 2000);
    assert!(events.is_empty());
    assert!(matches!(manager.get_status(), CountdownStatus::Error(_)));

    let events = manager.cancel_countdown();
    assert!(events.is_empty());
    assert!(matches!(manager.get_status(), CountdownStatus::Error(_)));

    assert!(manager.pause_countdown_at(t0 + 3000).is_empty());
    assert!(manager.resume_countdown_at(t0 + 4000).is_empty());
    assert!(matches!(manager.get_status(), CountdownStatus::Error(_)));

    manager.start_countdown_at(t0 + 20000, t0 + 5000).unwrap();
    manager.tick(t0 + 6000);
    assert!(manager.is_active());
}

#[test]
fn test_calculate_progress() {
    assert_eq!(CountdownManager::calculate_progress(0, 10000, 5000), 50);
    assert_eq!(CountdownManager::calculate_progress(0, 10000, 0), 0);
    assert_eq!(CountdownManager::calculate_progress(0, 10000, 20000), 100);
    assert_eq!(CountdownManager::calculate_progress(0, 0, 5000), 100);
}

#[test]
fn test_engine_id_and_getters() {
    let mut manager = CountdownManager::new();
    assert_eq!(manager.get_id().len(), 36);
    assert_eq!(manager.get_start_timestamp(), None);
    assert_eq!(manager.get_total_paused_duration(), 0);
    assert_eq!(manager.get_current_task(), None);
    let t0 = 1700000000000i64;
    manager.start_countdown_at(t0 + 5000, t0).unwrap();
    assert_eq!(manager.get_start_timestamp(), Some(t0 as u64));
}
