use qtshut::components::{ControlPanel, CountdownDisplay, TimeInputPanel};
use qtshut::types::{ClockTime, CountdownStatus, TaskType, TimeInput, WindowsVersion};

#[test]
fn test_task_type_text() {
    assert_eq!(TaskType::Once.name(), "单次关机");
    assert_eq!(TaskType::Daily.name(), "每日关机");
}

#[test]
fn test_clock_time() {
    let t = ClockTime::new(22, 30, 0);
    assert_eq!(t.seconds_of_day(), 22 * 3600 + 30 * 60);
}

#[test]
fn test_status_message() {
    assert_eq!(CountdownStatus::Idle.message(), "未设置定时任务");
    assert_eq!(CountdownStatus::Running { remaining: 3661000 }.message(), "剩余1小时1分钟1秒");
    assert_eq!(CountdownStatus::Running { remaining: 61000 }.message(), "剩余1分钟1秒");
    assert_eq!(CountdownStatus::Running { remaining: 9000 }.message(), "剩余9秒");
    assert_eq!(CountdownStatus::Cancelled.message(), "任务已取消");
    assert_eq!(CountdownStatus::Error("x".to_string()).message(), "错误: x");
}

#[test]
fn test_version_string() {
    let v = WindowsVersion { major: 10, minor: 0, build: 19041 };
    assert_eq!(v.version_string(), "10.0.19041");
}

#[test]
fn test_default_time_input() {
    assert_eq!(TimeInput::default_input(), TimeInput::Duration(1800));
}

#[test]
fn test_component_defaults() {
    let panel = TimeInputPanel::new();
    assert_eq!(panel.time_input, TimeInput::Duration(1800));
    assert_eq!(panel.task_type, TaskType::Once);

    let display = CountdownDisplay::new();
    assert!(!display.is_counting);
    assert!(display.remaining_seconds.is_none());

    let control = ControlPanel::new();
    assert!(!control.is_counting);
}
