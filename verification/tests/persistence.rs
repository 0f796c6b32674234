use qtshut::persistence::{decode_task, encode_task, PersistError, TaskPersistence};
use qtshut::types::{ClockTime, TaskData, TaskType};

fn once_task() -> TaskData {
    let now_ms = chrono::Local::now().timestamp_millis();
    TaskData {
        task_type: TaskType::Once,
        target_time: Some(now_ms + 3600 * 1000),
        daily_time: None,
        enabled: true,
        created_at: now_ms,
    }
}

#[test]
fn test_save_and_load_task() {
    let task_data = once_task();

    let record = encode_task(&task_data);
    let loaded_task = decode_task(&record);
    assert!(loaded_task.is_ok());

    let loaded_task = loaded_task.unwrap();
    assert_eq!(loaded_task.task_type, task_data.task_type);
    assert_eq!(loaded_task.enabled, task_data.enabled);
    assert_eq!(loaded_task, task_data);
}

#[test]
fn test_daily_task_round_trip() {
    let task_data = TaskData {
        task_type: TaskType::Daily,
        target_time: None,
        daily_time: Some(ClockTime::new(22, 0, 0)),
        enabled: false,
        created_at: 1700000000001,
    };
    let record = encode_task(&task_data);
    assert_eq!(decode_task(&record), Ok(task_data));
}

#[test]
fn test_decode_rejects_malformed_records() {
    assert_eq!(decode_task(""), Err(PersistError::Malformed));
    assert_eq!(decode_task("kind=weekly\n"), Err(PersistError::Malformed));
    let record = encode_task(&once_task());
    let mut truncated = record.clone();
    truncated.pop();
    assert_eq!(decode_task(&truncated), Err(PersistError::Malformed));
    let trailing = format!("{}extra", record);
    assert_eq!(decode_task(&trailing), Err(PersistError::Malformed));
}

#[test]
fn test_decode_rejects_out_of_era_instants() {
    // The grammar admits exactly what the encoder writes, and the
    // encoder only writes era-bounded instants.
    let record = "kind=once\ntarget=999999999999999\ndaily=none\nenabled=true\ncreated=1700000000000\n";
    assert_eq!(decode_task(record), Err(PersistError::Malformed));
    let record = "kind=once\ntarget=none\ndaily=none\nenabled=true\ncreated=999999999999999\n";
    assert_eq!(decode_task(record), Err(PersistError::Malformed));
}

#[test]
fn test_record_is_key_value_text() {
    let task = TaskData {
        task_type: TaskType::Once,
        target_time: Some(1700003600000),
        daily_time: None,
        enabled: true,
        created_at: 1700000000000,
    };
    let record = encode_task(&task);
    assert!(record.starts_with("kind=once\n"));
    assert!(record.contains("target=1700003600000\n"));
    assert!(record.contains("daily=none\n"));
    assert!(record.contains("enabled=true\n"));
    assert!(record.ends_with("created=1700000000000\n"));
}

#[test]
fn test_persistence_paths() {
    let persistence = TaskPersistence::with_data_dir("/tmp/qtshut-data");
    assert_eq!(persistence.get_data_dir(), "/tmp/qtshut-data");
    assert_eq!(persistence.get_task_file_path(), "/tmp/qtshut-data/tasks.json");
    assert_eq!(persistence.get_config_file_path(), "/tmp/qtshut-data/config.json");
}

#[test]
fn test_app_config_default() {
    let config = qtshut::persistence::AppConfig::default();
    assert!(!config.auto_start);
    assert!(config.minimize_to_tray);
    assert!(config.confirm_before_shutdown);
    assert_eq!(config.theme, "light");
    assert_eq!(config.language, "zh-CN");
}
