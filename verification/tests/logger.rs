use qtshut::logger::{LogLevel, LogLevelConverter, LogStats, LoggerManager};

#[test]
fn test_log_level_converter() {
    assert_eq!(LogLevelConverter::from_string("info"), LogLevel::Info);
    assert_eq!(LogLevelConverter::from_string("debug"), LogLevel::Debug);
    assert_eq!(LogLevelConverter::from_string("invalid"), LogLevel::Info);

    assert_eq!(LogLevelConverter::to_string(LogLevel::Info), "info");
    assert_eq!(LogLevelConverter::to_string(LogLevel::Debug), "debug");

    let levels = LogLevelConverter::get_all_levels();
    assert!(levels.contains(&"info"));
    assert!(levels.contains(&"debug"));
}

#[test]
fn test_log_level_converter_case() {
    assert_eq!(LogLevelConverter::from_string("ERROR"), LogLevel::Error);
    assert_eq!(LogLevelConverter::from_string("Warn"), LogLevel::Warn);
    assert_eq!(LogLevelConverter::from_string("off"), LogLevel::Off);
    assert_eq!(LogLevelConverter::to_string(LogLevel::Trace), "trace");
}

#[test]
fn test_logger_manager_creation() {
    let logger = LoggerManager::new(LogLevel::Info, false, true);

    assert!(logger.is_ok());
    let logger = logger.unwrap();
    assert_eq!(logger.get_log_level(), LogLevel::Info);
    assert!(logger.get_log_file_path().is_none());
}

#[test]
fn test_logger_level_update() {
    let mut logger = LoggerManager::new(LogLevel::Info, false, false).unwrap();
    logger.update_log_level(LogLevel::Trace);
    assert_eq!(logger.get_log_level(), LogLevel::Trace);
}

#[test]
fn test_log_stats_default() {
    let stats = LogStats::default();
    assert_eq!(stats.current_file_size, 0);
    assert_eq!(stats.total_log_files, 0);
    assert_eq!(stats.total_size, 0);
    assert_eq!(stats.log_level, LogLevel::Off);
}
