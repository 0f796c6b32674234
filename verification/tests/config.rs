use qtshut::config::{
    AdvancedSettings, AppSettings, ConfigValidator, ShutdownSettings,
};
use qtshut::types::ShutdownMethod;

#[test]
fn test_default_config() {
    let app = AppSettings::default();
    assert!(!app.auto_start);
    assert_eq!(app.language, "zh-CN");

    let shutdown = ShutdownSettings::default();
    assert!(shutdown.confirm_before_shutdown);
    assert_eq!(shutdown.default_method, ShutdownMethod::Command);

    let advanced = AdvancedSettings::default();
    assert_eq!(advanced.log_level, "info");
}

#[test]
fn test_config_validator() {
    let app_settings = AppSettings::default();
    let (valid, errors) = ConfigValidator::validate_app_settings(&app_settings);
    assert!(valid);
    assert!(errors.is_empty());

    let shutdown_settings = ShutdownSettings::default();
    let (valid, errors) = ConfigValidator::validate_shutdown_settings(&shutdown_settings);
    assert!(valid);
    assert!(errors.is_empty());

    let advanced_settings = AdvancedSettings::default();
    let (valid, errors) = ConfigValidator::validate_advanced_settings(&advanced_settings);
    assert!(valid);
    assert!(errors.is_empty());
}

#[test]
fn test_validator_refusals() {
    let mut app_settings = AppSettings::default();
    app_settings.language = String::new();
    let (valid, errors) = ConfigValidator::validate_app_settings(&app_settings);
    assert!(!valid);
    assert_eq!(errors.len(), 1);

    let mut shutdown_settings = ShutdownSettings::default();
    shutdown_settings.confirmation_timeout = 0;
    shutdown_settings.warning_time = 120;
    let (valid, errors) = ConfigValidator::validate_shutdown_settings(&shutdown_settings);
    assert!(!valid);
    assert_eq!(errors.len(), 2);

    let mut advanced_settings = AdvancedSettings::default();
    advanced_settings.log_level = "noisy".to_string();
    advanced_settings.max_backup_files = 0;
    let (valid, errors) = ConfigValidator::validate_advanced_settings(&advanced_settings);
    assert!(!valid);
    assert_eq!(errors.len(), 2);

    // One violated bound contributes exactly one message.
    let mut one_bad = ShutdownSettings::default();
    one_bad.warning_time = 120;
    let (valid, errors) = ConfigValidator::validate_shutdown_settings(&one_bad);
    assert!(!valid);
    assert_eq!(errors.len(), 1);
}
