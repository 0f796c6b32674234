//! Application settings and their validation rules.
//!
//! Loading and saving the settings file is input/output and lives with
//! the surrounding application; the settings records and the rules that
//! accept or refuse them stand here. The interface geometry settings are
//! fractional and stay with the presentation layer.

use vstd::prelude::*;

use crate::strings::str_eq;
use crate::theme::ThemeType;
use crate::types::ShutdownMethod;

verus! {

/// Basic application behaviour.
#[derive(Debug, Clone, PartialEq)]
pub struct AppSettings {
    /// Start with the system.
    pub auto_start: bool,
    /// Start hidden in the tray.
    pub start_minimized: bool,
    /// Closing hides into the tray instead of quitting.
    pub minimize_on_close: bool,
    /// Interface language tag.
    pub language: String,
    /// Look for updates.
    pub check_updates: bool,
}

impl Default for AppSettings {
    /// Defaults: visible start, tray on close, Chinese interface,
    /// updates checked.
    fn default() -> (r: Self)
        ensures
            !r.auto_start,
            !r.start_minimized,
            r.minimize_on_close,
            r.language@ == "zh-CN"@,
            r.check_updates,
    {
        AppSettings {
            auto_start: false,
            start_minimized: false,
            minimize_on_close: true,
            language: "zh-CN".to_owned(),
            check_updates: true,
        }
    }
}

/// How the terminal action is run.
#[derive(Debug, Clone, Copy, PartialEq, Eq, Structural)]
pub struct ShutdownSettings {
    /// Preferred invocation method.
    pub default_method: ShutdownMethod,
    /// Ask before the action runs.
    pub confirm_before_shutdown: bool,
    /// How long the confirmation waits, in seconds.
    pub confirmation_timeout: u32,
    /// Close applications forcibly.
    pub force_shutdown: bool,
    /// Warning lead time, in minutes.
    pub warning_time: u32,
}

impl Default for ShutdownSettings {
    /// Defaults: command invocation, confirmation after half a minute,
    /// five minutes of warning.
    fn default() -> (r: Self)
        ensures
            r.default_method == ShutdownMethod::Command,
            r.confirm_before_shutdown,
            r.confirmation_timeout == 30,
            !r.force_shutdown,
            r.warning_time == 5,
    {
        ShutdownSettings {
            default_method: ShutdownMethod::Command,
            confirm_before_shutdown: true,
            confirmation_timeout: 30,
            force_shutdown: false,
            warning_time: 5,
        }
    }
}

/// Maintenance settings.
#[derive(Debug, Clone, PartialEq)]
pub struct AdvancedSettings {
    /// Name of the log verbosity threshold.
    pub log_level: String,
    /// Extra diagnostics.
    pub debug_mode: bool,
    /// Keep backups of the data files.
    pub backup_data: bool,
    /// How many backups to keep.
    pub max_backup_files: u32,
    /// Collect timing data.
    pub performance_monitoring: bool,
}

impl Default for AdvancedSettings {
    /// Defaults: informational logging, backups kept, five of them.
    fn default() -> (r: Self)
        ensures
            r.log_level@ == "info"@,
            !r.debug_mode,
            r.backup_data,
            r.max_backup_files == 5,
            !r.performance_monitoring,
    {
        AdvancedSettings {
            log_level: "info".to_owned(),
            debug_mode: false,
            backup_data: true,
            max_backup_files: 5,
            performance_monitoring: false,
        }
    }
}

/// A change of one settings group, for listeners.
#[derive(Debug, Clone)]
pub enum ConfigUpdateEvent {
    /// The theme changed.
    ThemeChanged(ThemeType),
    /// The language changed.
    LanguageChanged(String),
    /// The start-with-system flag changed.
    AutoStartChanged(bool),
    /// The invocation method changed.
    ShutdownMethodChanged(ShutdownMethod),
    /// Some other setting changed; the payload names it.
    Other(String),
}

/// Whether a log level name is one of the recognised thresholds.
pub open spec fn valid_log_level(s: Seq<char>) -> bool {
    s == "error"@ || s == "warn"@ || s == "info"@ || s == "debug"@ || s == "trace"@
}

/// Accepts or refuses settings groups.
pub struct ConfigValidator;

impl ConfigValidator {
    /// Accepts application settings with a named language.
    pub fn validate_app_settings(settings: &AppSettings) -> (r: (bool, Vec<String>))
        ensures
            r.0 == (settings.language@.len() > 0),
            r.1@.len() == (if settings.language@.len() > 0 {
                0int
            } else {
                1int
            }),
    {
        let mut errors: Vec<String> = Vec::new();
        if settings.language.unicode_len() == 0 {
            errors.push("语言设置不能为空".to_owned());
        }
        let ok = errors.len() == 0;
        (ok, errors)
    }

    /// Accepts shutdown settings whose confirmation waits between one
    /// second and five minutes and whose warning stays within an hour;
    /// each violated bound contributes one message.
    pub fn validate_shutdown_settings(settings: &ShutdownSettings) -> (r: (bool, Vec<String>))
        ensures
            r.0 == (1 <= settings.confirmation_timeout <= 300 && settings.warning_time <= 60),
            r.1@.len() == (if 1 <= settings.confirmation_timeout <= 300 {
                0int
            } else {
                1int
            }) + (if settings.warning_time <= 60 {
                0int
            } else {
                1int
            }),
    {
        let mut errors: Vec<String> = Vec::new();
        if settings.confirmation_timeout == 0 || settings.confirmation_timeout > 300 {
            errors.push("确认超时时间应在1-300秒之间".to_owned());
        }
        if settings.warning_time > 60 {
            errors.push("警告时间不应超过60分钟".to_owned());
        }
        let ok = errors.len() == 0;
        (ok, errors)
    }

    /// Accepts maintenance settings with a recognised log level and
    /// between one and a hundred backups; each violated bound
    /// contributes one message.
    pub fn validate_advanced_settings(settings: &AdvancedSettings) -> (r: (bool, Vec<String>))
        ensures
            r.0 == (valid_log_level(settings.log_level@) && 1 <= settings.max_backup_files <= 100),
            r.1@.len() == (if valid_log_level(settings.log_level@) {
                0int
            } else {
                1int
            }) + (if 1 <= settings.max_backup_files <= 100 {
                0int
            } else {
                1int
            }),
    {
        let mut errors: Vec<String> = Vec::new();
        let level = settings.log_level.as_str();
        let known = str_eq(level, "error") || str_eq(level, "warn") || str_eq(level, "info")
            || str_eq(level, "debug") || str_eq(level, "trace");
        if !known {
            errors.push("无效的日志级别".to_owned());
        }
        if settings.max_backup_files == 0 || settings.max_backup_files > 100 {
            errors.push("备份文件数量应在1-100之间".to_owned());
        }
        let ok = errors.len() == 0;
        (ok, errors)
    }
}

} // verus!
