//! Logging configuration.
//!
//! The library does not write logs itself — installing a sink and
//! rotating files is input/output and lives with the surrounding
//! application. What stands here is the configuration model: the level,
//! the file path derived from the platform's data directory and today's
//! date, and the conversions between levels and their names.

use vstd::prelude::*;

use crate::platform::{clock_today_ymd, data_local_dir_path};
use crate::strings::{chars_to_string, dec_of_signed, dec_pad2, i64_to_string, push_pad2};

verus! {

/// Verbosity threshold of the log.
#[derive(Debug, Clone, Copy, PartialEq, Eq, Structural)]
pub enum LogLevel {
    Error,
    Warn,
    Info,
    Debug,
    Trace,
    Off,
}

/// Why the logging configuration could not be built.
#[derive(Debug, Clone, Copy, PartialEq, Eq, Structural)]
pub enum LogError {
    /// The environment names no local data directory for the log file.
    NoDataDir,
}

/// Spec text of a log file name for a calendar date.
pub open spec fn log_file_name_text(year: int, month: int, day: int) -> Seq<char> {
    "/QtShut/logs/qtshut_"@ + dec_of_signed(year) + dec_pad2(month) + dec_pad2(day) + ".log"@
}

/// Holds the logging configuration.
#[derive(Debug, Clone)]
pub struct LoggerManager {
    /// Path of the log file, present when file logging is on.
    pub log_file_path: Option<String>,
    /// Current verbosity threshold.
    pub log_level: LogLevel,
    /// Whether lines go to a file.
    pub file_logging_enabled: bool,
    /// Whether lines go to the console.
    pub console_logging_enabled: bool,
}

impl LoggerManager {
    /// Builds a configuration. With file logging on, the log file path
    /// is derived from the platform's data directory and today's date;
    /// an environment without a data directory is refused.
    pub fn new(log_level: LogLevel, enable_file_logging: bool, enable_console_logging: bool) -> (r:
        Result<Self, LogError>)
        ensures
            !enable_file_logging ==> (r matches Ok(m) && m == (LoggerManager {
                log_file_path: None,
                log_level,
                file_logging_enabled: false,
                console_logging_enabled: enable_console_logging,
            })),
            r matches Ok(m) ==> {
                &&& m.log_level == log_level
                &&& m.file_logging_enabled == enable_file_logging
                &&& m.console_logging_enabled == enable_console_logging
                &&& (m.log_file_path is Some <==> enable_file_logging)
            },
    {
        if enable_file_logging {
            match Self::create_log_file_path() {
                Ok(path) => Ok(
                    LoggerManager {
                        log_file_path: Some(path),
                        log_level,
                        file_logging_enabled: true,
                        console_logging_enabled: enable_console_logging,
                    },
                ),
                Err(e) => Err(e),
            }
        } else {
            Ok(
                LoggerManager {
                    log_file_path: None,
                    log_level,
                    file_logging_enabled: false,
                    console_logging_enabled: enable_console_logging,
                },
            )
        }
    }

    /// Derives today's log file path under the platform's data
    /// directory.
    fn create_log_file_path() -> (r: Result<String, LogError>)
        ensures
            r matches Ok(p) ==> exists|base: Seq<char>, y: int, m: int, d: int|
                p@ == base + log_file_name_text(y, m, d),
    {
        let base = match data_local_dir_path() {
            Some(b) => b,
            None => {
                return Err(LogError::NoDataDir);
            },
        };
        let (year, month, day) = clock_today_ymd();
        let mut out: Vec<char> = Vec::new();
        let mut name = crate::strings::str_to_chars("/QtShut/logs/qtshut_");
        out.append(&mut name);
        let year_text = i64_to_string(year as i64);
        let mut year_chars = crate::strings::str_to_chars(year_text.as_str());
        out.append(&mut year_chars);
        push_pad2(&mut out, month as u64);
        push_pad2(&mut out, day as u64);
        let mut suffix = crate::strings::str_to_chars(".log");
        out.append(&mut suffix);
        let tail = chars_to_string(&out);
        let ghost base_view = base@;
        let mut path = base;
        path.append(tail.as_str());
        proof {
            assert(out@ =~= log_file_name_text(year as int, month as int, day as int));
            assert(path@ == base_view + log_file_name_text(
                year as int,
                month as int,
                day as int,
            ));
        }
        Ok(path)
    }

    /// Changes the verbosity threshold.
    pub fn update_log_level(&mut self, new_level: LogLevel)
        ensures
            *final(self) == (LoggerManager { log_level: new_level, ..*old(self) }),
    {
        self.log_level = new_level;
    }

    /// The current verbosity threshold.
    pub fn get_log_level(&self) -> (r: LogLevel)
        ensures
            r == self.log_level,
    {
        self.log_level
    }

    /// The configured log file path, when file logging is on.
    pub fn get_log_file_path(&self) -> (r: Option<&String>)
        ensures
            match self.log_file_path {
                Some(_) => r matches Some(p) && Some(*p) == self.log_file_path,
                None => r is None,
            },
    {
        self.log_file_path.as_ref()
    }
}

/// Counters and settings reported about the log.
#[derive(Debug, Clone)]
pub struct LogStats {
    /// Size of the current log file, in bytes.
    pub current_file_size: u64,
    /// Number of log files found.
    pub total_log_files: usize,
    /// Their combined size, in bytes.
    pub total_size: u64,
    /// The configured verbosity threshold.
    pub log_level: LogLevel,
    /// Whether lines go to a file.
    pub file_logging_enabled: bool,
    /// Whether lines go to the console.
    pub console_logging_enabled: bool,
}

impl Default for LogStats {
    /// Empty statistics: nothing counted, logging off.
    fn default() -> (r: Self)
        ensures
            r.current_file_size == 0,
            r.total_log_files == 0,
            r.total_size == 0,
            r.log_level == LogLevel::Off,
            !r.file_logging_enabled,
            !r.console_logging_enabled,
    {
        LogStats {
            current_file_size: 0,
            total_log_files: 0,
            total_size: 0,
            log_level: LogLevel::Off,
            file_logging_enabled: false,
            console_logging_enabled: false,
        }
    }
}

/// Lower-cased form of an ASCII letter; other characters are unchanged.
pub open spec fn ascii_lower(c: char) -> char {
    if 'A' <= c <= 'Z' {
        ((c as u8) + 32) as char
    } else {
        c
    }
}

/// Whether two texts are equal up to ASCII case.
pub open spec fn ascii_eq_ignore_case(a: Seq<char>, b: Seq<char>) -> bool {
    a.len() == b.len() && (forall|i: int|
        0 <= i < a.len() ==> ascii_lower(#[trigger] a[i]) == ascii_lower(b[i]))
}

/// The level a name denotes, up to ASCII case; unknown names mean the
/// informational level.
pub open spec fn level_of_name(s: Seq<char>) -> LogLevel {
    if ascii_eq_ignore_case(s, "error"@) {
        LogLevel::Error
    } else if ascii_eq_ignore_case(s, "warn"@) {
        LogLevel::Warn
    } else if ascii_eq_ignore_case(s, "info"@) {
        LogLevel::Info
    } else if ascii_eq_ignore_case(s, "debug"@) {
        LogLevel::Debug
    } else if ascii_eq_ignore_case(s, "trace"@) {
        LogLevel::Trace
    } else if ascii_eq_ignore_case(s, "off"@) {
        LogLevel::Off
    } else {
        LogLevel::Info
    }
}

/// Spec text of a level's name.
pub open spec fn level_name(level: LogLevel) -> Seq<char> {
    match level {
        LogLevel::Error => "error"@,
        LogLevel::Warn => "warn"@,
        LogLevel::Info => "info"@,
        LogLevel::Debug => "debug"@,
        LogLevel::Trace => "trace"@,
        LogLevel::Off => "off"@,
    }
}

/// Converts between levels and their names.
pub struct LogLevelConverter;

/// Whether two string slices are equal up to ASCII case.
fn str_eq_ignore_ascii_case(a: &str, b: &str) -> (r: bool)
    ensures
        r == ascii_eq_ignore_case(a@, b@),
{
    let n = a.unicode_len();
    if b.unicode_len() != n {
        return false;
    }
    let mut i: usize = 0;
    while i < n
        invariant
            n == a@.len(),
            b@.len() == n,
            i <= n,
            forall|j: int| 0 <= j < i ==> ascii_lower(#[trigger] a@[j]) == ascii_lower(b@[j]),
        decreases n - i,
    {
        let ca = a.get_char(i);
        let cb = b.get_char(i);
        let la: u32 = if 'A' <= ca && ca <= 'Z' {
            ca as u32 + 32
        } else {
            ca as u32
        };
        let lb: u32 = if 'A' <= cb && cb <= 'Z' {
            cb as u32 + 32
        } else {
            cb as u32
        };
        if la != lb {
            return false;
        }
        i = i + 1;
    }
    true
}

impl LogLevelConverter {
    /// The level a name denotes, up to ASCII case.
    pub fn from_string(level_str: &str) -> (r: LogLevel)
        ensures
            r == level_of_name(level_str@),
    {
        if str_eq_ignore_ascii_case(level_str, "error") {
            LogLevel::Error
        } else if str_eq_ignore_ascii_case(level_str, "warn") {
            LogLevel::Warn
        } else if str_eq_ignore_ascii_case(level_str, "info") {
            LogLevel::Info
        } else if str_eq_ignore_ascii_case(level_str, "debug") {
            LogLevel::Debug
        } else if str_eq_ignore_ascii_case(level_str, "trace") {
            LogLevel::Trace
        } else if str_eq_ignore_ascii_case(level_str, "off") {
            LogLevel::Off
        } else {
            LogLevel::Info
        }
    }

    /// The name of a level.
    pub fn to_string(level: LogLevel) -> (r: &'static str)
        ensures
            r@ == level_name(level),
    {
        match level {
            LogLevel::Error => "error",
            LogLevel::Warn => "warn",
            LogLevel::Info => "info",
            LogLevel::Debug => "debug",
            LogLevel::Trace => "trace",
            LogLevel::Off => "off",
        }
    }

    /// All level names, most severe first.
    pub fn get_all_levels() -> (r: Vec<&'static str>)
        ensures
            r@.len() == 6,
            r@[0]@ == "error"@,
            r@[1]@ == "warn"@,
            r@[2]@ == "info"@,
            r@[3]@ == "debug"@,
            r@[4]@ == "trace"@,
            r@[5]@ == "off"@,
    {
        let mut r: Vec<&'static str> = Vec::new();
        r.push("error");
        r.push("warn");
        r.push("info");
        r.push("debug");
        r.push("trace");
        r.push("off");
        r
    }
}

} // verus!
