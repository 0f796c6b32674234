//! Core data types shared by the resolver, the countdown engine and the
//! task store.

use vstd::prelude::*;

use crate::strings::{dec_of, u64_to_string};

verus! {

/// Kind of a scheduled task: a one-shot shutdown or a daily recurring one.
#[derive(Debug, Clone, Copy, PartialEq, Eq, Structural)]
pub enum TaskType {
    /// A single shutdown at one instant.
    Once,
    /// A shutdown repeated every day at the same time of day.
    Daily,
}


/// Spec text of a task kind's written form.
pub open spec fn task_type_text(t: TaskType) -> Seq<char> {
    match t {
        TaskType::Once => "单次关机"@,
        TaskType::Daily => "每日关机"@,
    }
}

impl TaskType {
    /// The kind, worded for display.
    pub fn name(&self) -> (r: String)
        ensures
            r@ == task_type_text(*self),
    {
        match self {
            TaskType::Once => "单次关机".to_owned(),
            TaskType::Daily => "每日关机".to_owned(),
        }
    }
}

/// A time of day with second precision, as stored in a daily schedule.
#[derive(Debug, Clone, Copy, PartialEq, Eq, Structural)]
pub struct ClockTime {
    pub hour: u8,
    pub minute: u8,
    pub second: u8,
}

impl ClockTime {
    /// A clock time is valid when every component is in range.
    pub open spec fn wf(self) -> bool {
        self.hour < 24 && self.minute < 60 && self.second < 60
    }

    /// Seconds since midnight for this time of day.
    pub open spec fn spec_seconds_of_day(self) -> int {
        self.hour as int * 3600 + self.minute as int * 60 + self.second as int
    }

    /// Builds a clock time from components.
    pub fn new(hour: u8, minute: u8, second: u8) -> (r: Self)
        ensures
            r == (ClockTime { hour, minute, second }),
    {
        ClockTime { hour, minute, second }
    }

    /// Seconds since midnight, as executable code.
    pub fn seconds_of_day(&self) -> (r: u32)
        requires
            self.wf(),
        ensures
            r as int == self.spec_seconds_of_day(),
            r < 86400,
    {
        self.hour as u32 * 3600 + self.minute as u32 * 60 + self.second as u32
    }
}

/// A resolved time expression.
///
/// Durations are whole seconds; absolute instants are whole seconds since
/// the Unix epoch; daily times are a time of day resolved lazily against
/// the clock.
#[derive(Debug, Clone, Copy, PartialEq, Eq, Structural)]
pub enum TimeInput {
    /// A relative span, in seconds.
    Duration(i64),
    /// An absolute instant, in seconds since the Unix epoch.
    AbsoluteTime(i64),
    /// A recurring time of day.
    DailyTime(ClockTime),
}

impl TimeInput {
    /// A time input is valid when an absolute instant lies in the
    /// supported era and a daily time is a real clock time.
    pub open spec fn wf(self) -> bool {
        match self {
            TimeInput::Duration(_) => true,
            TimeInput::AbsoluteTime(t) => 0 <= t <= crate::clock::MAX_EPOCH_SECS,
            TimeInput::DailyTime(ct) => ct.wf(),
        }
    }

    /// Default time input: a thirty-minute span.
    pub fn default_input() -> (r: Self)
        ensures
            r == TimeInput::Duration(1800i64),
    {
        TimeInput::Duration(1800)
    }
}

/// State of the countdown engine.
#[derive(Debug, Clone, PartialEq)]
pub enum CountdownStatus {
    /// No task is scheduled.
    Idle,
    /// A countdown is running; the payload is the remaining span in
    /// milliseconds.
    Running { remaining: i64 },
    /// The countdown reached its target.
    Finished,
    /// The countdown was cancelled.
    Cancelled,
    /// An externally reported failure; leaves only through a new start.
    Error(String),
}

/// Spec text of the running-state message for a remaining span in
/// milliseconds: hours, minutes and seconds, omitting leading zero parts.
/// A non-positive remainder reads as zero seconds.
pub open spec fn running_message(remaining_ms: i64) -> Seq<char> {
    let total = if remaining_ms <= 0 {
        0int
    } else {
        remaining_ms as int / 1000
    };
    let hours = total / 3600;
    let minutes = (total % 3600) / 60;
    let seconds = total % 60;
    if hours > 0 {
        "剩余"@ + dec_of(hours) + "小时"@ + dec_of(minutes)
            + "分钟"@ + dec_of(seconds) + "秒"@
    } else if minutes > 0 {
        "剩余"@ + dec_of(minutes) + "分钟"@ + dec_of(seconds) + "秒"@
    } else {
        "剩余"@ + dec_of(seconds) + "秒"@
    }
}

/// Spec text of a status message.
pub open spec fn status_message(s: CountdownStatus) -> Seq<char> {
    match s {
        CountdownStatus::Idle => "未设置定时任务"@,
        CountdownStatus::Running { remaining } => running_message(remaining),
        CountdownStatus::Finished => "倒计时结束，准备关机"@,
        CountdownStatus::Cancelled => "任务已取消"@,
        CountdownStatus::Error(msg) => "错误: "@ + msg@,
    }
}

impl CountdownStatus {
    /// Message describing this status, as shown to the user.
    #[verifier::rlimit(60)]
    pub fn message(&self) -> (r: String)
        ensures
            r@ == status_message(*self),
    {
        match self {
            CountdownStatus::Idle => "未设置定时任务".to_owned(),
            CountdownStatus::Running { remaining } => {
                let total: u64 = if *remaining <= 0 {
                    0
                } else {
                    (*remaining as u64) / 1000
                };
                let hours: u64 = total / 3600;
                let minutes: u64 = (total % 3600) / 60;
                let seconds: u64 = total % 60;
                let mut r = String::from_str("剩余");
                if hours > 0 {
                    let hours_text = u64_to_string(hours);
                    r.append(hours_text.as_str());
                    r.append("小时");
                    let minutes_text = u64_to_string(minutes);
                    r.append(minutes_text.as_str());
                    r.append("分钟");
                    let seconds_text = u64_to_string(seconds);
                    r.append(seconds_text.as_str());
                    r.append("秒");
                    proof {
                        assert(r@ =~= running_message(*remaining));
                    }
                } else if minutes > 0 {
                    let minutes_text = u64_to_string(minutes);
                    r.append(minutes_text.as_str());
                    r.append("分钟");
                    let seconds_text = u64_to_string(seconds);
                    r.append(seconds_text.as_str());
                    r.append("秒");
                    proof {
                        assert(r@ =~= running_message(*remaining));
                    }
                } else {
                    let seconds_text = u64_to_string(seconds);
                    r.append(seconds_text.as_str());
                    r.append("秒");
                    proof {
                        assert(r@ =~= running_message(*remaining));
                    }
                }
                r
            },
            CountdownStatus::Finished => "倒计时结束，准备关机".to_owned(),
            CountdownStatus::Cancelled => "任务已取消".to_owned(),
            CountdownStatus::Error(msg) => {
                let mut r = String::from_str("错误: ");
                r.append(msg.as_str());
                r
            },
        }
    }
}

/// The persisted description of a scheduled task.
#[derive(Debug, Clone, Copy, PartialEq, Eq, Structural)]
pub struct TaskData {
    /// Kind of the schedule.
    pub task_type: TaskType,
    /// Target instant of a one-shot task, in epoch milliseconds.
    pub target_time: Option<i64>,
    /// Time of day of a daily task.
    pub daily_time: Option<ClockTime>,
    /// Whether the task is active.
    pub enabled: bool,
    /// Creation instant, in epoch milliseconds.
    pub created_at: i64,
}

impl TaskData {
    /// A descriptor is valid when its instants lie in the supported era
    /// and its time of day is a real clock time.
    pub open spec fn wf(self) -> bool {
        &&& match self.target_time {
            Some(t) => 0 <= t <= crate::clock::MAX_EPOCH_MS,
            None => true,
        }
        &&& match self.daily_time {
            Some(t) => t.wf(),
            None => true,
        }
        &&& 0 <= self.created_at <= crate::clock::MAX_EPOCH_MS
    }

    /// Whether the descriptor is valid, as executable code: what callers
    /// outside the verifier test before handing a descriptor in.
    pub fn is_valid(&self) -> (r: bool)
        ensures
            r == self.wf(),
    {
        let target_ok = match self.target_time {
            Some(t) => 0 <= t && t <= crate::clock::MAX_EPOCH_MS,
            None => true,
        };
        let daily_ok = match self.daily_time {
            Some(t) => t.hour < 24 && t.minute < 60 && t.second < 60,
            None => true,
        };
        target_ok && daily_ok && 0 <= self.created_at && self.created_at
            <= crate::clock::MAX_EPOCH_MS
    }
}

/// An update published by the countdown engine to its listeners.
#[derive(Debug, Clone, PartialEq)]
pub enum CountdownUpdate {
    /// Periodic progress: remaining span in milliseconds and percentage of
    /// the run already elapsed, clamped to 0..=100.
    Progress { remaining: i64, progress: u64 },
    /// The countdown reached its target.
    Finished,
    /// The countdown was cancelled.
    Cancelled,
    /// The countdown was paused.
    Paused,
    /// The countdown was resumed.
    Resumed,
    /// The countdown finished and a task descriptor was attached.
    TaskCompleted { task_info: TaskData },
    /// An externally reported failure.
    Error(String),
}

/// An event sent from the presentation layer to the application.
#[derive(Debug, Clone, PartialEq)]
pub enum UIEvent {
    /// Begin a countdown for the given input and task kind.
    StartCountdown(TimeInput, TaskType),
    /// Cancel the running countdown.
    CancelCountdown,
    /// Hide the main window into the tray.
    MinimizeToTray,
    /// Restore the main window from the tray.
    RestoreFromTray,
    /// Show the main window.
    ShowMainWindow,
    /// Toggle the main window.
    ToggleMainWindow,
    /// Begin a countdown of the given number of seconds.
    QuickCountdown(u32),
    /// Open the settings view.
    ShowSettings,
    /// Open the about view.
    ShowAbout,
    /// Quit the application.
    Exit,
}

/// How the terminal action is invoked.
#[derive(Debug, Clone, Copy, PartialEq, Eq, Structural)]
pub enum ShutdownMethod {
    /// Through the system's shutdown command.
    Command,
    /// Through the platform API.
    WinAPI,
}

/// A Windows version triple.
#[derive(Debug, Clone, Copy, PartialEq, Eq, Structural)]
pub struct WindowsVersion {
    pub major: u32,
    pub minor: u32,
    pub build: u32,
}

/// Spec text of a version triple: major.minor.build.
pub open spec fn version_text(v: WindowsVersion) -> Seq<char> {
    dec_of(v.major as int) + "."@ + dec_of(v.minor as int) + "."@ + dec_of(v.build as int)
}

impl WindowsVersion {
    /// The dotted text form of this version.
    pub fn version_string(&self) -> (r: String)
        ensures
            r@ == version_text(*self),
    {
        let mut r = u64_to_string(self.major as u64);
        r.append(".");
        let minor_text = u64_to_string(self.minor as u64);
        r.append(minor_text.as_str());
        r.append(".");
        let build_text = u64_to_string(self.build as u64);
        r.append(build_text.as_str());
        proof {
            assert(r@ =~= version_text(*self));
        }
        r
    }
}

/// What the current user may do.
#[derive(Debug, Clone, Copy, PartialEq, Eq, Structural)]
pub struct UserPermissions {
    pub can_shutdown: bool,
    pub is_admin: bool,
}

} // verus!
