//! State of the interface components that the presentation layer draws.
//!
//! Only the data lives here; rendering belongs to the presentation
//! layer.

use vstd::prelude::*;

use crate::types::{TaskType, TimeInput};

verus! {

/// State of the time-entry panel.
#[derive(Debug, Clone, Copy, PartialEq, Eq, Structural)]
pub struct TimeInputPanel {
    /// The entered time expression, resolved.
    pub time_input: TimeInput,
    /// The chosen task kind.
    pub task_type: TaskType,
}

impl Default for TimeInputPanel {
    /// Defaults: a thirty-minute span, one-shot.
    fn default() -> (r: Self)
        ensures
            r.time_input == TimeInput::Duration(1800i64),
            r.task_type == TaskType::Once,
    {
        TimeInputPanel { time_input: TimeInput::default_input(), task_type: TaskType::Once }
    }
}

impl TimeInputPanel {
    /// A panel in its default state.
    pub fn new() -> (r: Self)
        ensures
            r.time_input == TimeInput::Duration(1800i64),
            r.task_type == TaskType::Once,
    {
        Self::default()
    }
}

/// State of the countdown display.
#[derive(Debug, Clone, Copy, PartialEq, Eq, Structural)]
pub struct CountdownDisplay {
    /// Whether a countdown is running.
    pub is_counting: bool,
    /// Remaining seconds to show.
    pub remaining_seconds: Option<u64>,
    /// The running task's kind.
    pub task_type: TaskType,
}

impl Default for CountdownDisplay {
    /// Defaults: not counting, nothing remaining, one-shot.
    fn default() -> (r: Self)
        ensures
            !r.is_counting,
            r.remaining_seconds is None,
            r.task_type == TaskType::Once,
    {
        CountdownDisplay { is_counting: false, remaining_seconds: None, task_type: TaskType::Once }
    }
}

impl CountdownDisplay {
    /// A display in its default state.
    pub fn new() -> (r: Self)
        ensures
            !r.is_counting,
            r.remaining_seconds is None,
            r.task_type == TaskType::Once,
    {
        Self::default()
    }
}

/// State of the control panel.
#[derive(Debug, Clone, Copy, PartialEq, Eq, Structural)]
pub struct ControlPanel {
    /// Whether a countdown is running.
    pub is_counting: bool,
}

impl Default for ControlPanel {
    /// Defaults: not counting.
    fn default() -> (r: Self)
        ensures
            !r.is_counting,
    {
        ControlPanel { is_counting: false }
    }
}

impl ControlPanel {
    /// A panel in its default state.
    pub fn new() -> (r: Self)
        ensures
            !r.is_counting,
    {
        Self::default()
    }
}

} // verus!
