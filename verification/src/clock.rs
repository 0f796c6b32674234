//! A plain-value model of the local wall clock.
//!
//! A [`LocalStamp`] carries the current instant in milliseconds since the
//! Unix epoch together with the second of the local day. All scheduling
//! arithmetic in the crate works on these two numbers; only reading the
//! clock itself is trusted.

use vstd::prelude::*;

use crate::platform::clock_now_parts;

verus! {

/// Upper bound on epoch milliseconds the model admits (end of year 9999).
pub const MAX_EPOCH_MS: i64 = 253402300799999;

/// Upper bound on epoch seconds for instants the model admits; a little
/// past the millisecond bound so that instants a few days beyond the last
/// clock reading stay representable.
pub const MAX_EPOCH_SECS: i64 = 253403000000;

/// A snapshot of the local wall clock.
#[derive(Debug, Clone, Copy, PartialEq, Eq, Structural)]
pub struct LocalStamp {
    /// Milliseconds since the Unix epoch.
    pub epoch_ms: i64,
    /// Non-leap seconds since the last local midnight.
    pub secs_of_day: u32,
}

impl LocalStamp {
    /// A stamp is valid when the epoch lies in the supported era and the
    /// second of day is below one day.
    pub open spec fn wf(self) -> bool {
        0 <= self.epoch_ms <= MAX_EPOCH_MS && self.secs_of_day < 86400
    }

    /// Whole seconds since the Unix epoch at this instant.
    pub open spec fn spec_now_secs(self) -> int {
        self.epoch_ms as int / 1000
    }

    /// Epoch second of the last local midnight before this instant.
    pub open spec fn spec_midnight_secs(self) -> int {
        self.spec_now_secs() - self.secs_of_day
    }

    /// Epoch second of today's occurrence of a time of day.
    pub open spec fn spec_today_at(self, secs_of_target: int) -> int {
        self.spec_midnight_secs() + secs_of_target
    }

    /// Today's occurrence of a time of day, moved to tomorrow when it is
    /// not strictly in the future.
    pub open spec fn spec_upcoming(self, secs_of_target: int) -> int {
        if self.spec_today_at(secs_of_target) <= self.spec_now_secs() {
            self.spec_today_at(secs_of_target) + 86400
        } else {
            self.spec_today_at(secs_of_target)
        }
    }

    /// Reads the wall clock, clamped into the supported era.
    pub fn now() -> (r: LocalStamp)
        ensures
            r.wf(),
    {
        let parts = clock_now_parts();
        let epoch_ms: i64 = if parts.0 < 0 {
            0
        } else if parts.0 > MAX_EPOCH_MS {
            MAX_EPOCH_MS
        } else {
            parts.0
        };
        LocalStamp { epoch_ms, secs_of_day: parts.1 }
    }

    /// Whole seconds since the Unix epoch, as executable code.
    pub fn now_secs(&self) -> (r: i64)
        requires
            self.wf(),
        ensures
            r as int == self.spec_now_secs(),
            0 <= r <= MAX_EPOCH_MS / 1000,
    {
        self.epoch_ms / 1000
    }

    /// Epoch second of the last local midnight.
    pub fn midnight_secs(&self) -> (r: i64)
        requires
            self.wf(),
        ensures
            r as int == self.spec_midnight_secs(),
    {
        self.now_secs() - self.secs_of_day as i64
    }

    /// Epoch second of today's occurrence of a time of day.
    pub fn today_at(&self, secs_of_target: u32) -> (r: i64)
        requires
            self.wf(),
            secs_of_target < 86400,
        ensures
            r as int == self.spec_today_at(secs_of_target as int),
    {
        self.midnight_secs() + secs_of_target as i64
    }

    /// Today's occurrence of a time of day, moved to tomorrow when it is
    /// not strictly in the future.
    pub fn upcoming(&self, secs_of_target: u32) -> (r: i64)
        requires
            self.wf(),
            secs_of_target < 86400,
        ensures
            r as int == self.spec_upcoming(secs_of_target as int),
            r as int > self.spec_now_secs(),
    {
        let today = self.today_at(secs_of_target);
        if today <= self.now_secs() {
            today + 86400
        } else {
            today
        }
    }
}

} // verus!
