//! The countdown engine.
//!
//! One engine instance owns one run at a time: it is started for a
//! target instant, advances once per second through [`CountdownManager::tick`],
//! can be paused, resumed and cancelled, and reaches a terminal state at
//! most once per run. Paused time is excluded from the deadline by
//! shifting the effective target forward by the accumulated pause span,
//! to the millisecond.
//!
//! The engine is a pure state machine over milliseconds since the Unix
//! epoch: every transition is a function of the old state and the clock
//! reading handed in, specified exactly by the `spec_*` functions below.
//! Driving the once-per-second loop, broadcasting the returned events and
//! reading the wall clock are the surrounding application's concern.

use vstd::prelude::*;

use crate::clock::{LocalStamp, MAX_EPOCH_MS};
use crate::platform::fresh_uuid;
use crate::strings::dec_pad2;
use crate::types::{CountdownStatus, CountdownUpdate, TaskData, TaskType};

verus! {

/// Upper bound on target instants the engine admits, in epoch
/// milliseconds: a little past the last admissible clock reading.
pub const MAX_TARGET_MS: i64 = 253404000000000;

/// Why the engine refused to start a run.
#[derive(Debug, Clone, Copy, PartialEq, Eq, Structural)]
pub enum EngineError {
    /// The target instant is not strictly in the future.
    InvalidTarget,
    /// A one-shot task carries no target instant.
    MissingTargetTime,
    /// A daily task carries no time of day.
    MissingDailyTime,
}

/// The countdown engine state.
#[derive(Debug)]
pub struct CountdownManager {
    /// Identifier of this engine instance.
    pub id: String,
    /// Current run state.
    pub status: CountdownStatus,
    /// Descriptor attached to the current run, if any.
    pub current_task: Option<TaskData>,
    /// Whether a run is live: started and neither finished nor cancelled.
    pub live: bool,
    /// Whether the live run is paused.
    pub paused: bool,
    /// Start instant of the current run, in epoch milliseconds; zero
    /// when no run was ever started.
    pub start_timestamp: u64,
    /// Accumulated pause span of the current run, in milliseconds.
    pub paused_duration: u64,
    /// Instant the current pause began, in epoch milliseconds.
    pub pause_started: u64,
    /// Target instant of the current run, in epoch milliseconds.
    pub target_ms: i64,
}

/// Two statuses carry the same state, comparing error text by content.
pub open spec fn status_equiv(a: CountdownStatus, b: CountdownStatus) -> bool {
    match (a, b) {
        (CountdownStatus::Idle, CountdownStatus::Idle) => true,
        (CountdownStatus::Running { remaining: x }, CountdownStatus::Running { remaining: y }) => x
            == y,
        (CountdownStatus::Finished, CountdownStatus::Finished) => true,
        (CountdownStatus::Cancelled, CountdownStatus::Cancelled) => true,
        (CountdownStatus::Error(x), CountdownStatus::Error(y)) => x@ == y@,
        _ => false,
    }
}

/// Cancelling: any live run is torn down, publishing the event exactly
/// then, and the state becomes `Cancelled` — except from the error
/// state, which only a fresh start leaves.
pub open spec fn spec_cancel(e: CountdownManager) -> (CountdownManager, Seq<CountdownUpdate>) {
    (
        CountdownManager {
            status: if e.status is Error {
                e.status
            } else {
                CountdownStatus::Cancelled
            },
            live: false,
            ..e
        },
        if e.live {
            seq![CountdownUpdate::Cancelled]
        } else {
            Seq::empty()
        },
    )
}

/// Starting a run for a future target: any prior run is cancelled first
/// — this is the one transition that also leaves the error state — the
/// pause accumulator is reset, and the start instant is recorded. The
/// status reads as cancelled until the first tick of the new run.
pub open spec fn spec_start(e: CountdownManager, target_ms: i64, now_ms: i64) -> (
    CountdownManager,
    Seq<CountdownUpdate>,
) {
    (
        CountdownManager {
            status: CountdownStatus::Cancelled,
            live: true,
            paused: false,
            start_timestamp: now_ms as u64,
            paused_duration: 0,
            target_ms,
            ..e
        },
        if e.live {
            seq![CountdownUpdate::Cancelled]
        } else {
            Seq::empty()
        },
    )
}

/// Pausing: effective only while running and not already paused; the
/// moment the pause began is recorded.
pub open spec fn spec_pause(e: CountdownManager, now_ms: i64) -> (
    CountdownManager,
    Seq<CountdownUpdate>,
) {
    if e.status is Running && !e.paused {
        (
            CountdownManager { paused: true, pause_started: now_ms as u64, ..e },
            seq![CountdownUpdate::Paused],
        )
    } else {
        (e, Seq::empty())
    }
}

/// The pause accumulator after resuming at `now_ms`: the elapsed pause
/// span is added exactly, saturating at the era bound.
pub open spec fn spec_resumed_accumulator(e: CountdownManager, now_ms: i64) -> u64 {
    let span: int = if now_ms as u64 > e.pause_started {
        now_ms as u64 - e.pause_started
    } else {
        0int
    };
    if e.paused_duration + span > MAX_EPOCH_MS as u64 {
        MAX_EPOCH_MS as u64
    } else {
        (e.paused_duration + span) as u64
    }
}

/// Resuming: effective only while running and paused; the elapsed pause
/// span joins the accumulator.
pub open spec fn spec_resume(e: CountdownManager, now_ms: i64) -> (
    CountdownManager,
    Seq<CountdownUpdate>,
) {
    if e.status is Running && e.paused {
        (
            CountdownManager {
                paused: false,
                paused_duration: spec_resumed_accumulator(e, now_ms),
                ..e
            },
            seq![CountdownUpdate::Resumed],
        )
    } else {
        (e, Seq::empty())
    }
}

/// The effective deadline of a run: the target shifted forward by the
/// accumulated pause span.
pub open spec fn spec_deadline_ms(e: CountdownManager) -> int {
    e.target_ms as int + e.paused_duration as int
}

/// Whether a tick at `now_ms` ends the run: less than one whole second
/// remains before the effective deadline.
pub open spec fn spec_tick_finishes(e: CountdownManager, now_ms: int) -> bool {
    spec_deadline_ms(e) - now_ms < 1000
}

/// Progress percentage: elapsed share of the full run, clamped to
/// 0..=100; a run of no length counts as complete.
pub open spec fn spec_progress(start_ms: int, target_ms: int, now_ms: int) -> int {
    let total = target_ms - start_ms;
    if total <= 0 {
        100int
    } else {
        let elapsed = if now_ms < start_ms {
            0int
        } else {
            now_ms - start_ms
        };
        if elapsed * 100 / total > 100 {
            100int
        } else {
            elapsed * 100 / total
        }
    }
}

/// One tick of a live, unpaused run: either the effective deadline is
/// within a second and the run finishes — publishing completion, and the
/// attached descriptor when there is one — or the run keeps going and
/// publishes its progress.
pub open spec fn spec_tick(e: CountdownManager, now_ms: i64) -> (
    CountdownManager,
    Seq<CountdownUpdate>,
) {
    if !e.live || e.paused {
        (e, Seq::empty())
    } else if spec_tick_finishes(e, now_ms as int) {
        (
            CountdownManager { status: CountdownStatus::Finished, live: false, ..e },
            match e.current_task {
                Some(task) => seq![
                    CountdownUpdate::Finished,
                    CountdownUpdate::TaskCompleted { task_info: task },
                ],
                None => seq![CountdownUpdate::Finished],
            },
        )
    } else {
        let remaining = spec_deadline_ms(e) - now_ms;
        (
            CountdownManager { status: CountdownStatus::Running { remaining: remaining as i64 }, ..e },
            seq![
                CountdownUpdate::Progress {
                    remaining: remaining as i64,
                    progress: spec_progress(
                        e.start_timestamp as int,
                        spec_deadline_ms(e),
                        now_ms as int,
                    ) as u64,
                },
            ],
        )
    }
}

impl CountdownManager {
    /// Internal consistency of the engine state: instants stay in the
    /// era and the pause accumulator stays bounded.
    pub open spec fn wf(self) -> bool {
        &&& self.live ==> 0 <= self.target_ms <= MAX_TARGET_MS
        &&& self.start_timestamp <= MAX_EPOCH_MS as u64
        &&& self.paused_duration <= MAX_EPOCH_MS as u64
        &&& self.pause_started <= MAX_EPOCH_MS as u64
    }

    /// Builds an idle engine with a fresh identifier.
    pub fn new() -> (r: Self)
        ensures
            r.wf(),
            r.status is Idle,
            r.current_task is None,
            !r.live,
            !r.paused,
            r.start_timestamp == 0,
            r.paused_duration == 0,
            r.id@.len() == 36,
    {
        CountdownManager {
            id: fresh_uuid(),
            status: CountdownStatus::Idle,
            current_task: None,
            live: false,
            paused: false,
            start_timestamp: 0,
            paused_duration: 0,
            pause_started: 0,
            target_ms: 0,
        }
    }

    /// The engine's identifier.
    pub fn get_id(&self) -> (r: &String)
        ensures
            r@ == self.id@,
    {
        &self.id
    }

    /// A snapshot of the current status.
    pub fn get_status(&self) -> (r: CountdownStatus)
        ensures
            status_equiv(r, self.status),
    {
        match &self.status {
            CountdownStatus::Idle => CountdownStatus::Idle,
            CountdownStatus::Running { remaining } => CountdownStatus::Running {
                remaining: *remaining,
            },
            CountdownStatus::Finished => CountdownStatus::Finished,
            CountdownStatus::Cancelled => CountdownStatus::Cancelled,
            CountdownStatus::Error(msg) => {
                let text = msg.clone();
                proof {
                    assert(text@ == msg@);
                }
                CountdownStatus::Error(text)
            },
        }
    }

    /// Starts a countdown for a target instant against an explicit clock
    /// reading. A target not strictly in the future is refused and the
    /// state is left unchanged; otherwise any prior run is cancelled
    /// (publishing its event), the pause accumulator is reset and the
    /// start instant recorded.
    pub fn start_countdown_at(&mut self, target_ms: i64, now_ms: i64) -> (r: Result<
        Vec<CountdownUpdate>,
        EngineError,
    >)
        requires
            old(self).wf(),
            0 <= now_ms <= MAX_EPOCH_MS,
            target_ms <= MAX_TARGET_MS,
        ensures
            final(self).wf(),
            target_ms <= now_ms ==> r is Err && r == Err::<Vec<CountdownUpdate>, EngineError>(
                EngineError::InvalidTarget,
            ) && *final(self) == *old(self),
            target_ms > now_ms ==> (r matches Ok(events) && (*final(self), events@) == spec_start(
                *old(self),
                target_ms,
                now_ms,
            )),
    {
        if target_ms <= now_ms {
            return Err(EngineError::InvalidTarget);
        }
        let events = self.cancel_countdown();
        self.status = CountdownStatus::Cancelled;
        self.live = true;
        self.paused = false;
        self.start_timestamp = now_ms as u64;
        self.paused_duration = 0;
        self.target_ms = target_ms;
        Ok(events)
    }

    /// Starts a countdown for a target instant against the wall clock.
    pub fn start_countdown(&mut self, target_ms: i64) -> (r: Result<
        Vec<CountdownUpdate>,
        EngineError,
    >)
        requires
            old(self).wf(),
            0 <= target_ms <= MAX_TARGET_MS,
        ensures
            final(self).wf(),
            r is Err ==> r == Err::<Vec<CountdownUpdate>, EngineError>(EngineError::InvalidTarget)
                && *final(self) == *old(self),
            r matches Ok(events) ==> exists|now_ms: i64|
                0 <= now_ms < target_ms && (*final(self), events@) == spec_start(
                    *old(self),
                    target_ms,
                    now_ms,
                ),
    {
        let now = LocalStamp::now();
        let ghost n = now.epoch_ms;
        let r = self.start_countdown_at(target_ms, now.epoch_ms);
        proof {
            if target_ms > n {
                assert((*self, r->Ok_0@) == spec_start(*old(self), target_ms, n));
            }
        }
        r
    }

    /// Computes the target instant of a task descriptor against a clock
    /// reading: a one-shot task names it outright; a daily task means
    /// today's occurrence of its time of day, or tomorrow's when today's
    /// has already passed.
    pub fn task_target_ms(task: &TaskData, now: &LocalStamp) -> (r: Result<i64, EngineError>)
        requires
            task.wf(),
            now.wf(),
        ensures
            r == spec_task_target_ms(*task, *now),
    {
        match task.task_type {
            TaskType::Once => {
                match task.target_time {
                    Some(t) => Ok(t),
                    None => Err(EngineError::MissingTargetTime),
                }
            },
            TaskType::Daily => {
                match task.daily_time {
                    Some(ct) => {
                        let target_s = now.today_at(ct.seconds_of_day());
                        let rolled: i64 = if now.epoch_ms > target_s * 1000 {
                            target_s + 86400
                        } else {
                            target_s
                        };
                        Ok(rolled * 1000)
                    },
                    None => Err(EngineError::MissingDailyTime),
                }
            },
        }
    }

    /// Starts a countdown from a task descriptor against an explicit
    /// clock reading. The descriptor is attached to the engine before the
    /// start is attempted, as the run's completion notice will carry it.
    pub fn start_countdown_from_task_at(&mut self, task: TaskData, now: &LocalStamp) -> (r: Result<
        Vec<CountdownUpdate>,
        EngineError,
    >)
        requires
            old(self).wf(),
            task.wf(),
            now.wf(),
        ensures
            final(self).wf(),
            final(self).current_task == Some(task),
            match spec_task_target_ms(task, *now) {
                Err(e) => {
                    &&& r == Err::<Vec<CountdownUpdate>, EngineError>(e)
                    &&& *final(self) == (CountdownManager {
                        current_task: Some(task),
                        ..*old(self)
                    })
                },
                Ok(target_ms) => {
                    &&& (target_ms <= now.epoch_ms ==> r == Err::<
                        Vec<CountdownUpdate>,
                        EngineError,
                    >(EngineError::InvalidTarget) && *final(self) == (CountdownManager {
                        current_task: Some(task),
                        ..*old(self)
                    }))
                    &&& (target_ms > now.epoch_ms ==> (r matches Ok(events) && (
                    *final(self),
                    events@,
                ) == spec_start(
                    CountdownManager { current_task: Some(task), ..*old(self) },
                    target_ms,
                    now.epoch_ms,
                )))
                },
            },
    {
        self.current_task = Some(task);
        let target_ms = match Self::task_target_ms(&task, now) {
            Ok(t) => t,
            Err(e) => {
                return Err(e);
            },
        };
        self.start_countdown_at(target_ms, now.epoch_ms)
    }

    /// Starts a countdown from a task descriptor against the wall clock.
    /// The descriptor's own defects are refused outright, exactly when
    /// they are present; a target the clock has already passed is
    /// refused with the state otherwise unchanged; on success the run
    /// starts for the instant the descriptor names at the clock reading
    /// taken during the call.
    pub fn start_countdown_from_task(&mut self, task: TaskData) -> (r: Result<
        Vec<CountdownUpdate>,
        EngineError,
    >)
        requires
            old(self).wf(),
            task.wf(),
        ensures
            final(self).wf(),
            final(self).current_task == Some(task),
            r == Err::<Vec<CountdownUpdate>, EngineError>(EngineError::MissingTargetTime) <==> (
            task.task_type is Once && task.target_time is None),
            r == Err::<Vec<CountdownUpdate>, EngineError>(EngineError::MissingDailyTime) <==> (
            task.task_type is Daily && task.daily_time is None),
            r is Err ==> *final(self) == (CountdownManager {
                current_task: Some(task),
                ..*old(self)
            }),
            r matches Ok(events) ==> exists|now: LocalStamp|
                now.wf() && (spec_task_target_ms(task, now) matches Ok(t) && t > now.epoch_ms && (
                *final(self),
                events@,
                ) == spec_start(
                    CountdownManager { current_task: Some(task), ..*old(self) },
                    t,
                    now.epoch_ms,
                )),
    {
        let now = LocalStamp::now();
        let ghost n = now;
        let r = self.start_countdown_from_task_at(task, &now);
        proof {
            if r is Ok {
                assert(spec_task_target_ms(task, n) matches Ok(t) && t > n.epoch_ms && (
                *self,
                r->Ok_0@,
                ) == spec_start(
                    CountdownManager { current_task: Some(task), ..*old(self) },
                    t,
                    n.epoch_ms,
                ));
            }
        }
        r
    }

    /// Cancels the current run. The state becomes `Cancelled` — except
    /// from the error state, which stays until a fresh start — and the
    /// event is published only when a live run existed, so a second
    /// cancel publishes nothing.
    pub fn cancel_countdown(&mut self) -> (events: Vec<CountdownUpdate>)
        requires
            old(self).wf(),
        ensures
            final(self).wf(),
            (*final(self), events@) == spec_cancel(*old(self)),
    {
        let had_live = self.live;
        self.live = false;
        match self.status {
            CountdownStatus::Error(_) => (),
            _ => {
                self.status = CountdownStatus::Cancelled;
            },
        }
        let mut events: Vec<CountdownUpdate> = Vec::new();
        if had_live {
            events.push(CountdownUpdate::Cancelled);
        }
        proof {
            assert(events@ =~= spec_cancel(*old(self)).1);
        }
        events
    }

    /// Pauses the current run, against an explicit clock reading.
    pub fn pause_countdown_at(&mut self, now_ms: i64) -> (events: Vec<CountdownUpdate>)
        requires
            old(self).wf(),
            0 <= now_ms <= MAX_EPOCH_MS,
        ensures
            final(self).wf(),
            (*final(self), events@) == spec_pause(*old(self), now_ms),
    {
        let mut events: Vec<CountdownUpdate> = Vec::new();
        if self.is_active() && !self.paused {
            self.paused = true;
            self.pause_started = now_ms as u64;
            events.push(CountdownUpdate::Paused);
            proof {
                assert(events@ =~= spec_pause(*old(self), now_ms).1);
            }
        } else {
            proof {
                assert(events@ =~= spec_pause(*old(self), now_ms).1);
            }
        }
        events
    }

    /// Pauses the current run against the wall clock.
    pub fn pause_countdown(&mut self) -> (events: Vec<CountdownUpdate>)
        requires
            old(self).wf(),
        ensures
            final(self).wf(),
            exists|now_ms: i64|
                0 <= now_ms <= MAX_EPOCH_MS && (*final(self), events@) == spec_pause(
                    *old(self),
                    now_ms,
                ),
    {
        let now = LocalStamp::now();
        let ghost n = now.epoch_ms;
        let events = self.pause_countdown_at(now.epoch_ms);
        proof {
            assert(0 <= n <= MAX_EPOCH_MS && (*self, events@) == spec_pause(*old(self), n));
        }
        events
    }

    /// Resumes the current run, against an explicit clock reading. The
    /// span spent paused joins the accumulator exactly.
    pub fn resume_countdown_at(&mut self, now_ms: i64) -> (events: Vec<CountdownUpdate>)
        requires
            old(self).wf(),
            0 <= now_ms <= MAX_EPOCH_MS,
        ensures
            final(self).wf(),
            (*final(self), events@) == spec_resume(*old(self), now_ms),
    {
        let mut events: Vec<CountdownUpdate> = Vec::new();
        if self.is_active() && self.paused {
            let span: u64 = if now_ms as u64 > self.pause_started {
                now_ms as u64 - self.pause_started
            } else {
                0
            };
            let cap: u64 = MAX_EPOCH_MS as u64;
            self.paused_duration = if self.paused_duration > cap - span {
                cap
            } else {
                self.paused_duration + span
            };
            self.paused = false;
            events.push(CountdownUpdate::Resumed);
            proof {
                assert(events@ =~= spec_resume(*old(self), now_ms).1);
            }
        } else {
            proof {
                assert(events@ =~= spec_resume(*old(self), now_ms).1);
            }
        }
        events
    }

    /// Resumes the current run against the wall clock.
    pub fn resume_countdown(&mut self) -> (events: Vec<CountdownUpdate>)
        requires
            old(self).wf(),
        ensures
            final(self).wf(),
            exists|now_ms: i64|
                0 <= now_ms <= MAX_EPOCH_MS && (*final(self), events@) == spec_resume(
                    *old(self),
                    now_ms,
                ),
    {
        let now = LocalStamp::now();
        let ghost n = now.epoch_ms;
        let events = self.resume_countdown_at(now.epoch_ms);
        proof {
            assert(0 <= n <= MAX_EPOCH_MS && (*self, events@) == spec_resume(*old(self), n));
        }
        events
    }

    /// Advances a live, unpaused run by one tick, against an explicit
    /// clock reading: the run either finishes — once, publishing its
    /// completion and the attached descriptor — or publishes progress.
    pub fn tick(&mut self, now_ms: i64) -> (events: Vec<CountdownUpdate>)
        requires
            old(self).wf(),
            0 <= now_ms <= MAX_EPOCH_MS,
        ensures
            final(self).wf(),
            (*final(self), events@) == spec_tick(*old(self), now_ms),
    {
        let mut events: Vec<CountdownUpdate> = Vec::new();
        if !self.live || self.paused {
            proof {
                assert(events@ =~= spec_tick(*old(self), now_ms).1);
            }
            return events;
        }
        let deadline: i64 = self.target_ms + self.paused_duration as i64;
        let remaining: i64 = deadline - now_ms;
        if remaining < 1000 {
            self.status = CountdownStatus::Finished;
            self.live = false;
            events.push(CountdownUpdate::Finished);
            match &self.current_task {
                Some(task) => {
                    events.push(CountdownUpdate::TaskCompleted { task_info: *task });
                },
                None => {},
            }
            proof {
                assert(events@ =~= spec_tick(*old(self), now_ms).1);
            }
        } else {
            self.status = CountdownStatus::Running { remaining };
            let progress = Self::calculate_progress(
                self.start_timestamp as i64,
                deadline,
                now_ms,
            );
            events.push(CountdownUpdate::Progress { remaining, progress });
            proof {
                assert(events@ =~= spec_tick(*old(self), now_ms).1);
            }
        }
        events
    }

    /// Resets the engine: cancels any run, then forces the idle state —
    /// also out of the error state, which a plain cancel keeps.
    pub fn reset(&mut self) -> (events: Vec<CountdownUpdate>)
        requires
            old(self).wf(),
        ensures
            final(self).wf(),
            final(self).status is Idle,
            !final(self).live,
            events@ == spec_cancel(*old(self)).1,
            *final(self) == (CountdownManager {
                status: CountdownStatus::Idle,
                ..spec_cancel(*old(self)).0
            }),
    {
        let events = self.cancel_countdown();
        self.status = CountdownStatus::Idle;
        events
    }

    /// Whether a countdown is running.
    pub fn is_active(&self) -> (r: bool)
        ensures
            r == (self.status is Running),
    {
        match self.status {
            CountdownStatus::Running { .. } => true,
            _ => false,
        }
    }

    /// Whether the current run is paused.
    pub fn is_paused(&self) -> (r: bool)
        ensures
            r == self.paused,
    {
        self.paused
    }

    /// The descriptor attached to the current run, if any.
    pub fn get_current_task(&self) -> (r: Option<TaskData>)
        ensures
            r == self.current_task,
    {
        self.current_task
    }

    /// The start instant of the current run in epoch milliseconds, or
    /// nothing when no run was ever started.
    pub fn get_start_timestamp(&self) -> (r: Option<u64>)
        ensures
            r == if self.start_timestamp > 0 {
                Some(self.start_timestamp)
            } else {
                None::<u64>
            },
    {
        if self.start_timestamp > 0 {
            Some(self.start_timestamp)
        } else {
            None
        }
    }

    /// The accumulated pause span of the current run, in milliseconds.
    pub fn get_total_paused_duration(&self) -> (r: u64)
        ensures
            r == self.paused_duration,
    {
        self.paused_duration
    }

    /// The remaining span of the current run in milliseconds, or nothing
    /// when no countdown is running.
    pub fn get_remaining_time(&self) -> (r: Option<i64>)
        ensures
            r == match self.status {
                CountdownStatus::Running { remaining } => Some(remaining),
                _ => None::<i64>,
            },
    {
        match self.status {
            CountdownStatus::Running { remaining } => Some(remaining),
            _ => None,
        }
    }

    /// Moves the engine to the error state, tearing down any live run,
    /// and publishes the message. The state is terminal: no tick, cancel,
    /// pause or resume leaves it; a fresh start does, and a reset forces
    /// the engine back to idle.
    pub fn set_error(&mut self, error_msg: String) -> (events: Vec<CountdownUpdate>)
        requires
            old(self).wf(),
        ensures
            final(self).wf(),
            *final(self) == (CountdownManager {
                status: CountdownStatus::Error(error_msg),
                live: false,
                ..*old(self)
            }),
            events@.len() == 1,
            events@[0] matches CountdownUpdate::Error(m) && m@ == error_msg@,
    {
        let text = error_msg.clone();
        proof {
            assert(text@ == error_msg@);
        }
        self.status = CountdownStatus::Error(error_msg);
        self.live = false;
        let mut events: Vec<CountdownUpdate> = Vec::new();
        events.push(CountdownUpdate::Error(text));
        events
    }

    /// Renders a remaining span in seconds as zero-padded clock text:
    /// hours, minutes and seconds, or minutes and seconds below an hour.
    /// A span of no length reads as zero hours.
    pub fn format_duration(duration_secs: i64) -> (r: String)
        ensures
            r@ == countdown_text(duration_secs as int),
    {
        if duration_secs <= 0 {
            let r = String::from_str("00:00:00");
            proof {
                reveal_strlit("00:00:00");
                assert(r@ =~= countdown_text(duration_secs as int));
            }
            return r;
        }
        let total = duration_secs as u64;
        let hours: u64 = total / 3600;
        let minutes: u64 = (total % 3600) / 60;
        let seconds: u64 = total % 60;
        let mut out: Vec<char> = Vec::new();
        if hours > 0 {
            crate::strings::push_pad2(&mut out, hours);
            out.push(':');
            crate::strings::push_pad2(&mut out, minutes);
            out.push(':');
            crate::strings::push_pad2(&mut out, seconds);
        } else {
            crate::strings::push_pad2(&mut out, minutes);
            out.push(':');
            crate::strings::push_pad2(&mut out, seconds);
        }
        proof {
            assert(out@ =~= countdown_text(duration_secs as int));
        }
        crate::strings::chars_to_string(&out)
    }

    /// Progress percentage of a run, clamped to 0..=100.
    pub fn calculate_progress(start_ms: i64, target_ms: i64, current_ms: i64) -> (r: u64)
        requires
            -MAX_TARGET_MS <= start_ms <= MAX_TARGET_MS,
            -MAX_TARGET_MS <= target_ms <= 2 * MAX_TARGET_MS,
            -MAX_TARGET_MS <= current_ms <= MAX_TARGET_MS,
        ensures
            r as int == spec_progress(start_ms as int, target_ms as int, current_ms as int),
            r <= 100,
    {
        let total = target_ms - start_ms;
        if total <= 0 {
            return 100;
        }
        let elapsed: i64 = if current_ms < start_ms {
            0
        } else {
            current_ms - start_ms
        };
        let ratio = elapsed * 100 / total;
        if ratio > 100 {
            100
        } else {
            ratio as u64
        }
    }
}

/// Target instant of a task descriptor at a clock reading.
pub open spec fn spec_task_target_ms(task: TaskData, now: LocalStamp) -> Result<i64, EngineError> {
    match task.task_type {
        TaskType::Once => match task.target_time {
            Some(t) => Ok(t),
            None => Err(EngineError::MissingTargetTime),
        },
        TaskType::Daily => match task.daily_time {
            Some(ct) => {
                let target_s = now.spec_today_at(ct.spec_seconds_of_day());
                let rolled = if now.epoch_ms > target_s * 1000 {
                    target_s + 86400
                } else {
                    target_s
                };
                Ok((rolled * 1000) as i64)
            },
            None => Err(EngineError::MissingDailyTime),
        },
    }
}

/// Zero-padded clock text of a remaining span in seconds.
pub open spec fn countdown_text(total: int) -> Seq<char> {
    if total <= 0 {
        seq!['0', '0', ':', '0', '0', ':', '0', '0']
    } else {
        let hours = total / 3600;
        let minutes = (total % 3600) / 60;
        let seconds = total % 60;
        if hours > 0 {
            dec_pad2(hours) + seq![':'] + dec_pad2(minutes) + seq![':'] + dec_pad2(seconds)
        } else {
            dec_pad2(minutes) + seq![':'] + dec_pad2(seconds)
        }
    }
}

/// Cancelling is idempotent and publishes at most once per run: the
/// first call reaches the cancelled state, publishing the event exactly
/// when a live run existed; a second call keeps the same state and
/// publishes nothing.
pub proof fn lemma_cancel_idempotent(e: CountdownManager)
    ensures
        ({
            let (e1, ev1) = spec_cancel(e);
            let (e2, ev2) = spec_cancel(e1);
            &&& !(e.status is Error) ==> e1.status is Cancelled
            &&& e2 == e1
            &&& ev1.len() == (if e.live {
                1int
            } else {
                0int
            })
            &&& ev2 =~= Seq::<CountdownUpdate>::empty()
        }),
{
}

/// Paused time is excluded from the deadline. Starting a run at `s` for
/// a target `s + total`, ticking while it runs, pausing at `p` and
/// resuming `d` milliseconds later leaves the pause accumulator at
/// exactly `d`, and a later tick finishes the run exactly when the
/// elapsed time since `s` reaches `total + d`, to tick granularity.
pub proof fn lemma_pause_excluded_from_deadline(
    e0: CountdownManager,
    total: i64,
    s: i64,
    t1: i64,
    p: i64,
    d: i64,
    n: i64,
)
    requires
        0 <= s <= MAX_EPOCH_MS,
        0 < total,
        s + total <= MAX_TARGET_MS,
        s <= t1 < s + total - 1000,
        t1 <= p,
        0 <= d,
        p + d <= MAX_EPOCH_MS,
    ensures
        ({
            let started = spec_start(e0, (s + total) as i64, s).0;
            let running = spec_tick(started, t1).0;
            let paused = spec_pause(running, p).0;
            let resumed = spec_resume(paused, (p + d) as i64).0;
            &&& resumed.paused_duration == d
            &&& (spec_tick(resumed, n).0.status is Finished <==> n - s > total + d - 1000)
        }),
{
    let started = spec_start(e0, (s + total) as i64, s).0;
    let running = spec_tick(started, t1).0;
    let paused = spec_pause(running, p).0;
    let resumed = spec_resume(paused, (p + d) as i64).0;
    assert(running.status is Running);
    assert(resumed.paused_duration == d);
    assert(spec_deadline_ms(resumed) == s + total + d);
}

} // verus!