//! In-application notifications.
//!
//! The manager keeps a bounded list of active notifications ordered by
//! priority — evicting the oldest low-priority entry when full — and a
//! bounded history that drops its oldest entry when it overflows.
//! Display durations are judged against wall-clock milliseconds.

use vstd::prelude::*;

use crate::clock::{LocalStamp, MAX_EPOCH_MS};
use crate::platform::fresh_uuid;
use crate::strings::str_to_chars;

verus! {

/// Kind of a notification.
#[derive(Debug, Clone, Copy, PartialEq, Eq, Structural)]
pub enum NotificationType {
    Info,
    Warning,
    Error,
    Success,
    Countdown,
}

/// Urgency of a notification.
#[derive(Debug, Clone, Copy, PartialEq, Eq, PartialOrd, Ord, Structural)]
pub enum NotificationPriority {
    Low,
    Normal,
    High,
    Critical,
}

/// Numeric rank of a priority, higher meaning more urgent.
pub open spec fn rank(p: NotificationPriority) -> int {
    match p {
        NotificationPriority::Low => 0,
        NotificationPriority::Normal => 1,
        NotificationPriority::High => 2,
        NotificationPriority::Critical => 3,
    }
}

impl NotificationPriority {
    /// Numeric rank of this priority, as executable code.
    pub fn rank_value(&self) -> (r: u8)
        ensures
            r as int == rank(*self),
    {
        match self {
            NotificationPriority::Low => 0,
            NotificationPriority::Normal => 1,
            NotificationPriority::High => 2,
            NotificationPriority::Critical => 3,
        }
    }
}

/// One notification.
#[derive(Debug, Clone, PartialEq)]
pub struct NotificationMessage {
    /// Unique identifier.
    pub id: String,
    /// Title line.
    pub title: String,
    /// Body text.
    pub content: String,
    /// Kind of the notification.
    pub notification_type: NotificationType,
    /// Urgency.
    pub priority: NotificationPriority,
    /// How long to show it, in milliseconds; absent means forever.
    pub duration_ms: Option<u64>,
    /// Whether the user may close it.
    pub dismissible: bool,
    /// Whether showing it plays a sound.
    pub play_sound: bool,
    /// Creation instant, in epoch milliseconds.
    pub created_at: i64,
}

/// Whether a notification's display span has passed at a clock reading.
pub open spec fn expired_at(n: NotificationMessage, now_ms: i64) -> bool {
    match n.duration_ms {
        Some(d) => (if now_ms > n.created_at {
            now_ms - n.created_at
        } else {
            0int
        }) > d,
        None => false,
    }
}

impl NotificationMessage {
    /// Builds a notification with a fresh identifier, normal priority, a
    /// five-second display span, dismissible and silent.
    pub fn new(title: &str, content: &str, notification_type: NotificationType) -> (r: Self)
        ensures
            r.id@.len() == 36,
            r.title@ == title@,
            r.content@ == content@,
            r.notification_type == notification_type,
            r.priority == NotificationPriority::Normal,
            r.duration_ms == Some(5000u64),
            r.dismissible,
            !r.play_sound,
            0 <= r.created_at <= MAX_EPOCH_MS,
    {
        let now = LocalStamp::now();
        NotificationMessage {
            id: fresh_uuid(),
            title: title.to_owned(),
            content: content.to_owned(),
            notification_type,
            priority: NotificationPriority::Normal,
            duration_ms: Some(5000),
            dismissible: true,
            play_sound: false,
            created_at: now.epoch_ms,
        }
    }

    /// The same notification with another priority.
    pub fn with_priority(self, priority: NotificationPriority) -> (r: Self)
        ensures
            r == (NotificationMessage { priority, ..self }),
    {
        NotificationMessage { priority, ..self }
    }

    /// The same notification with another display span.
    pub fn with_duration(self, duration_ms: Option<u64>) -> (r: Self)
        ensures
            r == (NotificationMessage { duration_ms, ..self }),
    {
        NotificationMessage { duration_ms, ..self }
    }

    /// The same notification with another dismissibility.
    pub fn with_dismissible(self, dismissible: bool) -> (r: Self)
        ensures
            r == (NotificationMessage { dismissible, ..self }),
    {
        NotificationMessage { dismissible, ..self }
    }

    /// The same notification with another sound setting.
    pub fn with_sound(self, play_sound: bool) -> (r: Self)
        ensures
            r == (NotificationMessage { play_sound, ..self }),
    {
        NotificationMessage { play_sound, ..self }
    }

    /// An identical copy.
    pub fn duplicate(&self) -> (r: Self)
        ensures
            r == *self,
    {
        NotificationMessage {
            id: self.id.clone(),
            title: self.title.clone(),
            content: self.content.clone(),
            notification_type: self.notification_type,
            priority: self.priority,
            duration_ms: self.duration_ms,
            dismissible: self.dismissible,
            play_sound: self.play_sound,
            created_at: self.created_at,
        }
    }

    /// Whether the display span has passed at a clock reading.
    pub fn is_expired_at(&self, now_ms: i64) -> (r: bool)
        requires
            0 <= self.created_at,
        ensures
            r == expired_at(*self, now_ms),
    {
        match self.duration_ms {
            Some(d) => {
                let elapsed: i64 = if now_ms > self.created_at {
                    now_ms - self.created_at
                } else {
                    0
                };
                elapsed as u64 > d
            },
            None => false,
        }
    }

    /// Whether the display span has passed on the wall clock.
    pub fn is_expired(&self) -> (r: bool)
        requires
            0 <= self.created_at,
        ensures
            exists|now_ms: i64| 0 <= now_ms <= MAX_EPOCH_MS && r == expired_at(*self, now_ms),
    {
        let now = LocalStamp::now();
        let ghost n = now.epoch_ms;
        let r = self.is_expired_at(now.epoch_ms);
        proof {
            assert(0 <= n <= MAX_EPOCH_MS && r == expired_at(*self, n));
        }
        r
    }

    /// The remaining display span at a clock reading: absent when shown
    /// forever, zero once the span passed.
    pub fn remaining_time_ms_at(&self, now_ms: i64) -> (r: Option<u64>)
        requires
            0 <= self.created_at,
        ensures
            r == match self.duration_ms {
                Some(d) => {
                    let elapsed = if now_ms > self.created_at {
                        now_ms - self.created_at
                    } else {
                        0int
                    };
                    if elapsed < d {
                        Some((d - elapsed) as u64)
                    } else {
                        Some(0u64)
                    }
                },
                None => None::<u64>,
            },
    {
        match self.duration_ms {
            Some(d) => {
                let elapsed: i64 = if now_ms > self.created_at {
                    now_ms - self.created_at
                } else {
                    0
                };
                if (elapsed as u64) < d {
                    Some(d - elapsed as u64)
                } else {
                    Some(0)
                }
            },
            None => None,
        }
    }

    /// The remaining display span on the wall clock.
    pub fn remaining_time_ms(&self) -> (r: Option<u64>)
        requires
            0 <= self.created_at,
        ensures
            r is Some <==> self.duration_ms is Some,
    {
        let now = LocalStamp::now();
        self.remaining_time_ms_at(now.epoch_ms)
    }
}

/// The active list is ordered by rank, most urgent first.
pub open spec fn sorted_by_rank(s: Seq<NotificationMessage>) -> bool {
    forall|i: int, j: int|
        0 <= i < j < s.len() ==> rank(#[trigger] s[i].priority) >= rank(#[trigger] s[j].priority)
}

/// First index, from `i` on, holding at most normal priority; the length
/// when every entry is urgent.
pub open spec fn first_low_index(s: Seq<NotificationMessage>, i: int) -> int
    decreases s.len() - i,
{
    if 0 <= i < s.len() {
        if rank(s[i].priority) <= 1 {
            i
        } else {
            first_low_index(s, i + 1)
        }
    } else {
        i
    }
}

/// The list after making room: the oldest low-priority entry leaves, or
/// the oldest entry of all when every entry is urgent.
pub open spec fn spec_evict(s: Seq<NotificationMessage>) -> Seq<NotificationMessage> {
    let p = first_low_index(s, 0);
    if p < s.len() {
        s.remove(p)
    } else if s.len() > 0 {
        s.remove(0)
    } else {
        s
    }
}

/// First index, from `i` on, whose rank is below the given one; new
/// entries go there, after every peer of equal urgency.
pub open spec fn insert_index(s: Seq<NotificationMessage>, rk: int, i: int) -> int
    decreases s.len() - i,
{
    if 0 <= i < s.len() {
        if rank(s[i].priority) < rk {
            i
        } else {
            insert_index(s, rk, i + 1)
        }
    } else {
        i
    }
}

/// The history after recording a notification: appended, and the oldest
/// entry dropped once the bound is passed.
pub open spec fn spec_record_history(
    h: Seq<NotificationMessage>,
    n: NotificationMessage,
    max_history: int,
) -> Seq<NotificationMessage> {
    if h.len() + 1 > max_history {
        h.push(n).drop_first()
    } else {
        h.push(n)
    }
}

/// The active list that showing a notification produces: room is made
/// when the bound is reached, then the entry joins at its rank.
pub open spec fn spec_show(
    s: Seq<NotificationMessage>,
    n: NotificationMessage,
    max_notifications: int,
) -> Seq<NotificationMessage> {
    let base = if s.len() >= max_notifications {
        spec_evict(s)
    } else {
        s
    };
    base.insert(insert_index(base, rank(n.priority), 0), n)
}

/// Refusals of the notification system; none occur today, the type names
/// the failure channel of the display path.
#[derive(Debug, Clone, Copy, PartialEq, Eq, Structural)]
pub enum NotifyError {
    /// Showing the notification to the system failed.
    DisplayFailed,
}

/// Keeps the active notifications and their history.
#[derive(Debug)]
pub struct NotificationManager {
    /// Active notifications, most urgent first.
    pub active_notifications: Vec<NotificationMessage>,
    /// Bound on simultaneously active notifications.
    pub max_notifications: usize,
    /// Whether notifications are shown at all.
    pub enabled: bool,
    /// Whether sounds play.
    pub sound_enabled: bool,
    /// Shown notifications, oldest first.
    pub notification_history: Vec<NotificationMessage>,
    /// Bound on the history length.
    pub max_history: usize,
}

impl NotificationManager {
    /// The active list stays ordered by urgency.
    pub open spec fn wf(self) -> bool {
        sorted_by_rank(self.active_notifications@)
    }

    /// Builds an empty manager with the given bounds, enabled and with
    /// sound.
    pub fn new(max_notifications: usize, max_history: usize) -> (r: Self)
        ensures
            r.wf(),
            r.active_notifications@.len() == 0,
            r.max_notifications == max_notifications,
            r.enabled,
            r.sound_enabled,
            r.notification_history@.len() == 0,
            r.max_history == max_history,
    {
        NotificationManager {
            active_notifications: Vec::new(),
            max_notifications,
            enabled: true,
            sound_enabled: true,
            notification_history: Vec::new(),
            max_history,
        }
    }

    /// Shows a notification: when enabled, it joins the active list at
    /// its urgency — making room when the list is full — and the history
    /// records it. The identifier is returned either way.
    #[verifier::loop_isolation(false)]
    pub fn show_notification(&mut self, notification: NotificationMessage) -> (r: Result<
        String,
        NotifyError,
    >)
        requires
            old(self).wf(),
        ensures
            final(self).wf(),
            r matches Ok(id) && id@ == notification.id@,
            !old(self).enabled ==> *final(self) == *old(self),
            old(self).enabled ==> *final(self) == (NotificationManager {
                active_notifications: final(self).active_notifications,
                notification_history: final(self).notification_history,
                ..*old(self)
            }) && final(self).active_notifications@ == spec_show(
                old(self).active_notifications@,
                notification,
                old(self).max_notifications as int,
            ) && final(self).notification_history@ == spec_record_history(
                old(self).notification_history@,
                notification,
                old(self).max_history as int,
            ),
    {
        if !self.enabled {
            return Ok(notification.id.clone());
        }
        if self.active_notifications.len() >= self.max_notifications {
            self.remove_oldest_low_priority_notification();
        }
        let id = notification.id.clone();
        let copy = notification.duplicate();
        let rk = notification.priority.rank_value();
        let ghost base = self.active_notifications@;
        let mut pos: usize = 0;
        while pos < self.active_notifications.len() && self.active_notifications[
            pos
        ].priority.rank_value() >= rk
            invariant
                pos <= base.len(),
                base == self.active_notifications@,
                insert_index(base, rk as int, 0) == insert_index(base, rk as int, pos as int),
            decreases base.len() - pos,
        {
            pos = pos + 1;
        }
        proof {
            assert(pos as int == insert_index(base, rk as int, 0));
        }
        self.active_notifications.insert(pos, copy);
        proof {
            lemma_insert_index_sorted(base, notification, rk as int);
        }
        self.add_to_history(notification);
        Ok(id)
    }

    /// Removes the first notification with the given identifier and
    /// says whether one was there.
    #[verifier::loop_isolation(false)]
    pub fn dismiss_notification(&mut self, notification_id: &str) -> (r: bool)
        requires
            old(self).wf(),
        ensures
            final(self).wf(),
            final(self).max_notifications == old(self).max_notifications,
            final(self).enabled == old(self).enabled,
            final(self).sound_enabled == old(self).sound_enabled,
            final(self).notification_history == old(self).notification_history,
            final(self).max_history == old(self).max_history,
            match first_id_index(old(self).active_notifications@, notification_id@, 0) {
                Some(p) => r && final(self).active_notifications@ == old(
                    self,
                ).active_notifications@.remove(p),
                None => !r && final(self).active_notifications@ == old(
                    self,
                ).active_notifications@,
            },
    {
        let chars = str_to_chars(notification_id);
        let ghost s = self.active_notifications@;
        let mut i: usize = 0;
        while i < self.active_notifications.len()
            invariant
                i <= s.len(),
                s == self.active_notifications@,
                chars@ == notification_id@,
                self.max_notifications == old(self).max_notifications,
                self.enabled == old(self).enabled,
                self.sound_enabled == old(self).sound_enabled,
                self.notification_history == old(self).notification_history,
                self.max_history == old(self).max_history,
                first_id_index(s, notification_id@, 0) == first_id_index(
                    s,
                    notification_id@,
                    i as int,
                ),
            decreases s.len() - i,
        {
            if crate::strings::chars_eq_str(&chars, self.active_notifications[i].id.as_str()) {
                proof {
                    assert(s[i as int].id@ == notification_id@);
                    assert(first_id_index(s, notification_id@, i as int) == Some(i as int));
                }
                self.active_notifications.remove(i);
                proof {
                    lemma_remove_sorted(s, i as int);
                }
                return true;
            }
            i = i + 1;
        }
        false
    }

    /// Clears the active list; the history stays.
    pub fn dismiss_all_notifications(&mut self)
        ensures
            final(self).wf(),
            *final(self) == (NotificationManager {
                active_notifications: final(self).active_notifications,
                ..*old(self)
            }),
            final(self).active_notifications@.len() == 0,
    {
        self.active_notifications.clear();
    }

    /// Drops every active notification whose display span has passed at
    /// the given clock reading; says how many left.
    #[verifier::loop_isolation(false)]
    pub fn cleanup_expired_notifications_at(&mut self, now_ms: i64) -> (r: usize)
        requires
            old(self).wf(),
            forall|k: int|
                0 <= k < old(self).active_notifications@.len() ==> 0 <= (#[trigger] old(
                    self,
                ).active_notifications@[k]).created_at,
        ensures
            final(self).wf(),
            *final(self) == (NotificationManager {
                active_notifications: final(self).active_notifications,
                ..*old(self)
            }),
            final(self).active_notifications@ == retain_fresh(
                old(self).active_notifications@,
                now_ms,
            ),
            r == old(self).active_notifications@.len()
                - final(self).active_notifications@.len(),
    {
        let ghost s = self.active_notifications@;
        let before = self.active_notifications.len();
        let mut kept: Vec<NotificationMessage> = Vec::new();
        let mut i: usize = 0;
        while i < self.active_notifications.len()
            invariant
                i <= s.len(),
                s == self.active_notifications@,
                forall|k: int| 0 <= k < s.len() ==> 0 <= (#[trigger] s[k]).created_at,
                kept@ == retain_fresh(s.subrange(0, i as int), now_ms),
            decreases s.len() - i,
        {
            let ghost prefix = s.subrange(0, i as int);
            if !self.active_notifications[i].is_expired_at(now_ms) {
                let copy = self.active_notifications[i].duplicate();
                kept.push(copy);
            }
            proof {
                assert(s.subrange(0, i as int + 1).drop_last() =~= prefix);
                assert(s.subrange(0, i as int + 1).last() == s[i as int]);
                assert(kept@ == retain_fresh(s.subrange(0, i as int + 1), now_ms));
            }
            i = i + 1;
        }
        proof {
            assert(s.subrange(0, s.len() as int) =~= s);
            lemma_retain_fresh_sorted(s, now_ms);
            lemma_retain_fresh_len(s, now_ms);
        }
        let after = kept.len();
        self.active_notifications = kept;
        before - after
    }

    /// Drops every active notification whose display span has passed on
    /// the wall clock; says how many left.
    pub fn cleanup_expired_notifications(&mut self) -> (r: usize)
        requires
            old(self).wf(),
            forall|k: int|
                0 <= k < old(self).active_notifications@.len() ==> 0 <= (#[trigger] old(
                    self,
                ).active_notifications@[k]).created_at,
        ensures
            final(self).wf(),
            exists|now_ms: i64|
                0 <= now_ms <= MAX_EPOCH_MS && final(self).active_notifications@ == retain_fresh(
                    old(self).active_notifications@,
                    now_ms,
                ),
            r == old(self).active_notifications@.len()
                - final(self).active_notifications@.len(),
    {
        let now = LocalStamp::now();
        let ghost n = now.epoch_ms;
        let r = self.cleanup_expired_notifications_at(now.epoch_ms);
        proof {
            assert(0 <= n <= MAX_EPOCH_MS && self.active_notifications@ == retain_fresh(
                old(self).active_notifications@,
                n,
            ));
        }
        r
    }

    /// The active notifications, most urgent first.
    pub fn get_active_notifications(&self) -> (r: &Vec<NotificationMessage>)
        ensures
            r == &self.active_notifications,
    {
        &self.active_notifications
    }

    /// The recorded history, oldest first.
    pub fn get_notification_history(&self) -> (r: &Vec<NotificationMessage>)
        ensures
            r == &self.notification_history,
    {
        &self.notification_history
    }

    /// The first active notification with the given identifier.
    #[verifier::loop_isolation(false)]
    pub fn get_notification_by_id(&self, notification_id: &str) -> (r: Option<
        &NotificationMessage,
    >)
        ensures
            match first_id_index(self.active_notifications@, notification_id@, 0) {
                Some(p) => r matches Some(n) && *n == self.active_notifications@[p],
                None => r is None,
            },
    {
        let chars = str_to_chars(notification_id);
        let ghost s = self.active_notifications@;
        let mut i: usize = 0;
        while i < self.active_notifications.len()
            invariant
                i <= s.len(),
                s == self.active_notifications@,
                chars@ == notification_id@,
                first_id_index(s, notification_id@, 0) == first_id_index(
                    s,
                    notification_id@,
                    i as int,
                ),
            decreases s.len() - i,
        {
            if crate::strings::chars_eq_str(&chars, self.active_notifications[i].id.as_str()) {
                proof {
                    assert(s[i as int].id@ == notification_id@);
                    assert(first_id_index(s, notification_id@, i as int) == Some(i as int));
                }
                return Some(&self.active_notifications[i]);
            }
            i = i + 1;
        }
        None
    }

    /// Turns the whole notification system on or off.
    pub fn set_enabled(&mut self, enabled: bool)
        ensures
            *final(self) == (NotificationManager { enabled, ..*old(self) }),
    {
        self.enabled = enabled;
    }

    /// Turns sounds on or off.
    pub fn set_sound_enabled(&mut self, enabled: bool)
        ensures
            *final(self) == (NotificationManager { sound_enabled: enabled, ..*old(self) }),
    {
        self.sound_enabled = enabled;
    }

    /// Counts the active and recorded notifications, by kind.
    #[verifier::loop_isolation(false)]
    pub fn get_stats(&self) -> (r: NotificationStats)
        ensures
            r.active_count == self.active_notifications@.len(),
            r.history_count == self.notification_history@.len(),
            r.enabled == self.enabled,
            r.sound_enabled == self.sound_enabled,
            r.info_count == count_of_type(self.active_notifications@, NotificationType::Info),
            r.warning_count == count_of_type(
                self.active_notifications@,
                NotificationType::Warning,
            ),
            r.error_count == count_of_type(self.active_notifications@, NotificationType::Error),
            r.success_count == count_of_type(
                self.active_notifications@,
                NotificationType::Success,
            ),
            r.countdown_count == count_of_type(
                self.active_notifications@,
                NotificationType::Countdown,
            ),
    {
        let ghost s = self.active_notifications@;
        let mut info_count: usize = 0;
        let mut warning_count: usize = 0;
        let mut error_count: usize = 0;
        let mut success_count: usize = 0;
        let mut countdown_count: usize = 0;
        let mut i: usize = 0;
        while i < self.active_notifications.len()
            invariant
                i <= s.len(),
                s == self.active_notifications@,
                info_count as int == count_of_type(s.subrange(0, i as int), NotificationType::Info),
                warning_count as int == count_of_type(
                    s.subrange(0, i as int),
                    NotificationType::Warning,
                ),
                error_count as int == count_of_type(
                    s.subrange(0, i as int),
                    NotificationType::Error,
                ),
                success_count as int == count_of_type(
                    s.subrange(0, i as int),
                    NotificationType::Success,
                ),
                countdown_count as int == count_of_type(
                    s.subrange(0, i as int),
                    NotificationType::Countdown,
                ),
                info_count <= i && warning_count <= i && error_count <= i && success_count <= i
                    && countdown_count <= i,
            decreases s.len() - i,
        {
            let ghost prefix = s.subrange(0, i as int);
            proof {
                assert(s.subrange(0, i as int + 1).drop_last() =~= prefix);
                assert(s.subrange(0, i as int + 1).last() == s[i as int]);
            }
            match self.active_notifications[i].notification_type {
                NotificationType::Info => {
                    info_count = info_count + 1;
                },
                NotificationType::Warning => {
                    warning_count = warning_count + 1;
                },
                NotificationType::Error => {
                    error_count = error_count + 1;
                },
                NotificationType::Success => {
                    success_count = success_count + 1;
                },
                NotificationType::Countdown => {
                    countdown_count = countdown_count + 1;
                },
            }
            i = i + 1;
        }
        proof {
            assert(s.subrange(0, s.len() as int) =~= s);
        }
        NotificationStats {
            active_count: self.active_notifications.len(),
            history_count: self.notification_history.len(),
            enabled: self.enabled,
            sound_enabled: self.sound_enabled,
            info_count,
            warning_count,
            error_count,
            success_count,
            countdown_count,
        }
    }

    /// Makes room in the active list: the oldest low-priority entry
    /// leaves, or the oldest of all when every entry is urgent.
    #[verifier::loop_isolation(false)]
    fn remove_oldest_low_priority_notification(&mut self)
        requires
            old(self).wf(),
        ensures
            final(self).wf(),
            final(self).max_notifications == old(self).max_notifications,
            final(self).enabled == old(self).enabled,
            final(self).sound_enabled == old(self).sound_enabled,
            final(self).notification_history == old(self).notification_history,
            final(self).max_history == old(self).max_history,
            final(self).active_notifications@ == spec_evict(old(self).active_notifications@),
    {
        let ghost s = self.active_notifications@;
        let mut i: usize = 0;
        while i < self.active_notifications.len()
            invariant
                i <= s.len(),
                s == self.active_notifications@,
                self.max_notifications == old(self).max_notifications,
                self.enabled == old(self).enabled,
                self.sound_enabled == old(self).sound_enabled,
                self.notification_history == old(self).notification_history,
                self.max_history == old(self).max_history,
                first_low_index(s, 0) == first_low_index(s, i as int),
            decreases s.len() - i,
        {
            if self.active_notifications[i].priority.rank_value() <= 1 {
                proof {
                    assert(first_low_index(s, i as int) == i as int);
                }
                self.active_notifications.remove(i);
                proof {
                    lemma_remove_sorted(s, i as int);
                }
                return;
            }
            i = i + 1;
        }
        if self.active_notifications.len() > 0 {
            self.active_notifications.remove(0);
            proof {
                lemma_remove_sorted(s, 0);
            }
        }
    }

    /// Records a notification in the history, dropping the oldest entry
    /// once the bound is passed.
    fn add_to_history(&mut self, notification: NotificationMessage)
        ensures
            *final(self) == (NotificationManager {
                notification_history: final(self).notification_history,
                ..*old(self)
            }),
            final(self).notification_history@ == spec_record_history(
                old(self).notification_history@,
                notification,
                old(self).max_history as int,
            ),
    {
        self.notification_history.push(notification);
        if self.notification_history.len() > self.max_history {
            self.notification_history.remove(0);
            proof {
                assert(self.notification_history@ =~= spec_record_history(
                    old(self).notification_history@,
                    notification,
                    old(self).max_history as int,
                ));
            }
        }
    }
}

/// First index, from `i` on, of a notification with the given
/// identifier text.
pub open spec fn first_id_index(s: Seq<NotificationMessage>, id: Seq<char>, i: int) -> Option<int>
    decreases s.len() - i,
{
    if 0 <= i < s.len() {
        if s[i].id@ == id {
            Some(i)
        } else {
            first_id_index(s, id, i + 1)
        }
    } else {
        None
    }
}

/// The notifications whose display span has not passed at a clock
/// reading, in order.
pub open spec fn retain_fresh(s: Seq<NotificationMessage>, now_ms: i64) -> Seq<
    NotificationMessage,
>
    decreases s.len(),
{
    if s.len() == 0 {
        Seq::empty()
    } else {
        let kept = retain_fresh(s.drop_last(), now_ms);
        if expired_at(s.last(), now_ms) {
            kept
        } else {
            kept.push(s.last())
        }
    }
}

/// Keeping the fresh entries never lengthens the list.
proof fn lemma_retain_fresh_len(s: Seq<NotificationMessage>, now_ms: i64)
    ensures
        retain_fresh(s, now_ms).len() <= s.len(),
    decreases s.len(),
{
    if s.len() > 0 {
        lemma_retain_fresh_len(s.drop_last(), now_ms);
    }
}

/// Every rank bound of a list carries over to its fresh entries.
proof fn lemma_retain_fresh_rank_low(s: Seq<NotificationMessage>, now_ms: i64, b: int)
    requires
        forall|k: int| 0 <= k < s.len() ==> rank((#[trigger] s[k]).priority) >= b,
    ensures
        forall|k: int|
            0 <= k < retain_fresh(s, now_ms).len() ==> rank(
                (#[trigger] retain_fresh(s, now_ms)[k]).priority,
            ) >= b,
    decreases s.len(),
{
    if s.len() > 0 {
        assert(forall|k: int|
            0 <= k < s.drop_last().len() ==> rank((#[trigger] s.drop_last()[k]).priority) >= b);
        lemma_retain_fresh_rank_low(s.drop_last(), now_ms, b);
    }
}

/// Keeping the fresh entries keeps the urgency order.
proof fn lemma_retain_fresh_sorted(s: Seq<NotificationMessage>, now_ms: i64)
    requires
        sorted_by_rank(s),
    ensures
        sorted_by_rank(retain_fresh(s, now_ms)),
    decreases s.len(),
{
    if s.len() > 0 {
        let t = s.drop_last();
        assert(sorted_by_rank(t));
        lemma_retain_fresh_sorted(t, now_ms);
        if !expired_at(s.last(), now_ms) {
            assert(forall|k: int|
                0 <= k < t.len() ==> rank((#[trigger] t[k]).priority) >= rank(s.last().priority));
            lemma_retain_fresh_rank_low(t, now_ms, rank(s.last().priority));
        }
    }
}

/// Inserting at the first lower-ranked position keeps the urgency order.
proof fn lemma_insert_index_sorted(
    s: Seq<NotificationMessage>,
    n: NotificationMessage,
    rk: int,
)
    requires
        sorted_by_rank(s),
        rk == rank(n.priority),
    ensures
        sorted_by_rank(s.insert(insert_index(s, rk, 0), n)),
{
    lemma_insert_index_bounds(s, rk, 0);
    let pos = insert_index(s, rk, 0);
    let t = s.insert(pos, n);
    assert forall|i: int, j: int| 0 <= i < j < t.len() implies rank(
        #[trigger] t[i].priority,
    ) >= rank(#[trigger] t[j].priority) by {
        if i < pos {
            assert(t[i] == s[i]);
        } else if i == pos {
            assert(t[i] == n);
        } else {
            assert(t[i] == s[i - 1]);
        }
        if j < pos {
            assert(t[j] == s[j]);
        } else if j == pos {
            assert(t[j] == n);
        } else {
            assert(t[j] == s[j - 1]);
        }
    }
}

/// Removing an entry keeps the urgency order.
proof fn lemma_remove_sorted(s: Seq<NotificationMessage>, p: int)
    requires
        sorted_by_rank(s),
        0 <= p < s.len(),
    ensures
        sorted_by_rank(s.remove(p)),
{
    let t = s.remove(p);
    assert forall|i: int, j: int| 0 <= i < j < t.len() implies rank(
        #[trigger] t[i].priority,
    ) >= rank(#[trigger] t[j].priority) by {
        if i < p {
            assert(t[i] == s[i]);
        } else {
            assert(t[i] == s[i + 1]);
        }
        if j < p {
            assert(t[j] == s[j]);
        } else {
            assert(t[j] == s[j + 1]);
        }
    }
}

/// The insertion point splits the list into higher-or-equal ranks before
/// and strictly lower ranks from it on.
proof fn lemma_insert_index_bounds(s: Seq<NotificationMessage>, rk: int, i: int)
    requires
        0 <= i <= s.len(),
        forall|j: int| 0 <= j < i ==> rank((#[trigger] s[j]).priority) >= rk,
    ensures
        i <= insert_index(s, rk, i) <= s.len(),
        forall|j: int|
            0 <= j < insert_index(s, rk, i) ==> rank((#[trigger] s[j]).priority) >= rk,
        insert_index(s, rk, i) < s.len() ==> rank(s[insert_index(s, rk, i)].priority) < rk,
    decreases s.len() - i,
{
    if i < s.len() && rank(s[i].priority) >= rk {
        lemma_insert_index_bounds(s, rk, i + 1);
    }
}

/// Counters and settings of the notification system.
#[derive(Debug, Clone, PartialEq)]
pub struct NotificationStats {
    /// Active notifications.
    pub active_count: usize,
    /// Recorded notifications.
    pub history_count: usize,
    /// Whether notifications are shown.
    pub enabled: bool,
    /// Whether sounds play.
    pub sound_enabled: bool,
    /// Active informational notifications.
    pub info_count: usize,
    /// Active warnings.
    pub warning_count: usize,
    /// Active errors.
    pub error_count: usize,
    /// Active success notices.
    pub success_count: usize,
    /// Active countdown notices.
    pub countdown_count: usize,
}

impl Default for NotificationStats {
    /// Empty statistics: nothing counted, everything off.
    fn default() -> (r: Self)
        ensures
            r.active_count == 0,
            r.history_count == 0,
            !r.enabled,
            !r.sound_enabled,
            r.info_count == 0,
            r.warning_count == 0,
            r.error_count == 0,
            r.success_count == 0,
            r.countdown_count == 0,
    {
        NotificationStats {
            active_count: 0,
            history_count: 0,
            enabled: false,
            sound_enabled: false,
            info_count: 0,
            warning_count: 0,
            error_count: 0,
            success_count: 0,
            countdown_count: 0,
        }
    }
}

/// How many notifications of a kind a list holds.
pub open spec fn count_of_type(s: Seq<NotificationMessage>, t: NotificationType) -> int
    decreases s.len(),
{
    if s.len() == 0 {
        0
    } else {
        count_of_type(s.drop_last(), t) + (if s.last().notification_type == t {
            1int
        } else {
            0int
        })
    }
}

/// Builds the standard notification shapes.
pub struct NotificationBuilder;

impl NotificationBuilder {
    /// An informational notification with the default settings.
    pub fn info(title: &str, content: &str) -> (r: NotificationMessage)
        ensures
            r.title@ == title@,
            r.content@ == content@,
            r.notification_type == NotificationType::Info,
            r.priority == NotificationPriority::Normal,
            r.duration_ms == Some(5000u64),
            r.dismissible,
            !r.play_sound,
    {
        NotificationMessage::new(title, content, NotificationType::Info)
    }

    /// A warning: high priority, with sound.
    pub fn warning(title: &str, content: &str) -> (r: NotificationMessage)
        ensures
            r.title@ == title@,
            r.content@ == content@,
            r.notification_type == NotificationType::Warning,
            r.priority == NotificationPriority::High,
            r.duration_ms == Some(5000u64),
            r.dismissible,
            r.play_sound,
    {
        NotificationMessage::new(title, content, NotificationType::Warning).with_priority(
            NotificationPriority::High,
        ).with_sound(true)
    }

    /// An error: critical priority, with sound, shown until dismissed.
    pub fn error(title: &str, content: &str) -> (r: NotificationMessage)
        ensures
            r.title@ == title@,
            r.content@ == content@,
            r.notification_type == NotificationType::Error,
            r.priority == NotificationPriority::Critical,
            r.duration_ms is None,
            r.dismissible,
            r.play_sound,
    {
        NotificationMessage::new(title, content, NotificationType::Error).with_priority(
            NotificationPriority::Critical,
        ).with_duration(None).with_sound(true)
    }

    /// A success notice, gone after three seconds.
    pub fn success(title: &str, content: &str) -> (r: NotificationMessage)
        ensures
            r.title@ == title@,
            r.content@ == content@,
            r.notification_type == NotificationType::Success,
            r.priority == NotificationPriority::Normal,
            r.duration_ms == Some(3000u64),
            r.dismissible,
            !r.play_sound,
    {
        NotificationMessage::new(title, content, NotificationType::Success).with_duration(
            Some(3000),
        )
    }

    /// A countdown notice: high priority, gone after ten seconds.
    pub fn countdown(title: &str, content: &str) -> (r: NotificationMessage)
        ensures
            r.title@ == title@,
            r.content@ == content@,
            r.notification_type == NotificationType::Countdown,
            r.priority == NotificationPriority::High,
            r.duration_ms == Some(10000u64),
            r.dismissible,
            !r.play_sound,
    {
        NotificationMessage::new(title, content, NotificationType::Countdown).with_priority(
            NotificationPriority::High,
        ).with_duration(Some(10000))
    }
}

} // verus!
