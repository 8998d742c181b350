//! Notification events (short text with a display duration) and the queue
//! that shows them one at a time. Durations are integer milliseconds of
//! display time.

use vstd::prelude::*;

verus! {

/// How long a notification shows when its producer names no duration.
pub const DEFAULT_NOTIFICATION_DURATION_MS: u64 = 2000;

/// How long each of a level's greeting notifications shows.
pub const LEVEL_NOTIFICATION_DURATION_MS: u64 = 2500;

/// A short text shown to the player for a fixed duration.
#[derive(Debug, PartialEq)]
pub struct Notification {
    pub text: String,
    pub duration_ms: u64,
}

impl Clone for Notification {
    fn clone(&self) -> (r: Notification)
        ensures
            r == *self,
    {
        Notification { text: self.text.clone(), duration_ms: self.duration_ms }
    }
}

impl Notification {
    /// A notification with the default display duration.
    pub fn new(text: String) -> (r: Notification)
        ensures
            r.text@ == text@,
            r.duration_ms == DEFAULT_NOTIFICATION_DURATION_MS,
    {
        Notification { text, duration_ms: DEFAULT_NOTIFICATION_DURATION_MS }
    }
}

/// Clears every queued notification; produced on level (re)spawn.
pub struct CleanNotificationQueue;

/// The queue after `delta_ms` more display time: while a notification is
/// at the front, time accrues against it and it leaves the queue once its
/// duration is reached (the accrued time then restarts at zero).
pub open spec fn spec_progressed(
    queue: Seq<Notification>,
    current_ms: u64,
    delta_ms: u64,
) -> (Seq<Notification>, u64) {
    if queue.len() == 0 {
        (queue, current_ms)
    } else {
        let accrued = if current_ms + delta_ms > u64::MAX {
            u64::MAX
        } else {
            (current_ms + delta_ms) as u64
        };
        if accrued >= queue[0].duration_ms {
            (queue.drop_first(), 0u64)
        } else {
            (queue, accrued)
        }
    }
}

/// The one queue that shows notifications to the player, first in first
/// out, one at a time.
#[derive(Debug, Default)]
pub struct NotificationDisplay {
    pub notifications: Vec<Notification>,
    pub current_duration_ms: u64,
}

impl NotificationDisplay {
    /// An empty queue.
    pub fn new() -> (r: NotificationDisplay)
        ensures
            r.notifications@.len() == 0,
            r.current_duration_ms == 0,
    {
        NotificationDisplay { notifications: Vec::new(), current_duration_ms: 0 }
    }

    /// Appends a notification to the queue.
    pub fn add_notification(&mut self, notification: Notification)
        ensures
            final(self).notifications@ == old(self).notifications@.push(notification),
            final(self).current_duration_ms == old(self).current_duration_ms,
    {
        self.notifications.push(notification);
    }

    /// Accrues `delta_ms` of display time against the front notification,
    /// dropping it once its duration is reached.
    pub fn progress_notification(&mut self, delta_ms: u64)
        ensures
            (final(self).notifications@, final(self).current_duration_ms) == spec_progressed(
                old(self).notifications@,
                old(self).current_duration_ms,
                delta_ms,
            ),
    {
        if self.notifications.len() > 0 {
            let room = u64::MAX - self.current_duration_ms;
            let accrued = if delta_ms > room {
                u64::MAX
            } else {
                self.current_duration_ms + delta_ms
            };
            if accrued >= self.notifications[0].duration_ms {
                self.current_duration_ms = 0;
                self.notifications.remove(0);
                proof {
                    assert(self.notifications@ =~= old(self).notifications@.drop_first());
                }
            } else {
                self.current_duration_ms = accrued;
            }
        }
    }

    /// The notification currently showing, if any.
    pub fn current(&self) -> (r: Option<&Notification>)
        ensures
            self.notifications@.len() == 0 <==> r is None,
            self.notifications@.len() > 0 ==> (r matches Some(n) && *n == self.notifications@[0]),
    {
        if self.notifications.len() > 0 {
            Some(&self.notifications[0])
        } else {
            None
        }
    }

    /// Empties the queue and restarts the accrued time, as a
    /// clear-notifications event demands.
    pub fn clean(&mut self)
        ensures
            final(self).notifications@.len() == 0,
            final(self).current_duration_ms == 0,
    {
        self.notifications.clear();
        self.current_duration_ms = 0;
    }
}

/// The greeting notifications a level's field data declares: one per
/// present string, in order, each with the level-greeting duration.
pub open spec fn spec_level_notifications(texts: Seq<Option<Seq<char>>>) -> Seq<Seq<char>>
    decreases texts.len(),
{
    if texts.len() == 0 {
        Seq::empty()
    } else {
        let rest = spec_level_notifications(texts.drop_last());
        match texts.last() {
            Some(t) => rest.push(t),
            None => rest,
        }
    }
}

/// Builds the greeting notifications for a freshly spawned level from its
/// `Notifications` field: absent entries are skipped, each present text
/// shows for the level-greeting duration.
pub fn level_notifications(texts: &Vec<Option<String>>) -> (r: Vec<Notification>)
    ensures
        r@.map_values(|n: Notification| n.text@) == spec_level_notifications(texts.deep_view()),
        forall|i: int|
            0 <= i < r@.len() ==> (#[trigger] r@[i]).duration_ms == LEVEL_NOTIFICATION_DURATION_MS,
{
    let mut out: Vec<Notification> = Vec::new();
    let mut i: usize = 0;
    while i < texts.len()
        invariant
            0 <= i <= texts@.len(),
            texts.deep_view().len() == texts@.len(),
            out@.map_values(|n: Notification| n.text@) == spec_level_notifications(
                texts.deep_view().take(i as int),
            ),
            forall|j: int|
                0 <= j < out@.len() ==> (#[trigger] out@[j]).duration_ms
                    == LEVEL_NOTIFICATION_DURATION_MS,
        decreases texts@.len() - i,
    {
        proof {
            assert(texts.deep_view().take(i + 1).drop_last() =~= texts.deep_view().take(i as int));
            assert(texts.deep_view()[i as int] == texts@[i as int].deep_view());
        }
        match &texts[i] {
            Some(t) => {
                let text = t.clone();
                out.push(
                    Notification { text, duration_ms: LEVEL_NOTIFICATION_DURATION_MS },
                );
                proof {
                    assert(out@.map_values(|n: Notification| n.text@) =~= out@.drop_last().map_values(
                        |n: Notification| n.text@,
                    ).push(out@.last().text@));
                }
            },
            None => {},
        }
        i = i + 1;
    }
    proof {
        assert(texts.deep_view().take(texts@.len() as int) =~= texts.deep_view());
    }
    out
}

} // verus!
