//! Timing sessions of work on a task.

use vstd::prelude::*;
use std::time::{Duration, SystemTime};
use crate::clock::{duration_since, system_now, time_after};

verus! {

/// Coordinator of timers.
pub struct TimeTracker;

impl TimeTracker {
    /// A tracker.
    pub fn new() -> (r: TimeTracker) {
        TimeTracker
    }
}

impl Default for TimeTracker {
    fn default() -> (r: TimeTracker) {
        TimeTracker::new()
    }
}

/// One timing session of a task.
#[derive(Debug)]
pub struct TimeEntry {
    /// The task being timed.
    pub task_id: String,
    /// When the session began.
    pub start_time: SystemTime,
    /// When it ended; none while it runs.
    pub end_time: Option<SystemTime>,
    /// How long it lasted; none while it runs.
    pub duration: Option<Duration>,
}

impl TimeEntry {
    /// A session of `task_id` that starts now and runs.
    pub fn new(task_id: String) -> (r: TimeEntry)
        ensures
            r.task_id@ == task_id@,
            r.end_time is None,
            r.duration is None,
    {
        TimeEntry { task_id, start_time: system_now(), end_time: None, duration: None }
    }

    /// Ends the session now: the end is the clock's reading, and the duration the time
    /// from the start to it (none where the clock reads before the start).
    pub fn stop(&mut self)
        ensures
            final(self).task_id == old(self).task_id,
            final(self).start_time == old(self).start_time,
            final(self).end_time matches Some(end) && final(self).duration == time_after(
                end,
                old(self).start_time,
            ),
    {
        let now = system_now();
        self.end_time = Some(now);
        self.duration = duration_since(now, self.start_time);
    }
}

} // verus!
