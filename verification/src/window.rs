//! The flush window: when the counts were last flushed, and how long to wait
//! before the next flush.

use vstd::prelude::*;

verus! {

/// The window used where none is configured, in milliseconds.
pub const DEFAULT_WINDOW_MILLIS: u64 = 10000;

/// The duration of the window for a configured value, or the default where
/// there is none.
pub open spec fn duration_for(timer: Option<u64>) -> u64 {
    match timer {
        Some(millis) => millis,
        None => DEFAULT_WINDOW_MILLIS,
    }
}

/// Times are milliseconds since the Unix epoch.
#[derive(Clone, Copy, Debug)]
pub struct FlushWindow {
    pub last_flushed: i64,
    pub duration: u64,
}

impl FlushWindow {
    /// More than `duration` milliseconds lie between the last flush and `now`.
    pub open spec fn expired(self, now: i64) -> bool {
        now - self.last_flushed > self.duration
    }

    /// A window that starts at `now`, with the configured duration or the
    /// default.
    pub fn new(timer: Option<u64>, now: i64) -> (window: FlushWindow)
        ensures
            window.last_flushed == now,
            window.duration == duration_for(timer),
    {
        let duration: u64 = match timer {
            Some(millis) => millis,
            None => DEFAULT_WINDOW_MILLIS,
        };
        FlushWindow { last_flushed: now, duration }
    }

    /// Whether a flush is due at `now`.
    pub fn is_due(&self, now: i64) -> (due: bool)
        ensures
            due == self.expired(now),
    {
        let elapsed: i128 = now as i128 - self.last_flushed as i128;
        elapsed > self.duration as i128
    }

    /// Starts the next window at `now`.
    pub fn restart(&mut self, now: i64)
        ensures
            final(self).last_flushed == now,
            final(self).duration == old(self).duration,
    {
        self.last_flushed = now;
    }
}

} // verus!
