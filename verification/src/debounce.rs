//! The debounce timer: a trailing-edge delay that waits for a quiet period
//! after the last selection change before a detail fetch is issued.
//!
//! Time is a count of milliseconds on a clock that the caller reads and hands
//! in, so the timer itself never looks at the machine's clock.

use vstd::prelude::*;

verus! {

/// The quiet period after which a pending detail fetch is issued.
pub const DEBOUNCE_INTERVAL_MS: u64 = 200;

/// The longest that one frame waits for input.
pub const POLL_TIMEOUT_MS: u64 = 50;

/// The timer's state.
#[derive(Clone, Copy, Debug, PartialEq, Eq, Structural)]
pub struct Debounce {
    /// The length of the quiet period, in milliseconds.
    pub interval: u64,
    /// When the most recent selection-changing action took place.
    pub last_change_at: u64,
    /// Whether a detail fetch is owed once the quiet period has passed.
    pub pending: bool,
}

impl Debounce {
    /// The time from the last change to `now`; zero where `now` lies before it.
    pub open spec fn elapsed(self, now: u64) -> int {
        if now >= self.last_change_at {
            now - self.last_change_at
        } else {
            0
        }
    }

    /// Whether a fetch is owed and the quiet period has passed at `now`.
    pub open spec fn due(self, now: u64) -> bool {
        self.pending && self.elapsed(now) >= self.interval
    }

    /// The timer after a selection change at `now`: the quiet period starts
    /// over and a fetch is owed.
    pub open spec fn armed(self, now: u64) -> Debounce {
        Debounce { interval: self.interval, last_change_at: now, pending: true }
    }

    /// The timer after a poll at `now`: where it was due, nothing is owed any
    /// more; otherwise it is as before.
    pub open spec fn polled(self, now: u64) -> Debounce {
        if self.due(now) {
            Debounce { interval: self.interval, last_change_at: self.last_change_at, pending: false }
        } else {
            self
        }
    }

    /// A timer with the given quiet period and nothing pending.
    pub fn new(interval: u64) -> (timer: Debounce)
        ensures
            timer == (Debounce { interval, last_change_at: 0, pending: false }),
    {
        Debounce { interval, last_change_at: 0, pending: false }
    }

    /// Records a selection change at `now`.
    pub fn arm(&mut self, now: u64)
        ensures
            *final(self) == old(self).armed(now),
    {
        self.last_change_at = now;
        self.pending = true;
    }

    /// Whether a fetch is owed and the quiet period has passed at `now`.
    pub fn is_due(&self, now: u64) -> (due: bool)
        ensures
            due == self.due(now),
    {
        let elapsed: u64 = if now >= self.last_change_at {
            now - self.last_change_at
        } else {
            0
        };
        self.pending && elapsed >= self.interval
    }

    /// Polls the timer at `now`: returns whether the fetch is to be issued
    /// now, and if so clears `pending`, so that it is issued once.
    pub fn take_due(&mut self, now: u64) -> (due: bool)
        ensures
            due == old(self).due(now),
            *final(self) == old(self).polled(now),
    {
        if self.is_due(now) {
            self.pending = false;
            true
        } else {
            false
        }
    }
}

} // verus!
