//! The ticker: the periodic step that projects a running timer onto its
//! remaining seconds, stops it when they run out, and says whether anything
//! that a viewer can see has changed.

use vstd::prelude::*;
use crate::clock::{seconds_between, whole_seconds_between, Timestamp};
use crate::timer::{at_least_zero, clamped_difference, TimerModel, TimerState};

verus! {

/// Milliseconds from one tick to the next.
pub const TIMER_BROADCAST_INTERVAL_MS: u64 = 250;

/// What the ticker remembers from one tick to the next: the remaining
/// seconds that viewers were last told of.
#[derive(Clone, Copy, Debug, PartialEq, Eq, Structural)]
pub struct Ticker {
    pub last_remaining: i64,
}

/// What one tick leaves behind.
pub struct TickOutcome {
    pub timer: TimerModel,
    /// The remaining seconds that viewers were last told of.
    pub last: int,
    /// Whether viewers have to be told.
    pub changed: bool,
}

/// One tick at `now`, on a timer and the remaining seconds last told.
///
/// A stopped timer is left alone and its remaining seconds are taken note
/// of. A running timer is projected onto the seconds truly left; only where
/// these differ from what was last told are they put on record and told, and
/// where none are left the timer stops and loses its anchor.
pub open spec fn tick_step(timer: TimerModel, last: int, now: Timestamp) -> TickOutcome {
    if timer.running {
        match timer.started_at {
            Some(anchor) => {
                let left = at_least_zero(timer.duration - seconds_between(now, anchor));
                if left != last {
                    TickOutcome {
                        timer: if left <= 0 {
                            TimerModel { running: false, started_at: None, remaining: left, ..timer }
                        } else {
                            TimerModel { remaining: left, ..timer }
                        },
                        last: left,
                        changed: true,
                    }
                } else {
                    TickOutcome { timer, last, changed: false }
                }
            },
            None => TickOutcome { timer, last, changed: false },
        }
    } else {
        TickOutcome { timer, last: timer.remaining, changed: false }
    }
}

impl Ticker {
    /// A ticker that has told nobody anything yet.
    pub fn new() -> (r: Ticker)
        ensures
            r.last_remaining == -1,
    {
        Ticker { last_remaining: -1 }
    }

    /// Whether a tick at `now` can be carried out within machine limits.
    pub fn can_tick(&self, timer: &TimerState, now: Timestamp) -> (r: bool)
        requires
            timer.well_formed(),
            now.representable(),
        ensures
            r == (tick_step(timer@, self.last_remaining as int, now).timer.remaining <= i64::MAX),
    {
        if timer.is_running {
            match timer.started_at {
                Some(anchor) => {
                    let elapsed = whole_seconds_between(now, anchor);
                    timer.duration_seconds as i128 - elapsed as i128 <= i64::MAX as i128
                },
                None => true,
            }
        } else {
            true
        }
    }

    /// One tick at `now`. Returns whether the timer changed in a way that
    /// has to be stored and sent to the viewers.
    pub fn tick(&mut self, timer: &mut TimerState, now: Timestamp) -> (changed: bool)
        requires
            old(timer).well_formed(),
            now.representable(),
            tick_step(old(timer)@, old(self).last_remaining as int, now).timer.remaining
                <= i64::MAX,
        ensures
            final(timer)@ == tick_step(old(timer)@, old(self).last_remaining as int, now).timer,
            final(self).last_remaining == tick_step(
                old(timer)@,
                old(self).last_remaining as int,
                now,
            ).last,
            changed == tick_step(old(timer)@, old(self).last_remaining as int, now).changed,
            final(timer).well_formed(),
            !changed ==> *final(timer) == *old(timer),
    {
        if timer.is_running {
            match timer.started_at {
                Some(anchor) => {
                    let elapsed = whole_seconds_between(now, anchor);
                    let left = clamped_difference(timer.duration_seconds, elapsed);
                    if left != self.last_remaining {
                        self.last_remaining = left;
                        timer.remaining_seconds = left;
                        if left <= 0 {
                            timer.is_running = false;
                            timer.started_at = None;
                        }
                        true
                    } else {
                        false
                    }
                },
                None => false,
            }
        } else {
            self.last_remaining = timer.remaining_seconds;
            false
        }
    }
}

impl Default for Ticker {
    fn default() -> (r: Ticker)
        ensures
            r.last_remaining == -1,
    {
        Ticker::new()
    }
}

} // verus!
