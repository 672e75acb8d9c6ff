//! The countdown timer: a state machine that is either stopped, with its
//! remaining seconds on record, or running from an anchor in time.

use vstd::prelude::*;
use crate::clock::{seconds_between, whole_seconds_between, Timestamp};

verus! {

/// Seconds that a timer is set to before anything configures it.
pub const DEFAULT_DURATION_SECONDS: i64 = 3600;

/// The countdown timer as it is stored.
///
/// While the timer runs, `started_at` is the anchor and `remaining_seconds`
/// only a projection that the ticker refreshes; while it is stopped,
/// `remaining_seconds` is what is left.
#[derive(Clone, Copy, Debug, PartialEq, Eq, Structural)]
pub struct TimerState {
    pub is_running: bool,
    pub duration_seconds: i64,
    pub remaining_seconds: i64,
    pub started_at: Option<Timestamp>,
}

/// The timer over the integers, free of machine limits.
pub struct TimerModel {
    pub running: bool,
    pub duration: int,
    pub remaining: int,
    pub started_at: Option<Timestamp>,
}

/// A command that an operator gives to the timer.
#[derive(Clone, Copy, Debug, PartialEq, Eq, Structural)]
pub enum TimerCommand {
    /// Set the duration, in minutes, and stop.
    Configure(i64),
    Start,
    Pause,
    Reset,
    /// Add the given seconds, which may be negative.
    Adjust(i64),
}

/// The larger of zero and `x`.
pub open spec fn at_least_zero(x: int) -> int {
    if x < 0 {
        0
    } else {
        x
    }
}

/// `x` can be held in an `i64`.
pub open spec fn fits_i64(x: int) -> bool {
    i64::MIN <= x <= i64::MAX
}

impl TimerModel {
    /// A stopped timer set to the given minutes.
    pub open spec fn configured(minutes: int) -> TimerModel {
        TimerModel { running: false, duration: minutes * 60, remaining: minutes * 60, started_at: None }
    }

    /// The timer after `start` at `now`: a stopped timer with time left
    /// begins to run from `now`; any other timer stays as it is.
    pub open spec fn started(self, now: Timestamp) -> TimerModel {
        if !self.running && self.remaining > 0 {
            TimerModel { running: true, started_at: Some(now), ..self }
        } else {
            self
        }
    }

    /// The timer after `pause` at `now`: a running timer stops and loses
    /// the seconds that have passed since its anchor, down to zero at most;
    /// a stopped timer stays as it is.
    pub open spec fn paused(self, now: Timestamp) -> TimerModel {
        if self.running {
            TimerModel {
                running: false,
                started_at: None,
                remaining: match self.started_at {
                    Some(anchor) => at_least_zero(self.remaining - seconds_between(now, anchor)),
                    None => self.remaining,
                },
                ..self
            }
        } else {
            self
        }
    }

    /// The timer after `reset`: stopped, with its whole duration left.
    pub open spec fn reset(self) -> TimerModel {
        TimerModel { running: false, started_at: None, remaining: self.duration, ..self }
    }

    /// The timer after `adjust`: a running timer has its duration moved by
    /// `delta` and keeps its anchor; a stopped timer has its remaining
    /// seconds moved by `delta`, down to zero at most, and its duration set
    /// to what then remains.
    pub open spec fn adjusted(self, delta: int) -> TimerModel {
        if self.running {
            if self.started_at is Some {
                TimerModel { duration: self.duration + delta, ..self }
            } else {
                self
            }
        } else {
            TimerModel {
                remaining: at_least_zero(self.remaining + delta),
                duration: at_least_zero(self.remaining + delta),
                ..self
            }
        }
    }

    /// The seconds that are truly left at `now`: for a running timer its
    /// duration less the time since its anchor, down to zero at most; for
    /// any other timer the seconds on record.
    pub open spec fn remaining_at(self, now: Timestamp) -> int {
        match self.started_at {
            Some(anchor) if self.running => at_least_zero(
                self.duration - seconds_between(now, anchor),
            ),
            _ => self.remaining,
        }
    }

    /// The timer after the given command at `now`.
    pub open spec fn after(self, command: TimerCommand, now: Timestamp) -> TimerModel {
        match command {
            TimerCommand::Configure(minutes) => TimerModel::configured(minutes as int),
            TimerCommand::Start => self.started(now),
            TimerCommand::Pause => self.paused(now),
            TimerCommand::Reset => self.reset(),
            TimerCommand::Adjust(delta) => self.adjusted(delta as int),
        }
    }

    /// Whether the timer has to be written to the store after the command:
    /// always after it was configured, reset or adjusted, and after a start
    /// or a pause where that took effect.
    pub open spec fn stored_after(self, command: TimerCommand) -> bool {
        match command {
            TimerCommand::Start => !self.running && self.remaining > 0,
            TimerCommand::Pause => self.running,
            _ => true,
        }
    }

    /// Every number of the model can be held in an `i64`.
    pub open spec fn storable(self) -> bool {
        fits_i64(self.duration) && fits_i64(self.remaining)
    }
}

impl View for TimerState {
    type V = TimerModel;

    open spec fn view(&self) -> TimerModel {
        TimerModel {
            running: self.is_running,
            duration: self.duration_seconds as int,
            remaining: self.remaining_seconds as int,
            started_at: self.started_at,
        }
    }
}

/// The larger of zero and `a - b`, where that can be held.
pub(crate) fn clamped_difference(a: i64, b: i64) -> (r: i64)
    requires
        a - b <= i64::MAX,
    ensures
        r == at_least_zero(a - b),
{
    let wide: i128 = a as i128 - b as i128;
    if wide <= 0 {
        0
    } else {
        wide as i64
    }
}

/// The larger of zero and `a + b`, where that can be held.
fn clamped_sum(a: i64, b: i64) -> (r: i64)
    requires
        a + b <= i64::MAX,
    ensures
        r == at_least_zero(a + b),
{
    let wide: i128 = a as i128 + b as i128;
    if wide <= 0 {
        0
    } else {
        wide as i64
    }
}

impl TimerState {
    /// The anchor, where there is one, is a representable point in time.
    pub open spec fn well_formed(self) -> bool {
        self.started_at matches Some(anchor) ==> anchor.representable()
    }

    /// A stopped timer of one hour.
    pub fn new() -> (r: TimerState)
        ensures
            r@ == TimerModel::configured(60),
            r.well_formed(),
    {
        TimerState {
            is_running: false,
            duration_seconds: DEFAULT_DURATION_SECONDS,
            remaining_seconds: DEFAULT_DURATION_SECONDS,
            started_at: None,
        }
    }

    /// Sets the duration to the given minutes and stops the timer, whatever
    /// state it was in.
    pub fn configure(&mut self, duration_minutes: i64)
        requires
            fits_i64(duration_minutes * 60),
        ensures
            final(self)@ == TimerModel::configured(duration_minutes as int),
            final(self).well_formed(),
    {
        self.duration_seconds = duration_minutes * 60;
        self.remaining_seconds = self.duration_seconds;
        self.is_running = false;
        self.started_at = None;
    }

    /// Starts a stopped timer that has time left, anchoring it at `now`.
    /// A timer that runs already, or has nothing left, is not touched.
    pub fn start(&mut self, now: Timestamp) -> (changed: bool)
        ensures
            final(self)@ == old(self)@.started(now),
            old(self).well_formed() && now.representable() ==> final(self).well_formed(),
            changed == (!old(self).is_running && old(self).remaining_seconds > 0),
            !changed ==> *final(self) == *old(self),
    {
        if !self.is_running && self.remaining_seconds > 0 {
            self.is_running = true;
            self.started_at = Some(now);
            true
        } else {
            false
        }
    }

    /// Stops a running timer and takes the seconds that have passed since
    /// its anchor off what remains, down to zero at most. A stopped timer is
    /// not touched.
    pub fn pause(&mut self, now: Timestamp) -> (changed: bool)
        requires
            old(self).well_formed(),
            now.representable(),
            old(self)@.paused(now).remaining <= i64::MAX,
        ensures
            final(self)@ == old(self)@.paused(now),
            final(self).well_formed(),
            changed == old(self).is_running,
            !changed ==> *final(self) == *old(self),
    {
        if self.is_running {
            if let Some(anchor) = self.started_at {
                let elapsed = whole_seconds_between(now, anchor);
                self.remaining_seconds = clamped_difference(self.remaining_seconds, elapsed);
            }
            self.is_running = false;
            self.started_at = None;
            true
        } else {
            false
        }
    }

    /// Stops the timer and gives it back its whole duration.
    pub fn reset(&mut self)
        ensures
            final(self)@ == old(self)@.reset(),
            final(self).well_formed(),
    {
        self.remaining_seconds = self.duration_seconds;
        self.is_running = false;
        self.started_at = None;
    }

    /// Moves the timer by `delta_seconds`. A running timer keeps its anchor
    /// and has its duration moved, so that what has passed stays passed; a
    /// stopped timer has its remaining seconds moved, never below zero, and
    /// its duration set to them.
    pub fn adjust(&mut self, delta_seconds: i64)
        requires
            old(self)@.adjusted(delta_seconds as int).storable(),
        ensures
            final(self)@ == old(self)@.adjusted(delta_seconds as int),
            old(self).well_formed() ==> final(self).well_formed(),
            old(self).remaining_seconds >= 0 ==> final(self).remaining_seconds >= 0,
    {
        if self.is_running {
            if self.started_at.is_some() {
                self.duration_seconds = self.duration_seconds + delta_seconds;
            }
        } else {
            self.remaining_seconds = clamped_sum(self.remaining_seconds, delta_seconds);
            self.duration_seconds = self.remaining_seconds;
        }
    }

    /// The seconds that are truly left at `now`, whatever the projection on
    /// record says.
    pub fn remaining_at(&self, now: Timestamp) -> (r: i64)
        requires
            self.well_formed(),
            now.representable(),
            self@.remaining_at(now) <= i64::MAX,
        ensures
            r == self@.remaining_at(now),
    {
        if self.is_running {
            if let Some(anchor) = self.started_at {
                let elapsed = whole_seconds_between(now, anchor);
                return clamped_difference(self.duration_seconds, elapsed);
            }
        }
        self.remaining_seconds
    }

    /// Whether `command` at `now` can be carried out within machine limits.
    pub open spec fn admits(self, command: TimerCommand, now: Timestamp) -> bool {
        self@.after(command, now).storable()
    }

    /// Whether the timer is well formed.
    pub fn is_well_formed(&self) -> (r: bool)
        ensures
            r == self.well_formed(),
    {
        match self.started_at {
            Some(anchor) => anchor.is_representable(),
            None => true,
        }
    }

    /// Whether the seconds truly left at `now` can be held.
    pub fn remaining_fits(&self, now: Timestamp) -> (r: bool)
        requires
            self.well_formed(),
            now.representable(),
        ensures
            r == (self@.remaining_at(now) <= i64::MAX),
    {
        if self.is_running {
            if let Some(anchor) = self.started_at {
                let elapsed = whole_seconds_between(now, anchor);
                return self.duration_seconds as i128 - elapsed as i128 <= i64::MAX as i128;
            }
        }
        true
    }

    /// Whether `command` at `now` can be carried out within machine limits.
    pub fn can_apply(&self, command: TimerCommand, now: Timestamp) -> (r: bool)
        requires
            self.well_formed(),
            now.representable(),
        ensures
            r == self.admits(command, now),
    {
        match command {
            TimerCommand::Configure(minutes) => {
                let wide: i128 = minutes as i128 * 60;
                i64::MIN as i128 <= wide && wide <= i64::MAX as i128
            },
            TimerCommand::Start => true,
            TimerCommand::Pause => {
                if self.is_running {
                    match self.started_at {
                        Some(anchor) => {
                            let elapsed = whole_seconds_between(now, anchor);
                            self.remaining_seconds as i128 - elapsed as i128 <= i64::MAX as i128
                        },
                        None => true,
                    }
                } else {
                    true
                }
            },
            TimerCommand::Reset => true,
            TimerCommand::Adjust(delta) => {
                if self.is_running {
                    if self.started_at.is_some() {
                        let wide: i128 = self.duration_seconds as i128 + delta as i128;
                        i64::MIN as i128 <= wide && wide <= i64::MAX as i128
                    } else {
                        true
                    }
                } else {
                    self.remaining_seconds as i128 + delta as i128 <= i64::MAX as i128
                }
            },
        }
    }

    /// Carries out one command at `now`, and says whether the timer has to
    /// be written to the store afterwards.
    pub fn apply(&mut self, command: TimerCommand, now: Timestamp) -> (stored: bool)
        requires
            old(self).well_formed(),
            now.representable(),
            old(self).admits(command, now),
        ensures
            final(self)@ == old(self)@.after(command, now),
            final(self).well_formed(),
            stored == old(self)@.stored_after(command),
            !stored ==> *final(self) == *old(self),
    {
        match command {
            TimerCommand::Configure(minutes) => {
                self.configure(minutes);
                true
            },
            TimerCommand::Start => self.start(now),
            TimerCommand::Pause => self.pause(now),
            TimerCommand::Reset => {
                self.reset();
                true
            },
            TimerCommand::Adjust(delta) => {
                self.adjust(delta);
                true
            },
        }
    }
}

impl Default for TimerState {
    fn default() -> (r: TimerState)
        ensures
            r@ == TimerModel::configured(60),
            r.well_formed(),
    {
        TimerState::new()
    }
}

} // verus!
