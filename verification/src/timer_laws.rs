//! What holds of the timer and its ticker over whole runs of commands and
//! ticks, proved over the integers.

use vstd::prelude::*;
use crate::clock::{seconds_between, Timestamp};
use crate::ticker::{tick_step, TickOutcome};
use crate::timer::{TimerCommand, TimerModel};

verus! {

/// A command together with the time at which it is carried out.
pub struct TimedCommand {
    pub command: TimerCommand,
    pub at: Timestamp,
}

/// The timer after a run of commands, first to last.
pub open spec fn after_all(start: TimerModel, steps: Seq<TimedCommand>) -> TimerModel
    decreases steps.len(),
{
    if steps.len() == 0 {
        start
    } else {
        after_all(start, steps.drop_last()).after(steps.last().command, steps.last().at)
    }
}

/// The seconds that the adjustments of a run add, those that take away left
/// out.
pub open spec fn seconds_added(steps: Seq<TimedCommand>) -> int
    decreases steps.len(),
{
    if steps.len() == 0 {
        0
    } else {
        seconds_added(steps.drop_last()) + match steps.last().command {
            TimerCommand::Adjust(delta) if delta > 0 => delta as int,
            _ => 0,
        }
    }
}

/// A step that keeps to the order of things: it is a start, pause, reset or
/// adjust; a pause does not come before the anchor of the timer it stops;
/// and a reset does not come while adjustments have the duration below
/// zero.
pub open spec fn keeps_order(before: TimerModel, step: TimedCommand) -> bool {
    match step.command {
        TimerCommand::Configure(_) => false,
        TimerCommand::Pause => before.running ==> (before.started_at matches Some(anchor)
            ==> seconds_between(step.at, anchor) >= 0),
        TimerCommand::Reset => before.duration >= 0,
        _ => true,
    }
}

/// Every step of the run keeps to the order of things, on the timer as the
/// steps before it have left it.
pub open spec fn all_keep_order(start: TimerModel, steps: Seq<TimedCommand>) -> bool
    decreases steps.len(),
{
    steps.len() == 0 || (all_keep_order(start, steps.drop_last()) && keeps_order(
        after_all(start, steps.drop_last()),
        steps.last(),
    ))
}

/// Over any run of start, pause, reset and adjust on a timer configured to
/// a duration that is not negative, the remaining seconds are never
/// negative and never more than that duration and the seconds that the
/// adjustments have added; nor is the duration ever more than that.
pub proof fn lemma_remaining_within_bounds(minutes: int, steps: Seq<TimedCommand>)
    requires
        minutes >= 0,
        all_keep_order(TimerModel::configured(minutes), steps),
    ensures
        0 <= after_all(TimerModel::configured(minutes), steps).remaining <= minutes * 60
            + seconds_added(steps),
        after_all(TimerModel::configured(minutes), steps).duration <= minutes * 60 + seconds_added(
            steps,
        ),
    decreases steps.len(),
{
    if steps.len() > 0 {
        lemma_remaining_within_bounds(minutes, steps.drop_last());
    }
}

/// A timer that runs is not touched by another start.
pub proof fn lemma_start_while_running(timer: TimerModel, now: Timestamp)
    requires
        timer.running,
    ensures
        timer.started(now) == timer,
{
}

/// A timer that is stopped is not touched by another pause.
pub proof fn lemma_pause_while_stopped(timer: TimerModel, now: Timestamp)
    requires
        !timer.running,
    ensures
        timer.paused(now) == timer,
{
}

/// Starting twice is starting once, and pausing twice is pausing once,
/// whatever the timer and the times.
pub proof fn lemma_start_and_pause_idempotent(
    timer: TimerModel,
    first: Timestamp,
    second: Timestamp,
)
    ensures
        timer.started(first).started(second) == timer.started(first),
        timer.paused(first).paused(second) == timer.paused(first),
{
}

/// The ticker and its timer after a run of ticks, first to last.
pub open spec fn after_ticks(timer: TimerModel, last: int, times: Seq<Timestamp>) -> TickOutcome
    decreases times.len(),
{
    if times.len() == 0 {
        TickOutcome { timer, last, changed: false }
    } else {
        let before = after_ticks(timer, last, times.drop_last());
        tick_step(before.timer, before.last, times.last())
    }
}

/// How many ticks of the run stop the timer and tell the viewers so.
pub open spec fn expiries_told(timer: TimerModel, last: int, times: Seq<Timestamp>) -> nat
    decreases times.len(),
{
    if times.len() == 0 {
        0
    } else {
        let before = after_ticks(timer, last, times.drop_last());
        let after = tick_step(before.timer, before.last, times.last());
        let told: nat = if before.timer.running && !after.timer.running && after.changed {
            1
        } else {
            0
        };
        expiries_told(timer, last, times.drop_last()) + told
    }
}

/// Some tick of the run comes when the whole duration has passed since
/// `anchor`.
pub open spec fn reaches_deadline(anchor: Timestamp, seconds: int, times: Seq<Timestamp>) -> bool {
    exists|i: int| 0 <= i < times.len() && seconds_between(#[trigger] times[i], anchor) >= seconds
}

/// A timer configured to some minutes and started, under a ticker that has
/// told nothing yet: over any run of ticks the viewers are told of an expiry
/// at most once, and once a tick comes when the whole duration has passed,
/// they have been told exactly once and the timer is stopped with nothing
/// left.
pub proof fn lemma_expires_exactly_once(minutes: int, anchor: Timestamp, times: Seq<Timestamp>)
    requires
        minutes > 0,
    ensures
        expiries_told(TimerModel::configured(minutes).started(anchor), -1, times) <= 1,
        reaches_deadline(anchor, minutes * 60, times) ==> {
            let end = after_ticks(TimerModel::configured(minutes).started(anchor), -1, times);
            &&& expiries_told(TimerModel::configured(minutes).started(anchor), -1, times) == 1
            &&& !end.timer.running
            &&& end.timer.remaining == 0
            &&& end.timer.started_at is None
        },
        !reaches_deadline(anchor, minutes * 60, times) ==> {
            let end = after_ticks(TimerModel::configured(minutes).started(anchor), -1, times);
            &&& expiries_told(TimerModel::configured(minutes).started(anchor), -1, times) == 0
            &&& end.timer.running
            &&& end.timer.started_at == Some(anchor)
            &&& end.timer.duration == minutes * 60
            &&& end.last != 0
        },
    decreases times.len(),
{
    if times.len() > 0 {
        let earlier = times.drop_last();
        lemma_expires_exactly_once(minutes, anchor, earlier);
        if !reaches_deadline(anchor, minutes * 60, earlier) && seconds_between(
            times.last(),
            anchor,
        ) < minutes * 60 {
            assert forall|i: int| 0 <= i < times.len() implies !(seconds_between(
                #[trigger] times[i],
                anchor,
            ) >= minutes * 60) by {
                if i < earlier.len() {
                    assert(times[i] == earlier[i]);
                }
            }
        }
    }
}

/// A running timer whose record is not negative, an adjustment and a pause,
/// in either order: what remains is negative neither in between nor in the
/// end.
pub proof fn lemma_adjust_and_pause_never_negative(
    timer: TimerModel,
    delta: int,
    at: Timestamp,
)
    requires
        timer.running,
        timer.remaining >= 0,
    ensures
        timer.adjusted(delta).remaining >= 0,
        timer.adjusted(delta).paused(at).remaining >= 0,
        timer.paused(at).remaining >= 0,
        timer.paused(at).adjusted(delta).remaining >= 0,
{
}

/// What is on record agrees with what the viewers were last told.
pub open spec fn in_step(timer: TimerModel, last: int) -> bool {
    timer.remaining == last
}

/// A tick on a running timer with an anchor leaves the ticker knowing what
/// was truly left at the time of the tick. Where the tick told the viewers,
/// or the record was in step with the ticker before, the record says the
/// same afterwards: a snapshot taken then shows the seconds truly left at
/// the last tick.
pub proof fn lemma_tick_records_what_is_left(timer: TimerModel, last: int, now: Timestamp)
    requires
        timer.running,
        timer.started_at is Some,
    ensures
        tick_step(timer, last, now).last == timer.remaining_at(now),
        tick_step(timer, last, now).changed || in_step(timer, last) ==> {
            &&& tick_step(timer, last, now).timer.remaining == timer.remaining_at(now)
            &&& in_step(tick_step(timer, last, now).timer, tick_step(timer, last, now).last)
        },
{
}

/// The nanoseconds from `earlier` to `later`.
pub open spec fn nanos_between(later: Timestamp, earlier: Timestamp) -> int {
    (later.secs - earlier.secs) * 1_000_000_000 + (later.nanos - earlier.nanos)
}

/// Two points in time of which neither lies in a leap second are as many
/// whole seconds apart as their distance in nanoseconds holds, rounded
/// towards zero.
pub proof fn lemma_seconds_of_ordinary_times(later: Timestamp, earlier: Timestamp)
    requires
        later.nanos < 1_000_000_000,
        earlier.nanos < 1_000_000_000,
    ensures
        nanos_between(later, earlier) >= 0 ==> seconds_between(later, earlier) == nanos_between(
            later,
            earlier,
        ) / 1_000_000_000,
        nanos_between(later, earlier) < 0 ==> seconds_between(later, earlier) == -((
        -nanos_between(later, earlier)) / 1_000_000_000),
{
}

/// A running timer read within one second after a point in time, neither
/// these two nor the anchor in a leap second, has truly left what it had at
/// that point, or one second less. So a snapshot that shows what was left
/// at the last tick is right to the second for a viewer who joins less
/// than a second after that tick.
pub proof fn lemma_record_is_right_to_the_second(
    timer: TimerModel,
    last_tick: Timestamp,
    now: Timestamp,
)
    requires
        timer.running,
        timer.started_at matches Some(anchor) && anchor.nanos < 1_000_000_000,
        last_tick.nanos < 1_000_000_000,
        now.nanos < 1_000_000_000,
        0 <= nanos_between(now, last_tick) < 1_000_000_000,
    ensures
        timer.remaining_at(last_tick) - 1 <= timer.remaining_at(now) <= timer.remaining_at(
            last_tick,
        ),
{
    let anchor = timer.started_at->Some_0;
    lemma_seconds_of_ordinary_times(last_tick, anchor);
    lemma_seconds_of_ordinary_times(now, anchor);
    assert(nanos_between(now, anchor) == nanos_between(last_tick, anchor) + nanos_between(
        now,
        last_tick,
    ));
}

/// A tick never puts a negative number on record, nor one above the
/// timer's duration unless the clock has gone back behind the anchor.
pub proof fn lemma_tick_keeps_bounds(timer: TimerModel, last: int, now: Timestamp)
    requires
        timer.remaining >= 0,
    ensures
        tick_step(timer, last, now).timer.remaining >= 0,
        timer.remaining <= timer.duration && (timer.started_at matches Some(anchor)
            ==> seconds_between(now, anchor) >= 0) ==> tick_step(
            timer,
            last,
            now,
        ).timer.remaining <= timer.duration,
{
}

} // verus!
