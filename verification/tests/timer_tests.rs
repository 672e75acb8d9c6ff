use lomba_core::clock::Timestamp;
use lomba_core::timer::{TimerCommand, TimerState, DEFAULT_DURATION_SECONDS};

const T0: i64 = 1_700_000_000;

fn at(secs: i64) -> Timestamp {
    Timestamp { secs, nanos: 0 }
}

fn configured(minutes: i64) -> TimerState {
    let mut timer = TimerState::new();
    timer.configure(minutes);
    timer
}

#[test]
fn new_timer_is_stopped_at_one_hour() {
    let timer = TimerState::new();
    assert!(!timer.is_running);
    assert_eq!(timer.duration_seconds, 3600);
    assert_eq!(timer.remaining_seconds, 3600);
    assert_eq!(timer.started_at, None);
    assert_eq!(DEFAULT_DURATION_SECONDS, 3600);
    assert_eq!(TimerState::default(), timer);
}

#[test]
fn configure_sets_minutes_times_sixty_and_stops() {
    let mut timer = configured(1);
    timer.start(at(T0));
    timer.configure(5);
    assert_eq!(
        timer,
        TimerState { is_running: false, duration_seconds: 300, remaining_seconds: 300, started_at: None }
    );
}

#[test]
fn configure_accepts_negative_minutes_as_they_are() {
    let timer = configured(-2);
    assert_eq!(timer.duration_seconds, -120);
    assert_eq!(timer.remaining_seconds, -120);
}

#[test]
fn start_anchors_a_stopped_timer() {
    let mut timer = configured(2);
    assert!(timer.start(at(T0)));
    assert!(timer.is_running);
    assert_eq!(timer.started_at, Some(at(T0)));
    assert_eq!(timer.remaining_seconds, 120);
    assert_eq!(timer.duration_seconds, 120);
}

#[test]
fn start_with_nothing_left_changes_nothing() {
    let mut timer = configured(0);
    let before = timer;
    assert!(!timer.start(at(T0)));
    assert_eq!(timer, before);
}

#[test]
fn start_while_running_changes_nothing() {
    let mut timer = configured(2);
    timer.start(at(T0));
    let before = timer;
    assert!(!timer.start(at(T0 + 45)));
    assert_eq!(timer, before);
    assert_eq!(timer.started_at, Some(at(T0)));
}

#[test]
fn pause_takes_elapsed_seconds_off() {
    let mut timer = configured(2);
    timer.start(at(T0));
    assert!(timer.pause(at(T0 + 30)));
    assert_eq!(
        timer,
        TimerState { is_running: false, duration_seconds: 120, remaining_seconds: 90, started_at: None }
    );
}

#[test]
fn pause_counts_whole_seconds_only() {
    let mut timer = configured(2);
    timer.start(Timestamp { secs: T0, nanos: 500_000_000 });
    timer.pause(Timestamp { secs: T0 + 30, nanos: 499_999_999 });
    assert_eq!(timer.remaining_seconds, 91);
}

#[test]
fn pause_stops_at_zero() {
    let mut timer = configured(2);
    timer.start(at(T0));
    timer.pause(at(T0 + 500));
    assert_eq!(timer.remaining_seconds, 0);
    assert!(!timer.is_running);
}

#[test]
fn pause_while_stopped_changes_nothing() {
    let mut timer = configured(2);
    let before = timer;
    assert!(!timer.pause(at(T0 + 10)));
    assert_eq!(timer, before);
}

#[test]
fn pause_twice_is_pause_once() {
    let mut timer = configured(2);
    timer.start(at(T0));
    timer.pause(at(T0 + 30));
    let once = timer;
    timer.pause(at(T0 + 60));
    assert_eq!(timer, once);
}

#[test]
fn pause_before_the_anchor_adds_the_seconds_back() {
    let mut timer = configured(2);
    timer.start(at(T0));
    timer.pause(at(T0 - 10));
    assert_eq!(timer.remaining_seconds, 130);
}

#[test]
fn pause_across_a_leap_second_counts_it() {
    let mut timer = configured(2);
    timer.start(Timestamp { secs: 59, nanos: 1_500_000_000 });
    timer.pause(Timestamp { secs: 61, nanos: 0 });
    assert_eq!(timer.remaining_seconds, 119);
}

#[test]
fn pause_of_a_running_timer_without_anchor_only_stops_it() {
    let mut timer =
        TimerState { is_running: true, duration_seconds: 100, remaining_seconds: 40, started_at: None };
    assert!(timer.pause(at(T0)));
    assert_eq!(
        timer,
        TimerState { is_running: false, duration_seconds: 100, remaining_seconds: 40, started_at: None }
    );
}

#[test]
fn reset_gives_the_whole_duration_back() {
    let mut timer = configured(2);
    timer.start(at(T0));
    timer.pause(at(T0 + 30));
    timer.reset();
    assert_eq!(
        timer,
        TimerState { is_running: false, duration_seconds: 120, remaining_seconds: 120, started_at: None }
    );
    timer.start(at(T0));
    timer.reset();
    assert!(!timer.is_running);
    assert_eq!(timer.started_at, None);
}

#[test]
fn adjust_of_a_running_timer_moves_the_duration_and_keeps_the_anchor() {
    let mut timer = configured(1);
    timer.start(at(T0));
    timer.adjust(60);
    assert_eq!(
        timer,
        TimerState {
            is_running: true,
            duration_seconds: 120,
            remaining_seconds: 60,
            started_at: Some(at(T0)),
        }
    );
    assert_eq!(timer.remaining_at(at(T0 + 30)), 90);
    timer.adjust(-100);
    assert_eq!(timer.duration_seconds, 20);
    assert_eq!(timer.remaining_at(at(T0 + 30)), 0);
}

#[test]
fn adjust_of_a_stopped_timer_moves_what_remains_and_sets_the_duration_to_it() {
    let mut timer = configured(2);
    timer.adjust(-30);
    assert_eq!(timer.remaining_seconds, 90);
    assert_eq!(timer.duration_seconds, 90);
    timer.adjust(15);
    assert_eq!(timer.remaining_seconds, 105);
    assert_eq!(timer.duration_seconds, 105);
    timer.adjust(-1000);
    assert_eq!(timer.remaining_seconds, 0);
    assert_eq!(timer.duration_seconds, 0);
    assert!(!timer.is_running);
}

#[test]
fn adjust_of_a_running_timer_without_anchor_changes_nothing() {
    let mut timer =
        TimerState { is_running: true, duration_seconds: 100, remaining_seconds: 40, started_at: None };
    let before = timer;
    timer.adjust(60);
    assert_eq!(timer, before);
}

#[test]
fn adjust_and_pause_in_either_order_leave_nothing_negative() {
    let mut first = configured(1);
    first.start(at(T0));
    first.adjust(60);
    assert!(first.remaining_seconds >= 0);
    first.pause(at(T0 + 500));
    assert_eq!(first.remaining_seconds, 0);

    let mut second = configured(1);
    second.start(at(T0));
    second.pause(at(T0 + 500));
    assert_eq!(second.remaining_seconds, 0);
    second.adjust(60);
    assert_eq!(second.remaining_seconds, 60);
    assert_eq!(second.duration_seconds, 60);

    let mut third = configured(1);
    third.start(at(T0));
    third.pause(at(T0 + 20));
    third.adjust(-60);
    assert_eq!(third.remaining_seconds, 0);
}

#[test]
fn remaining_at_of_a_running_timer_goes_by_the_anchor() {
    let mut timer = configured(2);
    assert_eq!(timer.remaining_at(at(T0 + 1000)), 120);
    timer.start(at(T0));
    assert_eq!(timer.remaining_at(at(T0)), 120);
    assert_eq!(timer.remaining_at(at(T0 + 45)), 75);
    assert_eq!(timer.remaining_at(at(T0 + 120)), 0);
    assert_eq!(timer.remaining_at(at(T0 + 121)), 0);
    assert_eq!(timer.remaining_seconds, 120);
}

#[test]
fn apply_carries_out_each_command() {
    let mut by_command = TimerState::new();
    let mut by_call = TimerState::new();
    by_command.apply(TimerCommand::Configure(3), at(T0));
    by_call.configure(3);
    assert_eq!(by_command, by_call);
    by_command.apply(TimerCommand::Start, at(T0));
    by_call.start(at(T0));
    assert_eq!(by_command, by_call);
    by_command.apply(TimerCommand::Adjust(30), at(T0 + 5));
    by_call.adjust(30);
    assert_eq!(by_command, by_call);
    by_command.apply(TimerCommand::Pause, at(T0 + 50));
    by_call.pause(at(T0 + 50));
    assert_eq!(by_command, by_call);
    assert_eq!(by_command.remaining_seconds, 130);
    by_command.apply(TimerCommand::Reset, at(T0 + 60));
    by_call.reset();
    assert_eq!(by_command, by_call);
    assert_eq!(by_command.remaining_seconds, 210);
}

#[test]
fn remaining_stays_within_bounds_over_a_run_of_commands() {
    let mut timer = configured(2);
    let mut bound: i64 = 120;
    let steps = [
        (TimerCommand::Start, 0),
        (TimerCommand::Adjust(60), 10),
        (TimerCommand::Pause, 40),
        (TimerCommand::Adjust(-500), 41),
        (TimerCommand::Adjust(30), 42),
        (TimerCommand::Start, 50),
        (TimerCommand::Start, 55),
        (TimerCommand::Adjust(-10), 60),
        (TimerCommand::Reset, 70),
        (TimerCommand::Pause, 80),
        (TimerCommand::Start, 90),
        (TimerCommand::Pause, 1000),
        (TimerCommand::Reset, 1001),
    ];
    for (command, offset) in steps {
        if let TimerCommand::Adjust(delta) = command {
            if delta > 0 {
                bound += delta;
            }
        }
        timer.apply(command, at(T0 + offset));
        assert!(timer.remaining_seconds >= 0);
        assert!(timer.remaining_seconds <= bound);
    }
    assert_eq!(timer.remaining_seconds, 20);
    assert_eq!(bound, 210);
}
