use hypatia::fade::{parse_fade_time, DurationError, FadeDirection, FadeStep, FadeTimer};

const SEC: u64 = 1_000_000_000;

#[test]
fn new_timer_is_not_fading() {
    let mut timer = FadeTimer::new(2 * SEC as u128, 100);
    assert_eq!(timer.direction(), None);
    assert_eq!(timer.duration(), 2 * SEC as u128);
    assert_eq!(timer.continue_fade(), FadeStep::Idle);
}

/// A timer created at `now` with a fade out started at once.
fn fading_out(duration: u64, now: u64) -> FadeTimer {
    let mut timer = FadeTimer::new(duration as u128, now);
    timer.start_fade(FadeDirection::Out, now);
    timer
}

#[test]
fn fade_advances_then_finishes() {
    let mut timer = fading_out(2 * SEC, 0);
    timer.update_delta(SEC / 2);
    assert_eq!(
        timer.continue_fade(),
        FadeStep::Advance {
            direction: FadeDirection::Out,
            remaining: (3 * SEC / 2) as u128,
            delta: SEC / 2,
        }
    );
    timer.update_delta(2 * SEC);
    assert_eq!(
        timer.continue_fade(),
        FadeStep::Advance {
            direction: FadeDirection::Out,
            remaining: 0,
            delta: 3 * SEC / 2,
        }
    );
    timer.update_delta(2 * SEC + 1);
    assert_eq!(timer.continue_fade(), FadeStep::Finish(FadeDirection::Out));
    assert_eq!(timer.direction(), None);
    assert_eq!(timer.continue_fade(), FadeStep::Idle);
}

#[test]
fn starting_the_running_fade_changes_nothing() {
    let mut timer = fading_out(2 * SEC, 0);
    timer.update_delta(SEC);
    timer.start_fade(FadeDirection::Out, 5 * SEC);
    timer.start_fade(FadeDirection::Out, 7 * SEC);
    assert_eq!(
        timer.continue_fade(),
        FadeStep::Advance {
            direction: FadeDirection::Out,
            remaining: (SEC) as u128,
            delta: SEC,
        }
    );
}

#[test]
fn quick_reversal_keeps_the_start() {
    let mut timer = fading_out(4 * SEC, 0);
    // less than half a fade has run: the fade in keeps the start
    timer.start_fade(FadeDirection::In, SEC);
    assert_eq!(timer.direction(), Some(FadeDirection::In));
    assert_eq!(
        timer.continue_fade(),
        FadeStep::Advance {
            direction: FadeDirection::In,
            remaining: (3 * SEC) as u128,
            delta: 0,
        }
    );
    // more than half: the fade out restarts its clock
    timer.start_fade(FadeDirection::Out, 3 * SEC);
    assert_eq!(
        timer.continue_fade(),
        FadeStep::Advance {
            direction: FadeDirection::Out,
            remaining: (4 * SEC) as u128,
            delta: 0,
        }
    );
}

#[test]
fn clock_before_start_finishes_the_fade() {
    let mut timer = fading_out(SEC, 10 * SEC);
    timer.update_delta(SEC);
    assert_eq!(timer.continue_fade(), FadeStep::Finish(FadeDirection::Out));
}

#[test]
fn update_delta_saturates() {
    let mut timer = fading_out(SEC, 10);
    timer.update_delta(5);
    assert_eq!(
        timer.continue_fade(),
        FadeStep::Finish(FadeDirection::Out)
    );
    let mut timer = fading_out(SEC, 10);
    timer.update_delta(30);
    timer.update_delta(20);
    assert_eq!(
        timer.continue_fade(),
        FadeStep::Advance {
            direction: FadeDirection::Out,
            remaining: (SEC - 10) as u128,
            delta: 0,
        }
    );
}

#[test]
fn duration_can_be_changed() {
    let mut timer = fading_out(SEC, 0);
    *timer.duration_mut() = 3 * SEC as u128;
    assert_eq!(timer.duration(), 3 * SEC as u128);
    assert_eq!(timer.direction(), Some(FadeDirection::Out));
}

#[test]
fn fade_times_are_read() {
    assert_eq!(parse_fade_time("500ms"), Ok(500_000_000));
    assert_eq!(parse_fade_time("1s 250ms"), Ok(1_250_000_000));
    assert_eq!(parse_fade_time("2m"), Ok((120 * SEC) as u128));
    assert_eq!(parse_fade_time("7ns"), Ok(7));
    assert_eq!(parse_fade_time("5x"), Err(DurationError::Format));
    assert_eq!(parse_fade_time("abc"), Err(DurationError::InvalidNumber));
    // longer than 64 bits of nanoseconds is still a fade time
    assert_eq!(
        parse_fade_time("600000y"),
        Ok(600_000u128 * 31_556_926 * 1_000_000_000)
    );
    assert_eq!(parse_fade_time("600000000000y"), Err(DurationError::Overflow));
}
