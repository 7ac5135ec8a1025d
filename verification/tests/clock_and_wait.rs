use std::time::Duration;

use suspend_time::platform::{from_interrupt_time, from_timespec, now};
use suspend_time::{
    deadline_after, sleep_step, timeout_result, Finished, SleepStep, SuspendUnawareInstant,
    TimedOutError, NANOS_PER_SECOND,
};

fn instant(secs: u64, nanos: u32) -> SuspendUnawareInstant {
    SuspendUnawareInstant::from_parts(secs, nanos)
}

#[test]
fn timespec_in_range_is_kept() {
    assert_eq!(from_timespec(12, 345), instant(12, 345));
    assert_eq!(from_timespec(0, 999_999_999), instant(0, 999_999_999));
    assert_eq!(from_timespec(i64::MAX, 0), instant(i64::MAX as u64, 0));
}

#[test]
fn timespec_negative_fields_are_raised_to_zero() {
    assert_eq!(from_timespec(-1, 5), instant(0, 5));
    assert_eq!(from_timespec(5, -1), instant(5, 0));
    assert_eq!(from_timespec(i64::MIN, i64::MIN), instant(0, 0));
}

#[test]
fn timespec_nanos_of_a_second_or_more_are_dropped() {
    assert_eq!(from_timespec(5, 1_000_000_000), instant(5, 0));
    assert_eq!(from_timespec(5, i64::MAX), instant(5, 0));
}

#[test]
fn interrupt_time_counts_hundreds_of_nanoseconds() {
    assert_eq!(from_interrupt_time(0), instant(0, 0));
    assert_eq!(from_interrupt_time(1), instant(0, 100));
    assert_eq!(from_interrupt_time(9_999_999), instant(0, 999_999_900));
    assert_eq!(from_interrupt_time(10_000_000), instant(1, 0));
    assert_eq!(from_interrupt_time(12_345_678), instant(1, 234_567_800));
    assert_eq!(from_interrupt_time(1_000_000_001), instant(100, 100));
    assert_eq!(from_interrupt_time(u64::MAX), instant(1_844_674_407_370, 955_161_500));
}

#[test]
fn clock_reading_is_in_range_and_ordered() {
    let a = now();
    let b = SuspendUnawareInstant::now();
    assert!(a.subsec_nanos() < NANOS_PER_SECOND);
    assert!(a <= b);
    assert!(b - a < Duration::from_secs(60));
}

#[test]
fn deadline_is_start_plus_length() {
    assert_eq!(deadline_after(instant(1, 999_999_999), Duration::new(2, 2)), instant(4, 1));
    assert_eq!(deadline_after(instant(u64::MAX, 0), Duration::new(1, 0)), instant(0, 0));
}

#[test]
fn step_waits_for_what_is_left() {
    match sleep_step(instant(10, 0), instant(12, 500)) {
        SleepStep::Wait(d) => assert_eq!(d, Duration::new(2, 500)),
        SleepStep::Done => panic!("the deadline lies ahead"),
    }
    match sleep_step(instant(10, 1), instant(11, 0)) {
        SleepStep::Wait(d) => assert_eq!(d, Duration::new(0, NANOS_PER_SECOND - 1)),
        SleepStep::Done => panic!("the deadline lies ahead"),
    }
}

#[test]
fn step_is_done_at_and_after_the_deadline() {
    assert!(matches!(sleep_step(instant(12, 500), instant(12, 500)), SleepStep::Done));
    assert!(matches!(sleep_step(instant(12, 501), instant(12, 500)), SleepStep::Done));
    assert!(matches!(sleep_step(instant(13, 0), instant(12, 500)), SleepStep::Done));
}

#[test]
fn early_wake_up_arms_a_shorter_wait() {
    let start = instant(100, 0);
    let length = Duration::from_secs(5);
    let deadline = deadline_after(start, length);
    // The timer fires after two seconds of this clock, then after four, and
    // only the third reading has reached the deadline.
    let readings = [instant(100, 0), instant(102, 0), instant(104, 0), instant(105, 250)];
    let expected = [
        Some(Duration::from_secs(5)),
        Some(Duration::from_secs(3)),
        Some(Duration::from_secs(1)),
        None,
    ];
    for (reading, want) in readings.iter().zip(expected.iter()) {
        let got = match sleep_step(*reading, deadline) {
            SleepStep::Wait(d) => Some(d),
            SleepStep::Done => None,
        };
        assert_eq!(got, *want);
        if got.is_none() {
            assert!(*reading - start >= length);
        } else {
            assert!(*reading - start < length);
        }
    }
}

#[test]
fn timeout_reports_the_side_that_finished_first() {
    assert_eq!(timeout_result::<u32>(Finished::Sleep), Err(TimedOutError));
    assert_eq!(timeout_result(Finished::Operation(17_u32)), Ok(17));
    assert_eq!(timeout_result(Finished::Operation(())), Ok(()));
}

#[test]
fn timed_out_error_describes_itself() {
    assert_eq!(TimedOutError.to_string(), "Timed out");
    assert_eq!(TimedOutError, TimedOutError.clone());
}
