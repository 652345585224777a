use chrono::{Local, TimeZone};
use chronolog_core::schedule::{TaskScheduleCron, TaskScheduleImmediate, TaskScheduleInterval};

const SECOND: i64 = 1_000_000_000;

#[test]
fn test_next_run_interval() {
    let start: i64 = 1_700_000_000 * SECOND;
    let sched = TaskScheduleInterval::from_secs(1);
    let next = sched.next_after(start).unwrap();
    assert!((next - start) / SECOND == 1);
}

#[test]
fn interval_adds_its_nanoseconds() {
    let sched = TaskScheduleInterval::from_nanos(-250);
    assert_eq!(sched.next_after(1_000), Some(750));
    assert_eq!(TaskScheduleInterval::from_secs(3).nanos, 3 * SECOND);
}

#[test]
fn interval_out_of_range_gives_none() {
    let sched = TaskScheduleInterval::from_secs(10);
    assert_eq!(sched.next_after(i64::MAX - 5), None);
}

#[test]
fn immediate_returns_its_input() {
    assert_eq!(TaskScheduleImmediate.next_after(123_456), 123_456);
}

#[test]
fn cron_next_is_strictly_later_and_matches_the_parser() {
    let cron = TaskScheduleCron::new("*/5 * * * *".to_owned());
    assert_eq!(cron.expression(), "*/5 * * * *");
    let start: i64 = 1_700_000_000 * SECOND;
    let next = cron.next_after(start).unwrap();
    assert!(next > start);
    let expected = cron_parser::parse("*/5 * * * *", &Local.timestamp_nanos(start)).unwrap();
    assert_eq!(next, expected.timestamp_nanos_opt().unwrap());
}

#[test]
fn cron_with_a_bad_expression_fails() {
    let cron = TaskScheduleCron::new("not a cron".to_owned());
    assert!(cron.next_after(0).is_err());
}
