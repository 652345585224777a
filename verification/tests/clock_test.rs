use chronolog_core::clock::{epoch_offset, timestamp_parts, IdlePlan, SystemClock};
use chronolog_core::priority::TaskPriority;

#[test]
fn system_clock_sleeps_until_a_future_time() {
    assert_eq!(SystemClock::idle_plan(100, 350), IdlePlan::Sleep(250));
}

#[test]
fn system_clock_does_not_idle_for_a_present_or_past_time() {
    assert_eq!(SystemClock::idle_plan(100, 100), IdlePlan::Skip);
    assert_eq!(SystemClock::idle_plan(7_000_000, 0), IdlePlan::Skip);
    assert_eq!(SystemClock::idle_plan(7_000_001, 0), IdlePlan::Skip);
    assert_eq!(SystemClock::idle_plan(i64::MAX, i64::MIN), IdlePlan::Skip);
    assert_eq!(SystemClock::idle_plan(i64::MIN, i64::MAX), IdlePlan::Sleep(u64::MAX));
}

#[test]
fn timestamps_before_the_epoch_borrow_a_second() {
    assert_eq!(timestamp_parts(true, 5, 250), Some((5, 250)));
    assert_eq!(timestamp_parts(false, 5, 0), Some((-5, 0)));
    assert_eq!(timestamp_parts(false, 5, 250), Some((-6, 999_999_750)));
    assert_eq!(timestamp_parts(true, u64::MAX, 0), None);
}

#[test]
fn epoch_offsets_split_sign_and_magnitude() {
    assert_eq!(epoch_offset(42), (true, 42));
    assert_eq!(epoch_offset(0), (true, 0));
    assert_eq!(epoch_offset(-42), (false, 42));
}

#[test]
fn priorities_map_to_pool_levels() {
    assert_eq!(TaskPriority::CRITICAL.pool_priority(), 0);
    assert_eq!(TaskPriority::IMPORTANT.pool_priority(), 100);
    assert_eq!(TaskPriority::HIGH.pool_priority(), 200);
    assert_eq!(TaskPriority::MODERATE.pool_priority(), 300);
    assert_eq!(TaskPriority::LOW.pool_priority(), 400);
    assert!(TaskPriority::CRITICAL < TaskPriority::LOW);
}


#[test]
fn a_time_split_and_read_back_is_the_same_time() {
    let (s, n) = timestamp_parts(false, 5, 250).unwrap();
    let nanos = s as i64 * 1_000_000_000 + n as i64;
    assert_eq!(nanos, -5_000_000_250);
    assert_eq!(epoch_offset(nanos), (false, 5_000_000_250));
    let (s, n) = timestamp_parts(true, 1_700_000_000, 123).unwrap();
    assert_eq!(epoch_offset(s * 1_000_000_000 + n as i64), (true, 1_700_000_000_000_000_123));
}
