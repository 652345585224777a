use chrono::{Local, NaiveDate, TimeZone};
use chronolog_core::calendar::{
    apply_field, last_day_of_month, rebuild_naive, CalendarError, CalendarFieldSchedule,
    CalendarParts, CustomFieldFn, ScheduleCalendar,
};

struct Doubling;

impl CustomFieldFn for Doubling {
    fn compute(&self, current: u32) -> u32 {
        current * 2
    }
}

fn ignore_all() -> ScheduleCalendar<Doubling> {
    ScheduleCalendar {
        year: CalendarFieldSchedule::Ignore,
        month: CalendarFieldSchedule::Ignore,
        day: CalendarFieldSchedule::Ignore,
        hour: CalendarFieldSchedule::Ignore,
        minute: CalendarFieldSchedule::Ignore,
        second: CalendarFieldSchedule::Ignore,
        millisecond: CalendarFieldSchedule::Ignore,
    }
}

fn naive(y: i32, m: u32, d: u32, h: u32, mi: u32, s: u32, ms: u32) -> i64 {
    NaiveDate::from_ymd_opt(y, m, d).unwrap().and_hms_milli_opt(h, mi, s, ms).unwrap().and_utc().timestamp_nanos_opt().unwrap()
}

fn local(y: i32, m: u32, d: u32, h: u32, mi: u32, s: u32) -> i64 {
    let n = NaiveDate::from_ymd_opt(y, m, d).unwrap().and_hms_opt(h, mi, s).unwrap();
    Local.from_local_datetime(&n).single().unwrap().timestamp_nanos_opt().unwrap()
}

#[test]
fn last_day_of_month_follows_the_gregorian_calendar() {
    assert_eq!(last_day_of_month(2024, 2), Ok(29));
    assert_eq!(last_day_of_month(2023, 2), Ok(28));
    assert_eq!(last_day_of_month(1900, 2), Ok(28));
    assert_eq!(last_day_of_month(2000, 2), Ok(29));
    assert_eq!(last_day_of_month(2023, 4), Ok(30));
    assert_eq!(last_day_of_month(2023, 12), Ok(31));
    assert_eq!(last_day_of_month(2023, 13), Err(CalendarError::InvalidDate));
    assert_eq!(last_day_of_month(2023, 0), Ok(31));
}

#[test]
fn field_schedules_apply_to_their_field() {
    assert_eq!(apply_field::<Doubling>(&CalendarFieldSchedule::Ignore, 7, false), 7);
    assert_eq!(apply_field::<Doubling>(&CalendarFieldSchedule::Ignore, 7, true), 0);
    assert_eq!(apply_field::<Doubling>(&CalendarFieldSchedule::Every(5), 7, true), 7);
    assert_eq!(apply_field::<Doubling>(&CalendarFieldSchedule::Exactly(3), 7, false), 3);
    assert_eq!(apply_field(&CalendarFieldSchedule::Custom(Doubling), 7, true), 14);
}

#[test]
fn rebuild_clamps_the_day_to_the_month() {
    let parts = CalendarParts { millisecond: 250, second: 5, minute: 4, hour: 3, day0: 30, month0: 1, year: 2024 };
    assert_eq!(rebuild_naive(&parts), Ok(naive(2024, 2, 29, 3, 4, 5, 250)));
    let bad_month = CalendarParts { month0: 12, ..parts };
    assert_eq!(rebuild_naive(&bad_month), Err(CalendarError::InvalidDate));
    let bad_hour = CalendarParts { hour: 24, ..parts };
    assert_eq!(rebuild_naive(&bad_hour), Err(CalendarError::InvalidDate));
    let far = CalendarParts { year: 3000, ..parts };
    assert_eq!(rebuild_naive(&far), Err(CalendarError::OutOfRange));
}

#[test]
fn ignoring_every_field_keeps_the_time_to_the_millisecond() {
    let cal = ignore_all();
    let t = local(2024, 1, 15, 10, 20, 30) + 123_456_789;
    assert_eq!(cal.next_after(t), Ok(t - 456_789));
}

#[test]
fn daily_schedule_fires_later_today_or_tomorrow() {
    let mut cal = ignore_all();
    cal.hour = CalendarFieldSchedule::Exactly(12);
    cal.minute = CalendarFieldSchedule::Exactly(30);
    cal.second = CalendarFieldSchedule::Exactly(0);
    cal.millisecond = CalendarFieldSchedule::Exactly(0);
    let morning = local(2024, 1, 15, 10, 0, 0);
    assert_eq!(cal.next_after(morning), Ok(local(2024, 1, 15, 12, 30, 0)));
    let afternoon = local(2024, 1, 15, 13, 0, 0);
    assert_eq!(cal.next_after(afternoon), Ok(local(2024, 1, 16, 12, 30, 0)));
}

#[test]
fn ignored_fields_below_an_exact_field_are_zero() {
    let cal = ScheduleCalendar::<Doubling>::new()
        .hour(CalendarFieldSchedule::Exactly(12))
        .minute(CalendarFieldSchedule::Exactly(30))
        .second(CalendarFieldSchedule::Exactly(0));
    let morning = local(2024, 1, 15, 10, 11, 12) + 345_000_000;
    assert_eq!(cal.next_after(morning), Ok(local(2024, 1, 15, 12, 30, 0)));
    let year_only = ScheduleCalendar::<Doubling>::new().year(CalendarFieldSchedule::Exactly(2030));
    assert_eq!(year_only.next_after(morning), Ok(local(2030, 1, 1, 0, 0, 0)));
}

#[test]
fn every_field_moves_forward() {
    let mut cal = ignore_all();
    cal.minute = CalendarFieldSchedule::Every(15);
    let t = local(2024, 1, 15, 10, 0, 0);
    assert_eq!(cal.next_after(t), Ok(local(2024, 1, 15, 10, 15, 0)));
    let mut far = ignore_all();
    far.day = CalendarFieldSchedule::Every(u32::MAX);
    assert_eq!(far.next_after(local(2024, 1, 15, 10, 0, 1)), Err(CalendarError::OutOfRange));
    let mut overflow = ignore_all();
    overflow.year = CalendarFieldSchedule::Every(u32::MAX);
    assert_eq!(overflow.next_after(local(2024, 1, 15, 10, 0, 1)), Err(CalendarError::FieldOverflow));
}

#[test]
fn every_step_carries_into_the_larger_fields() {
    let cal = ScheduleCalendar::<Doubling>::new().second(CalendarFieldSchedule::Every(30));
    assert_eq!(cal.next_after(local(2024, 1, 15, 10, 20, 45)), Ok(local(2024, 1, 15, 10, 21, 15)));
    let days = ScheduleCalendar::<Doubling>::new().day(CalendarFieldSchedule::Every(5));
    assert_eq!(days.next_after(local(2024, 1, 30, 8, 0, 0)), Ok(local(2024, 2, 4, 8, 0, 0)));
    let hours = ScheduleCalendar::<Doubling>::new().hour(CalendarFieldSchedule::Every(3));
    assert_eq!(hours.next_after(local(2024, 12, 31, 22, 0, 0)), Ok(local(2025, 1, 1, 1, 0, 0)));
    let months = ScheduleCalendar::<Doubling>::new().month(CalendarFieldSchedule::Every(3));
    assert_eq!(months.next_after(local(2024, 11, 15, 9, 0, 0)), Ok(local(2025, 2, 15, 9, 0, 0)));
    assert_eq!(months.next_after(local(2024, 11, 30, 9, 0, 0)), Ok(local(2025, 2, 28, 9, 0, 0)));
}

#[test]
fn out_of_range_exact_fields_are_recognised() {
    let new = || ScheduleCalendar::<Doubling>::new();
    assert!(!new().has_exact_out_of_range());
    assert!(new().month(CalendarFieldSchedule::Exactly(12)).has_exact_out_of_range());
    assert!(!new().month(CalendarFieldSchedule::Exactly(11)).has_exact_out_of_range());
    assert!(new().day(CalendarFieldSchedule::Exactly(31)).has_exact_out_of_range());
    assert!(!new().day(CalendarFieldSchedule::Exactly(30)).has_exact_out_of_range());
    assert!(new().hour(CalendarFieldSchedule::Exactly(24)).has_exact_out_of_range());
    assert!(new().minute(CalendarFieldSchedule::Exactly(60)).has_exact_out_of_range());
    assert!(new().second(CalendarFieldSchedule::Exactly(60)).has_exact_out_of_range());
    assert!(new().millisecond(CalendarFieldSchedule::Exactly(1000)).has_exact_out_of_range());
    assert!(!new().millisecond(CalendarFieldSchedule::Exactly(999)).has_exact_out_of_range());
    assert!(!new().year(CalendarFieldSchedule::Exactly(100_000)).has_exact_out_of_range());
    assert!(!new().month(CalendarFieldSchedule::Every(40)).has_exact_out_of_range());
}

#[test]
fn a_custom_field_outside_its_range_gives_invalid_date() {
    let cal = ScheduleCalendar::new().month(CalendarFieldSchedule::Custom(Doubling));
    assert_eq!(cal.next_after(local(2024, 7, 15, 10, 0, 0)), Err(CalendarError::InvalidDate));
    assert_eq!(cal.next_after(local(2024, 3, 15, 10, 0, 0)), Ok(local(2024, 5, 15, 10, 0, 0)));
}

#[test]
fn field_schedules_have_debug_text() {
    assert_eq!(CalendarFieldSchedule::<Doubling>::Ignore.to_debug_string(), "CalendarFieldSchedule::Ignore");
    assert_eq!(CalendarFieldSchedule::<Doubling>::Every(5).to_debug_string(), "CalendarFieldSchedule::Every(5)");
    assert_eq!(CalendarFieldSchedule::<Doubling>::Exactly(0).to_debug_string(), "CalendarFieldSchedule::Exactly(0)");
    assert_eq!(CalendarFieldSchedule::<Doubling>::Exactly(4294967295).to_debug_string(), "CalendarFieldSchedule::Exactly(4294967295)");
    assert_eq!(CalendarFieldSchedule::Custom(Doubling).to_debug_string(), "CalendarFieldSchedule::Custom(...)");
}
