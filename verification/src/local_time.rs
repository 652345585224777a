use chrono::{DateTime, Datelike, Local, LocalResult, Months, NaiveDate, TimeDelta, TimeZone, Timelike};
use vstd::prelude::*;

verus! {

/// The smallest year that a calendar date can carry.
pub const MIN_YEAR: i32 = -262143;

/// The largest year that a calendar date can carry.
pub const MAX_YEAR: i32 = 262142;

/// Nanoseconds in one minute.
pub const NANOS_PER_MINUTE: i64 = 60_000_000_000;

/// Nanoseconds in one day: every offset of a time zone from UTC is shorter than that.
pub const NANOS_PER_DAY: i64 = 86_400_000_000_000;

/// Two instants, in nanoseconds, lie less than a day apart.
pub open spec fn within_a_day(a: int, b: int) -> bool {
    -NANOS_PER_DAY < a - b < NANOS_PER_DAY
}

/// What the time zone said of the wall-clock time `at` (naive nanoseconds) names only
/// instants less than a day away from it.
pub open spec fn lookup_near(l: LocalLookup, at: int) -> bool {
    &&& match l {
        LocalLookup::Single(Some(t)) => within_a_day(t as int, at),
        LocalLookup::Ambiguous(a, b) => (a matches Some(t) ==> within_a_day(t as int, at))
            && (b matches Some(t) ==> within_a_day(t as int, at)),
        _ => true,
    }
    &&& far_inside(at) ==> !(l matches LocalLookup::Single(None)) && !(l matches LocalLookup::Ambiguous(None, _))
        && !(l matches LocalLookup::Ambiguous(_, None))
}

/// An instant lies at least a day inside the range of `i64` nanoseconds.
pub open spec fn far_inside(at: int) -> bool {
    i64::MIN + NANOS_PER_DAY <= at <= i64::MAX - NANOS_PER_DAY
}

/// The local fields of an instant denote it up to the zone's offset: the year lies in the
/// range of `i64` nanosecond instants give or take a day, the date exists, and the fields,
/// read as UTC, lie less than a day from the instant.
pub open spec fn fields_near(f: LocalFields, instant: int) -> bool {
    &&& 1677 <= f.year <= 2262
    &&& valid_date(f.year, (f.month0 + 1) as u32, (f.day0 + 1) as u32)
    &&& within_a_day(
        civil_nanos(f.year as int, f.month0 + 1, f.day0 + 1, f.hour as int, f.minute as int, f.second as int, f.millisecond as int),
        instant,
    )
}

/// Gregorian leap-year rule (proleptic, so it also holds for years before 1582).
pub open spec fn is_leap_year(year: int) -> bool {
    (year % 4 == 0 && year % 100 != 0) || year % 400 == 0
}

/// Number of days of month `month` (1 to 12) of `year`.
pub open spec fn days_in_month(year: int, month: int) -> int {
    if month == 2 {
        if is_leap_year(year) { 29 } else { 28 }
    } else if month == 4 || month == 6 || month == 9 || month == 11 {
        30
    } else {
        31
    }
}

/// The month before `month` of `year`, as `(year, month)`.
pub open spec fn previous_month(year: int, month: int) -> (int, int) {
    if month == 1 { (year - 1, 12) } else { (year, month - 1) }
}

/// A wall-clock time of day is valid: hours below 24, minutes and seconds below 60, and
/// milliseconds below 1000, or below 2000 on the 59th second (a leap second).
pub open spec fn valid_time_of_day(hour: u32, minute: u32, second: u32, milli: u32) -> bool {
    &&& hour < 24
    &&& minute < 60
    &&& second < 60
    &&& (milli < 1000 || (second == 59 && milli < 2000))
}

/// Days from 1970-01-01 to the date `year`-`month`-`day` of the proleptic Gregorian calendar
/// (negative before it): years are shifted to start in March, so that the leap day closes
/// the year, and counted in eras of 400 years of 146097 days.
pub open spec fn days_from_civil(year: int, month: int, day: int) -> int {
    let y = if month <= 2 { year - 1 } else { year };
    let era = y / 400;
    let year_of_era = y - era * 400;
    let month_from_march = if month > 2 { month - 3 } else { month + 9 };
    let day_of_year = (153 * month_from_march + 2) / 5 + day - 1;
    let day_of_era = year_of_era * 365 + year_of_era / 4 - year_of_era / 100 + day_of_year;
    era * 146097 + day_of_era - 719468
}

/// Nanoseconds from 1970-01-01 00:00:00 to the given date and time of day, read as UTC.
pub open spec fn civil_nanos(year: int, month: int, day: int, hour: int, minute: int, second: int, milli: int) -> int {
    days_from_civil(year, month, day) * 86_400_000_000_000 + hour * 3_600_000_000_000 + minute * 60_000_000_000
        + second * 1_000_000_000 + milli * 1_000_000
}

/// A calendar date exists.
pub open spec fn valid_date(year: i32, month: u32, day: u32) -> bool {
    &&& MIN_YEAR <= year <= MAX_YEAR
    &&& 1 <= month <= 12
    &&& 1 <= day <= days_in_month(year as int, month as int)
}

/// The local calendar fields of an instant, as the machine's time zone reads them.
pub struct LocalFields {
    pub millisecond: u32,
    pub second: u32,
    pub minute: u32,
    pub hour: u32,
    pub day0: u32,
    pub month0: u32,
    pub year: i32,
}

/// What the machine's time zone makes of a wall-clock time: one instant, two (a clock
/// set back), or none (a clock set forward). An instant that does not fit in `i64`
/// nanoseconds is `None`.
pub enum LocalLookup {
    Single(Option<i64>),
    Ambiguous(Option<i64>, Option<i64>),
    Absent,
}

/// The instant, in nanoseconds since the epoch, that a naive (zone-less) date and time
/// denotes when read as UTC, or `None` when the date or time does not exist or the instant
/// does not fit in `i64` nanoseconds.
pub open spec fn naive_timestamp_nanos(
    year: i32,
    month: u32,
    day: u32,
    hour: u32,
    minute: u32,
    second: u32,
    milli: u32,
) -> Option<i64> {
    let n = civil_nanos(year as int, month as int, day as int, hour as int, minute as int, second as int, milli as int);
    if valid_date(year, month, day) && valid_time_of_day(hour, minute, second, milli) && i64::MIN <= n <= i64::MAX {
        Some(n as i64)
    } else {
        None
    }
}

/// Reads the local calendar fields of `instant` through `chrono::Local` (the machine's time
/// zone). Claimed: the fields lie in their documented ranges (chrono's `Timelike` and
/// `Datelike` accessors; a time built from a timestamp carries no leap second, so the
/// sub-second milliseconds stay below 1000); they form an existing date; and, since chrono
/// refuses any offset of a day or more (`FixedOffset::east_opt`) and the fields drop only the
/// sub-millisecond part, read as UTC they lie less than a day from `instant` (see
/// [`fields_near`]). Which offset applies depends on the time zone, which is left unsaid.
#[verifier::external_body]
pub(crate) fn local_fields_at(instant: i64) -> (r: LocalFields)
    ensures
        r.millisecond < 1000,
        r.second < 60,
        r.minute < 60,
        r.hour < 24,
        r.day0 < 31,
        r.month0 < 12,
        fields_near(r, instant as int),
{
    let t = Local.timestamp_nanos(instant);
    LocalFields {
        millisecond: t.timestamp_subsec_millis(),
        second: t.second(),
        minute: t.minute(),
        hour: t.hour(),
        day0: t.day0(),
        month0: t.month0(),
        year: t.year(),
    }
}

/// Calls `NaiveDate::from_ymd_opt(year, month, day)`, then `and_hms_milli_opt`, then reads
/// the result as UTC through `and_utc().timestamp_nanos_opt()`. Claimed from chrono's
/// documentation and source: the result is [`naive_timestamp_nanos`], that is the nanosecond
/// count [`civil_nanos`] of the date and time (chrono counts the days of the proleptic
/// Gregorian calendar, and a leap second's extra milliseconds add to the second), for an
/// existing date (years `MIN_YEAR..=MAX_YEAR`), a valid time of day (a leap second only at
/// second 59) and a count that fits in `i64`; `None` otherwise. Near the lower end of the
/// range `timestamp_nanos_opt` computes from one second later, which loses no result there
/// since no leap second lies within a second of it.
#[verifier::external_body]
pub(crate) fn naive_nanos(year: i32, month: u32, day: u32, hour: u32, minute: u32, second: u32, milli: u32) -> (r: Option<i64>)
    ensures
        r == naive_timestamp_nanos(year, month, day, hour, minute, second, milli),
{
    NaiveDate::from_ymd_opt(year, month, day)?
        .and_hms_milli_opt(hour, minute, second, milli)?
        .and_utc()
        .timestamp_nanos_opt()
}

/// Calls `NaiveDate::from_ymd_opt(year, month, 1)` and then subtracts one day
/// (`NaiveDate - TimeDelta::days(1)`), returning the day of month reached. Claimed from
/// chrono's documentation: for a month from 1 to 12 of a year in `MIN_YEAR..=MAX_YEAR` the
/// first of the month exists and the result is the last day of the previous month; for any
/// other input the first of the month does not exist and `None` comes back. The subtraction
/// panics below the first representable date, hence the `requires`.
#[verifier::external_body]
pub(crate) fn day_before_first_of_month(year: i32, month: u32) -> (r: Option<u32>)
    requires
        !(year == MIN_YEAR && month == 1),
    ensures
        r is Some <==> (MIN_YEAR <= year <= MAX_YEAR && 1 <= month <= 12),
        r matches Some(d) ==> d == days_in_month(previous_month(year as int, month as int).0, previous_month(year as int, month as int).1),
{
    let first = NaiveDate::from_ymd_opt(year, month, 1)?;
    Some((first - TimeDelta::days(1)).day())
}

/// Calls `Local.from_local_datetime` on the naive date and time that `naive` nanoseconds
/// since 1970-01-01 00:00:00 denote, and reads each instant found back as nanoseconds since
/// the epoch. Claimed: each instant found lies less than a day from `naive`, since it is
/// `naive` minus an offset that chrono bounds below a day; so when `naive` lies at least a
/// day inside the `i64` range, every instant found fits and none is missing. Which variant
/// and which offset come back depends on the machine's time zone, which is left unsaid.
#[verifier::external_body]
pub(crate) fn local_lookup(naive: i64) -> (r: LocalLookup)
    ensures
        lookup_near(r, naive as int),
{
    let naive_dt = DateTime::from_timestamp_nanos(naive).naive_utc();
    match Local.from_local_datetime(&naive_dt) {
        LocalResult::Single(t) => LocalLookup::Single(t.timestamp_nanos_opt()),
        LocalResult::Ambiguous(a, b) => LocalLookup::Ambiguous(a.timestamp_nanos_opt(), b.timestamp_nanos_opt()),
        LocalResult::None => LocalLookup::Absent,
    }
}

/// Calls `DateTime::<Local>::checked_add_months` on `instant` read in the machine's time
/// zone, and reads the result back as nanoseconds since the epoch. The local wall-clock time
/// moves forward by `months` months, keeping the time of day, the day clamped to the month:
/// that is at least 28 and at most 31 days per month (the days of the months passed, less
/// at most what the clamp takes from the last one, which the first month's length makes up),
/// and the offsets before and after differ by less than two days. Claimed: a result lies
/// more than `28 * months - 2` days and less than `31 * months + 2` days after `instant`
/// (after it at all when at least one month is added). Whether a result comes back (an
/// unrepresentable or ambiguous local time gives `None`) and which offset applies depend on
/// the time zone, which is left unsaid.
#[verifier::external_body]
pub(crate) fn local_add_months(instant: i64, months: u32) -> (r: Option<i64>)
    ensures
        r matches Some(t) ==> t < instant + (31 * months + 2) * NANOS_PER_DAY,
        r matches Some(t) ==> (months >= 1 ==> instant < t),
        r matches Some(t) ==> t > instant + (28 * months - 2) * NANOS_PER_DAY,
{
    let t = Local.timestamp_nanos(instant).checked_add_months(Months::new(months))?;
    t.timestamp_nanos_opt()
}

} // verus!
