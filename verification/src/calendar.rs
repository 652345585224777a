use crate::local_time::{
    civil_nanos, day_before_first_of_month, days_in_month, far_inside, fields_near, local_add_months, local_fields_at,
    local_lookup, lookup_near, naive_nanos, naive_timestamp_nanos, previous_month,
    valid_time_of_day, LocalFields, LocalLookup, MAX_YEAR, MIN_YEAR, NANOS_PER_DAY, NANOS_PER_MINUTE,
};
use vstd::prelude::*;

verus! {

/// A user function that computes a calendar field from the current value of that field.
pub trait CustomFieldFn {
    fn compute(&self, current: u32) -> u32;
}

/// How one field of a [`ScheduleCalendar`] is scheduled. All fields are zero-based.
pub enum CalendarFieldSchedule<C> {
    /// Keep the field of the time the schedule starts from.
    Ignore,
    /// Move forward by this many units of the field, carrying into the larger fields (45
    /// seconds and 30 more give the next minute and 15 seconds).
    Every(u32),
    /// Set the field to this value.
    Exactly(u32),
    /// Let a function compute the field from the field of the starting time.
    Custom(C),
}

/// Why a calendar schedule could not compute its next time.
#[derive(Clone, Copy, Debug, PartialEq, Eq, Structural)]
pub enum CalendarError {
    /// An `Every` step on the month or the year pushed the year past `u32::MAX`.
    FieldOverflow,
    /// The fields do not describe an existing date or time of day (a `Custom` function
    /// computed a field outside its range). A field fixed `Exactly` outside its range is
    /// ruled out before: [`ScheduleCalendar::next_after`] requires that there is none.
    InvalidDate,
    /// The date exists but its instant does not fit in `i64` nanoseconds since the epoch,
    /// or the time zone could not place it.
    OutOfRange,
}

/// The seven calendar fields, zero-based, in the order in which a schedule visits them.
#[derive(Clone, Copy, Debug, PartialEq, Eq, Structural)]
pub struct CalendarParts {
    pub millisecond: u32,
    pub second: u32,
    pub minute: u32,
    pub hour: u32,
    pub day0: u32,
    pub month0: u32,
    pub year: u32,
}

impl CalendarParts {
    /// Field `i`: 0 millisecond, 1 second, 2 minute, 3 hour, 4 day, 5 month, 6 year.
    pub open spec fn at(self, i: int) -> u32 {
        if i == 0 { self.millisecond }
        else if i == 1 { self.second }
        else if i == 2 { self.minute }
        else if i == 3 { self.hour }
        else if i == 4 { self.day0 }
        else if i == 5 { self.month0 }
        else { self.year }
    }
}

/// A schedule with one [`CalendarFieldSchedule`] per calendar field.
pub struct ScheduleCalendar<C> {
    pub year: CalendarFieldSchedule<C>,
    pub month: CalendarFieldSchedule<C>,
    pub day: CalendarFieldSchedule<C>,
    pub hour: CalendarFieldSchedule<C>,
    pub minute: CalendarFieldSchedule<C>,
    pub second: CalendarFieldSchedule<C>,
    pub millisecond: CalendarFieldSchedule<C>,
}

/// Nanoseconds in one unit of field `i` for the fields measured in fixed time (1 to 4).
pub open spec fn unit_nanos(i: int) -> int {
    if i == 1 { 1_000_000_000 }
    else if i == 2 { 60_000_000_000 }
    else if i == 3 { 3_600_000_000_000 }
    else { 86_400_000_000_000 }
}

/// The value a field takes before the interval steps: an ignored field keeps the starting
/// time's value, or is zero when a larger field is fixed `Exactly` (`zeroed`); a field
/// scheduled `Every` keeps the starting time's value too (its step is added afterwards, see
/// [`ScheduleCalendar::applied`] and [`ScheduleCalendar::time_shift`]); `custom` stands for
/// what a `Custom` function returned.
pub open spec fn field_result<C>(f: CalendarFieldSchedule<C>, cur: u32, zeroed: bool, custom: u32) -> u32 {
    match f {
        CalendarFieldSchedule::Ignore => if zeroed { 0 } else { cur },
        CalendarFieldSchedule::Every(_) => cur,
        CalendarFieldSchedule::Exactly(v) => v,
        CalendarFieldSchedule::Custom(_) => custom,
    }
}

/// The step of an `Every` schedule, and 0 for any other schedule.
pub open spec fn every_step<C>(f: CalendarFieldSchedule<C>) -> nat {
    match f {
        CalendarFieldSchedule::Every(d) => d as nat,
        _ => 0,
    }
}

/// The last day of month `month` of `year` as the schedule finds it, or the reason it
/// cannot. A month of 0 reads the first of the month as the day after 31 December of the
/// year before, so it gives 31 for any year after the first representable one.
pub open spec fn last_day_result(year: i32, month: u32) -> Result<u32, CalendarError> {
    if month == 12 {
        if MIN_YEAR <= year && year < MAX_YEAR { Ok(31) } else { Err(CalendarError::InvalidDate) }
    } else if 1 <= month < 12 {
        if MIN_YEAR <= year <= MAX_YEAR { Ok(days_in_month(year as int, month as int) as u32) } else { Err(CalendarError::InvalidDate) }
    } else if month == 0 {
        if MIN_YEAR < year <= MAX_YEAR { Ok(31) } else { Err(CalendarError::InvalidDate) }
    } else {
        Err(CalendarError::InvalidDate)
    }
}

/// The day of month the fields rebuild to: one-based, and clamped to the last day of the
/// month (0 where the month has no last day).
pub open spec fn clamped_day(d: CalendarParts) -> int {
    match last_day_result(d.year as i32, (d.month0 + 1) as u32) {
        Ok(last) => if d.day0 + 1 <= last { d.day0 + 1 } else { last as int },
        Err(_) => 0,
    }
}

/// The naive (zone-less) instant that fields rebuild to: month and day move from zero-based
/// to one-based, the day is clamped to the last day of the month, and the date and time of
/// day must exist.
pub open spec fn rebuilt_naive(d: CalendarParts) -> Result<i64, CalendarError> {
    let year = d.year as i32;
    if d.month0 + 1 > u32::MAX || d.day0 + 1 > u32::MAX {
        Err(CalendarError::InvalidDate)
    } else {
        let month = (d.month0 + 1) as u32;
        let day = (d.day0 + 1) as u32;
        match last_day_result(year, month) {
            Err(e) => Err(e),
            Ok(last) => {
                let clamped = if day <= last { day } else { last };
                if !(1 <= month <= 12) || !valid_time_of_day(d.hour, d.minute, d.second, d.millisecond) {
                    Err(CalendarError::InvalidDate)
                } else {
                    match naive_timestamp_nanos(year, month, clamped, d.hour, d.minute, d.second, d.millisecond) {
                        Some(n) => Ok(n),
                        None => Err(CalendarError::OutOfRange),
                    }
                }
            }
        }
    }
}

/// The instant chosen when the naive time falls in a gap of the time zone: the first of the
/// following ten minutes that maps to exactly one instant (`lookups[k]` being what the zone
/// said for `naive` plus `k` minutes), or, failing all of them, `naive` read as UTC.
pub open spec fn gap_search(lookups: Seq<LocalLookup>, naive: i64, k: nat) -> Result<i64, CalendarError>
    decreases 11 - k,
{
    if k > 10 {
        Ok(naive)
    } else if naive + k * NANOS_PER_MINUTE > i64::MAX {
        Err(CalendarError::OutOfRange)
    } else {
        match lookups[k as int] {
            LocalLookup::Single(Some(t)) => Ok(t),
            LocalLookup::Single(None) => Err(CalendarError::OutOfRange),
            _ => gap_search(lookups, naive, k + 1),
        }
    }
}

/// The instant chosen for a naive time from what the time zone said (`lookups[0]` for the
/// naive time itself): the only instant, the earlier of two, or the gap search.
pub open spec fn chosen_instant(lookups: Seq<LocalLookup>, naive: i64) -> Result<i64, CalendarError> {
    match lookups[0] {
        LocalLookup::Single(Some(t)) => Ok(t),
        LocalLookup::Ambiguous(Some(t), _) => Ok(t),
        LocalLookup::Single(None) => Err(CalendarError::OutOfRange),
        LocalLookup::Ambiguous(None, _) => Err(CalendarError::OutOfRange),
        LocalLookup::Absent => gap_search(lookups, naive, 1),
    }
}

/// What the time zone said in the gap search names instants near the times asked about:
/// `lookups[k]` was asked of `naive` plus `k` minutes.
pub open spec fn lookups_near(lookups: Seq<LocalLookup>, naive: i64) -> bool {
    forall|k: int| #![trigger lookups[k]] 0 <= k < 11 ==> lookup_near(lookups[k], naive + k * NANOS_PER_MINUTE)
}

/// The fields a schedule starts from are the local fields of `time` (see [`fields_near`]).
pub open spec fn start_near(start: CalendarParts, time: i64) -> bool {
    fields_near(
        LocalFields {
            millisecond: start.millisecond,
            second: start.second,
            minute: start.minute,
            hour: start.hour,
            day0: start.day0,
            month0: start.month0,
            year: start.year as i32,
        },
        time as int,
    )
}

impl<C> CalendarFieldSchedule<C> {
    pub open spec fn is_exactly(self) -> bool {
        self is Exactly
    }
}

impl<C: CustomFieldFn> ScheduleCalendar<C> {
    /// Field schedule `i`: 0 millisecond, 1 second, 2 minute, 3 hour, 4 day, 5 month, 6 year.
    pub open spec fn field_at(self, i: int) -> CalendarFieldSchedule<C> {
        if i == 0 { self.millisecond }
        else if i == 1 { self.second }
        else if i == 2 { self.minute }
        else if i == 3 { self.hour }
        else if i == 4 { self.day }
        else if i == 5 { self.month }
        else { self.year }
    }

    /// Whether some field larger than field `i` is fixed `Exactly`.
    pub open spec fn exact_above(self, i: int) -> bool
        decreases 6 - i,
    {
        if i >= 6 {
            false
        } else {
            self.field_at(i + 1).is_exactly() || self.exact_above(i + 1)
        }
    }

    /// The fields after each field schedule is applied; `customs[i]` stands for what the
    /// custom function of field `i` returned, if it has one. An `Every` step on the month adds
    /// to the month and carries whole years into the year; one on the year adds to the year.
    /// The steps of the finer fields are a shift of the time (see
    /// [`ScheduleCalendar::time_shift`]).
    pub open spec fn applied(self, d: CalendarParts, customs: Seq<u32>) -> Result<CalendarParts, CalendarError> {
        let r0 = field_result(self.millisecond, d.millisecond, self.exact_above(0), customs[0]);
        let r1 = field_result(self.second, d.second, self.exact_above(1), customs[1]);
        let r2 = field_result(self.minute, d.minute, self.exact_above(2), customs[2]);
        let r3 = field_result(self.hour, d.hour, self.exact_above(3), customs[3]);
        let r4 = field_result(self.day, d.day0, self.exact_above(4), customs[4]);
        let r5 = field_result(self.month, d.month0, self.exact_above(5), customs[5]);
        let r6 = field_result(self.year, d.year, self.exact_above(6), customs[6]);
        let months: int = r5 + every_step(self.month);
        let month0: int = if self.month is Every { months % 12 } else { r5 as int };
        let year: int = if self.month is Every { r6 + every_step(self.year) + months / 12 } else { r6 + every_step(self.year) };
        if year > u32::MAX {
            Err(CalendarError::FieldOverflow)
        } else {
            Ok(CalendarParts {
                millisecond: r0,
                second: r1,
                minute: r2,
                hour: r3,
                day0: r4,
                month0: month0 as u32,
                year: year as u32,
            })
        }
    }

    /// The shift, in nanoseconds, that the `Every` steps of the millisecond, second, minute,
    /// hour and day fields add to the wall-clock time.
    pub open spec fn time_shift(self) -> int {
        every_step(self.millisecond) as int * 1_000_000
            + every_step(self.second) as int * 1_000_000_000
            + every_step(self.minute) as int * 60_000_000_000
            + every_step(self.hour) as int * 3_600_000_000_000
            + every_step(self.day) as int * 86_400_000_000_000
    }

    /// The naive instant of the applied fields, shifted by the interval steps.
    pub open spec fn shifted_naive(self, d: CalendarParts) -> Result<i64, CalendarError> {
        match rebuilt_naive(d) {
            Err(e) => Err(e),
            Ok(n) => if i64::MIN <= n + self.time_shift() <= i64::MAX {
                Ok((n + self.time_shift()) as i64)
            } else {
                Err(CalendarError::OutOfRange)
            },
        }
    }

    /// Whether field `index` rolls forward: the field before it is fixed `Exactly`, this one
    /// is not, and the rebuilt time still lies before the starting time.
    pub open spec fn rolls(self, index: int, modified: i64, time: i64) -> bool {
        &&& 0 < index < 7
        &&& self.field_at(index - 1).is_exactly()
        &&& !self.field_at(index).is_exactly()
        &&& modified < time
    }

    /// The roll-forward pass from field `index` on: each rolling field adds one of its units
    /// (seconds to days as fixed time, months and years through the time zone, whose answers
    /// are `months[5]` and `months[6]`).
    pub open spec fn rolled(self, index: nat, modified: i64, time: i64, months: Seq<Option<i64>>) -> Result<i64, CalendarError>
        decreases 7 - index,
    {
        if index >= 7 {
            Ok(modified)
        } else if self.rolls(index as int, modified, time) {
            if index <= 4 {
                if modified + unit_nanos(index as int) > i64::MAX {
                    Err(CalendarError::OutOfRange)
                } else {
                    self.rolled(index + 1, (modified + unit_nanos(index as int)) as i64, time, months)
                }
            } else {
                match months[index as int] {
                    Some(m) => self.rolled(index + 1, m, time, months),
                    None => Err(CalendarError::OutOfRange),
                }
            }
        } else {
            self.rolled(index + 1, modified, time, months)
        }
    }

    /// The whole computation of [`ScheduleCalendar::next_after`], given what the time zone
    /// and the custom functions answered.
    pub open spec fn next_after_with(
        self,
        time: i64,
        start: CalendarParts,
        customs: Seq<u32>,
        lookups: Seq<LocalLookup>,
        months: Seq<Option<i64>>,
    ) -> Result<i64, CalendarError> {
        match self.applied(start, customs) {
            Err(e) => Err(e),
            Ok(d) => match self.shifted_naive(d) {
                Err(e) => Err(e),
                Ok(naive) => match chosen_instant(lookups, naive) {
                    Err(e) => Err(e),
                    Ok(m) => self.rolled(0, m, time, months),
                },
            },
        }
    }
}

impl<C: CustomFieldFn> ScheduleCalendar<C> {
    /// What the time zone answered in the roll-forward pass from field `index` on lies where
    /// adding months can put it: when `n` months were added (one for the month roll, twelve
    /// for the year roll), more than `28 * n - 2` and less than `31 * n + 2` days after the
    /// instant asked about.
    pub open spec fn rolled_near(self, index: nat, modified: i64, time: i64, months: Seq<Option<i64>>) -> bool
        decreases 7 - index,
    {
        if index >= 7 {
            true
        } else if self.rolls(index as int, modified, time) {
            if index <= 4 {
                if modified + unit_nanos(index as int) > i64::MAX {
                    true
                } else {
                    self.rolled_near(index + 1, (modified + unit_nanos(index as int)) as i64, time, months)
                }
            } else {
                let n: int = if index == 5 { 1 } else { 12 };
                match months[index as int] {
                    Some(m) => modified < m && modified + (28 * n - 2) * NANOS_PER_DAY < m
                        && m < modified + (31 * n + 2) * NANOS_PER_DAY
                        && self.rolled_near(index + 1, m, time, months),
                    None => true,
                }
            }
        } else {
            self.rolled_near(index + 1, modified, time, months)
        }
    }

    /// Whether a field is fixed `Exactly` outside its documented range: a month above 11, a
    /// day above 30, an hour above 23, a minute or a second above 59, a millisecond above
    /// 999. Such a schedule cannot compute a next time (the year is unrestricted).
    pub open spec fn exact_out_of_range(self) -> bool {
        ||| self.month matches CalendarFieldSchedule::Exactly(v) && v > 11
        ||| self.day matches CalendarFieldSchedule::Exactly(v) && v > 30
        ||| self.hour matches CalendarFieldSchedule::Exactly(v) && v > 23
        ||| self.minute matches CalendarFieldSchedule::Exactly(v) && v > 59
        ||| self.second matches CalendarFieldSchedule::Exactly(v) && v > 59
        ||| self.millisecond matches CalendarFieldSchedule::Exactly(v) && v > 999
    }

    /// Whether the roll-forward pass may add months or years, which goes through the time
    /// zone: the day is fixed `Exactly` and the month is not, or the month is and the year is
    /// not.
    pub open spec fn rolls_by_months(self) -> bool {
        ||| self.day is Exactly && !(self.month is Exactly)
        ||| self.month is Exactly && !(self.year is Exactly)
    }

    /// Whether the fields of `start` apply and rebuild to a wall-clock time well inside the
    /// range of `i64` nanoseconds (two days above its start, nine below its end).
    pub open spec fn placement_safe(self, start: CalendarParts, customs: Seq<u32>) -> bool {
        match self.applied(start, customs) {
            Err(_) => false,
            Ok(d) => match self.shifted_naive(d) {
                Err(_) => false,
                Ok(n) => i64::MIN + 2 * NANOS_PER_DAY <= n <= i64::MAX - 9 * NANOS_PER_DAY,
            },
        }
    }

    /// Without month or year rolls, fields that rebuild well inside the range are always
    /// placed and rolled: the time zone's answers, bounded as [`ScheduleCalendar::env_near`]
    /// says, cannot make the computation fail.
    pub proof fn lemma_placement_succeeds(
        self,
        time: i64,
        start: CalendarParts,
        customs: Seq<u32>,
        lookups: Seq<LocalLookup>,
        months: Seq<Option<i64>>,
    )
        requires
            lookups.len() == 11,
            self.env_near(time, start, customs, lookups, months),
            !self.rolls_by_months(),
            self.placement_safe(start, customs),
        ensures
            self.next_after_with(time, start, customs, lookups, months) is Ok,
    {
        let d = self.applied(start, customs)->Ok_0;
        let n = self.shifted_naive(d)->Ok_0;
        assert(lookups_near(lookups, n));
        assert(lookup_near(lookups[0], n + 0 * NANOS_PER_MINUTE));
        assert(far_inside(n as int));
        let m: i64 = match lookups[0] {
            LocalLookup::Single(Some(t)) => t,
            LocalLookup::Ambiguous(Some(t), _) => t,
            _ => {
                lemma_gap_search_succeeds(lookups, n, 1);
                gap_search(lookups, n, 1)->Ok_0
            },
        };
        assert(chosen_instant(lookups, n) == Ok::<i64, CalendarError>(m));
        self.lemma_rolled_fixed_succeeds(0, m, time, months);
    }

    /// Without month or year rolls, the roll-forward pass from field `index` succeeds when
    /// there is room for a day per remaining field.
    pub proof fn lemma_rolled_fixed_succeeds(self, index: nat, modified: i64, time: i64, months: Seq<Option<i64>>)
        requires
            !self.rolls_by_months(),
            index <= 7,
            modified <= i64::MAX - (7 - index) * NANOS_PER_DAY,
        ensures
            self.rolled(index, modified, time, months) is Ok,
        decreases 7 - index,
    {
        if index < 7 {
            if self.rolls(index as int, modified, time) {
                assert(index <= 4);
                self.lemma_rolled_fixed_succeeds(index + 1, (modified + unit_nanos(index as int)) as i64, time, months);
            } else {
                self.lemma_rolled_fixed_succeeds(index + 1, modified, time, months);
            }
        }
    }

    /// The answers of the machine's time zone that [`ScheduleCalendar::next_after_with`] reads
    /// are ones the zone can give: the starting fields are the local fields of `time`, each
    /// instant a lookup names lies less than a day from the wall-clock time asked about, and
    /// each month addition moves forward by about that many months.
    pub open spec fn env_near(
        self,
        time: i64,
        start: CalendarParts,
        customs: Seq<u32>,
        lookups: Seq<LocalLookup>,
        months: Seq<Option<i64>>,
    ) -> bool {
        &&& start_near(start, time)
        &&& match self.applied(start, customs) {
            Err(_) => true,
            Ok(d) => match self.shifted_naive(d) {
                Err(_) => true,
                Ok(naive) => lookups_near(lookups, naive) && match chosen_instant(lookups, naive) {
                    Err(_) => true,
                    Ok(m) => self.rolled_near(0, m, time, months),
                },
            },
        }
    }
}

/// Applies one field schedule to the current value of its field (before the interval
/// steps, see [`field_result`]).
pub fn apply_field<C: CustomFieldFn>(f: &CalendarFieldSchedule<C>, cur: u32, zeroed: bool) -> (r: u32)
    ensures
        !(f is Custom) ==> r == field_result(*f, cur, zeroed, 0),
{
    match f {
        CalendarFieldSchedule::Ignore => if zeroed { 0 } else { cur },
        CalendarFieldSchedule::Every(_) => cur,
        CalendarFieldSchedule::Exactly(v) => *v,
        CalendarFieldSchedule::Custom(func) => func.compute(cur),
    }
}

/// The step of an `Every` schedule, and 0 for any other schedule.
pub fn step_of<C>(f: &CalendarFieldSchedule<C>) -> (r: u32)
    ensures
        r == every_step(*f),
{
    match f {
        CalendarFieldSchedule::Every(d) => *d,
        _ => 0,
    }
}

/// The last day of `month` (1 to 12) of `year`, found as the day before the first of the
/// following month.
pub fn last_day_of_month(year: i32, month: u32) -> (r: Result<u32, CalendarError>)
    ensures
        r == last_day_result(year, month),
{
    let (next_year, next_month) = if month == 12 {
        match year.checked_add(1) {
            Some(y) => (y, 1u32),
            None => return Err(CalendarError::InvalidDate),
        }
    } else {
        match month.checked_add(1) {
            Some(m) => (year, m),
            None => return Err(CalendarError::InvalidDate),
        }
    };
    if next_year == MIN_YEAR && next_month == 1 {
        return Err(CalendarError::InvalidDate);
    }
    match day_before_first_of_month(next_year, next_month) {
        Some(d) => Ok(d),
        None => Err(CalendarError::InvalidDate),
    }
}

/// Rebuilds the naive instant of the fields (see [`rebuilt_naive`]).
pub fn rebuild_naive(d: &CalendarParts) -> (r: Result<i64, CalendarError>)
    ensures
        r == rebuilt_naive(*d),
        r matches Ok(n) ==> n == civil_nanos(
            d.year as i32 as int,
            d.month0 + 1,
            clamped_day(*d),
            d.hour as int,
            d.minute as int,
            d.second as int,
            d.millisecond as int,
        ),
{
    let year = d.year as i32;
    let month = match d.month0.checked_add(1) {
        Some(m) => m,
        None => return Err(CalendarError::InvalidDate),
    };
    let day = match d.day0.checked_add(1) {
        Some(v) => v,
        None => return Err(CalendarError::InvalidDate),
    };
    let last = match last_day_of_month(year, month) {
        Ok(l) => l,
        Err(e) => return Err(e),
    };
    let clamped = if day <= last { day } else { last };
    if !(1 <= month && month <= 12) {
        return Err(CalendarError::InvalidDate);
    }
    let time_ok = d.hour < 24 && d.minute < 60 && d.second < 60
        && (d.millisecond < 1000 || (d.second == 59 && d.millisecond < 2000));
    if !time_ok {
        return Err(CalendarError::InvalidDate);
    }
    match naive_nanos(year, month, clamped, d.hour, d.minute, d.second, d.millisecond) {
        Some(n) => Ok(n),
        None => Err(CalendarError::OutOfRange),
    }
}


/// Well inside the range, the gap search always finds an instant within two days of the
/// naive time: an answer with an instant, or the naive time read as UTC.
pub proof fn lemma_gap_search_succeeds(lookups: Seq<LocalLookup>, naive: i64, k: nat)
    requires
        lookups.len() == 11,
        lookups_near(lookups, naive),
        1 <= k,
        i64::MIN + 2 * NANOS_PER_DAY <= naive <= i64::MAX - 2 * NANOS_PER_DAY,
    ensures
        gap_search(lookups, naive, k) matches Ok(t) && naive - 2 * NANOS_PER_DAY <= t <= naive + 2 * NANOS_PER_DAY,
    decreases 11 - k,
{
    if k <= 10 {
        assert(lookup_near(lookups[k as int], naive + k * NANOS_PER_MINUTE));
        assert(far_inside(naive + k * NANOS_PER_MINUTE));
        lemma_gap_search_succeeds(lookups, naive, k + 1);
    }
}

/// What the gap search reads of `lookups` lies at index `k` and above.
pub proof fn lemma_gap_search_reads_from(s1: Seq<LocalLookup>, s2: Seq<LocalLookup>, naive: i64, k: nat)
    requires
        s1.len() == 11,
        s2.len() == 11,
        forall|j: int| k <= j < 11 ==> s1[j] == s2[j],
    ensures
        gap_search(s1, naive, k) == gap_search(s2, naive, k),
    decreases 11 - k,
{
    if k <= 10 {
        lemma_gap_search_reads_from(s1, s2, naive, k + 1);
    }
}

/// The gap search from the `k`-th following minute on, asking the time zone as it goes.
fn search_gap(naive: i64, k: u64) -> (r: (Result<i64, CalendarError>, Ghost<Seq<LocalLookup>>))
    requires
        1 <= k <= 11,
    ensures
        r.1@.len() == 11,
        r.0 == gap_search(r.1@, naive, k as nat),
        lookups_near(r.1@, naive),
    decreases 11 - k,
{
    let ghost filler: Seq<LocalLookup> = Seq::new(11, |i: int| LocalLookup::Absent);
    if k > 10 {
        return (Ok(naive), Ghost(filler));
    }
    let step = (k as i64) * NANOS_PER_MINUTE;
    let candidate = match naive.checked_add(step) {
        Some(c) => c,
        None => return (Err(CalendarError::OutOfRange), Ghost(filler)),
    };
    let found = local_lookup(candidate);
    match found {
        LocalLookup::Single(Some(t)) => (Ok(t), Ghost(filler.update(k as int, found))),
        LocalLookup::Single(None) => (Err(CalendarError::OutOfRange), Ghost(filler.update(k as int, found))),
        _ => {
            let (r, Ghost(trace)) = search_gap(naive, k + 1);
            let ghost out = trace.update(k as int, found);
            proof {
                lemma_gap_search_reads_from(trace, out, naive, (k + 1) as nat);
            }
            (r, Ghost(out))
        },
    }
}

/// Places a naive time in the machine's time zone (see [`chosen_instant`]).
fn resolve_local(naive: i64) -> (r: (Result<i64, CalendarError>, Ghost<Seq<LocalLookup>>))
    ensures
        r.1@.len() == 11,
        r.0 == chosen_instant(r.1@, naive),
        lookups_near(r.1@, naive),
{
    let first = local_lookup(naive);
    let ghost alone: Seq<LocalLookup> = Seq::new(11, |i: int| LocalLookup::Absent).update(0, first);
    match first {
        LocalLookup::Single(Some(t)) => (Ok(t), Ghost(alone)),
        LocalLookup::Ambiguous(Some(t), _) => (Ok(t), Ghost(alone)),
        LocalLookup::Single(None) => (Err(CalendarError::OutOfRange), Ghost(alone)),
        LocalLookup::Ambiguous(None, _) => (Err(CalendarError::OutOfRange), Ghost(alone)),
        LocalLookup::Absent => {
            let (r, Ghost(trace)) = search_gap(naive, 1);
            let ghost out = trace.update(0, first);
            proof {
                lemma_gap_search_reads_from(trace, out, naive, 1);
            }
            (r, Ghost(out))
        },
    }
}


impl<C: CustomFieldFn> ScheduleCalendar<C> {
    /// Field schedule `i` (see [`ScheduleCalendar::field_at`]).
    pub fn field(&self, i: usize) -> (r: &CalendarFieldSchedule<C>)
        requires
            i < 7,
        ensures
            *r == self.field_at(i as int),
    {
        if i == 0 { &self.millisecond }
        else if i == 1 { &self.second }
        else if i == 2 { &self.minute }
        else if i == 3 { &self.hour }
        else if i == 4 { &self.day }
        else if i == 5 { &self.month }
        else { &self.year }
    }

    /// Applies every field schedule to the fields of the starting time, returning as well
    /// what the custom functions answered.
    pub fn apply_fields(&self, d: &CalendarParts) -> (r: (Result<CalendarParts, CalendarError>, Ghost<Seq<u32>>))
        ensures
            r.1@.len() == 7,
            r.0 == self.applied(*d, r.1@),
    {
        let above5 = self.year.is_exactly_exec();
        let above4 = above5 || self.month.is_exactly_exec();
        let above3 = above4 || self.day.is_exactly_exec();
        let above2 = above3 || self.hour.is_exactly_exec();
        let above1 = above2 || self.minute.is_exactly_exec();
        let above0 = above1 || self.second.is_exactly_exec();
        assert(!self.exact_above(6));
        assert(above5 == self.exact_above(5));
        assert(above4 == self.exact_above(4));
        assert(above3 == self.exact_above(3));
        assert(above2 == self.exact_above(2));
        assert(above1 == self.exact_above(1));
        assert(above0 == self.exact_above(0));
        let r0 = apply_field(&self.millisecond, d.millisecond, above0);
        let r1 = apply_field(&self.second, d.second, above1);
        let r2 = apply_field(&self.minute, d.minute, above2);
        let r3 = apply_field(&self.hour, d.hour, above3);
        let r4 = apply_field(&self.day, d.day0, above4);
        let r5 = apply_field(&self.month, d.month0, above5);
        let r6 = apply_field(&self.year, d.year, false);
        let ghost customs: Seq<u32> = seq![r0, r1, r2, r3, r4, r5, r6];
        let year_step = step_of(&self.year) as u64;
        let (month0, year): (u64, u64) = match &self.month {
            CalendarFieldSchedule::Every(d) => {
                let months = r5 as u64 + *d as u64;
                (months % 12, r6 as u64 + year_step + months / 12)
            },
            _ => (r5 as u64, r6 as u64 + year_step),
        };
        if year > u32::MAX as u64 {
            return (Err(CalendarError::FieldOverflow), Ghost(customs));
        }
        (Ok(CalendarParts {
            millisecond: r0,
            second: r1,
            minute: r2,
            hour: r3,
            day0: r4,
            month0: month0 as u32,
            year: year as u32,
        }), Ghost(customs))
    }

    /// The shift that the interval steps of the finer fields add (see
    /// [`ScheduleCalendar::time_shift`]).
    pub fn time_shift_nanos(&self) -> (r: i128)
        ensures
            r == self.time_shift(),
    {
        step_of(&self.millisecond) as i128 * 1_000_000
            + step_of(&self.second) as i128 * 1_000_000_000
            + step_of(&self.minute) as i128 * 60_000_000_000
            + step_of(&self.hour) as i128 * 3_600_000_000_000
            + step_of(&self.day) as i128 * 86_400_000_000_000
    }

    /// The naive instant of the applied fields, shifted by the interval steps (see
    /// [`ScheduleCalendar::shifted_naive`]).
    pub fn shift_naive(&self, d: &CalendarParts) -> (r: Result<i64, CalendarError>)
        ensures
            r == self.shifted_naive(*d),
    {
        let naive = match rebuild_naive(d) {
            Ok(n) => n,
            Err(e) => return Err(e),
        };
        let shifted = naive as i128 + self.time_shift_nanos();
        if shifted < i64::MIN as i128 || shifted > i64::MAX as i128 {
            return Err(CalendarError::OutOfRange);
        }
        Ok(shifted as i64)
    }

    /// Whether a field is fixed `Exactly` outside its documented range (see
    /// [`ScheduleCalendar::exact_out_of_range`]); such a schedule must not be asked for a
    /// next time.
    pub fn has_exact_out_of_range(&self) -> (r: bool)
        ensures
            r == self.exact_out_of_range(),
    {
        (match &self.month { CalendarFieldSchedule::Exactly(v) => *v > 11, _ => false })
            || (match &self.day { CalendarFieldSchedule::Exactly(v) => *v > 30, _ => false })
            || (match &self.hour { CalendarFieldSchedule::Exactly(v) => *v > 23, _ => false })
            || (match &self.minute { CalendarFieldSchedule::Exactly(v) => *v > 59, _ => false })
            || (match &self.second { CalendarFieldSchedule::Exactly(v) => *v > 59, _ => false })
            || (match &self.millisecond { CalendarFieldSchedule::Exactly(v) => *v > 999, _ => false })
    }

    /// The roll-forward pass from field `index` on (see [`ScheduleCalendar::rolled`]).
    fn roll_forward(&self, index: usize, modified: i64, time: i64) -> (r: (Result<i64, CalendarError>, Ghost<Seq<Option<i64>>>))
        requires
            index <= 7,
        ensures
            r.1@.len() == 7,
            r.0 == self.rolled(index as nat, modified, time, r.1@),
            self.rolled_near(index as nat, modified, time, r.1@),
        decreases 7 - index,
    {
        let ghost filler: Seq<Option<i64>> = Seq::new(7, |i: int| None);
        if index >= 7 {
            return (Ok(modified), Ghost(filler));
        }
        let rolls = index > 0 && self.field(index - 1).is_exactly_exec() && !self.field(index).is_exactly_exec()
            && modified < time;
        if !rolls {
            let (r, g) = self.roll_forward(index + 1, modified, time);
            return (r, g);
        }
        if index <= 4 {
            let unit: i64 = if index == 1 { 1_000_000_000 }
                else if index == 2 { 60_000_000_000 }
                else if index == 3 { 3_600_000_000_000 }
                else { 86_400_000_000_000 };
            match modified.checked_add(unit) {
                Some(m) => self.roll_forward(index + 1, m, time),
                None => (Err(CalendarError::OutOfRange), Ghost(filler)),
            }
        } else {
            let months: u32 = if index == 5 { 1 } else { 12 };
            let added = local_add_months(modified, months);
            match added {
                Some(m) => {
                    let (r, Ghost(trace)) = self.roll_forward(index + 1, m, time);
                    let ghost out = trace.update(index as int, added);
                    proof {
                        self.lemma_rolled_reads_from(trace, out, (index + 1) as nat, m, time);
                    }
                    (r, Ghost(out))
                },
                None => (Err(CalendarError::OutOfRange), Ghost(filler.update(index as int, added))),
            }
        }
    }

    /// What the roll-forward pass reads of `months` lies at index `index` and above.
    pub proof fn lemma_rolled_reads_from(self, m1: Seq<Option<i64>>, m2: Seq<Option<i64>>, index: nat, modified: i64, time: i64)
        requires
            m1.len() == 7,
            m2.len() == 7,
            forall|j: int| index <= j < 7 ==> m1[j] == m2[j],
        ensures
            self.rolled(index, modified, time, m1) == self.rolled(index, modified, time, m2),
            self.rolled_near(index, modified, time, m1) == self.rolled_near(index, modified, time, m2),
        decreases 7 - index,
    {
        if index < 7 {
            if self.rolls(index as int, modified, time) {
                if index <= 4 {
                    if modified + unit_nanos(index as int) <= i64::MAX {
                        self.lemma_rolled_reads_from(m1, m2, index + 1, (modified + unit_nanos(index as int)) as i64, time);
                    }
                } else {
                    match m1[index as int] {
                        Some(m) => self.lemma_rolled_reads_from(m1, m2, index + 1, m, time),
                        None => {},
                    }
                }
            } else {
                self.lemma_rolled_reads_from(m1, m2, index + 1, modified, time);
            }
        }
    }

    /// The next time after `time` (nanoseconds since the epoch) at which this calendar
    /// schedule fires: each field schedule is applied to the local fields of `time` (an
    /// ignored field below a field fixed `Exactly` becomes zero, and `Every` steps move the
    /// time forward, carrying into the larger fields), the result is rebuilt (day clamped to
    /// the month; a field that a `Custom` function put outside its range gives `InvalidDate`,
    /// and a field fixed `Exactly` outside its range must not occur) and placed
    /// in the machine's time zone, and then each field that follows an `Exactly` field
    /// without being one itself adds one of its units while the result still lies before
    /// `time`. What the time zone answers is bounded as [`ScheduleCalendar::env_near`] says.
    pub fn next_after(&self, time: i64) -> (r: Result<i64, CalendarError>)
        requires
            !self.exact_out_of_range(),
        ensures
            exists|start: CalendarParts, customs: Seq<u32>, lookups: Seq<LocalLookup>, months: Seq<Option<i64>>|
                #![trigger self.next_after_with(time, start, customs, lookups, months)]
                {
                    &&& start.millisecond < 1000
                    &&& start.second < 60
                    &&& start.minute < 60
                    &&& start.hour < 24
                    &&& start.day0 < 31
                    &&& start.month0 < 12
                    &&& customs.len() == 7
                    &&& lookups.len() == 11
                    &&& months.len() == 7
                    &&& self.env_near(time, start, customs, lookups, months)
                    &&& r == self.next_after_with(time, start, customs, lookups, months)
                    &&& (!self.rolls_by_months() && self.placement_safe(start, customs) ==> r is Ok)
                },

    {
        let f = local_fields_at(time);
        let start = CalendarParts {
            millisecond: f.millisecond,
            second: f.second,
            minute: f.minute,
            hour: f.hour,
            day0: f.day0,
            month0: f.month0,
            year: f.year as u32,
        };
        let (applied, Ghost(customs)) = self.apply_fields(&start);
        let ghost no_lookups: Seq<LocalLookup> = Seq::new(11, |i: int| LocalLookup::Absent);
        let ghost no_months: Seq<Option<i64>> = Seq::new(7, |i: int| None);
        let d = match applied {
            Ok(d) => d,
            Err(e) => {
                assert(r_is(Err(e), self.next_after_with(time, start, customs, no_lookups, no_months)));
                return Err(e);
            },
        };
        let naive = match self.shift_naive(&d) {
            Ok(n) => n,
            Err(e) => {
                assert(r_is(Err(e), self.next_after_with(time, start, customs, no_lookups, no_months)));
                return Err(e);
            },
        };
        let (placed, Ghost(lookups)) = resolve_local(naive);
        let modified = match placed {
            Ok(m) => m,
            Err(e) => {
                proof {
                    if !self.rolls_by_months() && self.placement_safe(start, customs) {
                        self.lemma_placement_succeeds(time, start, customs, lookups, no_months);
                    }
                }
                assert(r_is(Err(e), self.next_after_with(time, start, customs, lookups, no_months)));
                return Err(e);
            },
        };
        let (r, Ghost(months)) = self.roll_forward(0, modified, time);
        proof {
            if !self.rolls_by_months() && self.placement_safe(start, customs) {
                self.lemma_placement_succeeds(time, start, customs, lookups, months);
            }
        }
        assert(r_is(r, self.next_after_with(time, start, customs, lookups, months)));
        r
    }
}

/// The decimal digit character of `d` (0 to 9).
pub open spec fn digit_char(d: nat) -> char {
    if d == 0 { '0' }
    else if d == 1 { '1' }
    else if d == 2 { '2' }
    else if d == 3 { '3' }
    else if d == 4 { '4' }
    else if d == 5 { '5' }
    else if d == 6 { '6' }
    else if d == 7 { '7' }
    else if d == 8 { '8' }
    else { '9' }
}

/// The decimal text of `n`, without leading zeros.
pub open spec fn decimal_text(n: nat) -> Seq<char>
    decreases n,
{
    if n < 10 {
        seq![digit_char(n)]
    } else {
        decimal_text(n / 10).push(digit_char(n % 10))
    }
}

/// The debug text of a field schedule: `CalendarFieldSchedule::` followed by the variant,
/// with its number in decimal, and `Custom(...)` for a custom function.
pub open spec fn field_debug_text<C>(f: CalendarFieldSchedule<C>) -> Seq<char> {
    let prefix = seq!['C', 'a', 'l', 'e', 'n', 'd', 'a', 'r', 'F', 'i', 'e', 'l', 'd', 'S', 'c', 'h', 'e', 'd', 'u', 'l', 'e', ':', ':'];
    match f {
        CalendarFieldSchedule::Ignore => prefix + seq!['I', 'g', 'n', 'o', 'r', 'e'],
        CalendarFieldSchedule::Every(d) => prefix + seq!['E', 'v', 'e', 'r', 'y', '('] + decimal_text(d as nat) + seq![')'],
        CalendarFieldSchedule::Exactly(v) => prefix + seq!['E', 'x', 'a', 'c', 't', 'l', 'y', '('] + decimal_text(v as nat) + seq![')'],
        CalendarFieldSchedule::Custom(_) => prefix + seq!['C', 'u', 's', 't', 'o', 'm', '(', '.', '.', '.', ')'],
    }
}

/// The one-character text of the digit `d`.
fn digit_str(d: u32) -> (r: &'static str)
    requires
        d < 10,
    ensures
        r@ == seq![digit_char(d as nat)],
{
    if d == 0 { proof { reveal_strlit("0"); } "0" }
    else if d == 1 { proof { reveal_strlit("1"); } "1" }
    else if d == 2 { proof { reveal_strlit("2"); } "2" }
    else if d == 3 { proof { reveal_strlit("3"); } "3" }
    else if d == 4 { proof { reveal_strlit("4"); } "4" }
    else if d == 5 { proof { reveal_strlit("5"); } "5" }
    else if d == 6 { proof { reveal_strlit("6"); } "6" }
    else if d == 7 { proof { reveal_strlit("7"); } "7" }
    else if d == 8 { proof { reveal_strlit("8"); } "8" }
    else { proof { reveal_strlit("9"); } "9" }
}

/// Appends the decimal text of `n` to `out`.
fn push_decimal(out: &mut String, n: u32)
    ensures
        final(out)@ == old(out)@ + decimal_text(n as nat),
    decreases n,
{
    if n >= 10 {
        push_decimal(out, n / 10);
    }
    out.append(digit_str(n % 10));
    proof {
        if n >= 10 {
            assert(old(out)@ + decimal_text(n as nat) =~= old(out)@ + decimal_text((n / 10) as nat) + seq![digit_char((n % 10) as nat)]);
        } else {
            assert(decimal_text(n as nat) == seq![digit_char(n as nat)]);
        }
    }
}

impl<C> CalendarFieldSchedule<C> {
    /// The debug text of the field schedule (see [`field_debug_text`]), for example
    /// `CalendarFieldSchedule::Every(5)`.
    pub fn to_debug_string(&self) -> (r: String)
        ensures
            r@ == field_debug_text(*self),
    {
        let mut out = String::from_str("CalendarFieldSchedule::");
        proof { reveal_strlit("CalendarFieldSchedule::"); }
        match self {
            CalendarFieldSchedule::Ignore => {
                out.append("Ignore");
                proof { reveal_strlit("Ignore"); }
            },
            CalendarFieldSchedule::Every(d) => {
                out.append("Every(");
                push_decimal(&mut out, *d);
                out.append(")");
                proof { reveal_strlit("Every("); reveal_strlit(")"); }
            },
            CalendarFieldSchedule::Exactly(v) => {
                out.append("Exactly(");
                push_decimal(&mut out, *v);
                out.append(")");
                proof { reveal_strlit("Exactly("); reveal_strlit(")"); }
            },
            CalendarFieldSchedule::Custom(_) => {
                out.append("Custom(...)");
                proof { reveal_strlit("Custom(...)"); }
            },
        }
        assert(out@ =~= field_debug_text(*self));
        out
    }
}

impl<C> Default for CalendarFieldSchedule<C> {
    /// `Ignore`.
    fn default() -> (r: Self)
        ensures
            r is Ignore,
    {
        CalendarFieldSchedule::Ignore
    }
}

impl<C> ScheduleCalendar<C> {
    /// A calendar schedule that ignores every field.
    pub fn new() -> (r: Self)
        ensures
            r.year is Ignore,
            r.month is Ignore,
            r.day is Ignore,
            r.hour is Ignore,
            r.minute is Ignore,
            r.second is Ignore,
            r.millisecond is Ignore,
    {
        ScheduleCalendar {
            year: CalendarFieldSchedule::Ignore,
            month: CalendarFieldSchedule::Ignore,
            day: CalendarFieldSchedule::Ignore,
            hour: CalendarFieldSchedule::Ignore,
            minute: CalendarFieldSchedule::Ignore,
            second: CalendarFieldSchedule::Ignore,
            millisecond: CalendarFieldSchedule::Ignore,
        }
    }

    /// The same schedule with the year field scheduled by `f`.
    pub fn year(self, f: CalendarFieldSchedule<C>) -> (r: Self)
        ensures
            r == (ScheduleCalendar { year: f, ..self }),
    {
        ScheduleCalendar { year: f, ..self }
    }

    /// The same schedule with the month field scheduled by `f`.
    pub fn month(self, f: CalendarFieldSchedule<C>) -> (r: Self)
        ensures
            r == (ScheduleCalendar { month: f, ..self }),
    {
        ScheduleCalendar { month: f, ..self }
    }

    /// The same schedule with the day field scheduled by `f`.
    pub fn day(self, f: CalendarFieldSchedule<C>) -> (r: Self)
        ensures
            r == (ScheduleCalendar { day: f, ..self }),
    {
        ScheduleCalendar { day: f, ..self }
    }

    /// The same schedule with the hour field scheduled by `f`.
    pub fn hour(self, f: CalendarFieldSchedule<C>) -> (r: Self)
        ensures
            r == (ScheduleCalendar { hour: f, ..self }),
    {
        ScheduleCalendar { hour: f, ..self }
    }

    /// The same schedule with the minute field scheduled by `f`.
    pub fn minute(self, f: CalendarFieldSchedule<C>) -> (r: Self)
        ensures
            r == (ScheduleCalendar { minute: f, ..self }),
    {
        ScheduleCalendar { minute: f, ..self }
    }

    /// The same schedule with the second field scheduled by `f`.
    pub fn second(self, f: CalendarFieldSchedule<C>) -> (r: Self)
        ensures
            r == (ScheduleCalendar { second: f, ..self }),
    {
        ScheduleCalendar { second: f, ..self }
    }

    /// The same schedule with the millisecond field scheduled by `f`.
    pub fn millisecond(self, f: CalendarFieldSchedule<C>) -> (r: Self)
        ensures
            r == (ScheduleCalendar { millisecond: f, ..self }),
    {
        ScheduleCalendar { millisecond: f, ..self }
    }
}

impl<C> CalendarFieldSchedule<C> {
    /// Whether the field is fixed to an exact value.
    pub fn is_exactly_exec(&self) -> (r: bool)
        ensures
            r == self.is_exactly(),
    {
        match self {
            CalendarFieldSchedule::Exactly(_) => true,
            _ => false,
        }
    }
}

/// Equality of two results, as a named predicate (a trigger for the existential of
/// [`ScheduleCalendar::next_after`]).
pub open spec fn r_is(a: Result<i64, CalendarError>, b: Result<i64, CalendarError>) -> bool {
    a == b
}

} // verus!
