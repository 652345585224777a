use chrono::{Local, TimeZone};
use vstd::prelude::*;
use vstd::std_specs::convert::FromSpecImpl;

verus! {

/// Nanoseconds in one second, as a signed count.
pub const NANOS_PER_SECOND_I64: i64 = 1_000_000_000;

/// A schedule that fires at a fixed interval after the time it starts from.
#[derive(Clone, Copy, Debug, PartialEq, Eq, Structural, PartialOrd, Ord)]
pub struct TaskScheduleInterval {
    /// The interval, in nanoseconds (negative intervals are allowed, as with a time delta).
    pub nanos: i64,
}

impl TaskScheduleInterval {
    /// An interval of `nanos` nanoseconds.
    pub fn from_nanos(nanos: i64) -> (r: Self)
        ensures
            r.nanos == nanos,
    {
        TaskScheduleInterval { nanos }
    }

    /// An interval of `interval` seconds.
    pub fn from_secs(interval: u32) -> (r: Self)
        ensures
            r.nanos == interval * 1_000_000_000,
    {
        TaskScheduleInterval { nanos: (interval as i64) * NANOS_PER_SECOND_I64 }
    }

    /// The next time after `time` (nanoseconds since the epoch): `time` plus the interval, or
    /// `None` when that instant does not fit in `i64` nanoseconds.
    pub fn next_after(&self, time: i64) -> (r: Option<i64>)
        ensures
            i64::MIN <= time + self.nanos <= i64::MAX ==> r == Some((time + self.nanos) as i64),
            !(i64::MIN <= time + self.nanos <= i64::MAX) ==> r is None,
    {
        time.checked_add(self.nanos)
    }
}

impl Default for TaskScheduleInterval {
    /// An interval of zero.
    fn default() -> (r: Self)
        ensures
            r.nanos == 0,
    {
        TaskScheduleInterval { nanos: 0 }
    }
}

impl From<u32> for TaskScheduleInterval {
    /// An interval of `value` seconds.
    fn from(value: u32) -> (r: Self) {
        TaskScheduleInterval::from_secs(value)
    }
}

impl FromSpecImpl<u32> for TaskScheduleInterval {
    open spec fn obeys_from_spec() -> bool {
        true
    }

    open spec fn from_spec(v: u32) -> Self {
        TaskScheduleInterval { nanos: (v * 1_000_000_000) as i64 }
    }
}

impl From<u16> for TaskScheduleInterval {
    /// An interval of `value` seconds.
    fn from(value: u16) -> (r: Self) {
        TaskScheduleInterval::from_secs(value as u32)
    }
}

impl FromSpecImpl<u16> for TaskScheduleInterval {
    open spec fn obeys_from_spec() -> bool {
        true
    }

    open spec fn from_spec(v: u16) -> Self {
        TaskScheduleInterval { nanos: (v * 1_000_000_000) as i64 }
    }
}

impl From<u8> for TaskScheduleInterval {
    /// An interval of `value` seconds.
    fn from(value: u8) -> (r: Self) {
        TaskScheduleInterval::from_secs(value as u32)
    }
}

impl FromSpecImpl<u8> for TaskScheduleInterval {
    open spec fn obeys_from_spec() -> bool {
        true
    }

    open spec fn from_spec(v: u8) -> Self {
        TaskScheduleInterval { nanos: (v * 1_000_000_000) as i64 }
    }
}

/// A schedule that fires at once: the next time is the time it starts from.
#[derive(Clone, Copy, Debug, PartialEq, Eq, Structural)]
pub struct TaskScheduleImmediate;

impl TaskScheduleImmediate {
    /// The next time after `time`: `time` itself.
    pub fn next_after(&self, time: i64) -> (r: i64)
        ensures
            r == time,
    {
        time
    }
}

/// Why a cron schedule could not compute its next time: the expression does not parse, or
/// no occurrence follows (or it does not fit in `i64` nanoseconds).
#[derive(Clone, Copy, Debug, PartialEq, Eq, Structural)]
pub struct CronScheduleError;

/// A schedule given by a five-field cron expression, read in the machine's time zone.
pub struct TaskScheduleCron {
    expression: String,
}

impl View for TaskScheduleCron {
    type V = Seq<char>;

    /// The cron expression.
    closed spec fn view(&self) -> Seq<char> {
        self.expression@
    }
}

/// Whether `cron_parser` parses the cron expression (its `Schedule::parse` succeeds); this
/// depends on the expression alone.
pub uninterp spec fn cron_expression_parses(expression: Seq<char>) -> bool;

/// Calls `cron_parser::parse(expression, after)` with `after` read in the machine's time
/// zone (`chrono::Local`), and reads the occurrence found back as nanoseconds since the
/// epoch. Claimed from cron_parser's source: `parse` first parses the expression (whether
/// it parses is named [`cron_expression_parses`]) and fails when it does not; an occurrence
/// it finds lies strictly after `after`. Which occurrence comes back depends on the time
/// zone, which is left unsaid.
#[verifier::external_body]
fn cron_next_after(expression: &str, after: i64) -> (r: Option<i64>)
    ensures
        r matches Some(t) ==> t > after,
        !cron_expression_parses(expression@) ==> r is None,
{
    let next = cron_parser::parse(expression, &Local.timestamp_nanos(after)).ok()?;
    next.timestamp_nanos_opt()
}

impl TaskScheduleCron {
    /// A schedule for the cron expression `cron`, parsed when the next time is asked for.
    pub fn new(cron: String) -> (r: Self)
        ensures
            r@ == cron@,
    {
        TaskScheduleCron { expression: cron }
    }

    /// The cron expression.
    pub fn expression(&self) -> (r: &str)
        ensures
            r@ == self@,
    {
        self.expression.as_str()
    }

    /// The first occurrence of the expression strictly after `time` (nanoseconds since the
    /// epoch), or an error when the expression does not parse or has no such occurrence.
    pub fn next_after(&self, time: i64) -> (r: Result<i64, CronScheduleError>)
        ensures
            r matches Ok(t) ==> t > time,
            !cron_expression_parses(self@) ==> r is Err,
    {
        match cron_next_after(self.expression.as_str(), time) {
            Some(t) => Ok(t),
            None => Err(CronScheduleError),
        }
    }
}

} // verus!
