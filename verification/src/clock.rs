use vstd::prelude::*;

verus! {

/// Nanoseconds in one second.
pub const NANOS_PER_SECOND: u32 = 1_000_000_000;

/// What the system clock does when asked to idle until an instant.
#[derive(Clone, Copy, Debug, PartialEq, Eq, Structural)]
pub enum IdlePlan {
    /// Sleep this many nanoseconds (the target lies in the future).
    Sleep(u64),
    /// The target is now or in the past: return at once, without idling.
    Skip,
}

/// The clock that follows the machine's time: it cannot be advanced by hand.
pub struct SystemClock;

impl SystemClock {
    /// Decides how to idle from `now` until `to` (both in nanoseconds since the epoch): sleep
    /// until a future target, and do not idle for a present or past one.
    pub fn idle_plan(now: i64, to: i64) -> (r: IdlePlan)
        ensures
            to > now ==> r == IdlePlan::Sleep((to - now) as u64),
            to <= now ==> r == IdlePlan::Skip,
    {
        if to > now {
            let wait = (to as i128) - (now as i128);
            IdlePlan::Sleep(wait as u64)
        } else {
            IdlePlan::Skip
        }
    }
}

/// A simulated clock that only moves when advanced: it holds milliseconds since the epoch.
pub struct VirtualClock {
    current_time: u64,
}

/// `a + b` on `u64`, wrapping past `u64::MAX`.
pub open spec fn wrapping_add_u64(a: u64, b: u64) -> u64 {
    if a + b > u64::MAX { (a + b - u64::MAX - 1) as u64 } else { (a + b) as u64 }
}

impl View for VirtualClock {
    type V = u64;

    /// The current time, in milliseconds since the epoch.
    closed spec fn view(&self) -> u64 {
        self.current_time
    }
}

impl VirtualClock {
    /// A clock that starts `initial_millis` milliseconds after the epoch.
    pub fn new(initial_millis: u64) -> (r: Self)
        ensures
            r@ == initial_millis,
    {
        VirtualClock { current_time: initial_millis }
    }

    /// A clock that starts at the epoch.
    pub fn from_epoch() -> (r: Self)
        ensures
            r@ == 0,
    {
        VirtualClock::new(0)
    }

    /// The current time, in milliseconds since the epoch.
    pub fn now(&self) -> (r: u64)
        ensures
            r == self@,
    {
        self.current_time
    }

    /// Moves the clock forward by `millis` milliseconds (wrapping past `u64::MAX`, as the
    /// atomic counter behind the clock does).
    pub fn advance(&mut self, millis: u64)
        ensures
            final(self)@ == wrapping_add_u64(old(self)@, millis),
    {
        self.current_time = self.current_time.wrapping_add(millis);
    }

    /// Moves the clock to `to_millis` milliseconds after the epoch.
    pub fn advance_to(&mut self, to_millis: u64)
        ensures
            final(self)@ == to_millis,
    {
        self.current_time = to_millis;
    }

    /// Whether idling until `to_millis` is over: the clock has reached that time.
    pub fn has_reached(&self, to_millis: u64) -> (r: bool)
        ensures
            r == (self@ >= to_millis),
    {
        self.current_time >= to_millis
    }
}

/// The signed nanosecond count that an offset from the epoch denotes: `nanos` past
/// `secs` seconds, after the epoch or before it.
pub open spec fn offset_nanos(after_epoch: bool, secs: u64, nanos: u32) -> int {
    if after_epoch { secs * 1_000_000_000 + nanos } else { -(secs * 1_000_000_000 + nanos) }
}

/// Splits an offset from the epoch (as `SystemTime::duration_since` reports it: after or
/// before the epoch, whole seconds and sub-second nanoseconds) into a timestamp of signed
/// seconds and non-negative sub-second nanoseconds. `None` when the seconds do not fit in
/// `i64`.
pub fn timestamp_parts(after_epoch: bool, secs: u64, nanos: u32) -> (r: Option<(i64, u32)>)
    requires
        nanos < NANOS_PER_SECOND,
    ensures
        secs <= i64::MAX <==> r is Some,
        r matches Some((s, n)) ==> n < NANOS_PER_SECOND && s * 1_000_000_000 + n == offset_nanos(after_epoch, secs, nanos),
{
    if secs > (i64::MAX as u64) {
        return None;
    }
    let s = secs as i64;
    if after_epoch {
        Some((s, nanos))
    } else if nanos == 0 {
        Some((-s, 0))
    } else {
        Some((-s - 1, NANOS_PER_SECOND - nanos))
    }
}

/// Splits a timestamp in nanoseconds since the epoch into a direction (after the epoch or
/// not) and a magnitude, to be added to or subtracted from the epoch.
pub fn epoch_offset(timestamp: i64) -> (r: (bool, u64))
    requires
        timestamp > i64::MIN,
    ensures
        r.0 == (timestamp >= 0),
        r.0 ==> r.1 == timestamp,
        !r.0 ==> r.1 == -timestamp,
{
    if timestamp >= 0 {
        (true, timestamp as u64)
    } else {
        (false, (-timestamp) as u64)
    }
}

/// A timestamp split into direction and magnitude comes back whole from the split into
/// seconds and nanoseconds.
pub proof fn law_epoch_offset_round_trip(timestamp: i64)
    requires
        timestamp > i64::MIN,
    ensures
        ({
            let mag: int = if timestamp >= 0 { timestamp as int } else { -timestamp };
            let secs = mag / 1_000_000_000;
            let nanos = mag % 1_000_000_000;
            offset_nanos(timestamp >= 0, secs as u64, nanos as u32) == timestamp
        }),
{
    let mag: int = if timestamp >= 0 { timestamp as int } else { -timestamp };
    assert(mag == (mag / 1_000_000_000) * 1_000_000_000 + mag % 1_000_000_000) by (nonlinear_arith);
}

} // verus!
