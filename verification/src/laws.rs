use crate::calendar::{
    field_result, rebuilt_naive, unit_nanos, CalendarError, CalendarFieldSchedule, CalendarParts, CustomFieldFn,
    ScheduleCalendar,
};
use crate::local_time::{civil_nanos, days_from_civil, lookup_near, LocalLookup, NANOS_PER_DAY, NANOS_PER_MINUTE};
use crate::calendar::{chosen_instant, gap_search, lookups_near, start_near};
use crate::clock::{offset_nanos, wrapping_add_u64};
use crate::dependency::{logical_value, wrapping_succ, LogicalDependency, TaskDependencyCounter};
use crate::frames::{all_resolved, policy_outcome, policy_verdict, DependencyState, ParallelTaskPolicy, SequentialTaskPolicy};
use crate::priority::TaskPriority;
use crate::scheduling::{due_action, due_state, DueAction};
use crate::store::{insert_pos, next_index, sorted_by_time, ScheduledEntry, StoreView};
use vstd::prelude::*;

verus! {

/// Storing a task registers it under the index the store hands out.
pub proof fn law_store_registers<T>(v: StoreView<T>, task: T, time: i64)
    ensures
        v.stored(task, time).registered.contains(v.next_id),
        v.stored(task, time).registered == v.registered.insert(v.next_id),
{
}

/// Storing a task queues exactly one more run: the task's, under its new index, at the
/// time given.
pub proof fn law_store_queues_run<T>(v: StoreView<T>, task: T, time: i64)
    requires
        sorted_by_time(v.queue),
    ensures
        v.stored(task, time).queue.len() == v.queue.len() + 1,
        v.stored(task, time).queue.contains(ScheduledEntry { task, time, idx: v.next_id }),
{
    lemma_insert_pos_bound(v.queue, time);
    let p = insert_pos(v.queue, time) as int;
    assert(v.stored(task, time).queue[p] == ScheduledEntry { task, time, idx: v.next_id });
}

/// The insertion point lies within the queue.
pub proof fn lemma_insert_pos_bound<T>(q: Seq<ScheduledEntry<T>>, time: i64)
    ensures
        insert_pos(q, time) <= q.len(),
    decreases q.len(),
{
    if q.len() > 0 && q[0].time <= time {
        lemma_insert_pos_bound(q.drop_first(), time);
    }
}

/// While every registered index lies below the next one to hand out, and the counter has
/// not reached its end, a stored task gets an index no other task holds, and the property
/// carries over.
pub proof fn law_store_index_is_fresh<T>(v: StoreView<T>, task: T, time: i64)
    requires
        forall|i: usize| v.registered.contains(i) ==> i < v.next_id,
        v.next_id < usize::MAX,
    ensures
        !v.registered.contains(v.next_id),
        forall|i: usize| v.stored(task, time).registered.contains(i) ==> i < v.stored(task, time).next_id,
{
}

/// A removed task is no longer registered, and the pending runs stay as they were.
pub proof fn law_remove_unregisters<T>(v: StoreView<T>, idx: usize)
    ensures
        !v.removed(idx).registered.contains(idx),
        v.removed(idx).queue == v.queue,
        forall|i: usize| i != idx ==> (v.removed(idx).registered.contains(i) == v.registered.contains(i)),
{
}

/// Clearing leaves nothing queued and nothing registered.
pub proof fn law_clear_empties<T>(v: StoreView<T>)
    ensures
        v.cleared().queue.len() == 0,
        forall|i: usize| !v.cleared().registered.contains(i),
{
}

/// On an empty store, the run of a stored task is the earliest one, and popping it leaves
/// the queue empty again.
pub proof fn law_store_then_pop_on_empty<T>(v: StoreView<T>, task: T, time: i64)
    requires
        v.queue.len() == 0,
    ensures
        v.stored(task, time).queue[0] == (ScheduledEntry { task, time, idx: v.next_id }),
        v.stored(task, time).popped().queue.len() == 0,
{
}

/// A task stored in an empty store is dispatched when its run comes due, and nothing is
/// left queued after it.
pub proof fn law_stored_task_is_dispatched<T>(v: StoreView<T>, task: T, time: i64)
    requires
        v.queue.len() == 0,
    ensures
        due_action(v.stored(task, time)) == Some(DueAction::Dispatch(v.next_id)),
        due_state(v.stored(task, time)).queue.len() == 0,
{
}

/// Once the task under `idx` is cancelled, a run of it that comes due is skipped, not
/// dispatched, and still leaves the queue.
pub proof fn law_cancelled_task_is_skipped<T>(v: StoreView<T>, idx: usize)
    requires
        v.queue.len() > 0,
        v.queue[0].idx == idx,
    ensures
        due_action(v.removed(idx)) == Some(DueAction::Skip(idx)),
        due_state(v.removed(idx)).queue == v.queue.drop_first(),
{
}

/// Advancing by `a` and then by `b` milliseconds moves a virtual clock as far as advancing
/// by `a + b` at once, when no wrap-around occurs.
pub proof fn law_advance_adds_up(start: u64, a: u64, b: u64)
    requires
        start + a + b <= u64::MAX,
    ensures
        wrapping_add_u64(wrapping_add_u64(start, a), b) == wrapping_add_u64(start, (a + b) as u64),
{
}

/// Under `RunUntilFailure`, a sequence of child results ends in the first error, or in
/// success when every child succeeded.
pub proof fn law_run_until_failure<E>(results: Seq<Result<(), E>>)
    ensures
        (forall|i: int| 0 <= i < results.len() ==> results[i] is Ok) ==> policy_outcome(false, true, results) == Ok::<(), E>(()),
        forall|k: int|
            0 <= k < results.len() && results[k] is Err && (forall|i: int| 0 <= i < k ==> results[i] is Ok)
                ==> policy_outcome(false, true, results) == results[k],
    decreases results.len(),
{
    if results.len() > 0 {
        law_run_until_failure(results.drop_first());
        assert forall|k: int|
            0 <= k < results.len() && results[k] is Err && (forall|i: int| 0 <= i < k ==> results[i] is Ok)
                implies policy_outcome(false, true, results) == results[k] by {
            if k > 0 {
                assert(results[0] is Ok);
                assert(results.drop_first()[k - 1] == results[k]);
                assert forall|i: int| 0 <= i < k - 1 implies results.drop_first()[i] is Ok by {
                    assert(results.drop_first()[i] == results[i + 1]);
                }
            }
        }
        if forall|i: int| 0 <= i < results.len() ==> results[i] is Ok {
            assert forall|i: int| 0 <= i < results.drop_first().len() implies results.drop_first()[i] is Ok by {
                assert(results.drop_first()[i] == results[i + 1]);
            }
        }
    }
}

/// Under `RunUntilSuccess` or `RunSilenceFailures`, a frame of children always succeeds.
pub proof fn law_policies_without_failure_stop_succeed<E>(stop_on_success: bool, results: Seq<Result<(), E>>)
    ensures
        policy_outcome(stop_on_success, false, results) == Ok::<(), E>(()),
    decreases results.len(),
{
    if results.len() > 0 {
        law_policies_without_failure_stop_succeed(stop_on_success, results.drop_first());
    }
}

/// The count a task dependency's counter reaches from `start` after the watched task's runs,
/// `counts[i]` saying whether the resolve behaviour counted run `i`.
pub open spec fn counter_after(start: u64, counts: Seq<bool>) -> u64
    decreases counts.len(),
{
    if counts.len() == 0 {
        start
    } else {
        let next = if counts.last() { wrapping_succ(counter_after(start, counts.drop_last())) } else { counter_after(start, counts.drop_last()) };
        next
    }
}

/// The number of runs the resolve behaviour counted.
pub open spec fn counted_runs(counts: Seq<bool>) -> nat
    decreases counts.len(),
{
    if counts.len() == 0 {
        0
    } else {
        counted_runs(counts.drop_last()) + if counts.last() { 1nat } else { 0nat }
    }
}

/// From a fresh counter, only the runs that the resolve behaviour counts move a task
/// dependency toward resolution: after any sequence of runs (fewer than `u64::MAX`), the
/// counter holds the number of counted runs, so the dependency is resolved exactly when at
/// least `minimum_runs` runs counted.
pub proof fn law_task_dependency_counts_runs(counts: Seq<bool>, minimum_runs: u64)
    requires
        counts.len() < u64::MAX,
    ensures
        counter_after(0, counts) == counted_runs(counts),
        (counter_after(0, counts) >= minimum_runs) == (counted_runs(counts) >= minimum_runs),
    decreases counts.len(),
{
    if counts.len() > 0 {
        law_task_dependency_counts_runs(counts.drop_last(), minimum_runs);
        lemma_counted_runs_bound(counts.drop_last());
    }
}

/// No more runs count than there are runs.
pub proof fn lemma_counted_runs_bound(counts: Seq<bool>)
    ensures
        counted_runs(counts) <= counts.len(),
    decreases counts.len(),
{
    if counts.len() > 0 {
        lemma_counted_runs_bound(counts.drop_last());
    }
}

/// A system time split into seconds and nanoseconds (as `timestamp_parts` does), then read
/// back as a signed nanosecond count and split by direction and magnitude (as
/// `epoch_offset` does), denotes the same offset from the epoch it started from.
pub proof fn law_time_round_trip(after_epoch: bool, secs: u64, nanos: u32, s: i64, n: u32)
    requires
        secs <= i64::MAX,
        nanos < 1_000_000_000,
        n < 1_000_000_000,
        s * 1_000_000_000 + n == offset_nanos(after_epoch, secs, nanos),
    ensures
        ({
            let ts: int = s * 1_000_000_000 + n;
            let mag: int = if ts >= 0 { ts } else { -ts };
            offset_nanos(ts >= 0, (mag / 1_000_000_000) as u64, (mag % 1_000_000_000) as u32)
                == offset_nanos(after_epoch, secs, nanos)
        }),
{
    let ts: int = s * 1_000_000_000 + n;
    let mag: int = if ts >= 0 { ts } else { -ts };
    assert(mag == (mag / 1_000_000_000) * 1_000_000_000 + mag % 1_000_000_000) by (nonlinear_arith);
    assert(mag <= secs * 1_000_000_000 + nanos);
    assert(mag / 1_000_000_000 <= secs + 1) by (nonlinear_arith)
        requires
            0 <= mag <= secs * 1_000_000_000 + nanos,
            nanos < 1_000_000_000,
    ;
}

/// A logical dependency reads its operands as the boolean operator it names; two
/// negations cancel out.
pub proof fn law_logical_operators<D>(a: D, b: D, x: bool, y: bool)
    ensures
        logical_value(LogicalDependency::AND { dep1: a, dep2: b, is_enabled: true }, x, y) == (x && y),
        logical_value(LogicalDependency::OR { dep1: a, dep2: b, is_enabled: true }, x, y) == (x || y),
        logical_value(LogicalDependency::XOR { dep1: a, dep2: b, is_enabled: true }, x, y) == (x != y),
        logical_value(LogicalDependency::NOT(a, true), x, y) == !x,
        logical_value(LogicalDependency::NOT(a, true), logical_value(LogicalDependency::NOT(b, true), x, y), y) == x,
{
}

/// A calendar whose every field is ignored keeps every field of the starting time.
pub proof fn law_calendar_ignore_keeps_fields<C: CustomFieldFn>(cal: ScheduleCalendar<C>, d: CalendarParts, customs: Seq<u32>)
    requires
        forall|i: int| 0 <= i < 7 ==> cal.field_at(i) is Ignore,
    ensures
        cal.applied(d, customs) == Ok::<CalendarParts, CalendarError>(d),
{
    assert(cal.field_at(0) is Ignore);
    assert(cal.field_at(1) is Ignore);
    assert(cal.field_at(2) is Ignore);
    assert(cal.field_at(3) is Ignore);
    assert(cal.field_at(4) is Ignore);
    assert(cal.field_at(5) is Ignore);
    assert(cal.field_at(6) is Ignore);
}

/// A field fixed `Exactly` takes its value whatever the starting time holds, an ignored
/// field below a field fixed `Exactly` is zero, and one with no such field above keeps its
/// value.
pub proof fn law_calendar_exactly_sets<C>(v: u32, cur: u32, zeroed: bool, custom: u32)
    ensures
        field_result(CalendarFieldSchedule::<C>::Exactly(v), cur, zeroed, custom) == v,
        field_result(CalendarFieldSchedule::<C>::Ignore, cur, true, custom) == 0,
        field_result(CalendarFieldSchedule::<C>::Ignore, cur, false, custom) == cur,
{
}

/// An `Every` step on the second field moves the time forward by that many seconds,
/// carrying into the minute and beyond: the fields keep their value and the naive instant
/// is shifted by the step.
pub proof fn law_calendar_every_second_carries<C: CustomFieldFn>(cal: ScheduleCalendar<C>, d: CalendarParts, customs: Seq<u32>, step: u32)
    requires
        cal.second == CalendarFieldSchedule::<C>::Every(step),
        forall|i: int| 0 <= i < 7 && i != 1 ==> cal.field_at(i) is Ignore,
    ensures
        cal.applied(d, customs) == Ok::<CalendarParts, CalendarError>(d),
        cal.time_shift() == step * 1_000_000_000,
        cal.shifted_naive(d) == match rebuilt_naive(d) {
            Err(e) => Err(e),
            Ok(n) => if n + step * 1_000_000_000 <= i64::MAX {
                Ok((n + step * 1_000_000_000) as i64)
            } else {
                Err(CalendarError::OutOfRange)
            },
        },
{
    assert(cal.field_at(0) is Ignore);
    assert(cal.field_at(2) is Ignore);
    assert(cal.field_at(3) is Ignore);
    assert(cal.field_at(4) is Ignore);
    assert(cal.field_at(5) is Ignore);
    assert(cal.field_at(6) is Ignore);
}

/// The dispatcher ranks priorities from `CRITICAL` (served first) to `LOW`, and no two
/// levels share a rank, so no two share a pool number.
pub proof fn law_priority_order(a: TaskPriority, b: TaskPriority)
    ensures
        a != b ==> a.rank() != b.rank(),
        TaskPriority::CRITICAL.rank() < TaskPriority::IMPORTANT.rank(),
        TaskPriority::IMPORTANT.rank() < TaskPriority::HIGH.rank(),
        TaskPriority::HIGH.rank() < TaskPriority::MODERATE.rank(),
        TaskPriority::MODERATE.rank() < TaskPriority::LOW.rank(),
{
}

/// The index counter wraps back to zero only after its last value.
pub proof fn law_next_index(id: usize)
    ensures
        id < usize::MAX ==> next_index(id) == id + 1,
        id == usize::MAX ==> next_index(id) == 0,
{
}

/// Nanoseconds in one unit of field `i`: 0 millisecond, 1 second, 2 minute, 3 hour, 4 day.
pub open spec fn field_unit(i: int) -> int {
    if i == 0 { 1_000_000 } else { unit_nanos(i) }
}

/// The value fixed by an `Exactly` schedule, and 0 for any other schedule.
pub open spec fn exact_value<C>(f: CalendarFieldSchedule<C>) -> int {
    match f {
        CalendarFieldSchedule::Exactly(v) => v as int,
        _ => 0,
    }
}

/// The part of a day, in nanoseconds, that the `k` finest fields fixed `Exactly` denote.
pub open spec fn fine_value<C: CustomFieldFn>(cal: ScheduleCalendar<C>, k: int) -> int
    decreases k,
{
    if k <= 0 {
        0
    } else {
        fine_value(cal, k - 1) + exact_value(cal.field_at(k - 1)) * field_unit(k - 1)
    }
}

/// A calendar that fixes its `k` finest fields (millisecond, then second, minute, hour; each
/// within its range) and ignores the others fires at the earliest instant not before `time`
/// whose local fields carry those values, when the time zone keeps one offset `offset`
/// around `time`: the starting fields are those of `time + offset`, the wall-clock time
/// rebuilt from the fields is the nanosecond count `naive` that [`rebuild_naive`] gives, and
/// the zone places it at `naive - offset`. The result lies in `[time, time + unit)`, `unit`
/// being one unit of field `k`, and its local time leaves the fixed remainder modulo that
/// unit; only one instant of that span does.
pub proof fn law_calendar_fires_at_earliest_match<C: CustomFieldFn>(
    cal: ScheduleCalendar<C>,
    k: int,
    time: i64,
    offset: int,
    start: CalendarParts,
    customs: Seq<u32>,
    naive: i64,
    months: Seq<Option<i64>>,
    r: i64,
)
    requires
        1 <= k <= 4,
        forall|i: int| 0 <= i < k ==> cal.field_at(i) is Exactly,
        forall|i: int| k <= i < 7 ==> cal.field_at(i) is Ignore,
        exact_value(cal.millisecond) < 1000,
        exact_value(cal.second) < 60,
        exact_value(cal.minute) < 60,
        exact_value(cal.hour) < 24,
        start.millisecond < 1000,
        start.second < 60,
        start.minute < 60,
        start.hour < 24,
        customs.len() == 7,
        civil_nanos(start.year as i32 as int, start.month0 + 1, start.day0 + 1, start.hour as int, start.minute as int,
            start.second as int, start.millisecond as int) == (time + offset) - (time + offset) % 1_000_000,
        cal.applied(start, customs) matches Ok(d) && rebuilt_naive(d) == Ok::<i64, CalendarError>(naive)
            && naive == civil_nanos(d.year as i32 as int, d.month0 + 1, d.day0 + 1, d.hour as int, d.minute as int,
            d.second as int, d.millisecond as int),
        cal.next_after_with(
            time,
            start,
            customs,
            Seq::new(11, |i: int| LocalLookup::Single(Some((naive - offset) as i64))),
            months,
        ) == Ok::<i64, CalendarError>(r),
        i64::MIN <= naive - offset <= i64::MAX,
    ensures
        time <= r < time + unit_nanos(k),
        (r + offset - fine_value(cal, k)) % unit_nanos(k) == 0,
{
    reveal_with_fuel(ScheduleCalendar::exact_above, 8);
    reveal_with_fuel(ScheduleCalendar::rolled, 8);
    reveal_with_fuel(fine_value, 5);
    let d = cal.applied(start, customs)->Ok_0;
    let big_l = time + offset;
    let e = big_l % 1_000_000;
    let m = (naive - offset) as i64;
    let unit = unit_nanos(k);
    let v = fine_value(cal, k);
    let days = crate::local_time::days_from_civil(start.year as i32 as int, start.month0 + 1, start.day0 + 1);
    assert(cal.time_shift() == 0);
    assert(cal.shifted_naive(d) == Ok::<i64, CalendarError>(naive));
    assert(d.day0 == start.day0 && d.month0 == start.month0 && d.year == start.year);
    // The whole units of field `k` in the starting fields, and the finer part.
    let (x, f): (int, int) = if k == 1 {
        (days * 86_400 + start.hour * 3_600 + start.minute * 60 + start.second, start.millisecond * 1_000_000)
    } else if k == 2 {
        (days * 1_440 + start.hour * 60 + start.minute, start.second * 1_000_000_000 + start.millisecond * 1_000_000)
    } else if k == 3 {
        (days * 24 + start.hour as int,
            start.minute * 60_000_000_000 + start.second * 1_000_000_000 + start.millisecond * 1_000_000)
    } else {
        (days,
            start.hour * 3_600_000_000_000 + start.minute * 60_000_000_000 + start.second * 1_000_000_000
                + start.millisecond * 1_000_000)
    };
    assert(0 <= f < unit - 1_000_000 + 1);
    assert(0 <= v < unit);
    assert(big_l - e == x * unit + f);
    assert(naive == x * unit + v);
    assert(0 <= e < 1_000_000);
    assert(m == time - (f + e) + v);
    if m < time {
        assert(cal.rolls(k, m, time));
        assert(r == m + unit);
        vstd::arithmetic::div_mod::lemma_mod_multiples_basic(x + 1, unit);
        assert(r + offset - v == (x + 1) * unit);
    } else {
        assert(!cal.rolls(k, m, time));
        assert(r == m);
        vstd::arithmetic::div_mod::lemma_mod_multiples_basic(x, unit);
        assert(r + offset - v == x * unit);
    }
}

/// One operation on a task store, for stating what a sequence of them does.
pub enum StoreOp<T> {
    Store(T, i64),
    Reschedule(T, i64, usize),
    Pop,
    Remove(usize),
    Clear,
}

/// The state after one operation.
pub open spec fn after_op<T>(v: StoreView<T>, op: StoreOp<T>) -> StoreView<T> {
    match op {
        StoreOp::Store(task, time) => v.stored(task, time),
        StoreOp::Reschedule(task, time, idx) => v.scheduled(task, time, idx),
        StoreOp::Pop => v.popped(),
        StoreOp::Remove(idx) => v.removed(idx),
        StoreOp::Clear => v.cleared(),
    }
}

/// The state after a sequence of operations, and the indices the `Store` operations
/// returned, in order.
pub open spec fn run_ops<T>(v: StoreView<T>, ops: Seq<StoreOp<T>>) -> (StoreView<T>, Seq<usize>)
    decreases ops.len(),
{
    if ops.len() == 0 {
        (v, Seq::empty())
    } else {
        let (w, idxs) = run_ops(v, ops.drop_last());
        let op = ops.last();
        (after_op(w, op), if op is Store { idxs.push(w.next_id) } else { idxs })
    }
}

/// Every index a store hands out differs from every index it handed out before, whatever
/// happened in between (removals, clears and pops included), until the counter wraps: the
/// indices increase from the counter's start, and the counter ends just past the last one.
/// When every registered index lies below the counter at the start, none of them is handed
/// out again either.
pub proof fn law_store_indices_are_fresh<T>(v: StoreView<T>, ops: Seq<StoreOp<T>>)
    requires
        v.next_id + ops.len() <= usize::MAX,
    ensures
        ({
            let (w, idxs) = run_ops(v, ops);
            &&& forall|i: int, j: int| 0 <= i < j < idxs.len() ==> idxs[i] < idxs[j]
            &&& forall|i: int| 0 <= i < idxs.len() ==> v.next_id <= #[trigger] idxs[i] < w.next_id
            &&& w.next_id == v.next_id + idxs.len()
            &&& idxs.len() <= ops.len()
            &&& (forall|i: usize| v.registered.contains(i) ==> i < v.next_id)
                ==> forall|i: int| 0 <= i < idxs.len() ==> !v.registered.contains(#[trigger] idxs[i])
        }),
    decreases ops.len(),
{
    if ops.len() > 0 {
        law_store_indices_are_fresh(v, ops.drop_last());
        let (w, idxs) = run_ops(v, ops.drop_last());
        let op = ops.last();
        let (w2, idxs2) = run_ops(v, ops);
        assert(w2 == after_op(w, op));
        if op is Store {
            assert(idxs2 == idxs.push(w.next_id));
            assert(w.next_id < usize::MAX);
            assert(w2.next_id == w.next_id + 1);
            assert forall|i: int, j: int| 0 <= i < j < idxs2.len() implies idxs2[i] < idxs2[j] by {
                if j < idxs.len() {
                    assert(idxs2[i] == idxs[i] && idxs2[j] == idxs[j]);
                } else {
                    assert(idxs2[i] == idxs[i]);
                }
            }
            assert forall|i: int| 0 <= i < idxs2.len() implies v.next_id <= #[trigger] idxs2[i] < w2.next_id by {
                if i < idxs.len() {
                    assert(idxs2[i] == idxs[i]);
                }
            }
        } else {
            assert(idxs2 == idxs);
            assert(w2.next_id == w.next_id);
        }
    }
}

/// Each parallel policy reads one child result as its name says: only `RunUntilFailure`
/// stops on a failure (with that failure), only `RunUntilSuccess` stops on a success, and
/// `RunSilenceFailures` never stops. So a frame under `RunUntilFailure` ends in the first
/// error among its children's results, or in success when none failed; under the other two
/// policies it succeeds.
pub proof fn law_parallel_policies<E>(result: Result<(), E>, results: Seq<Result<(), E>>)
    ensures
        policy_verdict(
            ParallelTaskPolicy::RunUntilFailure.stops_on_success(),
            ParallelTaskPolicy::RunUntilFailure.stops_on_failure(),
            result,
        ) == (if result is Err { Some(result) } else { None }),
        policy_verdict(
            ParallelTaskPolicy::RunUntilSuccess.stops_on_success(),
            ParallelTaskPolicy::RunUntilSuccess.stops_on_failure(),
            result,
        ) == (if result is Ok { Some(Ok::<(), E>(())) } else { None }),
        policy_verdict(
            ParallelTaskPolicy::RunSilenceFailures.stops_on_success(),
            ParallelTaskPolicy::RunSilenceFailures.stops_on_failure(),
            result,
        ) is None,
        (forall|i: int| 0 <= i < results.len() ==> results[i] is Ok) ==> policy_outcome(
            ParallelTaskPolicy::RunUntilFailure.stops_on_success(),
            ParallelTaskPolicy::RunUntilFailure.stops_on_failure(),
            results,
        ) == Ok::<(), E>(()),
        forall|k: int|
            0 <= k < results.len() && results[k] is Err && (forall|i: int| 0 <= i < k ==> results[i] is Ok)
                ==> policy_outcome(
                ParallelTaskPolicy::RunUntilFailure.stops_on_success(),
                ParallelTaskPolicy::RunUntilFailure.stops_on_failure(),
                results,
            ) == results[k],
        policy_outcome(
            ParallelTaskPolicy::RunUntilSuccess.stops_on_success(),
            ParallelTaskPolicy::RunUntilSuccess.stops_on_failure(),
            results,
        ) == Ok::<(), E>(()),
        policy_outcome(
            ParallelTaskPolicy::RunSilenceFailures.stops_on_success(),
            ParallelTaskPolicy::RunSilenceFailures.stops_on_failure(),
            results,
        ) == Ok::<(), E>(()),
{
    assert(!ParallelTaskPolicy::RunUntilFailure.stops_on_success());
    assert(ParallelTaskPolicy::RunUntilFailure.stops_on_failure());
    law_run_until_failure(results);
    law_policies_without_failure_stop_succeed(true, results);
    law_policies_without_failure_stop_succeed(false, results);
}

/// The sequential policies read child results in the same way as the parallel ones: a frame
/// under `RunUntilFailure` ends in the first error, or in success when none failed; under the
/// other two policies it succeeds, and only `RunUntilSuccess` stops on a success.
pub proof fn law_sequential_policies<E>(result: Result<(), E>, results: Seq<Result<(), E>>)
    ensures
        policy_verdict(
            SequentialTaskPolicy::RunUntilFailure.stops_on_success(),
            SequentialTaskPolicy::RunUntilFailure.stops_on_failure(),
            result,
        ) == (if result is Err { Some(result) } else { None }),
        policy_verdict(
            SequentialTaskPolicy::RunUntilSuccess.stops_on_success(),
            SequentialTaskPolicy::RunUntilSuccess.stops_on_failure(),
            result,
        ) == (if result is Ok { Some(Ok::<(), E>(())) } else { None }),
        policy_verdict(
            SequentialTaskPolicy::RunSilenceFailures.stops_on_success(),
            SequentialTaskPolicy::RunSilenceFailures.stops_on_failure(),
            result,
        ) is None,
        (forall|i: int| 0 <= i < results.len() ==> results[i] is Ok) ==> policy_outcome(
            SequentialTaskPolicy::RunUntilFailure.stops_on_success(),
            SequentialTaskPolicy::RunUntilFailure.stops_on_failure(),
            results,
        ) == Ok::<(), E>(()),
        forall|k: int|
            0 <= k < results.len() && results[k] is Err && (forall|i: int| 0 <= i < k ==> results[i] is Ok)
                ==> policy_outcome(
                SequentialTaskPolicy::RunUntilFailure.stops_on_success(),
                SequentialTaskPolicy::RunUntilFailure.stops_on_failure(),
                results,
            ) == results[k],
        policy_outcome(
            SequentialTaskPolicy::RunUntilSuccess.stops_on_success(),
            SequentialTaskPolicy::RunUntilSuccess.stops_on_failure(),
            results,
        ) == Ok::<(), E>(()),
        policy_outcome(
            SequentialTaskPolicy::RunSilenceFailures.stops_on_success(),
            SequentialTaskPolicy::RunSilenceFailures.stops_on_failure(),
            results,
        ) == Ok::<(), E>(()),
{
    assert(!SequentialTaskPolicy::RunUntilFailure.stops_on_success());
    assert(SequentialTaskPolicy::RunUntilFailure.stops_on_failure());
    law_run_until_failure(results);
    law_policies_without_failure_stop_succeed(true, results);
    law_policies_without_failure_stop_succeed(false, results);
}

/// A dependency frame runs its wrapped frame exactly when every enabled dependency is
/// resolved: one enabled dependency that is not resolved (or could not be asked), wherever
/// it stands, stops it whatever the others report; a list in which every enabled dependency
/// is resolved lets it run; and the verdict on two lists put together is the verdict on each.
pub proof fn law_dependencies_resolved(states: Seq<DependencyState>, more: Seq<DependencyState>)
    ensures
        forall|i: int|
            0 <= i < states.len() && (#[trigger] states[i]).enabled && states[i].resolved != Some(true)
                ==> !all_resolved(states),
        (forall|i: int| 0 <= i < states.len() ==> !(#[trigger] states[i]).enabled || states[i].resolved == Some(true))
            ==> all_resolved(states),
        all_resolved(states + more) == (all_resolved(states) && all_resolved(more)),
{
    let both = states + more;
    if all_resolved(both) {
        assert forall|i: int| 0 <= i < more.len() implies (#[trigger] more[i]).enabled ==> more[i].resolved == Some(true) by {
            assert(both[states.len() + i] == more[i]);
        }
        assert forall|i: int| 0 <= i < states.len() implies (#[trigger] states[i]).enabled ==> states[i].resolved == Some(true) by {
            assert(both[i] == states[i]);
        }
    }
    if all_resolved(states) && all_resolved(more) {
        assert forall|i: int| 0 <= i < both.len() implies (#[trigger] both[i]).enabled ==> both[i].resolved == Some(true) by {
            if i < states.len() {
                assert(both[i] == states[i]);
            } else {
                assert(both[i] == more[i - states.len()]);
            }
        }
    }
}

/// A task dependency is resolved exactly when at least its minimum of runs counted, so
/// counting more runs never unresolves it; from a fresh counter, after a sequence of runs
/// (fewer than `u64::MAX`), it is resolved exactly when at least the minimum of them counted.
pub proof fn law_counter_resolves_at_minimum(c1: TaskDependencyCounter, c2: TaskDependencyCounter, counts: Seq<bool>)
    ensures
        c1.counted() >= c1.minimum_runs() ==> c1.resolved(),
        c1.counted() < c1.minimum_runs() ==> !c1.resolved(),
        c1.minimum_runs() == c2.minimum_runs() && c1.counted() <= c2.counted() && c1.resolved() ==> c2.resolved(),
        counts.len() < u64::MAX && c1.counted() == counter_after(0, counts)
            ==> (c1.resolved() == (counted_runs(counts) >= c1.minimum_runs())),
{
    if counts.len() < u64::MAX {
        law_task_dependency_counts_runs(counts, c1.minimum_runs());
    }
}

/// Whatever instant the gap search settles on lies within two days of the naive time.
pub proof fn lemma_gap_search_near(lookups: Seq<LocalLookup>, naive: i64, k: nat)
    requires
        lookups.len() == 11,
        lookups_near(lookups, naive),
    ensures
        gap_search(lookups, naive, k) matches Ok(t) ==> naive - 2 * NANOS_PER_DAY < t < naive + 2 * NANOS_PER_DAY,
    decreases 11 - k,
{
    if k <= 10 {
        assert(lookup_near(lookups[k as int], naive + k * NANOS_PER_MINUTE));
        lemma_gap_search_near(lookups, naive, k + 1);
    }
}

/// A calendar fixing the day, hour, minute, second and millisecond (within their ranges)
/// and ignoring month and year fires monthly: whatever the time zone answers (within what a
/// zone can answer), the next time lies less than 35 days after the starting time. When the
/// day of this month at the fixed time has passed, the month roll adds one month, not more.
pub proof fn law_monthly_calendar_fires_within_a_month<C: CustomFieldFn>(
    cal: ScheduleCalendar<C>,
    time: i64,
    start: CalendarParts,
    customs: Seq<u32>,
    lookups: Seq<LocalLookup>,
    months: Seq<Option<i64>>,
    r: i64,
)
    requires
        cal.day matches CalendarFieldSchedule::Exactly(v) && v <= 30,
        cal.hour matches CalendarFieldSchedule::Exactly(v) && v <= 23,
        cal.minute matches CalendarFieldSchedule::Exactly(v) && v <= 59,
        cal.second matches CalendarFieldSchedule::Exactly(v) && v <= 59,
        cal.millisecond matches CalendarFieldSchedule::Exactly(v) && v <= 999,
        cal.month is Ignore,
        cal.year is Ignore,
        customs.len() == 7,
        lookups.len() == 11,
        months.len() == 7,
        cal.env_near(time, start, customs, lookups, months),
        cal.next_after_with(time, start, customs, lookups, months) == Ok::<i64, CalendarError>(r),
    ensures
        r < time + 35 * NANOS_PER_DAY,
{
    reveal_with_fuel(ScheduleCalendar::exact_above, 8);
    reveal_with_fuel(ScheduleCalendar::rolled, 8);
    reveal_with_fuel(ScheduleCalendar::rolled_near, 8);
    assert(cal.field_at(0) is Exactly && cal.field_at(1) is Exactly && cal.field_at(2) is Exactly);
    assert(cal.field_at(3) is Exactly && cal.field_at(4) is Exactly);
    assert(cal.field_at(5) is Ignore && cal.field_at(6) is Ignore);
    let d = cal.applied(start, customs)->Ok_0;
    assert(cal.time_shift() == 0);
    let n = cal.shifted_naive(d)->Ok_0;
    assert(d.month0 == start.month0 && d.year == start.year);
    let y = start.year as i32 as int;
    let mo = start.month0 + 1;
    let day = crate::calendar::clamped_day(d);
    assert(1 <= day <= 31);
    assert(n == civil_nanos(y, mo, day, d.hour as int, d.minute as int, d.second as int, d.millisecond as int));
    assert(start_near(start, time));
    let sd = start.day0 + 1;
    assert(1 <= sd <= 31);
    assert(days_from_civil(y, mo, day) - days_from_civil(y, mo, sd) == day - sd);
    let cs = civil_nanos(y, mo, sd, start.hour as int, start.minute as int, start.second as int, start.millisecond as int);
    assert(cs < time + NANOS_PER_DAY);
    assert(n < cs + 31 * NANOS_PER_DAY);
    assert(lookups_near(lookups, n));
    assert(lookup_near(lookups[0], n + 0 * NANOS_PER_MINUTE));
    lemma_gap_search_near(lookups, n, 1);
    let m = chosen_instant(lookups, n)->Ok_0;
    assert(m < n + 2 * NANOS_PER_DAY);
    assert(!cal.rolls(1, m, time) && !cal.rolls(2, m, time) && !cal.rolls(3, m, time) && !cal.rolls(4, m, time));
    assert(!cal.rolls(6, m, time));
    if cal.rolls(5, m, time) {
        assert(cal.rolled_near(0, m, time, months));
        assert(cal.rolled_near(5, m, time, months));
    }
}

} // verus!
