use crate::errors::ChronologErrors;
use core::time::Duration;
use vstd::prelude::*;

verus! {

/// How a [`SequentialTaskFrame`](crate) reacts to the result of each child frame.
#[derive(Clone, Copy, Debug, PartialEq, Eq, Structural)]
pub enum SequentialTaskPolicy {
    /// Child results do not stop the frame.
    RunSilenceFailures,
    /// The first child that succeeds stops the frame with success.
    RunUntilSuccess,
    /// The first child that fails stops the frame with its error.
    RunUntilFailure,
}

/// How a parallel frame reacts to the result of each child frame.
#[derive(Clone, Copy, Debug, PartialEq, Eq, Structural)]
pub enum ParallelTaskPolicy {
    /// Child results do not stop the frame.
    RunSilenceFailures,
    /// The first child that succeeds stops the frame with success.
    RunUntilSuccess,
    /// The first child that fails stops the frame with its error.
    RunUntilFailure,
}

/// What a policy makes of one child result: stop the frame with a result, or go on.
pub open spec fn policy_verdict<E>(stop_on_success: bool, stop_on_failure: bool, result: Result<(), E>) -> Option<Result<(), E>> {
    match result {
        Ok(_) => if stop_on_success { Some(Ok(())) } else { None },
        Err(e) => if stop_on_failure { Some(Err(e)) } else { None },
    }
}

/// The result of a frame whose children returned `results`, in order, under a policy: the
/// first verdict that stops the frame, or success once every child has run.
pub open spec fn policy_outcome<E>(stop_on_success: bool, stop_on_failure: bool, results: Seq<Result<(), E>>) -> Result<(), E>
    decreases results.len(),
{
    if results.len() == 0 {
        Ok(())
    } else {
        match policy_verdict(stop_on_success, stop_on_failure, results[0]) {
            Some(r) => r,
            None => policy_outcome(stop_on_success, stop_on_failure, results.drop_first()),
        }
    }
}

impl SequentialTaskPolicy {
    pub open spec fn stops_on_success(self) -> bool {
        self == SequentialTaskPolicy::RunUntilSuccess
    }

    pub open spec fn stops_on_failure(self) -> bool {
        self == SequentialTaskPolicy::RunUntilFailure
    }

    /// What the frame does after a child returned `result`: `Some` stops it with that result.
    pub fn after_child<E>(&self, result: Result<(), E>) -> (r: Option<Result<(), E>>)
        ensures
            r == policy_verdict(self.stops_on_success(), self.stops_on_failure(), result),
    {
        match (self, result) {
            (SequentialTaskPolicy::RunUntilFailure, Err(e)) => Some(Err(e)),
            (SequentialTaskPolicy::RunUntilSuccess, Ok(_)) => Some(Ok(())),
            _ => None,
        }
    }
}

impl ParallelTaskPolicy {
    pub open spec fn stops_on_success(self) -> bool {
        self == ParallelTaskPolicy::RunUntilSuccess
    }

    pub open spec fn stops_on_failure(self) -> bool {
        self == ParallelTaskPolicy::RunUntilFailure
    }

    /// What the frame does after a child returned `result`: `Some` stops it with that result.
    pub fn after_child<E>(&self, result: Result<(), E>) -> (r: Option<Result<(), E>>)
        ensures
            r == policy_verdict(self.stops_on_success(), self.stops_on_failure(), result),
    {
        match (self, result) {
            (ParallelTaskPolicy::RunUntilFailure, Err(e)) => Some(Err(e)),
            (ParallelTaskPolicy::RunUntilSuccess, Ok(_)) => Some(Ok(())),
            _ => None,
        }
    }
}

/// How a parallel frame runs its children, by their number.
#[derive(Clone, Copy, Debug, PartialEq, Eq, Structural)]
pub enum ParallelPlan {
    /// No child: the frame succeeds.
    Nothing,
    /// One child: it runs in place, without spawning, and the policy reads its result.
    Direct,
    /// Several children: they run concurrently and the policy reads their results as they
    /// arrive.
    ///
    /// Whatever the plan, the frame's result is [`policy_outcome`] of the results read.
    Concurrent,
}

/// Chooses how a parallel frame with `children` children runs them.
pub fn parallel_plan(children: usize) -> (r: ParallelPlan)
    ensures
        children == 0 ==> r == ParallelPlan::Nothing,
        children == 1 ==> r == ParallelPlan::Direct,
        children > 1 ==> r == ParallelPlan::Concurrent,
{
    if children == 0 {
        ParallelPlan::Nothing
    } else if children == 1 {
        ParallelPlan::Direct
    } else {
        ParallelPlan::Concurrent
    }
}

/// What a retriable frame does after a failed attempt. Either way it first waits for the
/// backoff delay of the attempt numbered `backoff_retry` (from 0).
#[derive(Clone, Copy, Debug, PartialEq, Eq, Structural)]
pub enum RetryDecision {
    /// Run the wrapped frame again.
    Retry { backoff_retry: u32 },
    /// Stop and fail with the last error.
    GiveUp { backoff_retry: u32 },
}

/// The retry loop of a retriable frame: how many attempts it allows, how many failed so
/// far, and the last error.
pub struct RetryLoop<E> {
    retries: u32,
    failures: u32,
    last_error: Option<E>,
}

impl<E> RetryLoop<E> {
    pub closed spec fn retries(&self) -> u32 {
        self.retries
    }

    pub closed spec fn failures(&self) -> u32 {
        self.failures
    }

    pub closed spec fn last_error(&self) -> Option<E> {
        self.last_error
    }

    /// A loop allowing `retries` attempts (at least one), none made yet.
    pub fn new(retries: u32) -> (r: Self)
        requires
            retries >= 1,
        ensures
            r.retries() == retries,
            r.failures() == 0,
            r.last_error() is None,
    {
        RetryLoop { retries, failures: 0, last_error: None }
    }

    /// Whether the coming attempt is a retry (announced by the retry-start event): every
    /// attempt but the first.
    pub fn announces_retry(&self) -> (r: bool)
        ensures
            r == (self.failures() != 0),
    {
        self.failures != 0
    }

    /// Records that the current attempt failed with `error`, and decides whether another
    /// attempt follows.
    pub fn record_failure(&mut self, error: E) -> (r: RetryDecision)
        requires
            old(self).failures() < old(self).retries(),
        ensures
            final(self).retries() == old(self).retries(),
            final(self).failures() == old(self).failures() + 1,
            final(self).last_error() == Some(error),
            final(self).failures() < final(self).retries() ==> r == (RetryDecision::Retry { backoff_retry: old(self).failures() }),
            final(self).failures() == final(self).retries() ==> r == (RetryDecision::GiveUp { backoff_retry: old(self).failures() }),
    {
        let retry = self.failures;
        self.failures = self.failures + 1;
        self.last_error = Some(error);
        if self.failures < self.retries {
            RetryDecision::Retry { backoff_retry: retry }
        } else {
            RetryDecision::GiveUp { backoff_retry: retry }
        }
    }

    /// The last error, once at least one attempt failed.
    pub fn into_error(self) -> (r: E)
        requires
            self.last_error() is Some,
        ensures
            Some(r) == self.last_error(),
    {
        self.last_error.unwrap()
    }
}

/// Picks the frame at `idx` out of `len` frames, or fails with the out-of-bounds error.
pub fn select_index<E>(idx: usize, len: usize) -> (r: Result<usize, ChronologErrors<E>>)
    ensures
        idx < len ==> r == Ok::<usize, ChronologErrors<E>>(idx),
        idx >= len ==> r == Err::<usize, ChronologErrors<E>>(ChronologErrors::TaskIndexOutOfBounds(idx, len)),
{
    if idx < len {
        Ok(idx)
    } else {
        Err(ChronologErrors::TaskIndexOutOfBounds(idx, len))
    }
}

/// Whether a conditional frame whose predicate was false fails with the condition error:
/// it is set to fail on false and what ran instead (the fallback, or nothing) succeeded.
pub fn condition_fails(error_on_false: bool, ran_ok: bool) -> (r: bool)
    ensures
        r == (error_on_false && ran_ok),
{
    error_on_false && ran_ok
}

/// Whether a fallback frame runs its secondary frame: the primary one failed.
pub fn runs_fallback(primary_ok: bool) -> (r: bool)
    ensures
        r == !primary_ok,
{
    !primary_ok
}

/// What a dependency frame learned of one dependency: whether it is enabled, and whether it
/// is resolved (`None` when asking failed).
#[derive(Clone, Copy, Debug, PartialEq, Eq, Structural)]
pub struct DependencyState {
    pub enabled: bool,
    pub resolved: Option<bool>,
}

/// Whether the dependencies let the wrapped frame run: every enabled one is resolved
/// (disabled dependencies are skipped).
pub open spec fn all_resolved(states: Seq<DependencyState>) -> bool {
    forall|i: int| 0 <= i < states.len() ==> (#[trigger] states[i]).enabled ==> states[i].resolved == Some(true)
}

/// Decides whether a dependency frame runs its wrapped frame (see [`all_resolved`]).
pub fn dependencies_resolved(states: &Vec<DependencyState>) -> (r: bool)
    ensures
        r == all_resolved(states@),
{
    let mut i: usize = 0;
    while i < states.len()
        invariant
            i <= states@.len(),
            all_resolved(states@.take(i as int)),
        decreases states@.len() - i,
    {
        let s = states[i];
        if s.enabled {
            match s.resolved {
                Some(true) => {},
                _ => {
                    assert(!((states@[i as int]).enabled ==> states@[i as int].resolved == Some(true)));
                    return false;
                },
            }
        }
        assert(states@.take(i + 1) =~= states@.take(i as int).push(s));
        i = i + 1;
    }
    assert(states@.take(i as int) =~= states@);
    true
}

/// When dependencies are unresolved, fail with [`ChronologErrors::TaskDependenciesUnresolved`].
#[derive(Clone, Copy, Debug)]
pub struct DependentFailureOnFail;

/// When dependencies are unresolved, succeed without running the wrapped frame.
#[derive(Clone, Copy, Debug)]
pub struct DependentSuccessOnFail;

impl DependentFailureOnFail {
    /// The result of a dependency frame whose dependencies are unresolved.
    pub fn outcome<E>(&self) -> (r: Result<(), ChronologErrors<E>>)
        ensures
            r == Err::<(), ChronologErrors<E>>(ChronologErrors::TaskDependenciesUnresolved),
    {
        Err(ChronologErrors::TaskDependenciesUnresolved)
    }
}

impl DependentSuccessOnFail {
    /// The result of a dependency frame whose dependencies are unresolved.
    pub fn outcome<E>(&self) -> (r: Result<(), ChronologErrors<E>>)
        ensures
            r == Ok::<(), ChronologErrors<E>>(()),
    {
        Ok(())
    }
}

/// A backoff strategy that waits the same delay before every retry.
#[derive(Clone, Copy, Debug)]
pub struct ConstantBackoffStrategy(pub Duration);

impl ConstantBackoffStrategy {
    /// A strategy waiting `duration` before every retry.
    pub fn new(duration: Duration) -> (r: Self)
        ensures
            r.0 == duration,
    {
        ConstantBackoffStrategy(duration)
    }

    /// The delay before retry `retry`: always the same one.
    pub fn compute(&self, retry: u32) -> (r: Duration)
        ensures
            r == self.0,
    {
        self.0
    }
}

/// A frame wrapping `task` that fails with a timeout once `max_duration` has passed.
pub struct TimeoutTask<T> {
    pub task: T,
    pub max_duration: Duration,
}

impl<T> TimeoutTask<T> {
    pub fn new(task: T, max_duration: Duration) -> (r: Self)
        ensures
            r.task == task,
            r.max_duration == max_duration,
    {
        TimeoutTask { task, max_duration }
    }
}

/// A frame running `primary` and, should it fail, `secondary`.
pub struct FallbackTask<T, T2> {
    pub primary: T,
    pub secondary: T2,
}

impl<T, T2> FallbackTask<T, T2> {
    pub fn new(primary: T, secondary: T2) -> (r: Self)
        ensures
            r.primary == primary,
            r.secondary == secondary,
    {
        FallbackTask { primary, secondary }
    }
}

} // verus!
