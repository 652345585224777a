use chronolog_core::errors::ChronologErrors;
use chronolog_core::frames::{
    condition_fails, dependencies_resolved, parallel_plan, runs_fallback, select_index,
    ConstantBackoffStrategy, DependencyState, DependentFailureOnFail, DependentSuccessOnFail,
    FallbackTask, ParallelPlan, ParallelTaskPolicy, RetryDecision, RetryLoop, SequentialTaskPolicy,
    TimeoutTask,
};
use std::time::Duration;

fn run_sequential(policy: SequentialTaskPolicy, results: Vec<Result<(), u32>>) -> (usize, Result<(), u32>) {
    let mut ran = 0;
    for r in results {
        ran += 1;
        if let Some(out) = policy.after_child(r) {
            return (ran, out);
        }
    }
    (ran, Ok(()))
}

#[test]
fn run_until_failure_stops_at_the_first_error() {
    let out = run_sequential(SequentialTaskPolicy::RunUntilFailure, vec![Ok(()), Err(4), Err(5)]);
    assert_eq!(out, (2, Err(4)));
    let out = run_sequential(SequentialTaskPolicy::RunUntilFailure, vec![Ok(()), Ok(())]);
    assert_eq!(out, (2, Ok(())));
}

#[test]
fn run_until_success_stops_at_the_first_success_and_never_fails() {
    let out = run_sequential(SequentialTaskPolicy::RunUntilSuccess, vec![Err(1), Ok(()), Err(2)]);
    assert_eq!(out, (2, Ok(())));
    let out = run_sequential(SequentialTaskPolicy::RunUntilSuccess, vec![Err(1), Err(2)]);
    assert_eq!(out, (2, Ok(())));
}

#[test]
fn run_silence_failures_runs_everything() {
    let out = run_sequential(SequentialTaskPolicy::RunSilenceFailures, vec![Err(1), Ok(()), Err(2)]);
    assert_eq!(out, (3, Ok(())));
    assert_eq!(ParallelTaskPolicy::RunSilenceFailures.after_child(Err::<(), u8>(9)), None);
    assert_eq!(ParallelTaskPolicy::RunUntilFailure.after_child(Err::<(), u8>(9)), Some(Err(9)));
    assert_eq!(ParallelTaskPolicy::RunUntilSuccess.after_child(Ok::<(), u8>(())), Some(Ok(())));
}

#[test]
fn parallel_plan_by_number_of_children() {
    assert_eq!(parallel_plan(0), ParallelPlan::Nothing);
    assert_eq!(parallel_plan(1), ParallelPlan::Direct);
    assert_eq!(parallel_plan(5), ParallelPlan::Concurrent);
}

#[test]
fn retry_loop_gives_up_after_the_allowed_attempts_with_the_last_error() {
    let mut retry: RetryLoop<&str> = RetryLoop::new(3);
    assert!(!retry.announces_retry());
    assert_eq!(retry.record_failure("first"), RetryDecision::Retry { backoff_retry: 0 });
    assert!(retry.announces_retry());
    assert_eq!(retry.record_failure("second"), RetryDecision::Retry { backoff_retry: 1 });
    assert_eq!(retry.record_failure("third"), RetryDecision::GiveUp { backoff_retry: 2 });
    assert_eq!(retry.into_error(), "third");
}

#[test]
fn retry_loop_with_one_attempt_gives_up_at_once() {
    let mut retry: RetryLoop<u8> = RetryLoop::new(1);
    assert_eq!(retry.record_failure(7), RetryDecision::GiveUp { backoff_retry: 0 });
    assert_eq!(retry.into_error(), 7);
}

#[test]
fn select_index_out_of_bounds() {
    assert!(matches!(select_index::<()>(1, 3), Ok(1)));
    assert!(matches!(select_index::<()>(3, 3), Err(ChronologErrors::TaskIndexOutOfBounds(3, 3))));
}

#[test]
fn conditional_and_fallback_decisions() {
    assert!(condition_fails(true, true));
    assert!(!condition_fails(true, false));
    assert!(!condition_fails(false, true));
    assert!(runs_fallback(false));
    assert!(!runs_fallback(true));
}

#[test]
fn dependencies_skip_disabled_ones_and_need_the_rest_resolved() {
    let resolved = DependencyState { enabled: true, resolved: Some(true) };
    let unresolved = DependencyState { enabled: true, resolved: Some(false) };
    let failed = DependencyState { enabled: true, resolved: None };
    let disabled = DependencyState { enabled: false, resolved: Some(false) };
    assert!(dependencies_resolved(&vec![]));
    assert!(dependencies_resolved(&vec![resolved, disabled]));
    assert!(!dependencies_resolved(&vec![resolved, unresolved]));
    assert!(!dependencies_resolved(&vec![failed]));
}

#[test]
fn dependent_behaviours() {
    assert!(matches!(DependentFailureOnFail.outcome::<()>(), Err(ChronologErrors::TaskDependenciesUnresolved)));
    assert!(DependentSuccessOnFail.outcome::<()>().is_ok());
}

#[test]
fn constructors_keep_their_parts() {
    let backoff = ConstantBackoffStrategy::new(Duration::from_millis(250));
    assert_eq!(backoff.compute(0), Duration::from_millis(250));
    assert_eq!(backoff.compute(9), Duration::from_millis(250));
    let timeout = TimeoutTask::new("frame", Duration::from_secs(3));
    assert_eq!((timeout.task, timeout.max_duration), ("frame", Duration::from_secs(3)));
    let fallback = FallbackTask::new(1, 2);
    assert_eq!((fallback.primary, fallback.secondary), (1, 2));
}
