use chronolog_core::dependency::{
    DynamicDependency, LogicalDependency, TaskDependencyCounter, TaskResolveFailureOnly,
    TaskResolveIdentityOnly, TaskResolveSuccessOnly,
};
use chronolog_core::scheduling::{CancelCurrentSchedulingPolicy, TaskErrorContext};

#[test]
fn logical_dependencies_compute_their_operators() {
    let and = LogicalDependency::and(1, 2);
    assert!(and.resolve_with(true, true));
    assert!(!and.resolve_with(true, false));
    assert!(!and.needs_second(false));
    assert!(and.is_enabled());
    let or = LogicalDependency::or(1, 2);
    assert!(or.resolve_with(false, true));
    assert!(!or.needs_second(true));
    let xor = LogicalDependency::xor(1, 2);
    assert!(!xor.resolve_with(true, true));
    assert!(xor.resolve_with(true, false));
    assert!(xor.needs_second(true));
    let not = LogicalDependency::not(1);
    assert!(not.resolve_with(false, false));
    assert!(!not.needs_second(false));
    assert!(not.is_enabled());
    assert_eq!(not.second(), None);
    assert_eq!(*xor.first(), 1);
    assert_eq!(xor.second(), Some(&2));
}

#[test]
fn logical_dependencies_toggle() {
    let mut d = LogicalDependency::and('a', 'b');
    d.disable();
    assert!(!d.is_enabled());
    d.enable();
    assert!(d.is_enabled());
    let mut n = LogicalDependency::not('a');
    n.disable();
    assert!(!n.is_enabled());
    n.enable();
    assert!(n.is_enabled());
}

#[test]
fn dynamic_dependency_starts_enabled() {
    let mut d = DynamicDependency::new(|| true);
    assert!(d.is_enabled());
    assert!((d.func())());
    d.disable();
    assert!(!d.is_enabled());
    d.enable();
    assert!(d.is_enabled());
}

#[test]
fn task_dependency_counts_runs_up_to_its_minimum() {
    let mut c = TaskDependencyCounter::new(2);
    assert!(!c.is_resolved());
    c.record_run(TaskResolveSuccessOnly.should_count(false));
    assert!(!c.is_resolved());
    c.record_run(TaskResolveSuccessOnly.should_count(true));
    assert!(!c.is_resolved());
    c.record_run(TaskResolveSuccessOnly.should_count(false));
    assert!(c.is_resolved());
    c.unresolve();
    assert!(!c.is_resolved());
    c.resolve();
    assert!(c.is_resolved());
}

#[test]
fn resolve_behaviours() {
    assert!(TaskResolveFailureOnly.should_count(true));
    assert!(!TaskResolveFailureOnly.should_count(false));
    assert!(TaskResolveIdentityOnly.should_count(false));
    assert!(TaskResolveIdentityOnly.should_count(true));
}

#[test]
fn cancel_current_refuses_overlapping_runs() {
    let mut p = CancelCurrentSchedulingPolicy::new();
    assert!(p.is_free());
    assert!(p.try_begin());
    assert!(!p.try_begin());
    p.finish();
    assert!(p.try_begin());
}

#[test]
fn error_context_hands_out_its_parts() {
    let ctx = TaskErrorContext::new("boom".to_owned(), 42u8);
    assert_eq!(ctx.error(), "boom");
    assert_eq!(ctx.metadata(), 42);
}

#[test]
fn only_counted_runs_resolve_a_task_dependency() {
    let mut c = TaskDependencyCounter::new(2);
    for failed in [true, false, true, true] {
        c.record_run(TaskResolveSuccessOnly.should_count(failed));
    }
    assert!(!c.is_resolved());
    c.record_run(TaskResolveSuccessOnly.should_count(false));
    assert!(c.is_resolved());
}
