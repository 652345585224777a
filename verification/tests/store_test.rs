use chronolog_core::scheduling::{calls_error_handler, run_count_after, should_reschedule, take_due, DueAction};
use chronolog_core::store::EphemeralDefaultTaskStore;

#[test]
fn store_hands_out_increasing_indices_and_registers_them() {
    let mut store: EphemeralDefaultTaskStore<&str> = EphemeralDefaultTaskStore::new();
    let a = store.store("a", 30);
    let b = store.store("b", 10);
    assert_eq!((a, b), (0, 1));
    assert!(store.contains(a));
    assert!(store.contains(b));
    assert!(!store.contains(2));
    assert_eq!(store.pending(), 2);
}

#[test]
fn retrieve_peeks_at_the_earliest_run() {
    let mut store = EphemeralDefaultTaskStore::new();
    store.store("late", 300);
    store.store("early", 100);
    store.store("middle", 200);
    let e = store.retrieve().unwrap();
    assert_eq!((e.task, e.time, e.idx), ("early", 100, 1));
    assert_eq!(store.pending(), 3);
}

#[test]
fn pop_takes_runs_in_time_order_keeping_arrival_order_for_ties() {
    let mut store = EphemeralDefaultTaskStore::new();
    store.store("x", 50);
    store.store("y", 20);
    store.store("z", 50);
    store.reschedule("y", 50, 1);
    let mut order = Vec::new();
    while let Some(e) = store.retrieve() {
        order.push((e.task, e.time));
        store.pop();
    }
    assert_eq!(order, vec![("y", 20), ("x", 50), ("z", 50), ("y", 50)]);
    store.pop();
    assert!(store.retrieve().is_none());
}

#[test]
fn remove_unregisters_but_keeps_the_queued_run() {
    let mut store = EphemeralDefaultTaskStore::new();
    let idx = store.store(7u32, 5);
    store.remove(idx);
    assert!(!store.contains(idx));
    assert_eq!(store.pending(), 1);
    store.remove(idx);
    assert!(!store.contains(idx));
}

#[test]
fn clear_empties_the_store_but_indices_keep_counting() {
    let mut store = EphemeralDefaultTaskStore::new();
    store.store('a', 1);
    store.store('b', 2);
    store.clear();
    assert_eq!(store.pending(), 0);
    assert!(!store.contains(0));
    assert_eq!(store.store('c', 3), 2);
}

#[test]
fn take_due_dispatches_registered_tasks_and_skips_removed_ones() {
    let mut store = EphemeralDefaultTaskStore::new();
    let a = store.store("a", 10);
    let b = store.store("b", 20);
    store.remove(a);
    assert_eq!(take_due(&mut store), Some(DueAction::Skip(a)));
    assert_eq!(take_due(&mut store), Some(DueAction::Dispatch(b)));
    assert_eq!(take_due(&mut store), None);
}

#[test]
fn tasks_stop_rescheduling_at_their_maximum_runs() {
    assert!(should_reschedule(None, 1_000_000));
    assert!(should_reschedule(Some(3), 2));
    assert!(!should_reschedule(Some(3), 3));
    assert!(!should_reschedule(Some(3), 4));
}

#[test]
fn a_task_stored_in_an_empty_store_is_dispatched_and_leaves_nothing_queued() {
    let mut store = EphemeralDefaultTaskStore::new();
    let idx = store.store("only", 42);
    assert_eq!(take_due(&mut store), Some(DueAction::Dispatch(idx)));
    assert_eq!(store.pending(), 0);
    assert!(store.contains(idx));
}

#[test]
fn a_run_counts_once_and_only_failures_reach_the_error_handler() {
    assert_eq!(run_count_after(0), 1);
    assert_eq!(run_count_after(41), 42);
    assert_eq!(run_count_after(u64::MAX), 0);
    assert!(!calls_error_handler::<&str>(&Ok(())));
    assert!(calls_error_handler(&Err("boom")));
}
