use crate::dependency::wrapping_succ;
use crate::store::{EphemeralDefaultTaskStore, StoreView};
use vstd::prelude::*;

verus! {

/// Runs a task and reschedules it only once the run is over (the default strategy).
#[derive(Clone, Copy, Debug)]
pub struct SequentialSchedulingPolicy;

/// Runs a task in the background and reschedules it at once.
#[derive(Clone, Copy, Debug)]
pub struct ConcurrentSchedulingPolicy;

/// Runs a task in the background, but refuses a new run while the previous one is still
/// going.
pub struct CancelCurrentSchedulingPolicy {
    is_free: bool,
}

impl CancelCurrentSchedulingPolicy {
    /// Whether no run is going.
    pub closed spec fn free(&self) -> bool {
        self.is_free
    }

    /// A policy with no run going.
    pub fn new() -> (r: Self)
        ensures
            r.free(),
    {
        CancelCurrentSchedulingPolicy { is_free: true }
    }

    /// Asks to start a run: granted, and the policy becomes busy, only when no run is going.
    pub fn try_begin(&mut self) -> (r: bool)
        ensures
            r == old(self).free(),
            !final(self).free(),
    {
        if !self.is_free {
            return false;
        }
        self.is_free = false;
        true
    }

    /// Marks the current run as over.
    pub fn finish(&mut self)
        ensures
            final(self).free(),
    {
        self.is_free = true;
    }

    pub fn is_free(&self) -> (r: bool)
        ensures
            r == self.free(),
    {
        self.is_free
    }
}

/// Overlapping runs of a task are handled one after the other.
#[derive(Clone, Copy, Debug)]
pub struct SequentialOverlapPolicy;

/// Overlapping runs of a task are handled side by side.
#[derive(Clone, Copy, Debug)]
pub struct ParallelOverlapPolicy;

/// Whether a task that finished a run is scheduled again: unless it has a maximum run
/// count and has reached it.
pub open spec fn reschedules(max_runs: Option<u64>, runs: u64) -> bool {
    match max_runs {
        Some(m) => runs < m,
        None => true,
    }
}

/// Decides whether a task that has run `runs` times is scheduled again.
pub fn should_reschedule(max_runs: Option<u64>, runs: u64) -> (r: bool)
    ensures
        r == reschedules(max_runs, runs),
{
    match max_runs {
        Some(m) => runs < m,
        None => true,
    }
}

/// What the scheduler loop does with the run that has just come due.
#[derive(Clone, Copy, Debug, PartialEq, Eq, Structural)]
pub enum DueAction {
    /// Hand the task to the dispatcher.
    Dispatch(usize),
    /// The task was removed: drop the run.
    Skip(usize),
}

/// The state after the earliest run came due and left the queue.
pub open spec fn due_state<T>(before: StoreView<T>) -> StoreView<T> {
    before.popped()
}

/// What becomes of the earliest run when it comes due: nothing when the queue is empty, its
/// dispatch when its task is still registered, and otherwise its skipping.
pub open spec fn due_action<T>(before: StoreView<T>) -> Option<DueAction> {
    if before.queue.len() == 0 {
        None
    } else if before.registered.contains(before.queue[0].idx) {
        Some(DueAction::Dispatch(before.queue[0].idx))
    } else {
        Some(DueAction::Skip(before.queue[0].idx))
    }
}

/// Takes the earliest run out of the store once its time has come, and decides whether it
/// is dispatched: only if its task is still registered. `None` when nothing is queued.
pub fn take_due<T>(store: &mut EphemeralDefaultTaskStore<T>) -> (r: Option<DueAction>)
    requires
        old(store).well_formed(),
    ensures
        final(store).well_formed(),
        final(store)@ == due_state(old(store)@),
        r == due_action(old(store)@),
{
    let idx = match store.retrieve() {
        Some(e) => e.idx,
        None => return None,
    };
    store.pop();
    if store.contains(idx) {
        Some(DueAction::Dispatch(idx))
    } else {
        Some(DueAction::Skip(idx))
    }
}

/// The run count a task records when a run starts: one more (wrapping past `u64::MAX`, as
/// the atomic counter behind it does).
pub fn run_count_after(runs: u64) -> (r: u64)
    ensures
        r == wrapping_succ(runs),
{
    runs.wrapping_add(1)
}

/// Whether a finished run is handed to the task's error handler: exactly when it failed.
pub fn calls_error_handler<E>(result: &Result<(), E>) -> (r: bool)
    ensures
        r == (result is Err),
{
    match result {
        Ok(_) => false,
        Err(_) => true,
    }
}

/// Number of workers the default dispatcher starts with.
pub const DEFAULT_WORKERS: usize = 16;

/// The settings of the default dispatcher: how many workers its pool has.
#[derive(Clone, Copy, Debug, PartialEq, Eq, Structural)]
pub struct DefaultTaskDispatcherConfig {
    pub workers: usize,
}

impl DefaultTaskDispatcherConfig {
    pub fn new(workers: usize) -> (r: Self)
        ensures
            r.workers == workers,
    {
        DefaultTaskDispatcherConfig { workers }
    }

    /// The settings the default dispatcher uses.
    pub fn default_configs() -> (r: Self)
        ensures
            r.workers == DEFAULT_WORKERS,
    {
        DefaultTaskDispatcherConfig { workers: DEFAULT_WORKERS }
    }
}

/// The context handed to an error handler: the error and the task's metadata.
pub struct TaskErrorContext<E, M> {
    error: E,
    metadata: M,
}

impl<E: Clone, M: Clone> TaskErrorContext<E, M> {
    pub closed spec fn error_value(&self) -> E {
        self.error
    }

    pub closed spec fn metadata_value(&self) -> M {
        self.metadata
    }

    pub fn new(error: E, metadata: M) -> (r: Self)
        ensures
            r.error_value() == error,
            r.metadata_value() == metadata,
    {
        TaskErrorContext { error, metadata }
    }

    /// The task's error (a clone of it).
    pub fn error(&self) -> (r: E)
        ensures
            cloned(self.error_value(), r),
    {
        self.error.clone()
    }

    /// The task's metadata (a clone of the handle).
    pub fn metadata(&self) -> (r: M)
        ensures
            cloned(self.metadata_value(), r),
    {
        self.metadata.clone()
    }
}

/// An error handler that panics with the error.
#[derive(Clone, Copy, Debug)]
pub struct PanicTaskErrorHandler;

/// An error handler that ignores the error (the default).
#[derive(Clone, Copy, Debug)]
pub struct SilentTaskErrorHandler;

/// A way to attach more parts to a task; `()` adds nothing.
pub trait TaskExtension {}

impl TaskExtension for () {}

} // verus!
