use vstd::prelude::*;

verus! {

/// The errors the library itself raises while running task frames; `E` is the type of the
/// errors that task frames return.
#[derive(Clone, Debug)]
pub enum ChronologErrors<E> {
    /// The named frame failed with the given error.
    FailedExecution(String, E),
    /// The named task was aborted.
    TaskAborted(String),
    /// A select frame picked the first index, but only the second many frames exist.
    TaskIndexOutOfBounds(usize, usize),
    /// A conditional frame's predicate was false and the frame is set to fail on false.
    TaskConditionFail,
    /// The named task timed out.
    TimeoutError(String),
    /// A dependency frame found an enabled dependency unresolved.
    TaskDependenciesUnresolved,
}

} // verus!
