use vstd::prelude::*;

verus! {

/// How important a task is: the closer to [`TaskPriority::CRITICAL`], the sooner the
/// dispatcher hands it to a worker.
#[derive(Clone, Copy, Debug, PartialEq, Eq, Structural, PartialOrd, Ord, Hash)]
pub enum TaskPriority {
    CRITICAL,
    IMPORTANT,
    HIGH,
    MODERATE,
    LOW,
}

impl Default for TaskPriority {
    /// `MODERATE`.
    fn default() -> (r: Self)
        ensures
            r == TaskPriority::MODERATE,
    {
        TaskPriority::MODERATE
    }
}

impl TaskPriority {
    /// The rank of the level, `CRITICAL` being 0 and `LOW` being 4.
    pub open spec fn rank(self) -> int {
        match self {
            TaskPriority::CRITICAL => 0,
            TaskPriority::IMPORTANT => 1,
            TaskPriority::HIGH => 2,
            TaskPriority::MODERATE => 3,
            TaskPriority::LOW => 4,
        }
    }

    /// The priority number handed to the worker pool (lower runs first).
    pub fn pool_priority(&self) -> (r: usize)
        ensures
            r == 100 * self.rank(),
    {
        match self {
            TaskPriority::CRITICAL => 0,
            TaskPriority::IMPORTANT => 100,
            TaskPriority::HIGH => 200,
            TaskPriority::MODERATE => 300,
            TaskPriority::LOW => 400,
        }
    }
}

} // verus!
