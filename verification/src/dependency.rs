use vstd::prelude::*;

verus! {

/// A dependency made of one or two other dependencies under a boolean operator, with its
/// own enabled flag.
pub enum LogicalDependency<D> {
    AND { dep1: D, dep2: D, is_enabled: bool },
    OR { dep1: D, dep2: D, is_enabled: bool },
    XOR { dep1: D, dep2: D, is_enabled: bool },
    NOT(D, bool),
}

/// The operator of a logical dependency applied to what its operands report (`second` is
/// not read by `NOT`).
pub open spec fn logical_value<D>(dep: LogicalDependency<D>, first: bool, second: bool) -> bool {
    match dep {
        LogicalDependency::AND { .. } => first && second,
        LogicalDependency::OR { .. } => first || second,
        LogicalDependency::XOR { .. } => first != second,
        LogicalDependency::NOT(..) => !first,
    }
}

impl<D> LogicalDependency<D> {
    /// Resolved when both operands are.
    pub fn and(dep1: D, dep2: D) -> (r: Self)
        ensures
            r == (LogicalDependency::AND { dep1, dep2, is_enabled: true }),
    {
        LogicalDependency::AND { dep1, dep2, is_enabled: true }
    }

    /// Resolved when either operand is.
    pub fn or(dep1: D, dep2: D) -> (r: Self)
        ensures
            r == (LogicalDependency::OR { dep1, dep2, is_enabled: true }),
    {
        LogicalDependency::OR { dep1, dep2, is_enabled: true }
    }

    /// Resolved when exactly one operand is.
    pub fn xor(dep1: D, dep2: D) -> (r: Self)
        ensures
            r == (LogicalDependency::XOR { dep1, dep2, is_enabled: true }),
    {
        LogicalDependency::XOR { dep1, dep2, is_enabled: true }
    }

    /// Resolved when the operand is not.
    pub fn not(dep: D) -> (r: Self)
        ensures
            r == LogicalDependency::NOT(dep, true),
    {
        LogicalDependency::NOT(dep, true)
    }

    pub open spec fn enabled_flag(self) -> bool {
        match self {
            LogicalDependency::AND { is_enabled, .. } => is_enabled,
            LogicalDependency::OR { is_enabled, .. } => is_enabled,
            LogicalDependency::XOR { is_enabled, .. } => is_enabled,
            LogicalDependency::NOT(_, is_enabled) => is_enabled,
        }
    }

    /// The same dependency with its enabled flag set to `value`.
    pub open spec fn with_enabled(self, value: bool) -> Self {
        match self {
            LogicalDependency::AND { dep1, dep2, .. } => LogicalDependency::AND { dep1, dep2, is_enabled: value },
            LogicalDependency::OR { dep1, dep2, .. } => LogicalDependency::OR { dep1, dep2, is_enabled: value },
            LogicalDependency::XOR { dep1, dep2, .. } => LogicalDependency::XOR { dep1, dep2, is_enabled: value },
            LogicalDependency::NOT(dep, _) => LogicalDependency::NOT(dep, value),
        }
    }

    /// The first operand.
    pub fn first(&self) -> (r: &D)
        ensures
            match *self {
                LogicalDependency::AND { dep1, .. } => *r == dep1,
                LogicalDependency::OR { dep1, .. } => *r == dep1,
                LogicalDependency::XOR { dep1, .. } => *r == dep1,
                LogicalDependency::NOT(dep, _) => *r == dep,
            },
    {
        match self {
            LogicalDependency::AND { dep1, .. } => dep1,
            LogicalDependency::OR { dep1, .. } => dep1,
            LogicalDependency::XOR { dep1, .. } => dep1,
            LogicalDependency::NOT(dep, _) => dep,
        }
    }

    /// The second operand (`NOT` has none).
    pub fn second(&self) -> (r: Option<&D>)
        ensures
            match *self {
                LogicalDependency::AND { dep2, .. } => r == Some(&dep2),
                LogicalDependency::OR { dep2, .. } => r == Some(&dep2),
                LogicalDependency::XOR { dep2, .. } => r == Some(&dep2),
                LogicalDependency::NOT(..) => r is None,
            },
    {
        match self {
            LogicalDependency::AND { dep2, .. } => Some(dep2),
            LogicalDependency::OR { dep2, .. } => Some(dep2),
            LogicalDependency::XOR { dep2, .. } => Some(dep2),
            LogicalDependency::NOT(..) => None,
        }
    }

    /// Whether the second operand must be asked once the first reported `first`: `AND` asks it
    /// only after a resolved first operand, `OR` only after an unresolved one, `XOR` always,
    /// `NOT` never.
    pub fn needs_second(&self, first: bool) -> (r: bool)
        ensures
            match *self {
                LogicalDependency::AND { .. } => r == first,
                LogicalDependency::OR { .. } => r == !first,
                LogicalDependency::XOR { .. } => r,
                LogicalDependency::NOT(..) => !r,
            },
            !r ==> forall|b: bool| #[trigger] logical_value(*self, first, b) == logical_value(*self, first, false),
    {
        match self {
            LogicalDependency::AND { .. } => first,
            LogicalDependency::OR { .. } => !first,
            LogicalDependency::XOR { .. } => true,
            LogicalDependency::NOT(..) => false,
        }
    }

    /// Whether the dependency is resolved, given what its operands reported (`second` is not
    /// read where it is not needed).
    pub fn resolve_with(&self, first: bool, second: bool) -> (r: bool)
        ensures
            r == logical_value(*self, first, second),
    {
        match self {
            LogicalDependency::AND { .. } => first && second,
            LogicalDependency::OR { .. } => first || second,
            LogicalDependency::XOR { .. } => first != second,
            LogicalDependency::NOT(..) => !first,
        }
    }

    pub fn is_enabled(&self) -> (r: bool)
        ensures
            r == self.enabled_flag(),
    {
        match self {
            LogicalDependency::AND { is_enabled, .. } => *is_enabled,
            LogicalDependency::OR { is_enabled, .. } => *is_enabled,
            LogicalDependency::XOR { is_enabled, .. } => *is_enabled,
            LogicalDependency::NOT(_, is_enabled) => *is_enabled,
        }
    }

    fn set_enabled(&mut self, value: bool)
        ensures
            *final(self) == old(self).with_enabled(value),
    {
        match self {
            LogicalDependency::AND { is_enabled, .. } => { *is_enabled = value; },
            LogicalDependency::OR { is_enabled, .. } => { *is_enabled = value; },
            LogicalDependency::XOR { is_enabled, .. } => { *is_enabled = value; },
            LogicalDependency::NOT(_, is_enabled) => { *is_enabled = value; },
        }
    }

    pub fn enable(&mut self)
        ensures
            *final(self) == old(self).with_enabled(true),
            final(self).enabled_flag(),
    {
        self.set_enabled(true);
    }

    pub fn disable(&mut self)
        ensures
            *final(self) == old(self).with_enabled(false),
            !final(self).enabled_flag(),
    {
        self.set_enabled(false);
    }
}

/// A dependency that asks a function each time whether it is resolved (nothing is cached,
/// and it cannot be resolved by hand). It starts enabled and can be disabled.
pub struct DynamicDependency<F> {
    func: F,
    is_enabled: bool,
}

impl<F> DynamicDependency<F> {
    pub closed spec fn enabled_flag(&self) -> bool {
        self.is_enabled
    }

    pub closed spec fn function(&self) -> F {
        self.func
    }

    /// The function asked whether the dependency is resolved.
    pub fn func(&self) -> (r: &F)
        ensures
            *r == self.function(),
    {
        &self.func
    }

    pub fn new(func: F) -> (r: Self)
        ensures
            r.function() == func,
            r.enabled_flag(),
    {
        DynamicDependency { func, is_enabled: true }
    }

    pub fn enable(&mut self)
        ensures
            final(self).enabled_flag(),
            final(self).function() == old(self).function(),
    {
        self.is_enabled = true;
    }

    pub fn disable(&mut self)
        ensures
            !final(self).enabled_flag(),
            final(self).function() == old(self).function(),
    {
        self.is_enabled = false;
    }

    pub fn is_enabled(&self) -> (r: bool)
        ensures
            r == self.enabled_flag(),
    {
        self.is_enabled
    }
}

/// `a + 1` on `u64`, wrapping past `u64::MAX`.
pub open spec fn wrapping_succ(a: u64) -> u64 {
    if a == u64::MAX { 0 } else { (a + 1) as u64 }
}

/// The run counter of a task dependency: resolved once at least `minimum_runs` of the
/// watched task's runs have counted.
pub struct TaskDependencyCounter {
    minimum_runs: u64,
    counter: u64,
}

impl TaskDependencyCounter {
    pub closed spec fn minimum_runs(&self) -> u64 {
        self.minimum_runs
    }

    pub closed spec fn counted(&self) -> u64 {
        self.counter
    }

    pub open spec fn resolved(&self) -> bool {
        self.counted() >= self.minimum_runs()
    }

    /// A counter needing `minimum_runs` (at least one) counted runs.
    pub fn new(minimum_runs: u64) -> (r: Self)
        requires
            minimum_runs >= 1,
        ensures
            r.minimum_runs() == minimum_runs,
            r.counted() == 0,
    {
        TaskDependencyCounter { minimum_runs, counter: 0 }
    }

    /// Records one run of the watched task; it adds to the counter when the resolve behavior
    /// counts it.
    pub fn record_run(&mut self, counts: bool)
        ensures
            final(self).minimum_runs() == old(self).minimum_runs(),
            counts ==> final(self).counted() == wrapping_succ(old(self).counted()),
            !counts ==> final(self).counted() == old(self).counted(),
    {
        if counts {
            self.counter = self.counter.wrapping_add(1);
        }
    }

    pub fn is_resolved(&self) -> (r: bool)
        ensures
            r == self.resolved(),
    {
        self.counter >= self.minimum_runs
    }

    /// Marks the dependency resolved by hand.
    pub fn resolve(&mut self)
        ensures
            final(self).minimum_runs() == old(self).minimum_runs(),
            final(self).counted() == old(self).minimum_runs(),
            final(self).resolved(),
    {
        self.counter = self.minimum_runs;
    }

    /// Resets the count.
    pub fn unresolve(&mut self)
        ensures
            final(self).minimum_runs() == old(self).minimum_runs(),
            final(self).counted() == 0,
    {
        self.counter = 0;
    }
}

/// Counts only the watched task's successful runs (the default behavior).
#[derive(Clone, Copy, Debug)]
pub struct TaskResolveSuccessOnly;

/// Counts only the watched task's failed runs.
#[derive(Clone, Copy, Debug)]
pub struct TaskResolveFailureOnly;

/// Counts every run of the watched task.
#[derive(Clone, Copy, Debug)]
pub struct TaskResolveIdentityOnly;

impl TaskResolveSuccessOnly {
    pub fn should_count(&self, failed: bool) -> (r: bool)
        ensures
            r == !failed,
    {
        !failed
    }
}

impl TaskResolveFailureOnly {
    pub fn should_count(&self, failed: bool) -> (r: bool)
        ensures
            r == failed,
    {
        failed
    }
}

impl TaskResolveIdentityOnly {
    pub fn should_count(&self, failed: bool) -> (r: bool)
        ensures
            r,
    {
        true
    }
}

} // verus!
