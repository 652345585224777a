use dashmap::DashMap;
use vstd::prelude::*;

verus! {

#[verifier::external_type_specification]
#[verifier::external_body]
#[verifier::reject_recursive_types(K)]
#[verifier::reject_recursive_types(V)]
#[verifier::reject_recursive_types(S)]
pub struct ExDashMap<K, V, S>(DashMap<K, V, S>);

/// The indices registered in a registry map (its keys).
pub uninterp spec fn registry_keys(map: DashMap<usize, ()>) -> Set<usize>;

/// Calls `DashMap::new`. Claimed: the map has no key.
#[verifier::external_body]
fn registry_new() -> (r: DashMap<usize, ()>)
    ensures
        registry_keys(r) == Set::<usize>::empty(),
{
    DashMap::new()
}

/// Calls `DashMap::contains_key`. Claimed: whether `idx` is a key.
#[verifier::external_body]
fn registry_contains(map: &DashMap<usize, ()>, idx: usize) -> (r: bool)
    ensures
        r == registry_keys(*map).contains(idx),
{
    map.contains_key(&idx)
}

/// Calls `DashMap::insert(idx, ())`. Claimed: `idx` becomes a key and the other keys stay.
#[verifier::external_body]
fn registry_insert(map: &mut DashMap<usize, ()>, idx: usize)
    ensures
        registry_keys(*final(map)) == registry_keys(*old(map)).insert(idx),
{
    map.insert(idx, ());
}

/// Calls `DashMap::remove(&idx)`. Claimed: `idx` is no longer a key and the other keys stay.
#[verifier::external_body]
fn registry_remove(map: &mut DashMap<usize, ()>, idx: usize)
    ensures
        registry_keys(*final(map)) == registry_keys(*old(map)).remove(idx),
{
    map.remove(&idx);
}

/// Calls `DashMap::clear`. Claimed: no key is left.
#[verifier::external_body]
fn registry_clear(map: &mut DashMap<usize, ()>)
    ensures
        registry_keys(*final(map)) == Set::<usize>::empty(),
{
    map.clear();
}

/// One scheduled run: the task, the instant it is due (nanoseconds since the epoch) and the
/// index under which the task was stored.
pub struct ScheduledEntry<T> {
    pub task: T,
    pub time: i64,
    pub idx: usize,
}

/// The abstract state of a task store: the pending runs, earliest first; the indices of the
/// tasks that are registered; and the index the next stored task receives.
pub struct StoreView<T> {
    pub queue: Seq<ScheduledEntry<T>>,
    pub registered: Set<usize>,
    pub next_id: usize,
}

/// The runs are in order of their due instants.
pub open spec fn sorted_by_time<T>(q: Seq<ScheduledEntry<T>>) -> bool {
    forall|i: int, j: int| 0 <= i <= j < q.len() ==> q[i].time <= q[j].time
}

/// Where a run due at `time` joins the queue: after every run due no later than it.
pub open spec fn insert_pos<T>(q: Seq<ScheduledEntry<T>>, time: i64) -> nat
    decreases q.len(),
{
    if q.len() == 0 {
        0
    } else if q[0].time <= time {
        1 + insert_pos(q.drop_first(), time)
    } else {
        0
    }
}

/// The index after `id`, wrapping to 0 after `usize::MAX`.
pub open spec fn next_index(id: usize) -> usize {
    if id == usize::MAX { 0 } else { (id + 1) as usize }
}

impl<T> StoreView<T> {
    /// The state after a run of `task` at `time` under index `idx` joins the queue.
    pub open spec fn scheduled(self, task: T, time: i64, idx: usize) -> StoreView<T> {
        StoreView {
            queue: self.queue.insert(insert_pos(self.queue, time) as int, ScheduledEntry { task, time, idx }),
            ..self
        }
    }

    /// The state after `task` is stored with its first run at `time`: it is registered under
    /// `next_id` and its run joins the queue.
    pub open spec fn stored(self, task: T, time: i64) -> StoreView<T> {
        StoreView {
            queue: self.scheduled(task, time, self.next_id).queue,
            registered: self.registered.insert(self.next_id),
            next_id: next_index(self.next_id),
        }
    }

    /// The state after the earliest run leaves the queue (nothing changes on an empty queue).
    pub open spec fn popped(self) -> StoreView<T> {
        if self.queue.len() == 0 { self } else { StoreView { queue: self.queue.drop_first(), ..self } }
    }

    /// The state after the task under `idx` is unregistered; its pending runs stay queued.
    pub open spec fn removed(self, idx: usize) -> StoreView<T> {
        StoreView { registered: self.registered.remove(idx), ..self }
    }

    /// The state after everything is cleared; the index counter keeps going.
    pub open spec fn cleared(self) -> StoreView<T> {
        StoreView { queue: Seq::empty(), registered: Set::empty(), ..self }
    }
}

/// The default in-memory task store: a queue of pending runs ordered by due instant (runs
/// due at the same instant keep their order of arrival) and a concurrent map whose keys are
/// the registered indices.
pub struct EphemeralDefaultTaskStore<T> {
    queue: Vec<ScheduledEntry<T>>,
    registered: DashMap<usize, ()>,
    next_id: usize,
    wrapped: Ghost<bool>,
}

impl<T> View for EphemeralDefaultTaskStore<T> {
    type V = StoreView<T>;

    closed spec fn view(&self) -> StoreView<T> {
        StoreView { queue: self.queue@, registered: registry_keys(self.registered), next_id: self.next_id }
    }
}

/// A run due no later than `time` at every index before `i`, and a later one at `i`, puts
/// the insertion point at `i`.
pub proof fn lemma_insert_pos<T>(q: Seq<ScheduledEntry<T>>, time: i64, i: int)
    requires
        0 <= i <= q.len(),
        forall|j: int| 0 <= j < i ==> q[j].time <= time,
        i == q.len() || q[i].time > time,
    ensures
        insert_pos(q, time) == i,
    decreases q.len(),
{
    if q.len() > 0 && i > 0 {
        assert forall|j: int| 0 <= j < i - 1 implies q.drop_first()[j].time <= time by {
            assert(q.drop_first()[j] == q[j + 1]);
        }
        if i - 1 < q.drop_first().len() {
            assert(q.drop_first()[i - 1] == q[i]);
        }
        lemma_insert_pos(q.drop_first(), time, i - 1);
    }
}

/// Inserting a run at its insertion point keeps the queue in order.
pub proof fn lemma_scheduled_sorted<T>(q: Seq<ScheduledEntry<T>>, task: T, time: i64, idx: usize, i: int)
    requires
        sorted_by_time(q),
        0 <= i <= q.len(),
        forall|j: int| 0 <= j < i ==> q[j].time <= time,
        i == q.len() || q[i].time > time,
    ensures
        sorted_by_time(q.insert(i, ScheduledEntry { task, time, idx })),
{
    let r = q.insert(i, ScheduledEntry { task, time, idx });
    assert forall|a: int, b: int| 0 <= a <= b < r.len() implies r[a].time <= r[b].time by {
        if a < i && b < i {
        } else if a < i && b == i {
        } else if a < i {
            assert(r[b] == q[b - 1]);
        } else if a == i && b == i {
        } else if a == i {
            assert(r[b] == q[b - 1]);
            assert(q[i].time <= q[b - 1].time);
        } else {
            assert(r[a] == q[a - 1]);
            assert(r[b] == q[b - 1]);
        }
    }
}

impl<T> EphemeralDefaultTaskStore<T> {
    /// Whether the index counter has ever wrapped around past `usize::MAX`.
    pub closed spec fn has_wrapped(&self) -> bool {
        self.wrapped@
    }

    /// The store's invariant: the queue is ordered by due instant, and until the counter
    /// wraps around every registered index lies below the next one to hand out.
    pub closed spec fn well_formed(&self) -> bool {
        &&& sorted_by_time(self.queue@)
        &&& !self.wrapped@ ==> forall|i: usize| #[trigger] registry_keys(self.registered).contains(i) ==> i < self.next_id
    }

    /// An empty store whose first stored task receives index 0.
    pub fn new() -> (r: Self)
        ensures
            r.well_formed(),
            r@.queue == Seq::<ScheduledEntry<T>>::empty(),
            r@.registered == Set::<usize>::empty(),
            r@.next_id == 0,
            !r.has_wrapped(),
    {
        EphemeralDefaultTaskStore { queue: Vec::new(), registered: registry_new(), next_id: 0, wrapped: Ghost(false) }
    }

    /// Peeks at the earliest pending run without changing the store.
    pub fn retrieve(&self) -> (r: Option<&ScheduledEntry<T>>)
        requires
            self.well_formed(),
        ensures
            r is None <==> self@.queue.len() == 0,
            r matches Some(e) ==> *e == self@.queue[0],
            r matches Some(e) ==> forall|i: int| 0 <= i < self@.queue.len() ==> e.time <= #[trigger] self@.queue[i].time,
    {
        if self.queue.len() == 0 {
            None
        } else {
            Some(&self.queue[0])
        }
    }

    /// Removes the earliest pending run, if there is one.
    pub fn pop(&mut self)
        requires
            old(self).well_formed(),
        ensures
            final(self).well_formed(),
            final(self)@ == old(self)@.popped(),
            final(self).has_wrapped() == old(self).has_wrapped(),
    {
        if self.queue.len() > 0 {
            let _ = self.queue.remove(0);
            assert(self.queue@ =~= old(self)@.queue.drop_first());
        }
    }

    /// Whether a task is registered under `idx`.
    pub fn contains(&self, idx: usize) -> (r: bool)
        ensures
            r == self@.registered.contains(idx),
    {
        registry_contains(&self.registered, idx)
    }

    /// Finds where a run due at `time` joins the queue.
    fn find_insert_pos(&self, time: i64) -> (r: usize)
        ensures
            r == insert_pos(self.queue@, time),
            r <= self.queue@.len(),
            forall|j: int| 0 <= j < r ==> self.queue@[j].time <= time,
            r == self.queue@.len() || self.queue@[r as int].time > time,
    {
        let mut i: usize = 0;
        while i < self.queue.len() && self.queue[i].time <= time
            invariant
                i <= self.queue@.len(),
                forall|j: int| 0 <= j < i ==> self.queue@[j].time <= time,
            decreases self.queue@.len() - i,
        {
            i = i + 1;
        }
        proof {
            lemma_insert_pos(self.queue@, time, i as int);
        }
        i
    }

    /// Queues another run of `task`, registered under `idx`, due at `time` (the instant its
    /// schedule computed). The registration is not checked: a run of a removed task is
    /// skipped when it comes due.
    pub fn reschedule(&mut self, task: T, time: i64, idx: usize)
        requires
            old(self).well_formed(),
        ensures
            final(self).well_formed(),
            final(self)@ == old(self)@.scheduled(task, time, idx),
            final(self).has_wrapped() == old(self).has_wrapped(),
    {
        let pos = self.find_insert_pos(time);
        proof {
            lemma_scheduled_sorted(self.queue@, task, time, idx, pos as int);
        }
        self.queue.insert(pos, ScheduledEntry { task, time, idx });
    }

    /// Registers `task` under a new index and queues its first run, due at `time` (the
    /// instant its schedule computed). Returns the index, which no registered task holds
    /// unless the counter has wrapped around.
    pub fn store(&mut self, task: T, time: i64) -> (r: usize)
        requires
            old(self).well_formed(),
        ensures
            final(self).well_formed(),
            r == old(self)@.next_id,
            final(self)@ == old(self)@.stored(task, time),
            !old(self).has_wrapped() ==> !old(self)@.registered.contains(r),
            final(self).has_wrapped() == (old(self).has_wrapped() || old(self)@.next_id == usize::MAX),
    {
        let idx = self.next_id;
        if self.next_id == usize::MAX {
            self.wrapped = Ghost(true);
        }
        self.next_id = self.next_id.wrapping_add(1);
        registry_insert(&mut self.registered, idx);
        self.reschedule(task, time, idx);
        idx
    }

    /// Unregisters the task under `idx`; its queued runs are skipped when they come due.
    pub fn remove(&mut self, idx: usize)
        requires
            old(self).well_formed(),
        ensures
            final(self).well_formed(),
            final(self)@ == old(self)@.removed(idx),
            final(self).has_wrapped() == old(self).has_wrapped(),
    {
        registry_remove(&mut self.registered, idx);
    }

    /// Empties the queue and unregisters every task.
    pub fn clear(&mut self)
        requires
            old(self).well_formed(),
        ensures
            final(self).well_formed(),
            final(self)@ == old(self)@.cleared(),
            final(self).has_wrapped() == old(self).has_wrapped(),
    {
        self.queue.clear();
        registry_clear(&mut self.registered);
        assert(self.queue@ =~= Seq::<ScheduledEntry<T>>::empty());
    }

    /// Number of pending runs.
    pub fn pending(&self) -> (r: usize)
        ensures
            r == self@.queue.len(),
    {
        self.queue.len()
    }
}

} // verus!
