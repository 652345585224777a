use vstd::prelude::*;

verus! {

/// The listeners of an event or of an observed field, each under its own identifier.
pub struct ListenerRegistry<L> {
    entries: Vec<(u128, L)>,
}

/// The identifiers of `entries`, in order.
pub open spec fn ids_of<L>(entries: Seq<(u128, L)>) -> Seq<u128> {
    entries.map_values(|e: (u128, L)| e.0)
}

impl<L> View for ListenerRegistry<L> {
    type V = Seq<(u128, L)>;

    /// The listeners with their identifiers, oldest first.
    closed spec fn view(&self) -> Seq<(u128, L)> {
        self.entries@
    }
}

impl<L> ListenerRegistry<L> {
    /// No identifier is used twice.
    pub open spec fn well_formed(&self) -> bool {
        ids_of(self@).no_duplicates()
    }

    /// Whether a listener is registered under `id`.
    pub open spec fn has(&self, id: u128) -> bool {
        ids_of(self@).contains(id)
    }

    /// An empty registry.
    pub fn new() -> (r: Self)
        ensures
            r@.len() == 0,
            r.well_formed(),
    {
        let r = ListenerRegistry { entries: Vec::new() };
        assert(ids_of(r@) =~= Seq::<u128>::empty());
        r
    }

    /// Where the listener under `id` sits, if there is one.
    fn position(&self, id: u128) -> (r: Option<usize>)
        ensures
            r matches Some(i) ==> i < self@.len() && self@[i as int].0 == id,
            r is None ==> !self.has(id),
    {
        let mut i: usize = 0;
        while i < self.entries.len()
            invariant
                i <= self.entries@.len(),
                forall|j: int| 0 <= j < i ==> self.entries@[j].0 != id,
            decreases self.entries@.len() - i,
        {
            if self.entries[i].0 == id {
                return Some(i);
            }
            i = i + 1;
        }
        proof {
            if ids_of(self@).contains(id) {
                let k = choose|k: int| 0 <= k < ids_of(self@).len() && ids_of(self@)[k] == id;
                assert(self.entries@[k].0 == id);
            }
        }
        None
    }

    /// Registers `listener` under `id`, replacing a listener already registered under it.
    pub fn subscribe(&mut self, id: u128, listener: L)
        requires
            old(self).well_formed(),
        ensures
            final(self).well_formed(),
            final(self).has(id),
            forall|other: u128| other != id ==> (final(self).has(other) == old(self).has(other)),
            exists|i: int| 0 <= i < final(self)@.len() && final(self)@[i] == (id, listener),
            old(self).has(id) ==> exists|i: int|
                0 <= i < old(self)@.len() && old(self)@[i].0 == id && final(self)@ == old(self)@.update(i, (id, listener)),
            !old(self).has(id) ==> final(self)@ == old(self)@.push((id, listener)),
    {
        match self.position(id) {
            Some(i) => {
                let ghost before = self@;
                self.entries.set(i, (id, listener));
                proof {
                    assert(ids_of(self@) =~= ids_of(before));
                    assert(self@[i as int] == (id, listener));
                    assert(ids_of(self@)[i as int] == id);
                }
            },
            None => {
                let ghost before = self@;
                self.entries.push((id, listener));
                proof {
                    assert(ids_of(self@) =~= ids_of(before).push(id));
                    assert(ids_of(self@)[before.len() as int] == id);
                    assert(self@[before.len() as int] == (id, listener));
                    assert forall|other: u128| other != id implies (self.has(other) == ids_of(before).contains(other)) by {
                        if ids_of(before).contains(other) {
                            let k = choose|k: int| 0 <= k < ids_of(before).len() && ids_of(before)[k] == other;
                            assert(ids_of(self@)[k] == other);
                        }
                        if self.has(other) {
                            let k = choose|k: int| 0 <= k < ids_of(self@).len() && ids_of(self@)[k] == other;
                            assert(k < before.len());
                            assert(ids_of(before)[k] == other);
                        }
                    }
                }
            },
        }
    }

    /// Removes the listener under `id`, if there is one.
    pub fn unsubscribe(&mut self, id: u128)
        requires
            old(self).well_formed(),
        ensures
            final(self).well_formed(),
            !final(self).has(id),
            forall|other: u128| other != id ==> (final(self).has(other) == old(self).has(other)),
            old(self).has(id) ==> exists|i: int|
                0 <= i < old(self)@.len() && old(self)@[i].0 == id && final(self)@ == old(self)@.remove(i),
            !old(self).has(id) ==> final(self)@ == old(self)@,
    {
        match self.position(id) {
            Some(i) => {
                let ghost before = self@;
                self.entries.remove(i);
                proof {
                    let ib = ids_of(before);
                    let ia = ids_of(self@);
                    assert(ia =~= ib.remove(i as int));
                    assert(ib[i as int] == id);
                    assert forall|x: u128| ia.contains(x) <==> (ib.contains(x) && x != id) by {
                        if ia.contains(x) {
                            let k = choose|k: int| 0 <= k < ia.len() && ia[k] == x;
                            if k < i {
                                assert(ib[k] == x);
                            } else {
                                assert(ib[k + 1] == x);
                            }
                        }
                        if ib.contains(x) && x != id {
                            let k = choose|k: int| 0 <= k < ib.len() && ib[k] == x;
                            if k < i {
                                assert(ia[k] == x);
                            } else {
                                assert(k != i);
                                assert(ia[k - 1] == x);
                            }
                        }
                    }
                    assert forall|a: int, b: int| 0 <= a < ia.len() && 0 <= b < ia.len() && a != b implies ia[a] != ia[b] by {
                        let a2 = if a < i { a } else { a + 1 };
                        let b2 = if b < i { b } else { b + 1 };
                        assert(ia[a] == ib[a2]);
                        assert(ia[b] == ib[b2]);
                    }
                }
            },
            None => {},
        }
    }

    /// Number of listeners.
    pub fn len(&self) -> (r: usize)
        ensures
            r == self@.len(),
    {
        self.entries.len()
    }

    /// The listener at position `i` (for notifying each in turn).
    pub fn listener_at(&self, i: usize) -> (r: &L)
        requires
            i < self@.len(),
        ensures
            *r == self@[i as int].1,
    {
        &self.entries[i].1
    }
}

} // verus!
