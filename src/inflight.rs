//! The set of requests being served. Its emptiness tells when the shared session
//! can be put back in its neutral state.
use vstd::prelude::*;

verus! {

/// Identifiers of the requests being served, each held once.
pub struct InFlight {
    ids: Vec<u64>,
}

impl View for InFlight {
    type V = Set<u64>;

    closed spec fn view(&self) -> Set<u64> {
        self.ids@.to_set()
    }
}

impl InFlight {
    /// Each identifier is held once.
    pub closed spec fn wf(&self) -> bool {
        self.ids@.no_duplicates()
    }

    /// An empty set.
    pub fn new() -> (r: InFlight)
        ensures
            r.wf(),
            r@ == Set::<u64>::empty(),
    {
        let r = InFlight { ids: Vec::new() };
        assert(r@ =~= Set::<u64>::empty());
        r
    }

    fn position(&self, id: u64) -> (r: Option<usize>)
        ensures
            match r {
                Some(i) => i < self.ids@.len() && self.ids@[i as int] == id,
                None => !self.ids@.contains(id),
            },
    {
        let mut i: usize = 0;
        while i < self.ids.len()
            invariant
                i <= self.ids@.len(),
                forall|k: int| 0 <= k < i ==> self.ids@[k] != id,
            decreases self.ids@.len() - i,
        {
            if self.ids[i] == id {
                return Some(i);
            }
            i += 1;
        }
        None
    }

    /// Whether request `id` is being served.
    pub fn contains(&self, id: u64) -> (r: bool)
        ensures
            r == self@.contains(id),
    {
        self.position(id).is_some()
    }

    /// Whether no request is being served.
    pub fn is_empty(&self) -> (r: bool)
        ensures
            r == (self@ == Set::<u64>::empty()),
    {
        proof {
            if self.ids@.len() > 0 {
                assert(self@.contains(self.ids@[0]));
            } else {
                assert(self@ =~= Set::<u64>::empty());
            }
        }
        self.ids.len() == 0
    }

    /// Registers request `id`. Returns false, and changes nothing, when a request
    /// with that identifier is already being served.
    pub fn begin(&mut self, id: u64) -> (r: bool)
        requires
            old(self).wf(),
        ensures
            final(self).wf(),
            r == !old(self)@.contains(id),
            final(self)@ == old(self)@.insert(id),
    {
        if self.position(id).is_some() {
            assert(self@ =~= self@.insert(id));
            return false;
        }
        let ghost before = self.ids@;
        self.ids.push(id);
        proof {
            assert(self.ids@ == before.push(id));
            assert(self.ids@.no_duplicates()) by {
                assert forall|a: int, b: int|
                    0 <= a < self.ids@.len() && 0 <= b < self.ids@.len() && a != b implies
                    self.ids@[a] != self.ids@[b] by {
                    if a < before.len() && b < before.len() {
                    } else if a < before.len() {
                        assert(before.contains(before[a]));
                    } else {
                        assert(before.contains(before[b]));
                    }
                }
            }
            assert forall|x: u64| self.ids@.contains(x) <==> (before.contains(x) || x == id) by {
                if self.ids@.contains(x) {
                    let k = choose|k: int| 0 <= k < self.ids@.len() && self.ids@[k] == x;
                    if k < before.len() {
                        assert(before[k] == x);
                    }
                }
                if before.contains(x) {
                    let k = choose|k: int| 0 <= k < before.len() && before[k] == x;
                    assert(self.ids@[k] == x);
                }
                if x == id {
                    assert(self.ids@[before.len() as int] == x);
                }
            }
            assert(self@ =~= before.to_set().insert(id));
        }
        true
    }

    /// Removes request `id`. Returns true exactly when this empties a set that held
    /// it: the moment the session becomes idle.
    pub fn end(&mut self, id: u64) -> (idle: bool)
        requires
            old(self).wf(),
        ensures
            final(self).wf(),
            final(self)@ == old(self)@.remove(id),
            idle == (old(self)@.contains(id) && final(self)@ == Set::<u64>::empty()),
    {
        match self.position(id) {
            None => {
                assert(self@ =~= self@.remove(id));
                false
            },
            Some(i) => {
                let ghost before = self.ids@;
                self.ids.remove(i);
                proof {
                    let after = self.ids@;
                    assert(after == before.remove(i as int));
                    assert forall|k: int| 0 <= k < after.len() implies
                        #[trigger] after[k] == before[if k < i { k } else { k + 1 }] by {}
                    assert(after.no_duplicates()) by {
                        assert forall|a: int, b: int|
                            0 <= a < after.len() && 0 <= b < after.len() && a != b implies
                            after[a] != after[b] by {
                            let a2 = if a < i { a } else { a + 1 };
                            let b2 = if b < i { b } else { b + 1 };
                            assert(after[a] == before[a2]);
                            assert(after[b] == before[b2]);
                        }
                    }
                    assert forall|x: u64| after.contains(x) <==> (before.contains(x) && x != id) by {
                        if after.contains(x) {
                            let k = choose|k: int| 0 <= k < after.len() && after[k] == x;
                            let k2 = if k < i { k } else { k + 1 };
                            assert(after[k] == before[k2]);
                            assert(k2 != i);
                        }
                        if before.contains(x) && x != id {
                            let k = choose|k: int| 0 <= k < before.len() && before[k] == x;
                            assert(k != i);
                            let k2 = if k < i { k } else { k - 1 };
                            assert(after[k2] == before[k]);
                        }
                    }
                    assert(self@ =~= before.to_set().remove(id));
                }
                let idle = self.ids.len() == 0;
                proof {
                    if self.ids@.len() > 0 {
                        assert(self@.contains(self.ids@[0]));
                    } else {
                        assert(self@ =~= Set::<u64>::empty());
                    }
                }
                idle
            },
        }
    }
}

} // verus!
