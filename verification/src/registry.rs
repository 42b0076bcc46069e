//! The process-wide registry of live sessions: explicit state with a
//! documented lifecycle, not an implicit singleton. It hands out the
//! opaque session ids — unique for the lifetime of the supervising
//! program — and keeps the set of live ids for bulk operations.

use vstd::prelude::*;

verus! {

/// Explicit process-wide state: the ids of every live session, and the
/// next id to hand out. Ids are never reused.
pub struct SessionRegistry {
    /// The ids of the sessions currently live, each registered once.
    pub live: Vec<u64>,
    /// The next id to hand out; every id ever issued is below it.
    pub next_id: u64,
}

impl SessionRegistry {
    /// Every live id was issued (lies below `next_id`) and no id is
    /// registered twice.
    pub open spec fn wf(self) -> bool {
        &&& forall|k: int| 0 <= k < self.live@.len() ==> #[trigger] self.live@[k] < self.next_id
        &&& forall|a: int, b: int|
            #![trigger self.live@[a], self.live@[b]]
            0 <= a < b < self.live@.len() ==> self.live@[a] != self.live@[b]
    }

    /// The registry at program start: nothing live, ids from zero.
    pub fn init() -> (r: SessionRegistry)
        ensures
            r.wf(),
            r.live@.len() == 0,
            r.next_id == 0,
    {
        SessionRegistry { live: Vec::new(), next_id: 0 }
    }

    /// Register a new live session and hand out its id: fresh — never
    /// issued before, so held by no live session — and unique for the
    /// registry's lifetime.
    pub fn register(&mut self) -> (id: u64)
        requires
            old(self).wf(),
            old(self).next_id < u64::MAX,
        ensures
            final(self).wf(),
            id == old(self).next_id,
            !old(self).live@.contains(id),
            final(self).live@ == old(self).live@.push(id),
            final(self).next_id == old(self).next_id + 1,
    {
        let id = self.next_id;
        proof {
            assert(!self.live@.contains(id)) by {
                assert(forall|k: int| 0 <= k < self.live@.len() ==> self.live@[k] != id);
            }
        }
        self.live.push(id);
        self.next_id = self.next_id + 1;
        id
    }

    /// Whether a session with this id is live.
    pub fn is_live(&self, id: u64) -> (r: bool)
        ensures
            r == self.live@.contains(id),
    {
        let mut i: usize = 0;
        while i < self.live.len()
            invariant
                i <= self.live@.len(),
                forall|k: int| 0 <= k < i ==> self.live@[k] != id,
            decreases self.live@.len() - i,
        {
            if self.live[i] == id {
                return true;
            }
            i += 1;
        }
        false
    }

    /// Remove a session from the live set. Reports whether it was live;
    /// afterwards it is not, and every other live session still is.
    pub fn deregister(&mut self, id: u64) -> (found: bool)
        requires
            old(self).wf(),
        ensures
            final(self).wf(),
            found == old(self).live@.contains(id),
            !final(self).live@.contains(id),
            forall|x: u64|
                #[trigger] final(self).live@.contains(x) <==> (old(self).live@.contains(x) && x
                    != id),
            final(self).next_id == old(self).next_id,
    {
        let mut i: usize = 0;
        while i < self.live.len()
            invariant
                old(self).wf(),
                i <= self.live@.len(),
                forall|k: int| 0 <= k < i ==> self.live@[k] != id,
                *self == *old(self),
            decreases self.live@.len() - i,
        {
            if self.live[i] == id {
                let ghost prior = self.live@;
                let ghost pos = i as int;
                self.live.remove(i);
                proof {
                    prior.remove_ensures(pos);
                    assert(self.live@ == prior.remove(pos));
                    assert(prior.contains(id)) by {
                        assert(prior[pos] == id);
                    }
                    assert(prior == old(self).live@);
                    assert forall|x: u64| #[trigger] self.live@.contains(x) implies (
                    prior.contains(x) && x != id) by {
                        let k = choose|k: int|
                            0 <= k < self.live@.len() && self.live@[k] == x;
                        if k < pos {
                            assert(prior.remove(pos)[k] == prior[k]);
                            assert(prior[k] == x);
                            assert(old(self).live@[k] != old(self).live@[pos]);
                        } else {
                            assert(prior.remove(pos)[k] == prior[k + 1]);
                            assert(prior[k + 1] == x);
                            assert(old(self).live@[pos] != old(self).live@[k + 1]);
                        }
                    }
                    assert forall|x: u64| prior.contains(x) && x != id implies #[trigger] self
                        .live@.contains(x) by {
                        let k = choose|k: int| 0 <= k < prior.len() && prior[k] == x;
                        assert(k != pos);
                        if k < pos {
                            assert(prior.remove(pos)[k] == prior[k]);
                            assert(self.live@[k] == x);
                        } else {
                            assert(prior.remove(pos)[k - 1] == prior[k]);
                            assert(self.live@[k - 1] == x);
                        }
                    }
                    assert(!self.live@.contains(id));
                    assert forall|a: int, b: int|
                        0 <= a < b < self.live@.len() implies self.live@[a] != self.live@[b] by {
                        let pa: int = if a < pos {
                            a
                        } else {
                            a + 1
                        };
                        let pb: int = if b < pos {
                            b
                        } else {
                            b + 1
                        };
                        assert(prior.remove(pos)[a] == prior[pa]);
                        assert(prior.remove(pos)[b] == prior[pb]);
                        assert(0 <= pa < pb < prior.len());
                        assert(old(self).live@[pa] != old(self).live@[pb]);
                    }
                    assert forall|k: int| 0 <= k < self.live@.len() implies self.live@[k]
                        < self.next_id by {
                        if k < pos {
                            assert(prior.remove(pos)[k] == prior[k]);
                        } else {
                            assert(prior.remove(pos)[k] == prior[k + 1]);
                        }
                    }
                }
                return true;
            }
            i += 1;
        }
        proof {
            assert(!self.live@.contains(id)) by {
                assert(forall|k: int| 0 <= k < self.live@.len() ==> self.live@[k] != id);
            }
            assert forall|x: u64| #[trigger] self.live@.contains(x) implies (self.live@.contains(
                x,
            ) && x != id) by {
                let k = choose|k: int| 0 <= k < self.live@.len() && self.live@[k] == x;
            }
        }
        false
    }

    /// How many sessions are live.
    pub fn live_count(&self) -> (n: usize)
        ensures
            n == self.live@.len(),
    {
        self.live.len()
    }
}

} // verus!
