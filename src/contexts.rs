use vstd::prelude::*;
use crate::dispatch::{Delivery, EventPayload};

verus! {

/// The script contexts that are alive, each named by an id. Results and
/// events addressed to any other context are dropped.
pub struct Contexts {
    live: Vec<u64>,
}

impl Contexts {
    /// Whether context `id` is alive.
    pub closed spec fn alive(&self, id: u64) -> bool {
        self.live@.contains(id)
    }

    /// Each live context is listed once.
    pub closed spec fn wf(&self) -> bool {
        self.live@.no_duplicates()
    }

    /// No context alive.
    pub fn new() -> (r: Contexts)
        ensures
            r.wf(),
            forall|id: u64| !r.alive(id),
    {
        Contexts { live: Vec::new() }
    }

    /// Whether context `id` is alive.
    pub fn is_alive(&self, id: u64) -> (r: bool)
        ensures
            r == self.alive(id),
    {
        let mut i: usize = 0;
        while i < self.live.len()
            invariant
                i <= self.live@.len(),
                forall|k: int| 0 <= k < i ==> self.live@[k] != id,
            decreases self.live@.len() - i,
        {
            if self.live[i] == id {
                return true;
            }
            i = i + 1;
        }
        false
    }

    /// Marks context `id` alive.
    pub fn open(&mut self, id: u64)
        requires
            old(self).wf(),
        ensures
            final(self).wf(),
            forall|x: u64| #[trigger] final(self).alive(x) == (old(self).alive(x) || x == id),
    {
        if !self.is_alive(id) {
            self.live.push(id);
            proof {
                assert forall|x: u64| #[trigger] self.alive(x) == (old(self).alive(x) || x == id) by {
                    if x == id {
                        assert(self.live@[self.live@.len() - 1] == id);
                    }
                    if old(self).alive(x) {
                        let k = choose|k: int| 0 <= k < old(self).live@.len() && old(self).live@[k] == x;
                        assert(self.live@[k] == x);
                    }
                }
            }
        }
    }

    /// Marks context `id` destroyed: nothing is delivered to it any more.
    pub fn destroy(&mut self, id: u64)
        requires
            old(self).wf(),
        ensures
            final(self).wf(),
            forall|x: u64| #[trigger] final(self).alive(x) == (old(self).alive(x) && x != id),
    {
        let mut i: usize = 0;
        while i < self.live.len()
            invariant
                i <= self.live@.len(),
                self.live@ == old(self).live@,
                old(self).live@.no_duplicates(),
                forall|k: int| 0 <= k < i ==> self.live@[k] != id,
            decreases self.live@.len() - i,
        {
            if self.live[i] == id {
                self.live.remove(i);
                proof {
                    let o = old(self).live@;
                    let k = i as int;
                    assert(self.live@ =~= o.remove(k));
                    assert forall|a: int, b: int|
                        0 <= a < self.live@.len() && 0 <= b < self.live@.len() && a != b implies self.live@[a]
                            != self.live@[b] by {
                        let a2 = if a < k { a } else { a + 1 };
                        let b2 = if b < k { b } else { b + 1 };
                        assert(self.live@[a] == o[a2]);
                        assert(self.live@[b] == o[b2]);
                    }
                    assert forall|x: u64| #[trigger] self.alive(x) == (old(self).alive(x) && x != id) by {
                        if old(self).alive(x) && x != id {
                            let j = choose|j: int| 0 <= j < o.len() && o[j] == x;
                            assert(j != k);
                            if j < k {
                                assert(self.live@[j] == x);
                            } else {
                                assert(self.live@[j - 1] == x);
                            }
                        }
                        if self.alive(x) {
                            let j = choose|j: int| 0 <= j < self.live@.len() && self.live@[j] == x;
                            let j2 = if j < k { j } else { j + 1 };
                            assert(o[j2] == x);
                            assert(j2 != k);
                        }
                    }
                }
                return;
            }
            i = i + 1;
        }
    }

    /// Routes a call's answer: it comes back for writing into its context if
    /// that context is alive, and is dropped otherwise.
    pub fn deliver(&self, d: Delivery) -> (r: Option<Delivery>)
        ensures
            self.alive(d.context) ==> r == Some(d),
            !self.alive(d.context) ==> r is None,
    {
        if self.is_alive(d.context) {
            Some(d)
        } else {
            None
        }
    }

    /// Routes an event into context `id`: it comes back for writing if the
    /// context is alive, and is dropped, without an error, otherwise.
    pub fn emit(&self, id: u64, payload: EventPayload) -> (r: Option<EventPayload>)
        ensures
            self.alive(id) ==> r == Some(payload),
            !self.alive(id) ==> r is None,
    {
        if self.is_alive(id) {
            Some(payload)
        } else {
            None
        }
    }
}

/// An event emitted into a context after it was destroyed is not observed.
pub proof fn lemma_emit_after_destroy_dropped(before: Contexts, after: Contexts, id: u64)
    requires
        forall|x: u64| #[trigger] after.alive(x) == (before.alive(x) && x != id),
    ensures
        !after.alive(id),
{
}

} // verus!
