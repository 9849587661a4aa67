//! Request correlator: the table of in-flight requests, keyed by correlation
//! id.  A registered entry leaves the table in exactly one of three ways —
//! resolved by a matching response, expired at its deadline, or drained when
//! the worker's stream closes — so no entry ever leaks.

use vstd::prelude::*;

verus! {

/// One in-flight request: its correlation id, the command it carried (kept
/// for the timeout diagnostic) and the instant, in milliseconds, at which it
/// expires.
pub struct PendingEntry {
    pub id: String,
    pub cmd: String,
    pub deadline_ms: i64,
}

/// The set of pending entries, in registration order.
pub struct PendingTable {
    entries: Vec<PendingEntry>,
}

impl View for PendingTable {
    type V = Seq<PendingEntry>;

    closed spec fn view(&self) -> Seq<PendingEntry> {
        self.entries@
    }
}

impl PendingTable {
    /// Whether some entry carries this id.
    pub open spec fn spec_contains(self, id: Seq<char>) -> bool {
        exists|k: int| 0 <= k < self@.len() && self@[k].id@ == id
    }

    /// At most one entry per id, at any time.
    pub open spec fn wf(self) -> bool {
        forall|i: int, j: int| 0 <= i < j < self@.len() ==> self@[i].id@ != self@[j].id@
    }

    pub fn new() -> (r: Self)
        ensures
            r@.len() == 0,
            r.wf(),
    {
        PendingTable { entries: Vec::new() }
    }

    pub fn len(&self) -> (r: usize)
        ensures
            r == self@.len(),
    {
        self.entries.len()
    }

    fn find(&self, id: &String) -> (r: Option<usize>)
        ensures
            match r {
                Some(k) => k < self@.len() && self@[k as int].id@ == id@,
                None => !self.spec_contains(id@),
            },
    {
        let n = self.entries.len();
        let mut k: usize = 0;
        while k < n
            invariant
                n == self@.len(),
                k <= n,
                forall|j: int| 0 <= j < k ==> self@[j].id@ != id@,
            decreases n - k,
        {
            if self.entries[k].id == *id {
                return Some(k);
            }
            k = k + 1;
        }
        None
    }

    pub fn contains(&self, id: &String) -> (r: bool)
        ensures
            r == self.spec_contains(id@),
    {
        self.find(id).is_some()
    }

    /// Inserts a fresh pending entry; refuses an id that is already in
    /// flight, which callers treat as an internal invariant violation.
    pub fn register(&mut self, id: String, cmd: String, deadline_ms: i64) -> (r: Result<(), ()>)
        requires
            old(self).wf(),
        ensures
            final(self).wf(),
            old(self).spec_contains(id@) ==> r is Err && final(self)@ == old(self)@,
            !old(self).spec_contains(id@) ==> r is Ok && final(self)@ == old(self)@.push(
                (PendingEntry { id, cmd, deadline_ms }),
            ),
    {
        if self.contains(&id) {
            Err(())
        } else {
            let ghost pre = self@;
            self.entries.push(PendingEntry { id, cmd, deadline_ms });
            proof {
                assert forall|i: int, j: int| 0 <= i < j < self@.len() implies self@[i].id@
                    != self@[j].id@ by {
                    if j == self@.len() - 1 {
                        assert(self@[i] == pre[i]);
                    }
                }
            }
            Ok(())
        }
    }

    /// Removes and returns the entry with this id, if any; every other entry
    /// stays, in order.
    pub fn remove(&mut self, id: &String) -> (r: Option<PendingEntry>)
        requires
            old(self).wf(),
        ensures
            final(self).wf(),
            !final(self).spec_contains(id@),
            match r {
                Some(e) => old(self).spec_contains(id@) && e.id@ == id@ && exists|k: int|
                    0 <= k < old(self)@.len() && old(self)@[k] == e && final(self)@ == old(
                        self,
                    )@.remove(k),
                None => !old(self).spec_contains(id@) && final(self)@ == old(self)@,
            },
    {
        match self.find(id) {
            Some(k) => {
                let ghost pre = self@;
                let e = self.entries.remove(k);
                proof {
                    assert(self@ == pre.remove(k as int));
                    assert forall|i: int, j: int| 0 <= i < j < self@.len() implies self@[i].id@
                        != self@[j].id@ by {
                        assert(self@[i] == (if i < k as int {
                            pre[i]
                        } else {
                            pre[i + 1]
                        }));
                        assert(self@[j] == (if j < k as int {
                            pre[j]
                        } else {
                            pre[j + 1]
                        }));
                    }
                    assert forall|m: int| 0 <= m < self@.len() implies self@[m].id@ != id@ by {
                        assert(self@[m] == (if m < k as int {
                            pre[m]
                        } else {
                            pre[m + 1]
                        }));
                    }
                }
                Some(e)
            },
            None => None,
        }
    }

    /// Removes every entry and hands them all back, in order: on worker
    /// closure no caller is left waiting.
    pub fn drain(&mut self) -> (r: Vec<PendingEntry>)
        ensures
            r@ == old(self)@,
            final(self)@.len() == 0,
            final(self).wf(),
    {
        let mut out: Vec<PendingEntry> = Vec::new();
        while self.entries.len() > 0
            invariant
                out@ + self@ == old(self)@,
            decreases self@.len(),
        {
            let e = self.entries.remove(0);
            out.push(e);
            proof {
                assert(out@ + self@ =~= old(self)@);
            }
        }
        proof {
            assert(out@ =~= old(self)@);
        }
        out
    }
}

} // verus!
