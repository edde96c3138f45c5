//! Matching posted requests with their responses.
//!
//! The correlator owns the table of requests in flight. It hands out the
//! request ids, and says for every response, tick of the clock and loss of
//! the connection which requests end and how. The embedding program keeps,
//! under the same ids, whatever it uses to wake the waiting callers.

use crate::ws::transport::elapsed;
use vstd::prelude::*;

verus! {

/// A request that waits for its response.
#[derive(Debug, Clone, Copy, PartialEq, Eq, Structural)]
pub struct PendingRequest {
    /// The id the request was sent under.
    pub id: u64,
    /// When the request was issued, in milliseconds.
    pub issued_at: u64,
}

/// Whether `request` has waited for `timeout_ms` or longer at `now_ms`.
pub open spec fn overdue(request: PendingRequest, now_ms: u64, timeout_ms: u64) -> bool {
    elapsed(now_ms, request.issued_at) >= timeout_ms
}

/// The ids of the given requests, in order.
pub open spec fn ids_of(requests: Seq<PendingRequest>) -> Seq<u64> {
    requests.map_values(|r: PendingRequest| r.id)
}

/// Whether a request with the given id is among `requests`.
pub open spec fn has_id(requests: Seq<PendingRequest>, id: u64) -> bool {
    exists|i: int| 0 <= i < requests.len() && #[trigger] requests[i].id == id
}

/// Position of the request with the given id among `requests`.
pub open spec fn index_of_id(requests: Seq<PendingRequest>, id: u64) -> int {
    choose|i: int| 0 <= i < requests.len() && #[trigger] requests[i].id == id
}

/// The table of requests in flight.
#[derive(Debug)]
pub struct RequestCorrelator {
    next_id: u64,
    pending: Vec<PendingRequest>,
    timeout_ms: u64,
}

impl RequestCorrelator {
    /// The requests in flight, oldest first.
    pub closed spec fn pending(&self) -> Seq<PendingRequest> {
        self.pending@
    }

    /// The id that the next request gets.
    pub closed spec fn next_id(&self) -> u64 {
        self.next_id
    }

    /// How long a request may wait, in milliseconds.
    pub closed spec fn timeout_ms(&self) -> u64 {
        self.timeout_ms
    }

    /// The requests in flight carry ids in increasing order, all of them
    /// handed out before.
    pub open spec fn wf(&self) -> bool {
        &&& forall|i: int|
            0 <= i < self.pending().len() ==> (#[trigger] self.pending()[i]).id < self.next_id()
        &&& forall|i: int, j: int|
            0 <= i < j < self.pending().len() ==> (#[trigger] self.pending()[i]).id < (
            #[trigger] self.pending()[j]).id
    }

    /// A correlator with no request in flight, whose first id is 0.
    pub fn new(timeout_ms: u64) -> (correlator: RequestCorrelator)
        ensures
            correlator.wf(),
            correlator.pending() == Seq::<PendingRequest>::empty(),
            correlator.next_id() == 0,
            correlator.timeout_ms() == timeout_ms,
    {
        RequestCorrelator { next_id: 0, pending: Vec::new(), timeout_ms }
    }

    /// Number of requests in flight.
    pub fn pending_count(&self) -> (count: usize)
        ensures
            count == self.pending().len(),
    {
        self.pending.len()
    }

    /// Whether a request with the given id is in flight.
    pub fn is_pending(&self, id: u64) -> (found: bool)
        ensures
            found == has_id(self.pending(), id),
    {
        self.position(id).is_some()
    }

    /// Whether every id has been handed out.
    pub fn is_exhausted(&self) -> (exhausted: bool)
        ensures
            exhausted == (self.next_id() == u64::MAX),
    {
        self.next_id == u64::MAX
    }

    fn position(&self, id: u64) -> (at: Option<usize>)
        ensures
            match at {
                Some(i) => i < self.pending().len() && self.pending()[i as int].id == id,
                None => !has_id(self.pending(), id),
            },
    {
        let mut i: usize = 0;
        while i < self.pending.len()
            invariant
                i <= self.pending.len(),
                forall|k: int| 0 <= k < i ==> (#[trigger] self.pending@[k]).id != id,
            decreases self.pending.len() - i,
        {
            if self.pending[i].id == id {
                return Some(i);
            }
            i += 1;
        }
        None
    }

    /// Takes a new request into the table and hands back its id. The id is
    /// larger than every id handed out before, so no two requests of one
    /// correlator ever share an id. `None` is returned, and nothing
    /// changes, once every id has been handed out.
    pub fn register(&mut self, now_ms: u64) -> (id: Option<u64>)
        requires
            old(self).wf(),
        ensures
            final(self).wf(),
            final(self).timeout_ms() == old(self).timeout_ms(),
            match id {
                Some(id) => {
                    &&& old(self).next_id() < u64::MAX
                    &&& id == old(self).next_id()
                    &&& final(self).next_id() == id + 1
                    &&& final(self).pending() == old(self).pending().push(
                        PendingRequest { id, issued_at: now_ms },
                    )
                    &&& !has_id(old(self).pending(), id)
                },
                None => old(self).next_id() == u64::MAX && *final(self) == *old(self),
            },
    {
        if self.next_id == u64::MAX {
            return None;
        }
        let id: u64 = self.next_id;
        self.pending.push(PendingRequest { id, issued_at: now_ms });
        self.next_id = id + 1;
        proof {
            let before = old(self).pending();
            let after = self.pending();
            assert forall|i: int| 0 <= i < after.len() implies (#[trigger] after[i]).id
                < self.next_id() by {
                if i < before.len() {
                    assert(after[i] == before[i]);
                }
            }
            assert forall|i: int, j: int| 0 <= i < j < after.len() implies (
            #[trigger] after[i]).id < (#[trigger] after[j]).id by {
                assert(after[i] == before[i]);
                if j < before.len() {
                    assert(after[j] == before[j]);
                }
            }
            assert(!has_id(before, id)) by {
                if has_id(before, id) {
                    let w = index_of_id(before, id);
                    assert(before[w].id < old(self).next_id());
                }
            }
        }
        Some(id)
    }

    /// Ends the request with the given id, because its response has arrived
    /// or because its caller gave up, and hands the request back. A request
    /// ends once: if no request with that id is in flight, `None` is
    /// returned and nothing changes. The other requests stay as they are.
    pub fn resolve(&mut self, id: u64) -> (resolved: Option<PendingRequest>)
        requires
            old(self).wf(),
        ensures
            final(self).wf(),
            final(self).next_id() == old(self).next_id(),
            final(self).timeout_ms() == old(self).timeout_ms(),
            resolved.is_some() == has_id(old(self).pending(), id),
            !has_id(final(self).pending(), id),
            match resolved {
                Some(request) => {
                    &&& request == old(self).pending()[index_of_id(old(self).pending(), id)]
                    &&& request.id == id
                    &&& final(self).pending() == old(self).pending().remove(
                        index_of_id(old(self).pending(), id),
                    )
                },
                None => *final(self) == *old(self),
            },
    {
        match self.position(id) {
            None => None,
            Some(i) => {
                let ghost before = self.pending();
                let request: PendingRequest = self.pending.remove(i);
                proof {
                    let at = index_of_id(before, id);
                    assert(before[i as int].id == id);
                    assert(at == i as int) by {
                        if at < i {
                            assert(before[at].id < before[i as int].id);
                        } else if at > i {
                            assert(before[i as int].id < before[at].id);
                        }
                    }
                    let after = self.pending();
                    assert(after =~= before.remove(i as int));
                    assert forall|k: int| 0 <= k < after.len() implies (#[trigger] after[k]).id
                        != id && after[k].id < self.next_id() by {
                        let k0 = if k < i { k } else { k + 1 };
                        assert(after[k] == before[k0]);
                        if k0 < i {
                            assert(before[k0].id < before[i as int].id);
                        } else {
                            assert(before[i as int].id < before[k0].id);
                        }
                    }
                    assert forall|a: int, b: int| 0 <= a < b < after.len() implies (
                    #[trigger] after[a]).id < (#[trigger] after[b]).id by {
                        let a0 = if a < i { a } else { a + 1 };
                        let b0 = if b < i { b } else { b + 1 };
                        assert(after[a] == before[a0]);
                        assert(after[b] == before[b0]);
                        assert(before[a0].id < before[b0].id);
                    }
                }
                Some(request)
            },
        }
    }

    /// Ends every request that has waited for the timeout or longer when the
    /// clock reads `now_ms`, and hands back their ids, oldest first. The
    /// requests that have waited for less stay in flight, in their order.
    pub fn expire(&mut self, now_ms: u64) -> (expired: Vec<u64>)
        requires
            old(self).wf(),
        ensures
            final(self).wf(),
            final(self).next_id() == old(self).next_id(),
            final(self).timeout_ms() == old(self).timeout_ms(),
            final(self).pending() == old(self).pending().filter(
                |r: PendingRequest| !overdue(r, now_ms, old(self).timeout_ms()),
            ),
            expired@ == ids_of(
                old(self).pending().filter(
                    |r: PendingRequest| overdue(r, now_ms, old(self).timeout_ms()),
                ),
            ),
    {
        let ghost before = self.pending();
        let ghost late = |r: PendingRequest| overdue(r, now_ms, self.timeout_ms);
        let ghost fresh = |r: PendingRequest| !overdue(r, now_ms, self.timeout_ms);
        let mut kept: Vec<PendingRequest> = Vec::new();
        let mut expired: Vec<u64> = Vec::new();
        let mut i: usize = 0;
        proof {
            reveal(Seq::filter);
            assert(before.take(0) =~= Seq::<PendingRequest>::empty());
        }
        while i < self.pending.len()
            invariant
                i <= self.pending.len(),
                self.pending@ == before,
                self.timeout_ms == old(self).timeout_ms(),
                late == |r: PendingRequest| overdue(r, now_ms, self.timeout_ms),
                fresh == |r: PendingRequest| !overdue(r, now_ms, self.timeout_ms),
                kept@ == before.take(i as int).filter(fresh),
                expired@ == ids_of(before.take(i as int).filter(late)),
            decreases self.pending.len() - i,
        {
            let request: PendingRequest = self.pending[i];
            let waited: u64 = if now_ms >= request.issued_at {
                now_ms - request.issued_at
            } else {
                0
            };
            proof {
                reveal(Seq::filter);
                let next = before.take(i + 1);
                assert(next.drop_last() =~= before.take(i as int));
                assert(next.last() == request);
            }
            if waited >= self.timeout_ms {
                expired.push(request.id);
                assert(expired@ =~= ids_of(before.take(i + 1).filter(late)));
            } else {
                kept.push(request);
            }
            i += 1;
        }
        proof {
            assert(before.take(i as int) =~= before);
            lemma_filter_keeps_order(before, fresh);
        }
        self.pending = kept;
        proof {
            let after = self.pending();
            assert forall|k: int| 0 <= k < after.len() implies (#[trigger] after[k]).id
                < self.next_id() by {
                assert(before.contains(after[k]));
            }
        }
        expired
    }

    /// Ends every request in flight, as happens when the connection is lost
    /// or the session shuts down, and hands back their ids, oldest first.
    pub fn fail_all(&mut self) -> (failed: Vec<u64>)
        requires
            old(self).wf(),
        ensures
            final(self).wf(),
            final(self).next_id() == old(self).next_id(),
            final(self).timeout_ms() == old(self).timeout_ms(),
            final(self).pending() == Seq::<PendingRequest>::empty(),
            failed@ == ids_of(old(self).pending()),
    {
        let mut failed: Vec<u64> = Vec::new();
        let mut i: usize = 0;
        while i < self.pending.len()
            invariant
                i <= self.pending.len(),
                failed@.len() == i,
                forall|k: int| 0 <= k < i ==> failed@[k] == (#[trigger] self.pending@[k]).id,
            decreases self.pending.len() - i,
        {
            failed.push(self.pending[i].id);
            i += 1;
        }
        assert(failed@ =~= ids_of(self.pending()));
        self.pending = Vec::new();
        failed
    }
}

/// Filtering keeps the elements in their order: each element of the result
/// stems from the input, and of two elements of the result the earlier one
/// stands earlier in the input too.
pub proof fn lemma_filter_keeps_order(
    requests: Seq<PendingRequest>,
    keep: spec_fn(PendingRequest) -> bool,
)
    requires
        forall|i: int, j: int|
            0 <= i < j < requests.len() ==> (#[trigger] requests[i]).id < (
            #[trigger] requests[j]).id,
    ensures
        forall|k: int|
            0 <= k < requests.filter(keep).len() ==> requests.contains(
                #[trigger] requests.filter(keep)[k],
            ),
        forall|a: int, b: int|
            0 <= a < b < requests.filter(keep).len() ==> (#[trigger] requests.filter(
                keep,
            )[a]).id < (#[trigger] requests.filter(keep)[b]).id,
    decreases requests.len(),
{
    reveal(Seq::filter);
    if requests.len() > 0 {
        let front = requests.drop_last();
        lemma_filter_keeps_order(front, keep);
        let out = requests.filter(keep);
        let sub = front.filter(keep);
        assert forall|k: int| 0 <= k < out.len() implies requests.contains(#[trigger] out[k]) by {
            if k < sub.len() {
                assert(front.contains(sub[k]));
                let w = choose|w: int| 0 <= w < front.len() && front[w] == sub[k];
                assert(requests[w] == sub[k]);
            } else {
                assert(out[k] == requests.last());
                assert(requests[requests.len() - 1] == out[k]);
            }
        }
        assert forall|a: int, b: int| 0 <= a < b < out.len() implies (#[trigger] out[a]).id < (
        #[trigger] out[b]).id by {
            if b >= sub.len() {
                assert(out[b] == requests.last());
                assert(front.contains(sub[a]));
                let w = choose|w: int| 0 <= w < front.len() && front[w] == sub[a];
                assert(requests[w].id < requests[requests.len() - 1].id);
            }
        }
    }
}

} // verus!
