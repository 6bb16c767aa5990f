//! Computations in flight between a request and its callback.
//!
//! Each request is identified by its computation offset. Enqueueing the same
//! identifier again is a no-op, a mutating request that writes an account
//! some pending mutating request also writes is turned away, and a result is
//! accepted for an identifier only while it is pending, so each callback
//! applies at most once.
use vstd::prelude::*;
use crate::program::{ComputationKind, ComputationRequest};
use crate::states::{same_key, Pubkey};

verus! {

#[derive(Clone, Copy, Debug, PartialEq, Eq, Structural)]
pub enum ComputationStatus {
    Queued,
    Completed,
    Aborted,
}

/// A request together with where it stands.
pub struct PendingComputation {
    pub request: ComputationRequest,
    pub status: ComputationStatus,
}

/// What became of an enqueue.
#[derive(Clone, Copy, Debug, PartialEq, Eq, Structural)]
pub enum EnqueueOutcome {
    /// Recorded as pending.
    Queued,
    /// A request with this identifier is already pending; nothing changed.
    AlreadyQueued,
    /// A pending mutating request writes one of the same accounts; nothing changed.
    AccountBusy,
}

/// Instructions whose callback changes encrypted state or balances. A
/// probability reveal only refreshes a plaintext snapshot.
pub open spec fn is_mutating(kind: ComputationKind) -> bool {
    kind != ComputationKind::RevealProbs
}

/// The two account lists have an account in common.
pub open spec fn share_account(a: Seq<Pubkey>, b: Seq<Pubkey>) -> bool {
    exists|i: int, j: int| 0 <= i < a.len() && 0 <= j < b.len() && #[trigger] a[i] == #[trigger] b[j]
}

pub open spec fn id_of(p: PendingComputation) -> u64 {
    p.request.computation_offset
}

/// A request with identifier `id` is pending.
pub open spec fn has_id(q: Seq<PendingComputation>, id: u64) -> bool {
    exists|i: int| 0 <= i < q.len() && id_of(#[trigger] q[i]) == id
}

/// Two pending requests that may not run side by side.
pub open spec fn in_conflict(a: ComputationRequest, b: ComputationRequest) -> bool {
    is_mutating(a.kind) && is_mutating(b.kind) && share_account(
        a.callback_accounts@,
        b.callback_accounts@,
    )
}

/// Some pending request conflicts with `req`.
pub open spec fn is_busy(q: Seq<PendingComputation>, req: ComputationRequest) -> bool {
    exists|i: int| 0 <= i < q.len() && in_conflict(#[trigger] q[i].request, req)
}

/// Pending identifiers are distinct, no two pending requests conflict, and
/// every pending request is still queued.
pub open spec fn queue_wf(q: Seq<PendingComputation>) -> bool {
    &&& forall|i: int, j: int|
        0 <= i < q.len() && 0 <= j < q.len() && i != j ==> id_of(#[trigger] q[i]) != id_of(
            #[trigger] q[j],
        ) && !in_conflict(q[i].request, q[j].request)
    &&& forall|i: int| 0 <= i < q.len() ==> (#[trigger] q[i]).status == ComputationStatus::Queued
}

/// What enqueueing `req` reports, and the pending requests after it.
pub open spec fn enqueued(q: Seq<PendingComputation>, req: ComputationRequest) -> (
    EnqueueOutcome,
    Seq<PendingComputation>,
) {
    if has_id(q, req.computation_offset) {
        (EnqueueOutcome::AlreadyQueued, q)
    } else if is_busy(q, req) {
        (EnqueueOutcome::AccountBusy, q)
    } else {
        (EnqueueOutcome::Queued, q.push(PendingComputation { request: req, status: ComputationStatus::Queued }))
    }
}

/// The coordinator's record of computations in flight.
pub struct ComputationQueue {
    pending: Vec<PendingComputation>,
}

fn accounts_overlap(a: &Vec<Pubkey>, b: &Vec<Pubkey>) -> (r: bool)
    ensures
        r == share_account(a@, b@),
{
    let mut i: usize = 0;
    while i < a.len()
        invariant
            i <= a@.len(),
            forall|x: int, y: int| 0 <= x < i && 0 <= y < b@.len() ==> a@[x] != b@[y],
        decreases a@.len() - i,
    {
        let mut j: usize = 0;
        while j < b.len()
            invariant
                i < a@.len(),
                j <= b@.len(),
                forall|x: int, y: int| 0 <= x < i && 0 <= y < b@.len() ==> a@[x] != b@[y],
                forall|y: int| 0 <= y < j ==> a@[i as int] != b@[y],
            decreases b@.len() - j,
        {
            if same_key(&a[i], &b[j]) {
                return true;
            }
            j = j + 1;
        }
        i = i + 1;
    }
    false
}

fn conflicts(a: &ComputationRequest, b: &ComputationRequest) -> (r: bool)
    ensures
        r == in_conflict(*a, *b),
{
    a.kind != ComputationKind::RevealProbs && b.kind != ComputationKind::RevealProbs
        && accounts_overlap(&a.callback_accounts, &b.callback_accounts)
}

impl ComputationQueue {
    pub closed spec fn view(&self) -> Seq<PendingComputation> {
        self.pending@
    }

    pub closed spec fn wf(&self) -> bool {
        queue_wf(self.pending@)
    }

    pub fn new() -> (r: ComputationQueue)
        ensures
            r.wf(),
            queue_wf(r.view()),
            r.view() == Seq::<PendingComputation>::empty(),
    {
        ComputationQueue { pending: Vec::new() }
    }

    pub fn len(&self) -> (r: usize)
        ensures
            r == self.view().len(),
    {
        self.pending.len()
    }

    fn find(&self, id: u64) -> (r: Option<usize>)
        ensures
            r matches Some(i) ==> i < self.view().len() && id_of(self.view()[i as int]) == id,
            r is None ==> !has_id(self.view(), id),
    {
        let mut i: usize = 0;
        while i < self.pending.len()
            invariant
                i <= self.pending@.len(),
                forall|j: int| 0 <= j < i ==> id_of(#[trigger] self.pending@[j]) != id,
            decreases self.pending@.len() - i,
        {
            if self.pending[i].request.computation_offset == id {
                return Some(i);
            }
            i = i + 1;
        }
        None
    }

    /// Whether a request with identifier `id` is pending.
    pub fn is_pending(&self, id: u64) -> (r: bool)
        ensures
            r == has_id(self.view(), id),
    {
        self.find(id).is_some()
    }

    fn busy(&self, req: &ComputationRequest) -> (r: bool)
        ensures
            r == is_busy(self.view(), *req),
    {
        let mut i: usize = 0;
        while i < self.pending.len()
            invariant
                i <= self.pending@.len(),
                forall|j: int| 0 <= j < i ==> !in_conflict(#[trigger] self.pending@[j].request, *req),
            decreases self.pending@.len() - i,
        {
            if conflicts(&self.pending[i].request, req) {
                return true;
            }
            i = i + 1;
        }
        false
    }

    /// Records `req` as pending unless a request with its identifier is
    /// already pending or a pending mutating request writes one of its accounts.
    pub fn enqueue(&mut self, req: ComputationRequest) -> (r: EnqueueOutcome)
        requires
            old(self).wf(),
        ensures
            final(self).wf(),
            queue_wf(final(self).view()),
            (r, final(self).view()) == enqueued(old(self).view(), req),
    {
        if self.find(req.computation_offset).is_some() {
            return EnqueueOutcome::AlreadyQueued;
        }
        if self.busy(&req) {
            return EnqueueOutcome::AccountBusy;
        }
        let ghost q = self.pending@;
        let ghost item = PendingComputation { request: req, status: ComputationStatus::Queued };
        self.pending.push(PendingComputation { request: req, status: ComputationStatus::Queued });
        proof {
            let q2 = self.pending@;
            assert(q2 == q.push(item));
            assert forall|i: int, j: int|
                0 <= i < q2.len() && 0 <= j < q2.len() && i != j implies id_of(#[trigger] q2[i])
                != id_of(#[trigger] q2[j]) && !in_conflict(q2[i].request, q2[j].request) by {
                if i == q.len() {
                    assert(!(0 <= j < q.len() && id_of(q[j]) == id_of(item)));
                    assert(!in_conflict(q[j].request, item.request));
                    assert(share_account(q[j].request.callback_accounts@, item.request.callback_accounts@) ==> share_account(item.request.callback_accounts@, q[j].request.callback_accounts@)) by {
                        if share_account(q[j].request.callback_accounts@, item.request.callback_accounts@) {
                            let (x, y) = choose|x: int, y: int| 0 <= x < q[j].request.callback_accounts@.len() && 0 <= y < item.request.callback_accounts@.len() && q[j].request.callback_accounts@[x] == item.request.callback_accounts@[y];
                            assert(item.request.callback_accounts@[y] == q[j].request.callback_accounts@[x]);
                        }
                    }
                } else if j == q.len() {
                    assert(!(0 <= i < q.len() && id_of(q[i]) == id_of(item)));
                    assert(!in_conflict(q[i].request, item.request));
                } else {
                    assert(q2[i] == q[i] && q2[j] == q[j]);
                }
            }
        }
        EnqueueOutcome::Queued
    }

    /// Takes the pending request with identifier `id` out of the queue and
    /// returns it marked completed, or aborted when the cluster reported a
    /// failure; `None`, with nothing changed, when no such request is pending.
    pub fn complete(&mut self, id: u64, aborted: bool) -> (r: Option<PendingComputation>)
        requires
            old(self).wf(),
        ensures
            final(self).wf(),
            queue_wf(final(self).view()),
            !has_id(old(self).view(), id) ==> r is None && final(self).view() == old(self).view(),
            has_id(old(self).view(), id) ==> (r matches Some(p) && id_of(p) == id && p.status == (
            if aborted {
                ComputationStatus::Aborted
            } else {
                ComputationStatus::Completed
            })),
            has_id(old(self).view(), id) ==> !has_id(final(self).view(), id)
                && final(self).view().len() == old(self).view().len() - 1,
            forall|i: int|
                0 <= i < final(self).view().len() ==> old(self).view().contains(
                    #[trigger] final(self).view()[i],
                ),
    {
        match self.find(id) {
            None => None,
            Some(i) => {
                let ghost q = self.pending@;
                let mut p = self.pending.remove(i);
                p.status = if aborted {
                    ComputationStatus::Aborted
                } else {
                    ComputationStatus::Completed
                };
                proof {
                    let q2 = self.pending@;
                    assert(q2 == q.remove(i as int));
                    assert forall|k: int| 0 <= k < q2.len() implies id_of(#[trigger] q2[k]) != id by {
                        if k < i {
                            assert(q2[k] == q[k]);
                        } else {
                            assert(q2[k] == q[k + 1]);
                        }
                    }
                    assert forall|k: int| 0 <= k < q2.len() implies q.contains(#[trigger] q2[k]) by {
                        if k < i {
                            assert(q2[k] == q[k]);
                        } else {
                            assert(q2[k] == q[k + 1]);
                        }
                    }
                    assert forall|a: int, b: int|
                        0 <= a < q2.len() && 0 <= b < q2.len() && a != b implies id_of(#[trigger] q2[a])
                        != id_of(#[trigger] q2[b]) && !in_conflict(q2[a].request, q2[b].request) by {
                        let a0 = if a < i { a } else { a + 1 };
                        let b0 = if b < i { b } else { b + 1 };
                        assert(q2[a] == q[a0] && q2[b] == q[b0]);
                    }
                }
                Some(p)
            },
        }
    }
}

/// Enqueueing the same request twice: the second attempt leaves the queue as
/// the first one left it, and once the first has queued the request the
/// second reports it as already queued.
pub proof fn lemma_enqueue_idempotent(q: Seq<PendingComputation>, req: ComputationRequest)
    ensures
        ({
            let (o1, q1) = enqueued(q, req);
            let (o2, q2) = enqueued(q1, req);
            &&& q2 == q1
            &&& (o1 == EnqueueOutcome::Queued || o1 == EnqueueOutcome::AlreadyQueued) ==> o2
                == EnqueueOutcome::AlreadyQueued
        }),
{
    let (_, q1) = enqueued(q, req);
    if !has_id(q, req.computation_offset) && !is_busy(q, req) {
        assert(id_of(q1[q.len() as int]) == req.computation_offset);
    }
}

} // verus!
