//! The shared scheduler state: the ordered queue of entries and the single
//! running slot, exposed only through named atomic operations. Callers that
//! share one `State` across tasks wrap it in their own locks; every critical
//! section then consists of exactly one of these in-memory operations, so no
//! lock is ever held across I/O.

use vstd::prelude::*;
use crate::domain::{QueuedContainer, Status};

verus! {

/// Index of the earliest `Queued` entry of `q` — the entry the scheduler
/// admits next — or `-1` when no entry of `q` is `Queued`. `Paused`
/// entries are scanned past, never removed.
pub open spec fn admit_index(q: Seq<QueuedContainer>) -> int
    decreases q.len(),
{
    if q.len() == 0 {
        -1
    } else if q[0]@.status is Queued {
        0
    } else {
        let rest = admit_index(q.drop_first());
        if rest == -1 {
            -1
        } else {
            rest + 1
        }
    }
}

/// `admit_index` finds exactly the first `Queued` entry: when it is `-1`
/// no entry is `Queued`; otherwise it lies in bounds, names a `Queued`
/// entry, and every entry before it is not `Queued`.
pub proof fn lemma_admit_index_props(q: Seq<QueuedContainer>)
    ensures
        admit_index(q) == -1 ==> forall|i: int|
            0 <= i < q.len() ==> !((#[trigger] q[i])@.status is Queued),
        admit_index(q) != -1 ==> {
            &&& 0 <= admit_index(q) < q.len()
            &&& q[admit_index(q)]@.status is Queued
            &&& forall|k: int|
                0 <= k < admit_index(q) ==> !((#[trigger] q[k])@.status is Queued)
        },
    decreases q.len(),
{
    if q.len() == 0 {
    } else if q[0]@.status is Queued {
    } else {
        let rest = q.drop_first();
        lemma_admit_index_props(rest);
        let a = admit_index(rest);
        if a == -1 {
            assert(admit_index(q) == -1);
            assert forall|i: int| 0 <= i < q.len() implies !((#[trigger] q[i])@.status is Queued)
            by {
                if i > 0 {
                    assert(rest[i - 1] == q[i]);
                }
            }
        } else {
            assert(admit_index(q) == a + 1);
            assert(q[a + 1] == rest[a]);
            assert forall|k: int| 0 <= k < a + 1 implies !((#[trigger] q[k])@.status is Queued)
            by {
                if k > 0 {
                    assert(rest[k - 1] == q[k]);
                }
            }
        }
    }
}

/// The scheduler's authoritative store: the FIFO queue of submitted
/// entries and the running slot, which holds the engine-assigned
/// identifier of the at-most-one queue-managed container in execution.
pub struct State {
    queued_containers: Vec<QueuedContainer>,
    running_container: Option<String>,
}

impl State {
    /// The queue contents, in insertion order.
    pub closed spec fn queue(&self) -> Seq<QueuedContainer> {
        self.queued_containers@
    }

    /// The occupant of the running slot, if any.
    pub closed spec fn running_id(&self) -> Option<Seq<char>> {
        match self.running_container {
            Some(ref s) => Some(s@),
            None => None,
        }
    }

    /// The set of identifiers the running slot holds.
    pub open spec fn running_ids(&self) -> Set<Seq<char>> {
        match self.running_id() {
            Some(id) => set![id],
            None => Set::<Seq<char>>::empty(),
        }
    }

    /// A fresh store: empty queue, free slot.
    pub fn new() -> (r: State)
        ensures
            r.queue() == Seq::<QueuedContainer>::empty(),
            r.running_id() is None,
    {
        State { queued_containers: Vec::new(), running_container: None }
    }

    /// Appends an entry at the tail of the queue, whatever its status:
    /// `Paused` entries wait in place, and only `Queued` ones are eligible
    /// for admission.
    pub fn enqueue(&mut self, entry: QueuedContainer)
        ensures
            final(self).queue() == old(self).queue().push(entry),
            final(self).running_id() == old(self).running_id(),
    {
        self.queued_containers.push(entry);
    }

    /// A copy of the queue contents, in order; the store itself is
    /// untouched.
    pub fn snapshot_queue(&self) -> (r: Vec<QueuedContainer>)
        ensures
            r@ == self.queue(),
    {
        let mut r: Vec<QueuedContainer> = Vec::new();
        let n = self.queued_containers.len();
        let mut i: usize = 0;
        while i < n
            invariant
                n == self.queued_containers.len(),
                i <= n,
                r@ == self.queued_containers@.take(i as int),
            decreases n - i,
        {
            let e = self.queued_containers[i].clone();
            r.push(e);
            proof {
                assert(r@ =~= self.queued_containers@.take(i + 1));
            }
            i = i + 1;
        }
        proof {
            assert(r@ =~= self.queue());
        }
        r
    }

    /// A copy of the running slot's occupant, if any; the store itself is
    /// untouched.
    pub fn snapshot_running_id(&self) -> (r: Option<String>)
        ensures
            match r {
                Some(s) => self.running_id() == Some(s@),
                None => self.running_id() is None,
            },
    {
        match &self.running_container {
            Some(id) => Some(id.clone()),
            None => None,
        }
    }

    /// Atomically admits the next entry: when the slot is free and some
    /// entry is `Queued`, removes the earliest such entry — scanning past
    /// `Paused` ones, which stay in place — and returns it; otherwise
    /// changes nothing and returns `None`. Occupying the slot with the
    /// admitted entry's eventual runtime identifier is the dispatcher's
    /// separate, later step.
    pub fn try_admit_next(&mut self) -> (r: Option<QueuedContainer>)
        ensures
            final(self).running_id() == old(self).running_id(),
            match r {
                Some(e) => {
                    &&& old(self).running_id() is None
                    &&& admit_index(old(self).queue()) >= 0
                    &&& e == old(self).queue()[admit_index(old(self).queue())]
                    &&& e@.status is Queued
                    &&& final(self).queue() == old(self).queue().remove(
                        admit_index(old(self).queue()),
                    )
                },
                None => {
                    &&& final(self).queue() == old(self).queue()
                    &&& (old(self).running_id() is Some || admit_index(old(self).queue()) == -1)
                },
            },
    {
        if self.running_container.is_some() {
            return None;
        }
        let n = self.queued_containers.len();
        let mut i: usize = 0;
        while i < n
            invariant
                n == self.queued_containers.len(),
                i <= n,
                self.queued_containers@ == old(self).queued_containers@,
                self.running_container == old(self).running_container,
                old(self).running_container is None,
                forall|k: int|
                    0 <= k < i ==> !((#[trigger] self.queued_containers@[k])@.status is Queued),
            decreases n - i,
        {
            if self.queued_containers[i].status() == Status::Queued {
                proof {
                    let q = old(self).queue();
                    lemma_admit_index_props(q);
                    let a = admit_index(q);
                    if a == -1 {
                        assert(!(q[i as int]@.status is Queued));
                    } else if a < i as int {
                        assert(!(q[a]@.status is Queued));
                    } else if (i as int) < a {
                        assert(!(q[i as int]@.status is Queued));
                    }
                    assert(admit_index(q) == i as int);
                }
                let e = self.queued_containers.remove(i);
                return Some(e);
            }
            i = i + 1;
        }
        proof {
            let q = old(self).queue();
            lemma_admit_index_props(q);
            if admit_index(q) != -1 {
                assert(!(q[admit_index(q)]@.status is Queued));
            }
        }
        None
    }

    /// Occupies the running slot with an engine-assigned container
    /// identifier; the queue is untouched.
    pub fn occupy_slot(&mut self, id: String)
        ensures
            final(self).running_id() == Some(id@),
            final(self).queue() == old(self).queue(),
    {
        self.running_container = Some(id);
    }

    /// Frees the running slot; the queue is untouched.
    pub fn clear_slot(&mut self)
        ensures
            final(self).running_id() is None,
            final(self).queue() == old(self).queue(),
    {
        self.running_container = None;
    }
}

/// The running slot is the system's hard concurrency limit: in every
/// state it holds at most one container identifier.
pub proof fn lemma_running_slot_at_most_one(s: &State)
    ensures
        s.running_ids().len() <= 1,
        forall|a: Seq<char>, b: Seq<char>|
            s.running_ids().contains(a) && s.running_ids().contains(b) ==> a == b,
{
    match s.running_id() {
        Some(id) => {
            assert(s.running_ids().is_singleton());
            s.running_ids().lemma_singleton_size();
        },
        None => {
            assert(s.running_ids().len() == 0);
        },
    }
}

/// Admission is first-in-first-out among `Queued` entries: the admitted
/// entry is `Queued`, and every entry submitted before it that is also
/// `Queued` has already left the queue — equivalently, no `Queued` entry
/// precedes the admitted one. `Paused` entries never block a later
/// `Queued` entry. When no entry is `Queued`, none is admitted.
pub proof fn lemma_admission_is_fifo(q: Seq<QueuedContainer>)
    ensures
        admit_index(q) == -1 ==> forall|i: int|
            0 <= i < q.len() ==> !((#[trigger] q[i])@.status is Queued),
        admit_index(q) != -1 ==> {
            &&& 0 <= admit_index(q) < q.len()
            &&& q[admit_index(q)]@.status is Queued
            &&& forall|j: int|
                0 <= j < q.len() && (#[trigger] q[j])@.status is Queued ==> admit_index(q) <= j
        },
{
    lemma_admit_index_props(q);
}

/// Successive admissions keep insertion order: after the first `Queued`
/// entry of `q` leaves, the entry admitted next is one that stood after
/// it in `q` — a later `Queued` entry never overtakes an earlier one,
/// however many `Paused` entries sit between them.
pub proof fn lemma_successive_admissions_in_order(q: Seq<QueuedContainer>)
    requires
        admit_index(q) != -1,
    ensures
        ({
            let rest = q.remove(admit_index(q));
            admit_index(rest) != -1 ==> {
                &&& admit_index(rest) >= admit_index(q)
                &&& rest[admit_index(rest)] == q[admit_index(rest) + 1]
            }
        }),
{
    lemma_admit_index_props(q);
    let a1 = admit_index(q);
    let rest = q.remove(a1);
    lemma_admit_index_props(rest);
    let a2 = admit_index(rest);
    if a2 != -1 {
        assert(forall|j: int| 0 <= j < a1 ==> #[trigger] rest[j] == q[j]);
        assert(forall|j: int| a1 <= j < rest.len() ==> #[trigger] rest[j] == q[j + 1]);
        if a2 < a1 {
            assert(rest[a2] == q[a2]);
            assert(!(q[a2]@.status is Queued));
        }
    }
}

/// A new arrival never overtakes the entries already waiting: appending
/// an entry leaves the admission choice unchanged while anything is
/// `Queued`, and only an arrival that is itself `Queued` becomes
/// admissible — at the tail — when nothing was.
pub proof fn lemma_arrival_never_overtakes(q: Seq<QueuedContainer>, e: QueuedContainer)
    ensures
        admit_index(q) != -1 ==> admit_index(q.push(e)) == admit_index(q),
        admit_index(q) == -1 && e@.status is Queued ==> admit_index(q.push(e)) == q.len(),
        admit_index(q) == -1 && !(e@.status is Queued) ==> admit_index(q.push(e)) == -1,
    decreases q.len(),
{
    reveal_with_fuel(admit_index, 2);
    if q.len() == 0 {
        assert(q.push(e)[0] == e);
        if !(e@.status is Queued) {
            assert(q.push(e).drop_first() =~= Seq::<QueuedContainer>::empty());
        }
    } else {
        assert(q.push(e)[0] == q[0]);
        if !(q[0]@.status is Queued) {
            assert(q.push(e).drop_first() =~= q.drop_first().push(e));
            lemma_arrival_never_overtakes(q.drop_first(), e);
            lemma_admit_index_props(q.drop_first());
        }
    }
}

} // verus!
