//! Listing: merges the containers the runtime daemon reports as running
//! with the shared state, classifying each running container as
//! queue-managed (`Managed`) or independently started (`External`). The
//! merge is a pure projection recomputed on every listing call, never
//! stored.

use vstd::prelude::*;
use crate::domain::QueuedContainer;
use crate::state::State;

verus! {

/// What the listing reads out of a daemon-reported running container:
/// the engine-assigned identifier and the image it runs.
pub struct ContainerSummary {
    pub id: String,
    pub image: String,
}

impl Clone for ContainerSummary {
    fn clone(&self) -> (r: Self)
        ensures
            r == *self,
    {
        ContainerSummary { id: self.id.clone(), image: self.image.clone() }
    }
}

/// A running container as the listing classifies it: `Managed` when its
/// identifier equals the current running-slot occupant — that is, when
/// this system started it — and `External` otherwise.
pub enum RunningContainer {
    Managed(ContainerSummary),
    External(ContainerSummary),
}

/// One line of the externally visible listing: a running container with
/// its classification, or an entry still waiting in the queue.
pub enum Container {
    Running(RunningContainer),
    Queued(QueuedContainer),
}

/// The classification of the daemon-reported summary `s` against the
/// running-slot occupant `running_id`.
pub open spec fn classified(s: ContainerSummary, running_id: Option<Seq<char>>) -> Container {
    if running_id == Some(s.id@) {
        Container::Running(RunningContainer::Managed(s))
    } else {
        Container::Running(RunningContainer::External(s))
    }
}

impl State {
    /// The merged listing: every daemon-reported running container first,
    /// in the daemon's order, each classified `Managed` exactly when its
    /// identifier equals the running-slot occupant; then every queue
    /// entry, in FIFO order. The state itself is untouched.
    pub fn get_containers(&self, running: Vec<ContainerSummary>) -> (r: Vec<Container>)
        ensures
            r@.len() == running@.len() + self.queue().len(),
            forall|i: int|
                0 <= i < running@.len() ==> r@[i] == classified(running@[i], self.running_id()),
            forall|j: int|
                0 <= j < self.queue().len() ==> r@[running@.len() + j] == Container::Queued(
                    self.queue()[j],
                ),
    {
        let mut r: Vec<Container> = Vec::new();
        let slot = self.snapshot_running_id();
        let n = running.len();
        let mut i: usize = 0;
        while i < n
            invariant
                n == running.len(),
                i <= n,
                r@.len() == i,
                match slot {
                    Some(ref rid) => self.running_id() == Some(rid@),
                    None => self.running_id() is None,
                },
                forall|k: int|
                    0 <= k < i ==> r@[k] == classified(running@[k], self.running_id()),
            decreases n - i,
        {
            let s = running[i].clone();
            let is_tracked = match &slot {
                Some(rid) => *rid == s.id,
                None => false,
            };
            if is_tracked {
                r.push(Container::Running(RunningContainer::Managed(s)));
            } else {
                r.push(Container::Running(RunningContainer::External(s)));
            }
            i = i + 1;
        }
        let queued = self.snapshot_queue();
        let m = queued.len();
        let mut j: usize = 0;
        while j < m
            invariant
                n == running.len(),
                m == queued.len(),
                queued@ == self.queue(),
                j <= m,
                r@.len() == n + j,
                forall|k: int|
                    0 <= k < n ==> r@[k] == classified(running@[k], self.running_id()),
                forall|k: int|
                    0 <= k < j ==> r@[n + k] == Container::Queued(self.queue()[k]),
            decreases m - j,
        {
            let e = queued[j].clone();
            r.push(Container::Queued(e));
            j = j + 1;
        }
        r
    }
}

} // verus!
