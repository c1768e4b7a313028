//! The admission-control tick: the decisions the dispatch loop takes each
//! time it wakes. The loop itself lives with the caller, who performs the
//! runtime-daemon calls these decisions ask for and reports their outcomes
//! back; every decision here is pure shared-state logic.
//!
//! Failure policy: when creating or starting an admitted entry's container
//! fails, the entry has already left the queue and is dropped — the caller
//! logs the failure — and the slot stays free for the next tick. A daemon
//! failure never stops the loop; the next tick retries admission with the
//! next `Queued` entry.

use vstd::prelude::*;
use crate::domain::QueuedContainer;
use crate::state::{admit_index, State};

verus! {

/// What one dispatch tick asks the caller to do next.
///
/// - `Inspect`: the slot is occupied by this container; ask the runtime
///   daemon whether it still runs, then report with `complete_inspection`.
/// - `Launch`: this entry was admitted; create and start its container,
///   then report with `complete_launch`.
/// - `Idle`: the slot is free and no entry is `Queued`; sleep until the
///   next tick.
pub enum TickAction {
    Inspect(String),
    Launch(QueuedContainer),
    Idle,
}

impl State {
    /// Plans one dispatch tick. With the slot occupied, asks for an
    /// inspection of its occupant and changes nothing. With the slot
    /// free, admits the earliest `Queued` entry — removing it from the
    /// queue — and asks for its launch; with nothing `Queued`, idles and
    /// changes nothing.
    pub fn plan_tick(&mut self) -> (a: TickAction)
        ensures
            final(self).running_id() == old(self).running_id(),
            match old(self).running_id() {
                Some(id) => {
                    &&& a matches TickAction::Inspect(cid) && cid@ == id
                    &&& final(self).queue() == old(self).queue()
                },
                None => {
                    if admit_index(old(self).queue()) >= 0 {
                        &&& a matches TickAction::Launch(e) && e == old(self).queue()[admit_index(
                            old(self).queue(),
                        )] && e@.status is Queued
                        &&& final(self).queue() == old(self).queue().remove(
                            admit_index(old(self).queue()),
                        )
                    } else {
                        &&& a is Idle
                        &&& final(self).queue() == old(self).queue()
                    }
                },
            },
    {
        match self.snapshot_running_id() {
            Some(id) => TickAction::Inspect(id),
            None => {
                match self.try_admit_next() {
                    Some(entry) => TickAction::Launch(entry),
                    None => TickAction::Idle,
                }
            },
        }
    }

    /// Records what an inspection found: if the slot's container has
    /// exited or no longer exists, the slot is freed for the next tick;
    /// if it still runs, nothing changes. The queue is untouched either
    /// way.
    pub fn complete_inspection(&mut self, exited: bool)
        ensures
            final(self).queue() == old(self).queue(),
            final(self).running_id() == if exited {
                None
            } else {
                old(self).running_id()
            },
    {
        if exited {
            self.clear_slot();
        }
    }

    /// Records a launch outcome. On success the slot is occupied with the
    /// engine-assigned identifier of the started container; on failure —
    /// the admitted entry is dropped under the failure policy above —
    /// nothing changes. The queue is untouched either way.
    pub fn complete_launch(&mut self, launched: Option<String>)
        ensures
            final(self).queue() == old(self).queue(),
            match launched {
                Some(id) => final(self).running_id() == Some(id@),
                None => final(self).running_id() == old(self).running_id(),
            },
    {
        match launched {
            Some(id) => self.occupy_slot(id),
            None => {},
        }
    }
}

} // verus!
