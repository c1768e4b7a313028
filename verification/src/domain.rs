//! Queue entries: the records that operators submit to the run queue,
//! together with the generator that mints their identifiers.

use vstd::prelude::*;
use crate::errors::QueueError;

verus! {

/// Lifecycle stage of a queue entry. A `Paused` entry sits in the queue
/// but is never admitted; releasing it makes it `Queued`, and that step
/// never reverses.
#[derive(Clone, Copy, PartialEq, Eq, Structural, Debug)]
pub enum Status {
    Paused,
    Queued,
}

/// Mathematical content of a [`QueuedContainer`]: its identifier, the
/// characters of its run command, and its lifecycle stage.
pub ghost struct QueuedContainerView {
    pub id: u64,
    pub command: Seq<char>,
    pub status: Status,
}

/// The characters of a stage's name, as listings and messages render it.
pub open spec fn status_chars(status: Status) -> Seq<char> {
    match status {
        Status::Paused => "Paused"@,
        Status::Queued => "Queued"@,
    }
}

impl Status {
    /// The stage's name, as listings and messages render it.
    pub fn label(&self) -> (r: &'static str)
        ensures
            r@ == status_chars(*self),
    {
        match self {
            Status::Paused => "Paused",
            Status::Queued => "Queued",
        }
    }
}

/// The entry `v` after a release: same identifier and command, stage
/// `Queued`.
pub open spec fn released(v: QueuedContainerView) -> QueuedContainerView {
    QueuedContainerView { status: Status::Queued, ..v }
}

/// Releasing an entry is idempotent: releasing twice yields exactly the
/// `Queued` entry that releasing once yields.
pub proof fn lemma_release_idempotent(v: QueuedContainerView)
    ensures
        released(released(v)) == released(v),
{
}

/// A pending container run: an immutable identifier, the run command to
/// hand to the container runtime, and a lifecycle stage that only ever
/// advances from `Paused` to `Queued`.
pub struct QueuedContainer {
    id: u64,
    command: String,
    status: Status,
}

impl View for QueuedContainer {
    type V = QueuedContainerView;

    closed spec fn view(&self) -> QueuedContainerView {
        QueuedContainerView { id: self.id, command: self.command@, status: self.status }
    }
}

impl Clone for QueuedContainer {
    fn clone(&self) -> (r: Self)
        ensures
            r == *self,
    {
        QueuedContainer { id: self.id, command: self.command.clone(), status: self.status }
    }
}

impl QueuedContainer {
    /// Builds a fresh entry in stage `Paused` from a run command supplied
    /// inline. An empty command is rejected as a `ValidationError`; any
    /// other command is accepted.
    pub fn new(id: u64, command: String) -> (r: Result<QueuedContainer, QueueError>)
        ensures
            command@.len() == 0 <==> r is Err,
            r is Err ==> r == Err::<QueuedContainer, QueueError>(QueueError::ValidationError),
            r matches Ok(e) ==> e@ == (QueuedContainerView {
                id,
                command: command@,
                status: Status::Paused,
            }),
    {
        if command.as_str().is_empty() {
            Err(QueueError::ValidationError)
        } else {
            Ok(QueuedContainer { id, command, status: Status::Paused })
        }
    }

    /// Builds an entry from the text read out of a command file: the pure
    /// half of constructing an entry by path, once the caller has read the
    /// file (a missing or unreadable file is the caller's `IOError`).
    /// Behaves exactly as [`QueuedContainer::new`] does on the same text.
    pub fn from_contents(id: u64, contents: String) -> (r: Result<QueuedContainer, QueueError>)
        ensures
            contents@.len() == 0 <==> r is Err,
            r is Err ==> r == Err::<QueuedContainer, QueueError>(QueueError::ValidationError),
            r matches Ok(e) ==> e@ == (QueuedContainerView {
                id,
                command: contents@,
                status: Status::Paused,
            }),
    {
        QueuedContainer::new(id, contents)
    }

    /// Releases the entry: sets its stage to `Queued`, keeping identifier
    /// and command. A no-op on an entry that is already `Queued`, never an
    /// error.
    pub fn queue(&mut self)
        ensures
            final(self)@ == released(old(self)@),
    {
        self.status = Status::Queued;
    }

    /// The entry's identifier.
    pub fn id(&self) -> (r: u64)
        ensures
            r == self@.id,
    {
        self.id
    }

    /// The entry's lifecycle stage.
    pub fn status(&self) -> (r: Status)
        ensures
            r == self@.status,
    {
        self.status
    }

    /// The entry's run command.
    pub fn command(&self) -> (r: &str)
        ensures
            r@ == self@.command,
    {
        self.command.as_str()
    }
}

/// Mints entry identifiers: each call hands out the next unused number,
/// so every identifier it ever issues is distinct.
pub struct IdGenerator {
    next_id: u64,
}

impl IdGenerator {
    /// The identifier the generator will issue next.
    pub closed spec fn spec_next(&self) -> u64 {
        self.next_id
    }

    /// A fresh generator, starting at identifier `0`.
    pub fn new() -> (r: IdGenerator)
        ensures
            r.spec_next() == 0,
    {
        IdGenerator { next_id: 0 }
    }

    /// Whether the generator can still issue an identifier: its numbering
    /// space is not yet exhausted.
    pub fn can_issue(&self) -> (r: bool)
        ensures
            r == (self.spec_next() < u64::MAX),
    {
        self.next_id < u64::MAX
    }

    /// Issues the next identifier. Identifiers strictly increase, so no
    /// two calls on the same generator ever return the same one.
    pub fn fresh_id(&mut self) -> (id: u64)
        requires
            old(self).spec_next() < u64::MAX,
        ensures
            id == old(self).spec_next(),
            final(self).spec_next() == id + 1,
    {
        let id = self.next_id;
        self.next_id = self.next_id + 1;
        id
    }
}

} // verus!
