//! The error taxonomy shared by the queue, its server handlers and its
//! client: each variant names one failure class of the system.

use vstd::prelude::*;

verus! {

/// Failure classes of the run queue.
///
/// - `ValidationError`: a submitted entry was empty or malformed.
/// - `IOError`: a run command could not be read from a file.
/// - `EngineError`: the container runtime daemon was unreachable or
///   rejected a call.
/// - `ServerStatusError`: the client observed a non-success HTTP status;
///   the payload is that status code.
/// - `TimeoutError`: client-side polling for a condition exceeded its
///   deadline.
#[derive(Clone, Copy, PartialEq, Eq, Structural, Debug)]
pub enum QueueError {
    ValidationError,
    IOError,
    EngineError,
    ServerStatusError(u16),
    TimeoutError,
}

} // verus!
