//! Error type for queue and supervisor operations.

use vstd::prelude::*;

verus! {

/// Error type for actor operations.
#[derive(Clone, PartialEq, Eq, Debug)]
pub enum ActorError {
    /// The named queue does not exist.
    QueueNotFound(String),
    /// The named job does not exist, or is no longer live.
    JobNotFound(String),
    /// The queue is not accepting new jobs.
    QueuePaused,
    /// The queue's pending set is at capacity.
    QueueFull,
    /// Any other actor-level failure, with a description.
    Actor(String),
    /// A repository failure, with a description.
    Database(String),
    /// A reply was not received in time.
    Timeout,
}

/// Result type for internal operations.
pub type ActorResult<T> = Result<T, ActorError>;

} // verus!
