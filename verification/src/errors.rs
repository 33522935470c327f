use vstd::prelude::*;

verus! {

/// Failure of a task-store operation.
#[derive(Clone, Copy, PartialEq, Eq, Structural, Debug)]
pub enum PersistenceError {
    /// The task already carries an identity; re-persisting it is refused.
    AlreadyPersisted,
    /// The underlying storage cannot accept the record (the in-memory
    /// backend only runs out when every identity has been handed out).
    StorageFailure,
}

/// Failure of the waveform extraction step: the source file was unreadable
/// or its format unsupported. Retryable on a later tick.
#[derive(Clone, Copy, PartialEq, Eq, Structural, Debug)]
pub enum ExtractionError {
    Unreadable,
}

/// Failure to deliver the computed peaks to the callback address.
/// Retryable on a later tick.
#[derive(Clone, Copy, PartialEq, Eq, Structural, Debug)]
pub enum DeliveryError {
    /// No response arrived: network failure or timeout.
    Transport,
    /// A response arrived but its status was not a success.
    UnsuccessfulStatus(u16),
}

} // verus!
