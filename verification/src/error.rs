//! The error taxonomy of the library.

use vstd::prelude::*;

verus! {

/// Everything that can go wrong while talking to the solving service.
///
/// None of these is retried by the library; each is surfaced to the caller
/// of whichever operation raised it.
#[derive(Debug, Clone, PartialEq, Eq)]
pub enum SolverError {
    /// The network transport failed before an HTTP status was received.
    TransportError(String),
    /// The service answered with a non-success HTTP status code.
    HttpStatusError(u16),
    /// The response body did not parse into the expected shape.
    DecodeError(String),
    /// The service reported a task status string outside the known set.
    UnknownStatus(String),
    /// Image sniffing found no known signature in the buffer.
    UnknownImageFormat,
    /// Task creation was rejected; carries the non-zero error id.
    TaskCreationRejected(usize),
    /// The polled task is not known to the service.
    TaskDoesNotExist,
    /// The service finished the task with a failure; carries its reason.
    TaskFailed(String),
}

} // verus!
