use vstd::prelude::*;

verus! {

/// The ways in which the service can fail.
#[derive(Debug, Clone, Copy, PartialEq, Eq, Structural)]
pub enum LogError {
    /// The daemon could not create its listening endpoint.
    BindFailure,
    /// The store could not be opened or created, or exclusive access was not obtained.
    StorageUnavailable,
    /// An insert or a delete was rejected.
    WriteFailed,
    /// Receiving from the local channel failed.
    TransportError,
}

} // verus!
