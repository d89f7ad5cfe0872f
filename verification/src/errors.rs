//! The error kinds of the caching protocol.

use vstd::prelude::*;

verus! {

/// What a storage backend can signal: a record that is absent (`NotFound`,
/// recoverable — it triggers the compute-and-store path), an underlying I/O
/// failure (`Io`, fatal), or an operation the backend does not implement
/// (`Unsupported`, fatal and non-retryable).
#[derive(Clone, Debug)]
pub enum StorageError {
    NotFound,
    Io(String),
    Unsupported,
}

/// What a cached call can report beyond the computation's own success value:
/// a fatal storage failure, a record that does not decode, or the replayed
/// (or live) failure of the wrapped computation itself.
#[derive(Clone, Debug)]
pub enum CacheError {
    /// An underlying read or write failed for a reason other than absence.
    StorageIo(String),
    /// A stored record could not be decoded.
    Serialization,
    /// The wrapped computation failed with this message; the failure is
    /// stored and replayed, not a fault of the cache itself.
    Computation(String),
}

impl CacheError {
    /// A short rendering of the error, for callers that report it.
    pub fn message(&self) -> (r: String)
        ensures
            self matches CacheError::Computation(m) ==> r@ == m@,
    {
        match self {
            CacheError::StorageIo(m) => m.clone(),
            CacheError::Serialization => "stored record could not be decoded".to_owned(),
            CacheError::Computation(m) => m.clone(),
        }
    }
}

} // verus!
