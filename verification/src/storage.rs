//! The storage backend contract and the cache orchestrator.
//!
//! A backend is a durable byte-oriented key/value store, seen abstractly as a
//! map from keys to record bytes. The orchestrator's get-or-compute-and-store
//! algorithm is written once against that contract, so every backend that
//! meets it gives the same observable behaviour.

use vstd::prelude::*;

use crate::codec::decode_outcome;
use crate::codec::decode_rec;
use crate::codec::encode_outcome;
use crate::codec::encode_rec;
use crate::codec::outcome_view;
use crate::errors::CacheError;
use crate::errors::StorageError;
use crate::hashing::key_view;

verus! {

/// What the orchestrator finds in a store for one key: no record, a record
/// with the outcome it decodes to, or a record that does not decode.
pub enum Lookup {
    Miss,
    Hit(Result<Seq<u8>, Seq<char>>),
    Corrupt,
}

/// The decision the orchestrator takes for key `k` against contents `m`.
pub open spec fn lookup_rec(m: Map<Seq<char>, Seq<u8>>, k: Seq<char>) -> Lookup {
    if !m.contains_key(k) {
        Lookup::Miss
    } else {
        match decode_rec(m[k]) {
            Some(o) => Lookup::Hit(o),
            None => Lookup::Corrupt,
        }
    }
}

/// The reply a caller gets when the stored outcome `o` is replayed: the
/// success payload, or the failure message as a reported computation failure.
pub open spec fn replayed_reply(r: Result<Vec<u8>, CacheError>, o: Result<Seq<u8>, Seq<char>>) -> bool {
    match o {
        Ok(payload) => r matches Ok(v) && v@ == payload,
        Err(message) => r matches Err(CacheError::Computation(m)) && m@ == message,
    }
}

/// The reply a caller gets straight from the live outcome of the computation.
pub open spec fn live_reply(r: Result<Vec<u8>, CacheError>, o: Result<Vec<u8>, String>) -> bool {
    replayed_reply(r, outcome_view(o))
}

/// A durable byte-oriented key/value store, plus the cache orchestrator that
/// every implementor inherits.
///
/// `read` distinguishes a missing record (`NotFound`, which makes the
/// orchestrator compute) from any other failure (`Io`, which is fatal).
/// `write` is atomic with respect to the abstract contents: whatever it
/// reports, the store holds either the full old contents or the full new
/// contents, never a partial record. `remove` may be unsupported.
pub trait PersistentCache: Sized {
    /// The records reachable through this backend instance. A verified
    /// backend overrides this with its own model; an implementor outside the
    /// verified world leaves it at the default, under which nothing is
    /// claimed of its records.
    open spec fn contents(&self) -> Map<Seq<char>, Seq<u8>> {
        Map::empty()
    }

    /// True of a backend whose operations never fail with `Io`; the
    /// orchestrator's contract is exact for such a backend.
    open spec fn infallible() -> bool {
        false
    }

    /// Returns the record stored under `name`, `NotFound` when there is none.
    fn read(&mut self, name: &str) -> (r: Result<Vec<u8>, StorageError>)
        ensures
            final(self).contents() == old(self).contents(),
            match r {
                Ok(value) => old(self).contents().contains_key(name@) && value@ == old(
                    self,
                ).contents()[name@],
                Err(StorageError::NotFound) => !old(self).contents().contains_key(name@),
                Err(StorageError::Io(_)) => old(self).contents().contains_key(name@)
                    && !Self::infallible(),
                Err(StorageError::Unsupported) => false,
            },
    ;

    /// Durably stores `value` under `name`, overwriting any prior record;
    /// even a failed write leaves either the old or the new contents whole.
    fn write(&mut self, name: &str, value: &[u8]) -> (r: Result<(), StorageError>)
        ensures
            match r {
                Ok(_) => final(self).contents() == old(self).contents().insert(name@, value@),
                Err(StorageError::Io(_)) => !Self::infallible() && (final(self).contents() == old(
                    self,
                ).contents() || final(self).contents() == old(self).contents().insert(
                    name@,
                    value@,
                )),
                Err(StorageError::NotFound) => false,
                Err(StorageError::Unsupported) => false,
            },
    ;

    /// Deletes the record under `name`; a backend may instead report the
    /// operation as unsupported, leaving the contents untouched — as the
    /// default implementation does.
    fn remove(&mut self, name: &str) -> (r: Result<(), StorageError>)
        ensures
            match r {
                Ok(_) => final(self).contents() == old(self).contents().remove(name@),
                Err(StorageError::Unsupported) => final(self).contents() == old(self).contents(),
                Err(StorageError::Io(_)) => !Self::infallible() && (final(self).contents() == old(
                    self,
                ).contents() || final(self).contents() == old(self).contents().remove(name@)),
                Err(StorageError::NotFound) => false,
            },
    {
        Err(StorageError::Unsupported)
    }

    /// The get-or-compute-and-store algorithm.
    ///
    /// The key is derived from `args`; a stored record under it is decoded
    /// and replayed — success as the payload, failure as a reported
    /// computation failure — without running `function`. Only when no record
    /// exists is `function` run, its outcome encoded and written, and the
    /// live outcome handed back; the write is best-effort, so a failed write
    /// still returns the live outcome and only forfeits the record. Any
    /// other storage failure is fatal and computes nothing.
    fn cache<F: Fn(Vec<u8>) -> Result<Vec<u8>, String>>(
        &mut self,
        function: F,
        args: Vec<u8>,
    ) -> (r: Result<Vec<u8>, CacheError>)
        requires
            call_requires(function, (args,)),
        ensures
            ({
                let before = old(self).contents();
                let after = final(self).contents();
                let k = key_view(args@);
                match lookup_rec(before, k) {
                    Lookup::Hit(o) => after == before && (replayed_reply(r, o) || (
                    !Self::infallible() && r matches Err(CacheError::StorageIo(_)))),
                    Lookup::Corrupt => after == before && (r matches Err(
                        CacheError::Serialization,
                    ) || (!Self::infallible() && r matches Err(CacheError::StorageIo(_)))),
                    Lookup::Miss => exists|o: Result<Vec<u8>, String>|
                        #[trigger] call_ensures(function, (args,), o) && live_reply(r, o) && (after
                            == before.insert(k, encode_rec(outcome_view(o))) || (
                        !Self::infallible() && after == before)),
                }
            }),
    {
        let derived = crate::hashing::key(args.as_slice());
        match self.read(derived.as_str()) {
            Ok(record) => {
                match decode_outcome(record.as_slice()) {
                    Ok(Ok(payload)) => Ok(payload),
                    Ok(Err(message)) => Err(CacheError::Computation(message)),
                    Err(e) => Err(e),
                }
            },
            Err(StorageError::NotFound) => {
                let outcome = function(args);
                let record = encode_outcome(&outcome);
                let _ = self.write(derived.as_str(), record.as_slice());
                match outcome {
                    Ok(value) => Ok(value),
                    Err(message) => Err(CacheError::Computation(message)),
                }
            },
            Err(StorageError::Io(message)) => Err(CacheError::StorageIo(message)),
            Err(StorageError::Unsupported) => vstd::pervasive::unreached(),
        }
    }
}

} // verus!
