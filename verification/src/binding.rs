//! The binding layer: a named computation slot tied to the one backend
//! instance that holds its records, presented as a callable. The embedding
//! program creates one binding per slot on first use and then reuses it for
//! the process lifetime.

use vstd::prelude::*;

use crate::codec::encode_rec;
use crate::codec::outcome_view;
use crate::errors::CacheError;
use crate::hashing::key_view;
use crate::storage::live_reply;
use crate::storage::lookup_rec;
use crate::storage::replayed_reply;
use crate::storage::Lookup;
use crate::storage::PersistentCache;

verus! {

/// One computation slot and the backend instance it owns exclusively.
pub struct Binding<S: PersistentCache> {
    slot: String,
    storage: S,
}

impl<S: PersistentCache> Binding<S> {
    /// The slot's name.
    pub closed spec fn slot_view(&self) -> Seq<char> {
        self.slot@
    }

    /// The records of the bound backend instance.
    pub closed spec fn contents(&self) -> Map<Seq<char>, Seq<u8>> {
        self.storage.contents()
    }

    /// Binds the slot named `slot` to `storage`.
    pub fn new(slot: String, storage: S) -> (r: Self)
        ensures
            r.slot_view() == slot@,
            r.contents() == storage.contents(),
    {
        Binding { slot, storage }
    }

    /// The slot's name, as the embedding program spells it.
    pub fn slot_name(&self) -> (r: &String)
        ensures
            r@ == self.slot_view(),
    {
        &self.slot
    }

    /// Calls the bound computation through the cache: a stored outcome is
    /// replayed, a missing one is computed and stored. The contract is the
    /// orchestrator's, against this slot's records.
    pub fn call<F: Fn(Vec<u8>) -> Result<Vec<u8>, String>>(
        &mut self,
        function: F,
        args: Vec<u8>,
    ) -> (r: Result<Vec<u8>, CacheError>)
        requires
            call_requires(function, (args,)),
        ensures
            final(self).slot_view() == old(self).slot_view(),
            ({
                let before = old(self).contents();
                let after = final(self).contents();
                let k = key_view(args@);
                match lookup_rec(before, k) {
                    Lookup::Hit(o) => after == before && (replayed_reply(r, o) || (
                    !S::infallible() && r matches Err(CacheError::StorageIo(_)))),
                    Lookup::Corrupt => after == before && (r matches Err(
                        CacheError::Serialization,
                    ) || (!S::infallible() && r matches Err(CacheError::StorageIo(_)))),
                    Lookup::Miss => exists|o: Result<Vec<u8>, String>|
                        #[trigger] call_ensures(function, (args,), o) && live_reply(r, o) && (after
                            == before.insert(k, encode_rec(outcome_view(o))) || (!S::infallible()
                            && after == before)),
                }
            }),
    {
        self.storage.cache(function, args)
    }
}

} // verus!
