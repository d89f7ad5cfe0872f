//! An in-memory storage backend: a process-local map of records. It meets
//! the full backend contract — including `remove` — and never fails, so the
//! orchestrator's contract is exact against it.

use vstd::hash_map::StringHashMap;
use vstd::prelude::*;
use vstd::slice::slice_to_vec;

use crate::errors::StorageError;
use crate::storage::PersistentCache;

verus! {

/// A storage backend whose records live in a process-local hash map.
pub struct MemoryStorage {
    records: StringHashMap<Vec<u8>>,
}

impl MemoryStorage {
    /// Creates an empty store.
    pub fn new() -> (r: Self)
        ensures
            r.contents() == Map::<Seq<char>, Seq<u8>>::empty(),
    {
        let r = MemoryStorage { records: StringHashMap::new() };
        proof {
            assert(r.contents() =~= Map::<Seq<char>, Seq<u8>>::empty());
        }
        r
    }

    /// The number of records held.
    pub fn len(&self) -> (r: usize)
        ensures
            r == self.contents().len(),
    {
        proof {
            assert(self.contents().dom() =~= self.records@.dom());
        }
        self.records.len()
    }
}

impl PersistentCache for MemoryStorage {
    /// The stored records, each seen as its bytes.
    closed spec fn contents(&self) -> Map<Seq<char>, Seq<u8>> {
        self.records@.map_values(|v: Vec<u8>| v@)
    }

    open spec fn infallible() -> bool {
        true
    }

    fn read(&mut self, name: &str) -> (r: Result<Vec<u8>, StorageError>) {
        match self.records.get(name) {
            Some(value) => Ok(slice_to_vec(value.as_slice())),
            None => Err(StorageError::NotFound),
        }
    }

    fn write(&mut self, name: &str, value: &[u8]) -> (r: Result<(), StorageError>) {
        self.records.insert(name.to_owned(), slice_to_vec(value));
        proof {
            assert(self.contents() =~= old(self).contents().insert(name@, value@));
        }
        Ok(())
    }

    fn remove(&mut self, name: &str) -> (r: Result<(), StorageError>) {
        self.records.remove(name);
        proof {
            assert(self.contents() =~= old(self).contents().remove(name@));
        }
        Ok(())
    }
}

} // verus!
