//! Persistent memoization: a cached computation stores its outcome, keyed by a
//! hash of its arguments, in a durable key/value store; later calls with the
//! same arguments replay the stored outcome instead of recomputing.

mod binding;
mod codec;
mod errors;
mod file;
mod hashing;
mod laws;
mod memory;
mod storage;
mod text;

pub use binding::Binding;
pub use codec::decode_outcome;
pub use codec::decode_rec;
pub use codec::encode_outcome;
pub use codec::encode_rec;
pub use codec::lemma_codec_round_trip;
pub use codec::outcome_view;
pub use errors::CacheError;
pub use errors::StorageError;
pub use file::FileStorage;
pub use hashing::dec_bytes;
pub use hashing::dec_chars;
pub use hashing::key;
pub use hashing::key_view;
pub use laws::lemma_backend_swap;
pub use laws::lemma_failure_persistence;
pub use laws::lemma_fresh_key_misses;
pub use laws::lemma_key_deterministic;
pub use laws::lemma_round_trip_success;
pub use laws::lemma_write_atomicity;
pub use memory::MemoryStorage;
pub use storage::live_reply;
pub use storage::lookup_rec;
pub use storage::replayed_reply;
pub use storage::Lookup;
pub use storage::PersistentCache;
