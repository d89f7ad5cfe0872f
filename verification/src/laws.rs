//! The protocol's laws, each proved from the contracts of the codec, the key
//! deriver and the orchestrator.

use vstd::prelude::*;

use crate::codec::encode_rec;
use crate::codec::lemma_codec_round_trip;
use crate::hashing::key_view;
use crate::storage::lookup_rec;
use crate::storage::Lookup;

verus! {

/// Determinism: the key derived for an argument blob is a function of the
/// blob alone, so repeated derivations — in one process or across restarts —
/// agree.
pub proof fn lemma_key_deterministic(args: Seq<u8>, first: Seq<char>, second: Seq<char>)
    requires
        first == key_view(args),
        second == key_view(args),
    ensures
        first == second,
{
}

/// Round-trip idempotence: once the success record for `payload` stands
/// under key `k` — as it does after a miss whose computation succeeded and
/// whose write went through — every later lookup of `k` is a hit that
/// replays exactly that payload, so the computation is never run again.
pub proof fn lemma_round_trip_success(m: Map<Seq<char>, Seq<u8>>, k: Seq<char>, payload: Seq<u8>)
    ensures
        lookup_rec(m.insert(k, encode_rec(Ok(payload))), k) == Lookup::Hit(
            Ok::<Seq<u8>, Seq<char>>(payload),
        ),
{
    lemma_codec_round_trip(Ok(payload));
}

/// Failure persistence: once the failure record for `message` stands under
/// key `k`, every later lookup of `k` is a hit that replays a failure with
/// exactly that message, again without running the computation.
pub proof fn lemma_failure_persistence(m: Map<Seq<char>, Seq<u8>>, k: Seq<char>, message: Seq<char>)
    ensures
        lookup_rec(m.insert(k, encode_rec(Err(message))), k) == Lookup::Hit(
            Err::<Seq<u8>, Seq<char>>(message),
        ),
{
    lemma_codec_round_trip(Err(message));
}

/// Miss-then-hit transition: a key never written to a store is a miss, and
/// becomes a hit exactly when its record is written.
pub proof fn lemma_fresh_key_misses(m: Map<Seq<char>, Seq<u8>>, k: Seq<char>)
    requires
        !m.contains_key(k),
    ensures
        lookup_rec(m, k) == Lookup::Miss,
{
}

/// Write atomicity: a write leaves one of two whole states — the old
/// contents or the new — so a reader of the written key observes the
/// complete old record or the complete new record, never a mixture, and no
/// other key moves at all.
pub proof fn lemma_write_atomicity(
    m: Map<Seq<char>, Seq<u8>>,
    k: Seq<char>,
    v: Seq<u8>,
    after: Map<Seq<char>, Seq<u8>>,
)
    requires
        after == m || after == m.insert(k, v),
    ensures
        after.contains_key(k) ==> after[k] == v || (m.contains_key(k) && after[k] == m[k]),
        forall|other: Seq<char>|
            other != k && after.contains_key(other) ==> m.contains_key(other) && after[other]
                == m[other],
{
}

/// Backend swap transparency: the orchestrator's decision — miss, hit with
/// its replayed outcome, or corrupt record — depends only on the store's
/// contents, never on which backend holds them: two stores with equal
/// contents decide every key alike.
pub proof fn lemma_backend_swap(
    m1: Map<Seq<char>, Seq<u8>>,
    m2: Map<Seq<char>, Seq<u8>>,
    k: Seq<char>,
)
    requires
        m1 =~= m2,
    ensures
        lookup_rec(m1, k) == lookup_rec(m2, k),
{
}

} // verus!
