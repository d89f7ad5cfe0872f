//! The key deriver: an argument blob is hashed with the standard library's
//! default hasher, and the 64-bit digest is rendered in decimal. Equal blobs
//! always yield equal keys; distinct blobs may collide, which the protocol
//! accepts.

use std::collections::hash_map::DefaultHasher;
use std::hash::Hasher;
use vstd::prelude::*;
use vstd::std_specs::hash::DefaultHasherAdditionalSpecFns;
use vstd::utf8::*;

use crate::text::lemma_encode_utf8_injective;
use crate::text::utf8_to_string;

verus! {

/// The decimal rendering of `n`, most significant digit first, as ASCII bytes.
pub open spec fn dec_bytes(n: nat) -> Seq<u8>
    decreases n,
{
    if n < 10 {
        seq![(48 + n) as u8]
    } else {
        dec_bytes(n / 10).push((48 + n % 10) as u8)
    }
}

/// The decimal rendering of `n` as characters.
pub open spec fn dec_chars(n: nat) -> Seq<char> {
    dec_bytes(n).map_values(|b: u8| b as char)
}

/// The key derived from one argument blob: the decimal rendering of the
/// default hasher's digest over exactly that blob.
pub open spec fn key_view(args: Seq<u8>) -> Seq<char> {
    dec_chars(DefaultHasher::spec_finish(seq![args]) as nat)
}

/// Every byte of a decimal rendering is an ASCII digit, and there is at
/// least one.
pub proof fn lemma_dec_bytes_digits(n: nat)
    ensures
        dec_bytes(n).len() >= 1,
        forall|i: int| 0 <= i < dec_bytes(n).len() ==> 48 <= #[trigger] dec_bytes(n)[i] <= 57,
    decreases n,
{
    if n >= 10 {
        lemma_dec_bytes_digits(n / 10);
    }
}

/// The character rendering is ASCII and encodes, byte for byte, back to the
/// byte rendering.
pub proof fn lemma_dec_chars_utf8(n: nat)
    ensures
        is_ascii_chars(dec_chars(n)),
        encode_utf8(dec_chars(n)) == dec_bytes(n),
{
    lemma_dec_bytes_digits(n);
    assert(is_ascii_chars(dec_chars(n)));
    is_ascii_chars_encode_utf8(dec_chars(n));
    assert(encode_utf8(dec_chars(n)) =~= dec_bytes(n));
}

/// Appends the decimal digits of `n` to `out`, most significant first.
fn push_decimal(n: u64, out: &mut Vec<u8>)
    ensures
        final(out)@ == old(out)@ + dec_bytes(n as nat),
    decreases n,
{
    if n >= 10 {
        push_decimal(n / 10, out);
    }
    out.push((n % 10) as u8 + 48);
    proof {
        assert(final(out)@ =~= old(out)@ + dec_bytes(n as nat));
    }
}

/// Derives the cache key for one argument blob.
///
/// The key is a function of the bytes alone, so equal blobs give equal keys
/// on every call; it is never empty and holds only decimal digits, so it is
/// safe as a file name or a remote-store key.
pub fn key(args: &[u8]) -> (r: String)
    ensures
        r@ == key_view(args@),
        r@.len() >= 1,
        forall|i: int| 0 <= i < r@.len() ==> '0' <= #[trigger] r@[i] <= '9',
{
    let mut hasher = DefaultHasher::new();
    hasher.write(args);
    let digest: u64 = hasher.finish();
    proof {
        assert(hasher@ =~= seq![args@]);
    }
    let mut digits: Vec<u8> = Vec::new();
    push_decimal(digest, &mut digits);
    proof {
        lemma_dec_bytes_digits(digest as nat);
        lemma_dec_chars_utf8(digest as nat);
        assert(digits@ =~= dec_bytes(digest as nat));
        encode_utf8_valid_utf8(dec_chars(digest as nat));
    }
    let rendered = utf8_to_string(digits.as_slice());
    let r = rendered.unwrap();
    proof {
        lemma_encode_utf8_injective(r@, dec_chars(digest as nat));
        assert forall|i: int| 0 <= i < r@.len() implies '0' <= #[trigger] r@[i] <= '9' by {
            assert(r@[i] == (dec_bytes(digest as nat)[i] as char));
        }
    }
    r
}

} // verus!
