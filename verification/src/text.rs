//! Conversions between byte sequences and strings, and the facts about UTF-8
//! encoding that the codec and the key deriver share.

use vstd::prelude::*;
use vstd::utf8::*;

verus! {

/// Relies on `core::str::from_utf8`: it succeeds exactly on valid UTF-8 input,
/// returning a string slice whose byte encoding is the input itself; the
/// result is then copied into an owned `String` with `str::to_owned`.
#[verifier::external_body]
pub(crate) fn utf8_to_string(bytes: &[u8]) -> (r: Option<String>)
    ensures
        match r {
            Some(s) => valid_utf8(bytes@) && encode_utf8(s@) == bytes@,
            None => !valid_utf8(bytes@),
        },
{
    match core::str::from_utf8(bytes) {
        Ok(s) => Some(s.to_owned()),
        Err(_) => None,
    }
}

/// Two character sequences with the same UTF-8 encoding are the same
/// sequence: decoding inverts encoding.
pub proof fn lemma_encode_utf8_injective(a: Seq<char>, b: Seq<char>)
    requires
        encode_utf8(a) == encode_utf8(b),
    ensures
        a == b,
{
    encode_utf8_decode_utf8(a);
    encode_utf8_decode_utf8(b);
}

} // verus!
