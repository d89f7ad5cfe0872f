//! The outcome codec: the byte form of one stored record. A record is a tag
//! byte — `0` for a success, `1` for a failure — followed by the success
//! payload as it was given, or by the UTF-8 bytes of the failure message.
//! The tag is preserved losslessly; of a failure only the message's text
//! survives the round trip, a deliberate simplification.

use vstd::prelude::*;
use vstd::slice::slice_to_vec;
use vstd::string::StrSliceExecFns;
use vstd::utf8::*;

use crate::errors::CacheError;
use crate::text::utf8_to_string;

verus! {

/// The outcome of one computation, seen abstractly: the success payload's
/// bytes, or the failure message's characters.
pub open spec fn outcome_view(o: Result<Vec<u8>, String>) -> Result<Seq<u8>, Seq<char>> {
    match o {
        Ok(payload) => Ok(payload@),
        Err(message) => Err(message@),
    }
}

/// The byte encoding of one outcome.
pub open spec fn encode_rec(o: Result<Seq<u8>, Seq<char>>) -> Seq<u8> {
    match o {
        Ok(payload) => seq![0u8] + payload,
        Err(message) => seq![1u8] + encode_utf8(message),
    }
}

/// The decoding of one stored record; `None` when the record is corrupt:
/// empty, under an unknown tag, or a failure record whose message bytes are
/// not UTF-8.
pub open spec fn decode_rec(bytes: Seq<u8>) -> Option<Result<Seq<u8>, Seq<char>>> {
    if bytes.len() == 0 {
        None
    } else if bytes[0] == 0 {
        Some(Ok(bytes.subrange(1, bytes.len() as int)))
    } else if bytes[0] == 1 && valid_utf8(bytes.subrange(1, bytes.len() as int)) {
        Some(Err(decode_utf8(bytes.subrange(1, bytes.len() as int))))
    } else {
        None
    }
}

/// Decoding inverts encoding: the record written for an outcome decodes back
/// to that outcome, success and failure alike.
pub proof fn lemma_codec_round_trip(o: Result<Seq<u8>, Seq<char>>)
    ensures
        decode_rec(encode_rec(o)) == Some(o),
{
    match o {
        Ok(payload) => {
            assert(encode_rec(o).subrange(1, encode_rec(o).len() as int) =~= payload);
        },
        Err(message) => {
            assert(encode_rec(o).subrange(1, encode_rec(o).len() as int) =~= encode_utf8(
                message,
            ));
            encode_utf8_valid_utf8(message);
            encode_utf8_decode_utf8(message);
        },
    }
}

/// Encodes an outcome as the record to store.
pub fn encode_outcome(outcome: &Result<Vec<u8>, String>) -> (r: Vec<u8>)
    ensures
        r@ == encode_rec(outcome_view(*outcome)),
{
    let mut r: Vec<u8> = Vec::new();
    match outcome {
        Ok(payload) => {
            r.push(0);
            let mut tail = slice_to_vec(payload.as_slice());
            r.append(&mut tail);
        },
        Err(message) => {
            r.push(1);
            let mut tail = message.as_str().as_bytes_vec();
            r.append(&mut tail);
        },
    }
    proof {
        assert(r@ =~= encode_rec(outcome_view(*outcome)));
    }
    r
}

/// Decodes a stored record, reporting a corrupt one as a serialization
/// failure.
pub fn decode_outcome(bytes: &[u8]) -> (r: Result<Result<Vec<u8>, String>, CacheError>)
    ensures
        match decode_rec(bytes@) {
            Some(o) => r matches Ok(out) && outcome_view(out) == o,
            None => r matches Err(CacheError::Serialization),
        },
{
    if bytes.len() == 0 {
        return Err(CacheError::Serialization);
    }
    let tag = *vstd::slice::slice_index_get(bytes, 0);
    let tail = vstd::slice::slice_subrange(bytes, 1, bytes.len());
    if tag == 0 {
        Ok(Ok(slice_to_vec(tail)))
    } else if tag == 1 {
        match utf8_to_string(tail) {
            Some(message) => {
                proof {
                    encode_utf8_decode_utf8(message@);
                }
                Ok(Err(message))
            },
            None => Err(CacheError::Serialization),
        }
    } else {
        Err(CacheError::Serialization)
    }
}

} // verus!
