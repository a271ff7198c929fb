//! Text crossing the engine boundary.
//!
//! The engine exchanges text as null-terminated byte strings. Going out, a
//! string is UTF-8 encoded and a terminator byte is appended; a string whose
//! encoding already contains a zero byte cannot be represented and is
//! rejected. Coming in, engine bytes (with the terminator already stripped)
//! are decoded as UTF-8; bytes that do not decode are rejected.

use crate::NgSpiceError;
use vstd::prelude::*;
use vstd::string::StrSliceExecFns;
use vstd::utf8::{decode_utf8, encode_utf8, valid_utf8};

verus! {

/// Relies on `String::from_utf8`: it succeeds exactly on valid UTF-8 input
/// and returns the string whose byte encoding is that input.
#[verifier::external_body]
fn bytes_to_string(bytes: &Vec<u8>) -> (r: Option<String>)
    ensures
        r is Some <==> valid_utf8(bytes@),
        r is Some ==> r->Some_0@ == decode_utf8(bytes@),
{
    String::from_utf8(bytes.clone()).ok()
}

/// Encode `text` for the engine: its UTF-8 bytes followed by one terminator
/// byte. Fails with `EncodingError` exactly when the encoding contains an
/// embedded zero byte, which the engine's string format cannot represent.
pub fn encode_c_string(text: &str) -> (r: Result<Vec<u8>, NgSpiceError>)
    ensures
        r is Ok <==> !encode_utf8(text@).contains(0u8),
        r is Ok ==> r->Ok_0@ == encode_utf8(text@).push(0u8),
        r is Err ==> r->Err_0 == NgSpiceError::EncodingError,
{
    let mut bytes = text.as_bytes_vec();
    let mut i: usize = 0;
    while i < bytes.len()
        invariant
            i <= bytes@.len(),
            bytes@ == encode_utf8(text@),
            forall|k: int| 0 <= k < i ==> bytes@[k] != 0u8,
        decreases bytes@.len() - i,
    {
        if bytes[i] == 0u8 {
            assert(encode_utf8(text@).contains(0u8)) by {
                assert(encode_utf8(text@)[i as int] == 0u8);
            }
            return Err(NgSpiceError::EncodingError);
        }
        i = i + 1;
    }
    assert(!encode_utf8(text@).contains(0u8)) by {
        assert(forall|k: int| 0 <= k < encode_utf8(text@).len() ==> encode_utf8(text@)[k] != 0u8);
    }
    bytes.push(0u8);
    Ok(bytes)
}

/// Decode engine bytes (terminator already stripped) as UTF-8. Fails with
/// `EncodingError` exactly when the bytes are not valid UTF-8.
pub fn decode_c_bytes(bytes: &Vec<u8>) -> (r: Result<String, NgSpiceError>)
    ensures
        r is Ok <==> valid_utf8(bytes@),
        r is Ok ==> r->Ok_0@ == decode_utf8(bytes@),
        r is Err ==> r->Err_0 == NgSpiceError::EncodingError,
{
    match bytes_to_string(bytes) {
        Some(s) => Ok(s),
        None => Err(NgSpiceError::EncodingError),
    }
}

} // verus!
