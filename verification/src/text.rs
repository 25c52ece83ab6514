//! Turning raw bytes into text.

use vstd::prelude::*;
use vstd::utf8::*;

verus! {

/// Calls `String::from_utf8`. Trusted: the standard library documents that it
/// returns the bytes as a `String` exactly when they are well-formed UTF-8, and an
/// error otherwise; the contract states this with vstd's UTF-8 model
/// (`valid_utf8` / `decode_utf8`).
#[verifier::external_body]
pub(crate) fn string_from_utf8(bytes: Vec<u8>) -> (res: Option<String>)
    ensures
        res is Some <==> valid_utf8(bytes@),
        res matches Some(s) ==> s@ == decode_utf8(bytes@),
{
    String::from_utf8(bytes).ok()
}

/// The text carried by a message payload, if the payload is well-formed UTF-8.
pub fn payload_text(payload: Vec<u8>) -> (text: Option<String>)
    ensures
        text is Some <==> valid_utf8(payload@),
        text matches Some(s) ==> s@ == decode_utf8(payload@),
        text matches Some(s) ==> encode_utf8(s@) == payload@,
{
    let ghost bytes = payload@;
    let text = string_from_utf8(payload);
    proof {
        if text is Some {
            decode_utf8_encode_utf8(bytes);
        }
    }
    text
}

} // verus!
