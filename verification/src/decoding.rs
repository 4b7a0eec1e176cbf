//! Turning the raw bytes that a child process writes into text, through the
//! standard library's UTF-8 decoders.

use vstd::prelude::*;
use vstd::utf8::{decode_utf8, valid_utf8};

verus! {

/// The message with which `String::from_utf8` reports invalid UTF-8 in
/// `bytes` (the `Display` text of its error).
pub uninterp spec fn utf8_error_message(bytes: Seq<u8>) -> Seq<char>;

/// What `String::from_utf8_lossy` makes of `bytes` that are not valid
/// UTF-8: their text with each invalid sequence replaced by U+FFFD.
pub uninterp spec fn utf8_lossy_text(bytes: Seq<u8>) -> Seq<char>;

/// The text that `String::from_utf8_lossy` gives for `bytes`.
pub open spec fn lossy_text(bytes: Seq<u8>) -> Seq<char> {
    if valid_utf8(bytes) {
        decode_utf8(bytes)
    } else {
        utf8_lossy_text(bytes)
    }
}

/// Calls `String::from_utf8`. It succeeds exactly on valid UTF-8 (vstd's
/// `valid_utf8`, which rejects overlong forms, surrogates and code points
/// above U+10FFFF, as the standard library does) and then yields the decoded
/// characters; otherwise it yields the error's `Display` text, which is left
/// unstated beyond its name.
#[verifier::external_body]
pub fn decode_utf8_strict(bytes: &[u8]) -> (r: Result<String, String>)
    ensures
        r is Ok <==> valid_utf8(bytes@),
        r matches Ok(s) ==> s@ == decode_utf8(bytes@),
        r matches Err(e) ==> e@ == utf8_error_message(bytes@),
{
    match String::from_utf8(bytes.to_vec()) {
        Ok(s) => Ok(s),
        Err(e) => Err(e.to_string()),
    }
}

/// Calls `String::from_utf8_lossy`. On valid UTF-8 it yields the decoded
/// characters, as its documentation says; what it makes of invalid input is
/// left unstated beyond its name.
#[verifier::external_body]
pub fn decode_utf8_lossy(bytes: &[u8]) -> (r: String)
    ensures
        valid_utf8(bytes@) ==> r@ == decode_utf8(bytes@),
        !valid_utf8(bytes@) ==> r@ == utf8_lossy_text(bytes@),
{
    String::from_utf8_lossy(bytes).into_owned()
}

} // verus!
