//! Messages are UTF-8 text: the bytes of a text on the way out, and a text
//! from the bytes on the way in.

use crate::error::Error;
use vstd::prelude::*;
use vstd::utf8::{decode_utf8, valid_utf8};

verus! {

/// Calls `String::from_utf8`: the text that the bytes encode, or `None`
/// where they are not valid UTF-8.
#[verifier::external_body]
fn from_utf8(bytes: Vec<u8>) -> (decoded: Option<String>)
    ensures
        decoded matches Some(t) ==> valid_utf8(bytes@) && t@ == decode_utf8(bytes@),
        decoded is None ==> !valid_utf8(bytes@),
{
    match String::from_utf8(bytes) {
        Ok(t) => Some(t),
        Err(_) => None,
    }
}

/// Reads a decrypted message as text. Fails with `InvalidText` exactly
/// where the bytes are not valid UTF-8.
pub fn decode_text(bytes: Vec<u8>) -> (result: Result<String, Error>)
    ensures
        valid_utf8(bytes@) ==> (result matches Ok(t) && t@ == decode_utf8(bytes@)),
        !valid_utf8(bytes@) ==> result matches Err(Error::InvalidText),
{
    match from_utf8(bytes) {
        Some(text) => Ok(text),
        None => Err(Error::InvalidText),
    }
}

} // verus!
