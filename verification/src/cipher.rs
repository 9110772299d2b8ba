//! Authenticated encryption of one message under the session key and a
//! nonce.

use crate::error::Error;
use crate::keys::SessionKey;
use crate::nonce::Nonce;
use crate::sodium;
use crate::sodium::{opened, sealed};
use vstd::prelude::*;

verus! {

/// What decrypting `ciphertext` under `key` and `nonce` gives: the message,
/// or the failure to authenticate.
pub open spec fn decrypted(ciphertext: Seq<u8>, key: Seq<u8>, nonce: Seq<u8>) -> Result<
    Seq<u8>,
    Error,
> {
    match opened(ciphertext, nonce, key) {
        Some(message) => Ok(message),
        None => Err(Error::AuthenticationFailed),
    }
}

/// The view of a decryption's outcome.
pub open spec fn outcome_view(outcome: Result<Vec<u8>, Error>) -> Result<Seq<u8>, Error> {
    match outcome {
        Ok(message) => Ok(message@),
        Err(e) => Err(e),
    }
}

/// Encrypts and authenticates `plaintext`. The ciphertext is sixteen bytes
/// longer than the plaintext, and decrypting it under the same key and
/// nonce gives the plaintext back.
pub fn encrypt(plaintext: &[u8], key: &SessionKey, nonce: &Nonce) -> (ciphertext: Vec<u8>)
    requires
        plaintext.len() + 16 <= usize::MAX,
    ensures
        ciphertext@ == sealed(plaintext@, nonce@, key@),
        ciphertext@.len() == plaintext@.len() + 16,
        decrypted(ciphertext@, key@, nonce@) == Ok::<Seq<u8>, Error>(plaintext@),
{
    sodium::seal(plaintext, &nonce.bytes, &key.bytes)
}

/// Turns what the primitive gave for a ciphertext into the outcome of the
/// decryption: the message, or `AuthenticationFailed`.
pub fn authenticated(message: Option<Vec<u8>>) -> (outcome: Result<Vec<u8>, Error>)
    ensures
        message matches Some(m) ==> outcome == Ok::<Vec<u8>, Error>(m),
        message is None ==> outcome == Err::<Vec<u8>, Error>(Error::AuthenticationFailed),
{
    match message {
        Some(m) => Ok(m),
        None => Err(Error::AuthenticationFailed),
    }
}

/// Verifies and decrypts `ciphertext`. Fails with `AuthenticationFailed`
/// exactly where the ciphertext does not authenticate under the key and the
/// nonce, which is so of every ciphertext shorter than a tag; it never gives
/// a message that the primitive did not accept.
pub fn decrypt(ciphertext: &[u8], key: &SessionKey, nonce: &Nonce) -> (outcome: Result<
    Vec<u8>,
    Error,
>)
    ensures
        outcome_view(outcome) == decrypted(ciphertext@, key@, nonce@),
        outcome matches Ok(m) ==> m@.len() + 16 == ciphertext@.len(),
        ciphertext@.len() < 16 ==> outcome == Err::<Vec<u8>, Error>(Error::AuthenticationFailed),
{
    authenticated(sodium::open(ciphertext, &nonce.bytes, &key.bytes))
}

} // verus!
