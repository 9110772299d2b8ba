//! The primitives that come from libsodium, through the `sodiumoxide` crate:
//! key generation, key agreement, sealing, opening and the nonce increment.
//!
//! Nothing in this module is proved. Each function states what the crate's
//! source and documentation say of the call it makes, and the rest of the
//! library is proved from those statements.

use crate::endian::{le_value, pow256};
use sodiumoxide::crypto::box_;
use vstd::prelude::*;

verus! {

/// The public key that belongs to a secret key: the one that
/// `box_::gen_keypair` hands out beside it.
pub uninterp spec fn public_of(secret: Seq<u8>) -> Seq<u8>;

/// The key that `box_::precompute` derives from a public and a secret key.
pub uninterp spec fn shared_key(public: Seq<u8>, secret: Seq<u8>) -> Seq<u8>;

/// The ciphertext, tag included, that `box_::seal_precomputed` gives for a
/// message, a nonce and a key.
pub uninterp spec fn sealed(message: Seq<u8>, nonce: Seq<u8>, key: Seq<u8>) -> Seq<u8>;

/// What `box_::open_precomputed` gives for a ciphertext, a nonce and a key:
/// the message, or nothing where the ciphertext does not authenticate.
pub uninterp spec fn opened(ciphertext: Seq<u8>, nonce: Seq<u8>, key: Seq<u8>) -> Option<Seq<u8>>;

/// The number of bytes that sealing adds to a message.
pub const TAG_LEN: usize = 16;

/// Calls `box_::gen_keypair`: a fresh random secret key and the public key
/// that corresponds to it, public key first. Which pair comes back is not
/// stated, only that the two belong together.
#[verifier::external_body]
pub(crate) fn gen_keypair() -> (pair: ([u8; 32], [u8; 32]))
    ensures
        pair.0@ == public_of(pair.1@),
{
    let (public, secret) = box_::gen_keypair();
    (public.0, secret.0)
}

/// Calls `box_::precompute`: the key that a peer's public key and one's own
/// secret key give. The crate documents that the peer, computing from its
/// secret key and our public key, gets the identical key; the second clause
/// says so for every secret key that `public` belongs to. Nothing is
/// claimed of a public key that libsodium refuses: the call then hands
/// back whatever it does, and the caller judges the key.
#[verifier::external_body]
pub(crate) fn precompute(public: &[u8; 32], secret: &[u8; 32]) -> (key: [u8; 32])
    ensures
        key@ == shared_key(public@, secret@),
        forall|peer_secret: Seq<u8>|
            peer_secret.len() == 32 && #[trigger] public_of(peer_secret) == public@
                ==> shared_key(public_of(secret@), peer_secret) == key@,
{
    let key = box_::precompute(&box_::PublicKey(*public), &box_::SecretKey(*secret));
    key.0
}

/// Calls `box_::seal_precomputed`: the ciphertext is the message's length
/// plus the tag's, and `box_::open_precomputed` on it, with the same nonce
/// and key, gives the message back.
#[verifier::external_body]
pub(crate) fn seal(message: &[u8], nonce: &[u8; 24], key: &[u8; 32]) -> (ciphertext: Vec<u8>)
    requires
        message.len() + 16 <= usize::MAX,
    ensures
        ciphertext@ == sealed(message@, nonce@, key@),
        ciphertext@.len() == message@.len() + 16,
        opened(ciphertext@, nonce@, key@) == Some(message@),
{
    box_::seal_precomputed(message, &box_::Nonce(*nonce), &box_::PrecomputedKey(*key))
}

/// Calls `box_::open_precomputed`: the message, or `None` where the
/// ciphertext fails verification. A ciphertext shorter than a tag always
/// fails; a message that comes out is shorter than the ciphertext by the tag.
#[verifier::external_body]
pub(crate) fn open(ciphertext: &[u8], nonce: &[u8; 24], key: &[u8; 32]) -> (message: Option<
    Vec<u8>,
>)
    ensures
        message matches Some(m) ==> opened(ciphertext@, nonce@, key@) == Some(m@) && m@.len() + 16
            == ciphertext@.len(),
        message is None ==> opened(ciphertext@, nonce@, key@) is None,
        ciphertext@.len() < 16 ==> message is None,
{
    match box_::open_precomputed(ciphertext, &box_::Nonce(*nonce), &box_::PrecomputedKey(*key)) {
        Ok(message) => Some(message),
        Err(()) => None,
    }
}

/// Calls `Nonce::increment_le_inplace`: the nonce, read as a little-endian
/// number, goes up by one, and from its largest value back to zero.
#[verifier::external_body]
pub(crate) fn increment(nonce: &mut [u8; 24])
    ensures
        le_value(final(nonce)@) == (le_value(old(nonce)@) + 1) % pow256(24),
{
    let mut next = box_::Nonce(*nonce);
    next.increment_le_inplace();
    *nonce = next.0;
}

/// Calls `utils::memzero`: every byte of the key is zero afterwards.
#[verifier::external_body]
pub(crate) fn wipe(key: &mut [u8; 32])
    ensures
        forall|i: int| 0 <= i < 32 ==> final(key)@[i] == 0u8,
    opens_invariants none
    no_unwind
{
    sodiumoxide::utils::memzero(key);
}

} // verus!
