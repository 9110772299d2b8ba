//! Key material: ephemeral key pairs, the peer's public key and the session
//! key that the two sides agree on.

use crate::error::Error;
use crate::sodium;
use crate::sodium::{public_of, shared_key};
use vstd::prelude::*;

verus! {

/// The number of bytes in a public key, a secret key and a session key.
pub const KEY_LEN: usize = 32;

/// A public key, as it crosses the wire.
#[derive(Clone, Copy, Debug)]
pub struct PublicKey {
    pub bytes: [u8; 32],
}

/// The secret half of an ephemeral key pair. It is wiped when it is
/// dropped.
pub struct SecretKey {
    pub bytes: [u8; 32],
}

/// The symmetric key of one session. It is wiped when it is dropped.
pub struct SessionKey {
    pub bytes: [u8; 32],
}

impl SecretKey {
    /// Overwrites the key with zeros.
    pub fn wipe(&mut self)
        ensures
            all_zero(final(self)@),
        opens_invariants none
        no_unwind
    {
        sodium::wipe(&mut self.bytes);
    }
}

impl Drop for SecretKey {
    /// Wipes the key when it goes out of use.
    fn drop(&mut self)
        opens_invariants none
        no_unwind
    {
        self.wipe();
    }
}

impl Drop for SessionKey {
    /// Wipes the key when it goes out of use.
    fn drop(&mut self)
        opens_invariants none
        no_unwind
    {
        self.wipe();
    }
}

impl View for PublicKey {
    type V = Seq<u8>;

    open spec fn view(&self) -> Seq<u8> {
        self.bytes@
    }
}

impl View for SecretKey {
    type V = Seq<u8>;

    open spec fn view(&self) -> Seq<u8> {
        self.bytes@
    }
}

impl View for SessionKey {
    type V = Seq<u8>;

    open spec fn view(&self) -> Seq<u8> {
        self.bytes@
    }
}

/// An ephemeral key pair, made for one session and dropped with it.
pub struct KeyPair {
    pub public: PublicKey,
    pub secret: SecretKey,
}

impl KeyPair {
    /// Whether the public key is the one that belongs to the secret key.
    pub open spec fn matched(&self) -> bool {
        self.public@ == public_of(self.secret@)
    }

    /// Makes a fresh key pair from the system's random source.
    pub fn generate() -> (pair: KeyPair)
        ensures
            pair.matched(),
    {
        let (public, secret) = sodium::gen_keypair();
        KeyPair { public: PublicKey { bytes: public }, secret: SecretKey { bytes: secret } }
    }
}

/// Whether `key` is what the other side derives: whoever holds a secret
/// key that `peer_public` belongs to, and derives from it and from the
/// public key of `own_secret`, gets `key`.
pub open spec fn shared_with_peer(key: Seq<u8>, own_secret: Seq<u8>, peer_public: Seq<u8>) -> bool {
    forall|peer_secret: Seq<u8>|
        peer_secret.len() == 32 && #[trigger] public_of(peer_secret) == peer_public ==> shared_key(
            public_of(own_secret),
            peer_secret,
        ) == key
}

/// Whether every byte is zero.
pub open spec fn all_zero(bytes: Seq<u8>) -> bool {
    forall|i: int| 0 <= i < bytes.len() ==> bytes[i] == 0u8
}

/// What the agreement gives: the derived key, or `MalformedPublicKey` where
/// the derived key is all zero.
pub open spec fn agreed(own_secret: Seq<u8>, peer_public: Seq<u8>) -> Result<Seq<u8>, Error> {
    if all_zero(shared_key(peer_public, own_secret)) {
        Err(Error::MalformedPublicKey)
    } else {
        Ok(shared_key(peer_public, own_secret))
    }
}

/// Whether every byte of a derived key is zero.
fn is_all_zero(bytes: &[u8; 32]) -> (zero: bool)
    ensures
        zero == all_zero(bytes@),
{
    let mut i: usize = 0;
    while i < 32
        invariant
            i <= 32,
            forall|j: int| 0 <= j < i ==> bytes@[j] == 0u8,
        decreases 32 - i,
    {
        if bytes[i] != 0 {
            return false;
        }
        i = i + 1;
    }
    true
}

/// Derives the session key from one's own secret key and the peer's public
/// key. Both peers arrive at one key: the peer, deriving from its secret
/// key and from the public key of `own`, gets the key that this call gives.
///
/// A peer's key that is a degenerate point of the curve gives no key: the
/// primitive refuses it and leaves the derived key all zero. An all-zero
/// key is therefore never a session key, and the peer's key is rejected as
/// `MalformedPublicKey`.
pub fn agree(own: &SecretKey, peer: &PublicKey) -> (result: Result<SessionKey, Error>)
    ensures
        match agreed(own@, peer@) {
            Ok(key) => result matches Ok(k) && k@ == key && shared_with_peer(key, own@, peer@),
            Err(e) => result matches Err(f) && f == e,
        },
{
    let key = sodium::precompute(&peer.bytes, &own.bytes);
    if is_all_zero(&key) {
        Err(Error::MalformedPublicKey)
    } else {
        Ok(SessionKey { bytes: key })
    }
}

impl SessionKey {
    /// Overwrites the key with zeros.
    pub fn wipe(&mut self)
        ensures
            all_zero(final(self)@),
        opens_invariants none
        no_unwind
    {
        sodium::wipe(&mut self.bytes);
    }

    /// A second handle on the key, for the other direction of the session.
    pub fn duplicate(&self) -> (copy: SessionKey)
        ensures
            copy@ == self@,
    {
        SessionKey { bytes: self.bytes }
    }
}

impl PublicKey {
    /// Reads a public key from the payload of a frame: the payload must be
    /// exactly the key's bytes.
    pub fn from_slice(bytes: &[u8]) -> (result: Result<PublicKey, Error>)
        ensures
            bytes.len() == 32 ==> (result matches Ok(key) && key@ == bytes@),
            bytes.len() != 32 ==> result matches Err(Error::MalformedPublicKey),
    {
        if bytes.len() != 32 {
            return Err(Error::MalformedPublicKey);
        }
        let mut key = PublicKey { bytes: [0u8; 32] };
        let mut i: usize = 0;
        while i < 32
            invariant
                i <= 32,
                bytes.len() == 32,
                forall|j: int| 0 <= j < i ==> key.bytes@[j] == bytes@[j],
            decreases 32 - i,
        {
            key.bytes[i] = bytes[i];
            i = i + 1;
        }
        proof {
            assert(key@ =~= bytes@);
        }
        Ok(key)
    }
}

} // verus!
