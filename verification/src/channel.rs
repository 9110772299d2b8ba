//! The two directions of an established session. Each direction owns its
//! nonce counter, so the two can run side by side without sharing anything
//! but the key. A direction counts its messages from zero, and within a
//! direction no nonce comes twice; the fields are private, so that nothing
//! but sealing and opening moves a counter.

use crate::cipher::{decrypt, decrypted, encrypt, outcome_view};
use crate::error::Error;
use crate::frame::{first_payload, frame_of, holds_frame, lemma_frame_round_trip};
use crate::keys::{agreed, shared_with_peer, SessionKey};
use crate::endian::{le_bytes, le_value, lemma_le_bytes_of_value, pow256};
use crate::nonce::{nonce_at, successor, Nonce};
use crate::sodium::{public_of, sealed};
use crate::text::decode_text;
use vstd::prelude::*;
use vstd::string::StringSliceAdditionalSpecFns;
use vstd::utf8::{decode_utf8, valid_utf8};

verus! {

/// The sending direction: the key, and the nonce of the next message.
/// Only sealing moves the nonce, so no two messages of one sender share
/// one.
pub struct Sender {
    key: SessionKey,
    nonce: Nonce,
}

/// The receiving direction: the key, the nonce of the next message, and
/// the failure that ended the direction, if one did.
pub struct Receiver {
    key: SessionKey,
    nonce: Nonce,
    failed: Option<Error>,
}

/// What receiving `frame` gives in a direction that has not failed.
pub open spec fn received_text(frame: Seq<u8>, key: Seq<u8>, nonce: Seq<u8>) -> Result<
    Seq<char>,
    Error,
> {
    match decrypted(frame, key, nonce) {
        Err(e) => Err(e),
        Ok(message) => if valid_utf8(message) {
            Ok(decode_utf8(message))
        } else {
            Err(Error::InvalidText)
        },
    }
}

/// The nonce at which a direction stands after it was handed `frame`: the
/// next one where the frame authenticated, the same one where it did not.
pub open spec fn nonce_after(frame: Seq<u8>, key: Seq<u8>, nonce: Seq<u8>) -> Seq<u8> {
    if decrypted(frame, key, nonce) is Ok {
        successor(nonce)
    } else {
        nonce
    }
}

/// The view of a received text.
pub open spec fn text_view(result: Result<String, Error>) -> Result<Seq<char>, Error> {
    match result {
        Ok(text) => Ok(text@),
        Err(e) => Err(e),
    }
}

/// Opens the two directions of a session on its key, each at nonce zero.
/// The two count apart: what one side sends as its message `i` the other
/// side opens as its message `i`, whatever went the other way meanwhile.
pub fn split(key: SessionKey) -> (halves: (Sender, Receiver))
    ensures
        halves.0.key() == key@,
        halves.0.nonce() == nonce_at(0),
        halves.0.sent() == 0,
        halves.1.key() == key@,
        halves.1.nonce() == nonce_at(0),
        halves.1.failed() is None,
{
    let other = key.duplicate();
    (Sender { key, nonce: Nonce::zero() }, Receiver { key: other, nonce: Nonce::zero(), failed: None })
}

impl Sender {
    /// The session key.
    pub closed spec fn key(&self) -> Seq<u8> {
        self.key@
    }

    /// The nonce under which the next message will be sealed.
    pub closed spec fn nonce(&self) -> Seq<u8> {
        self.nonce@
    }

    /// The number of messages sealed so far: the number that the counter
    /// holds.
    pub open spec fn sent(&self) -> nat {
        le_value(self.nonce())
    }

    /// The nonce under which the next message will be sealed.
    pub fn next_nonce(&self) -> (nonce: Nonce)
        ensures
            nonce@ == self.nonce(),
    {
        self.nonce
    }

    /// Seals the next message and moves the counter on. The result is the
    /// payload of the frame to send: the receiver that stands at the same
    /// nonce gets `plaintext` from it. After `k` messages the next one is
    /// sealed under the nonce that spells `k`, and `k + 1` are sent then.
    pub fn seal(&mut self, plaintext: &[u8]) -> (frame: Vec<u8>)
        requires
            plaintext.len() + 16 <= usize::MAX,
        ensures
            frame@ == sealed(plaintext@, old(self).nonce(), old(self).key()),
            old(self).nonce() == le_bytes(old(self).sent(), 24),
            final(self).sent() == (old(self).sent() + 1) % pow256(24),
            frame@.len() == plaintext@.len() + 16,
            decrypted(frame@, old(self).key(), old(self).nonce()) == Ok::<Seq<u8>, Error>(
                plaintext@,
            ),
            final(self).key() == old(self).key(),
            final(self).nonce() == successor(old(self).nonce()),
            forall|n: nat|
                old(self).nonce() == #[trigger] nonce_at(n) ==> final(self).nonce() == nonce_at(
                    n + 1,
                ),
    {
        proof {
            lemma_le_bytes_of_value(self.nonce@);
        }
        let frame = encrypt(plaintext, &self.key, &self.nonce);
        self.nonce.advance();
        frame
    }

    /// Seals a text as its UTF-8 bytes.
    pub fn seal_text(&mut self, text: &str) -> (frame: Vec<u8>)
        requires
            text.spec_bytes().len() + 16 <= usize::MAX,
        ensures
            frame@ == sealed(text.spec_bytes(), old(self).nonce(), old(self).key()),
            old(self).nonce() == le_bytes(old(self).sent(), 24),
            final(self).sent() == (old(self).sent() + 1) % pow256(24),
            frame@.len() == text.spec_bytes().len() + 16,
            received_text(frame@, old(self).key(), old(self).nonce()) == Ok::<Seq<char>, Error>(
                text@,
            ),
            final(self).key() == old(self).key(),
            final(self).nonce() == successor(old(self).nonce()),
            forall|n: nat|
                old(self).nonce() == #[trigger] nonce_at(n) ==> final(self).nonce() == nonce_at(
                    n + 1,
                ),
    {
        proof {
            vstd::utf8::encode_utf8_valid_utf8(text@);
            vstd::utf8::encode_utf8_decode_utf8(text@);
        }
        self.seal(text.as_bytes())
    }
}

impl Receiver {
    /// The session key.
    pub closed spec fn key(&self) -> Seq<u8> {
        self.key@
    }

    /// The nonce under which the next message is expected.
    pub closed spec fn nonce(&self) -> Seq<u8> {
        self.nonce@
    }

    /// The failure that ended the direction, if one did.
    pub closed spec fn failed(&self) -> Option<Error> {
        self.failed
    }

    /// The nonce under which the next message is expected.
    pub fn next_nonce(&self) -> (nonce: Nonce)
        ensures
            nonce@ == self.nonce(),
    {
        self.nonce
    }

    /// The failure that ended the direction, if one did.
    pub fn failure(&self) -> (failure: Option<Error>)
        ensures
            failure == self.failed(),
    {
        self.failed
    }

    /// Opens the payload of the next frame. A message that authenticates
    /// under the key and the current nonce comes out, and the counter moves
    /// on. One that does not is `AuthenticationFailed`, and ends the
    /// direction: from then on every call fails in the same way, and nothing
    /// changes any more.
    pub fn open(&mut self, frame: &[u8]) -> (outcome: Result<Vec<u8>, Error>)
        ensures
            final(self).key() == old(self).key(),
            old(self).failed() matches Some(e) ==> outcome == Err::<Vec<u8>, Error>(e) && *final(self)
                == *old(self),
            old(self).failed() is None ==> outcome_view(outcome) == decrypted(
                frame@,
                old(self).key(),
                old(self).nonce(),
            ),
            old(self).failed() is None ==> final(self).nonce() == nonce_after(
                frame@,
                old(self).key(),
                old(self).nonce(),
            ),
            outcome is Ok ==> final(self).failed() is None,
            outcome matches Err(e) ==> final(self).failed() == Some(e),
    {
        if let Some(e) = self.failed {
            return Err(e);
        }
        match decrypt(frame, &self.key, &self.nonce) {
            Ok(message) => {
                self.nonce.advance();
                Ok(message)
            },
            Err(e) => {
                self.failed = Some(e);
                Err(e)
            },
        }
    }

    /// Opens the payload of the next frame and reads the message as text.
    /// Beyond the failures of `open`, a message that is not UTF-8 is
    /// `InvalidText`, and ends the direction too; the counter has moved on
    /// all the same, for the frame did authenticate.
    pub fn open_text(&mut self, frame: &[u8]) -> (result: Result<String, Error>)
        ensures
            final(self).key() == old(self).key(),
            old(self).failed() matches Some(e) ==> result == Err::<String, Error>(e) && *final(self)
                == *old(self),
            old(self).failed() is None ==> text_view(result) == received_text(
                frame@,
                old(self).key(),
                old(self).nonce(),
            ),
            old(self).failed() is None ==> final(self).nonce() == nonce_after(
                frame@,
                old(self).key(),
                old(self).nonce(),
            ),
            result is Ok ==> final(self).failed() is None,
            result matches Err(e) ==> final(self).failed() == Some(e),
    {
        match self.open(frame) {
            Err(e) => Err(e),
            Ok(message) => match decode_text(message) {
                Ok(text) => Ok(text),
                Err(e) => {
                    self.failed = Some(e);
                    Err(e)
                },
            },
        }
    }
}

/// What one side seals and frames, the other side reads and opens. Take
/// what `agree` ensures of the key on the sealing side, and what `encrypt`
/// ensures of the ciphertext. Then the peer, who derives from the other
/// halves of the two key pairs, agrees on the same key, finds the frame at
/// the head of the stream whatever follows it, and opens its payload to the
/// plaintext.
pub proof fn lemma_peer_receives(
    plaintext: Seq<u8>,
    ciphertext: Seq<u8>,
    nonce: Seq<u8>,
    key: Seq<u8>,
    own_secret: Seq<u8>,
    peer_secret: Seq<u8>,
    rest: Seq<u8>,
)
    requires
        peer_secret.len() == 32,
        agreed(own_secret, public_of(peer_secret)) == Ok::<Seq<u8>, Error>(key),
        shared_with_peer(key, own_secret, public_of(peer_secret)),
        decrypted(ciphertext, key, nonce) == Ok::<Seq<u8>, Error>(plaintext),
        ciphertext.len() <= u64::MAX,
    ensures
        agreed(peer_secret, public_of(own_secret)) == Ok::<Seq<u8>, Error>(key),
        holds_frame(frame_of(ciphertext) + rest),
        decrypted(first_payload(frame_of(ciphertext) + rest), key, nonce) == Ok::<Seq<u8>, Error>(
            plaintext,
        ),
{
    lemma_frame_round_trip(ciphertext, rest);
}

} // verus!
