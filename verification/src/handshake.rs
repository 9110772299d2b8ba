//! The handshake, as a state machine. Both peers run the same steps: send
//! the own public key, masked with the own name; take the peer's key,
//! unmask it with the name the peer is expected to bear, and derive the
//! session key; send the peer's name back, sealed under the reserved
//! nonce; and take the peer's confirmation, which must open to the own
//! name.
//!
//! The machine decides; its caller moves the frames.

use crate::channel::{split, Receiver, Sender};
use crate::cipher::{decrypt, decrypted, encrypt};
use crate::error::Error;
use crate::keys::{agree, agreed, shared_with_peer, KeyPair, PublicKey, SessionKey};
use crate::mask::{apply_mask, masked};
use crate::nonce::{nonce_at, reserved_nonce, Nonce};
use crate::sodium::sealed;
use crate::text::decode_text;
use vstd::prelude::*;
use vstd::utf8::valid_utf8;

verus! {

/// Where a handshake stands.
pub enum Phase {
    /// Nothing has been sent yet.
    Start,
    /// The own key is out; the peer's key is awaited.
    AwaitingKey,
    /// The session key is derived and the confirmation is out; the peer's
    /// confirmation is awaited.
    AwaitingConfirmation(SessionKey),
    /// The peer confirmed the own name: the session is established.
    Established(SessionKey),
    /// The handshake failed, and stays failed.
    Failed(Error),
}

/// What the caller is to do after a step.
pub enum Action {
    /// Send a frame with this payload, then wait for the peer's next frame.
    Send(Vec<u8>),
    /// Nothing is left to send: the session is established.
    Ready,
}

/// One side of a handshake.
pub struct Handshake {
    /// The own name, as bytes.
    name: Vec<u8>,
    /// The name that the peer is expected to bear, as bytes.
    peer_name: Vec<u8>,
    /// The own ephemeral key pair.
    keys: KeyPair,
    /// Where the handshake stands.
    phase: Phase,
}

/// The view of an action: whether it sends, and what.
pub open spec fn sends(action: Action) -> Option<Seq<u8>> {
    match action {
        Action::Send(payload) => Some(payload@),
        Action::Ready => None,
    }
}

/// The payload of the key frame: the public key, masked with the own name.
pub open spec fn key_offer(public: Seq<u8>, name: Seq<u8>) -> Seq<u8> {
    masked(public, name)
}

/// The session key that a key frame leads to, or `MalformedPublicKey`
/// where the frame, unmasked, is not the size of a key or holds a key that
/// no session key can be derived from.
pub open spec fn key_from_offer(payload: Seq<u8>, peer_name: Seq<u8>, secret: Seq<u8>) -> Result<
    Seq<u8>,
    Error,
> {
    if payload.len() == 32 {
        agreed(secret, masked(payload, peer_name))
    } else {
        Err(Error::MalformedPublicKey)
    }
}

/// The payload of the confirmation frame: the peer's name, sealed under the
/// session key and the reserved nonce, which no message is sealed under.
/// It is the first thing that a side seals under the session key.
pub open spec fn confirmation(peer_name: Seq<u8>, key: Seq<u8>) -> Seq<u8> {
    sealed(peer_name, reserved_nonce(), key)
}

/// Whether a confirmation frame confirms `name`, and how it fails where it
/// does not.
pub open spec fn confirmed(payload: Seq<u8>, name: Seq<u8>, key: Seq<u8>) -> Result<(), Error> {
    match decrypted(payload, key, reserved_nonce()) {
        Err(e) => Err(e),
        Ok(message) => if !valid_utf8(message) {
            Err(Error::InvalidText)
        } else if message != name {
            Err(Error::IncorrectRecipient)
        } else {
            Ok(())
        },
    }
}

/// Whether two byte strings are equal.
pub fn same_bytes(a: &[u8], b: &[u8]) -> (same: bool)
    ensures
        same == (a@ == b@),
{
    if a.len() != b.len() {
        return false;
    }
    let mut i: usize = 0;
    while i < a.len()
        invariant
            a.len() == b.len(),
            i <= a.len(),
            a@.take(i as int) == b@.take(i as int),
        decreases a.len() - i,
    {
        if a[i] != b[i] {
            return false;
        }
        proof {
            assert(a@.take(i + 1) =~= a@.take(i as int).push(a@[i as int]));
            assert(b@.take(i + 1) =~= b@.take(i as int).push(b@[i as int]));
        }
        i = i + 1;
    }
    proof {
        assert(a@ =~= a@.take(a@.len() as int));
        assert(b@ =~= b@.take(b@.len() as int));
    }
    true
}

/// Judges a decrypted confirmation: it must be text, and the own name.
pub fn check_confirmation(message: Vec<u8>, name: &[u8]) -> (result: Result<(), Error>)
    ensures
        !valid_utf8(message@) ==> result == Err::<(), Error>(Error::InvalidText),
        valid_utf8(message@) && message@ != name@ ==> result == Err::<(), Error>(
            Error::IncorrectRecipient,
        ),
        valid_utf8(message@) && message@ == name@ ==> result == Ok::<(), Error>(()),
{
    let same = same_bytes(message.as_slice(), name);
    match decode_text(message) {
        Err(e) => Err(e),
        Ok(_) => if same {
            Ok(())
        } else {
            Err(Error::IncorrectRecipient)
        },
    }
}

impl Handshake {
    /// The names are not empty (each is a mask), and the peer's name is
    /// short enough to seal.
    pub open spec fn wf(&self) -> bool {
        &&& self.name().len() > 0
        &&& self.peer_name().len() > 0
        &&& self.peer_name().len() + 16 <= usize::MAX
    }

    /// The own name.
    pub closed spec fn name(&self) -> Seq<u8> {
        self.name@
    }

    /// The name that the peer is expected to bear.
    pub closed spec fn peer_name(&self) -> Seq<u8> {
        self.peer_name@
    }

    /// The own key pair.
    pub closed spec fn keys(&self) -> KeyPair {
        self.keys
    }

    /// Where the handshake stands.
    pub closed spec fn phase(&self) -> Phase {
        self.phase
    }

    /// Where the handshake stands.
    pub fn current_phase(&self) -> (phase: &Phase)
        ensures
            *phase == self.phase(),
    {
        &self.phase
    }

    /// The own key pair.
    pub fn key_pair(&self) -> (keys: &KeyPair)
        ensures
            *keys == self.keys(),
    {
        &self.keys
    }

    /// The session key, once it is derived.
    pub open spec fn session_key(&self) -> Option<Seq<u8>> {
        match self.phase() {
            Phase::AwaitingConfirmation(key) => Some(key@),
            Phase::Established(key) => Some(key@),
            _ => None,
        }
    }

    /// A handshake that has not started.
    pub fn new(name: Vec<u8>, peer_name: Vec<u8>, keys: KeyPair) -> (handshake: Handshake)
        requires
            name@.len() > 0,
            peer_name@.len() > 0,
            peer_name@.len() + 16 <= usize::MAX,
        ensures
            handshake.wf(),
            handshake.name() == name@,
            handshake.peer_name() == peer_name@,
            handshake.keys() == keys,
            handshake.phase() is Start,
    {
        Handshake { name, peer_name, keys, phase: Phase::Start }
    }

    /// The first step: gives the payload of the key frame to send. Fails
    /// with `Unexpected`, and changes nothing, where the handshake has
    /// started already.
    pub fn start(&mut self) -> (result: Result<Action, Error>)
        requires
            old(self).wf(),
        ensures
            final(self).wf(),
            final(self).name() == old(self).name(),
            final(self).peer_name() == old(self).peer_name(),
            final(self).keys() == old(self).keys(),
            old(self).phase() is Start ==> final(self).phase() is AwaitingKey && (result matches Ok(
                action,
            ) && sends(action) == Some(key_offer(old(self).keys().public@, old(self).name()))),
            !(old(self).phase() is Start) ==> result == Err::<Action, Error>(Error::Unexpected)
                && final(self).phase() == old(self).phase(),
    {
        match self.phase {
            Phase::Start => {
                let offer = apply_mask(&self.keys.public.bytes, self.name.as_slice());
                self.phase = Phase::AwaitingKey;
                Ok(Action::Send(offer))
            },
            _ => Err(Error::Unexpected),
        }
    }

    /// Takes the payload of the peer's next frame.
    ///
    /// While the peer's key is awaited, the frame is the key: unmasked, it
    /// must be the size of a key, else the handshake fails with
    /// `MalformedPublicKey`. The session key is derived: it is the key that
    /// the peer derives from our key frame. The confirmation is to be sent:
    /// it opens, under that key and the reserved nonce, to the peer's name.
    ///
    /// While the confirmation is awaited, the frame must open, under the
    /// session key and the reserved nonce, to the own name as text. Then the session
    /// is established; else the handshake fails, with
    /// `AuthenticationFailed`, `InvalidText` or `IncorrectRecipient`.
    ///
    /// In every other phase the frame is `Unexpected`. A failed handshake
    /// stays failed.
    pub fn receive(&mut self, payload: &[u8]) -> (result: Result<Action, Error>)
        requires
            old(self).wf(),
        ensures
            final(self).wf(),
            final(self).name() == old(self).name(),
            final(self).peer_name() == old(self).peer_name(),
            final(self).keys() == old(self).keys(),
            result matches Err(e) ==> final(self).phase() == Phase::Failed(e),
            old(self).phase() is AwaitingKey ==> match key_from_offer(
                payload@,
                old(self).peer_name(),
                old(self).keys().secret@,
            ) {
                Ok(key) => final(self).phase() is AwaitingConfirmation && final(self).session_key()
                    == Some(key) && shared_with_peer(
                    key,
                    old(self).keys().secret@,
                    masked(payload@, old(self).peer_name()),
                ) && (result matches Ok(action) && sends(action) == Some(
                    confirmation(old(self).peer_name(), key),
                )) && decrypted(confirmation(old(self).peer_name(), key), key, reserved_nonce()) == Ok::<
                    Seq<u8>,
                    Error,
                >(old(self).peer_name()),
                Err(e) => result == Err::<Action, Error>(e),
            },
            old(self).phase() matches Phase::AwaitingConfirmation(key) ==> match confirmed(
                payload@,
                old(self).name(),
                key@,
            ) {
                Ok(_) => final(self).phase() is Established && final(self).session_key() == Some(
                    key@,
                ) && result matches Ok(Action::Ready),
                Err(e) => result == Err::<Action, Error>(e),
            },
            old(self).phase() matches Phase::Failed(e) ==> result == Err::<Action, Error>(e),
            old(self).phase() is Start || old(self).phase() is Established ==> result == Err::<
                Action,
                Error,
            >(Error::Unexpected),
    {
        let mut phase = Phase::Failed(Error::Unexpected);
        std::mem::swap(&mut self.phase, &mut phase);
        let step = match phase {
            Phase::AwaitingKey => self.take_key(payload),
            Phase::AwaitingConfirmation(key) => self.take_confirmation(payload, key),
            Phase::Failed(e) => Err(e),
            _ => Err(Error::Unexpected),
        };
        match step {
            Ok((next, action)) => {
                self.phase = next;
                Ok(action)
            },
            Err(e) => {
                self.phase = Phase::Failed(e);
                Err(e)
            },
        }
    }

    /// The step from the peer's key frame to the confirmation.
    fn take_key(&self, payload: &[u8]) -> (step: Result<(Phase, Action), Error>)
        requires
            self.wf(),
        ensures
            match key_from_offer(payload@, self.peer_name@, self.keys.secret@) {
                Ok(key) => step matches Ok((Phase::AwaitingConfirmation(k), action)) && k@ == key
                    && shared_with_peer(key, self.keys.secret@, masked(payload@, self.peer_name@))
                    && sends(action) == Some(confirmation(self.peer_name@, key)) && decrypted(
                    confirmation(self.peer_name@, key),
                    key,
                    reserved_nonce(),
                ) == Ok::<Seq<u8>, Error>(self.peer_name@),
                Err(e) => step matches Err(f) && f == e,
            },
    {
        let unmasked = apply_mask(payload, self.peer_name.as_slice());
        let peer = match PublicKey::from_slice(unmasked.as_slice()) {
            Ok(peer) => peer,
            Err(e) => { return Err(e); },
        };
        let key = match agree(&self.keys.secret, &peer) {
            Ok(key) => key,
            Err(e) => { return Err(e); },
        };
        let reply = encrypt(self.peer_name.as_slice(), &key, &Nonce::reserved());
        Ok((Phase::AwaitingConfirmation(key), Action::Send(reply)))
    }

    /// The step from the peer's confirmation frame to the session.
    fn take_confirmation(&self, payload: &[u8], key: SessionKey) -> (step: Result<
        (Phase, Action),
        Error,
    >)
        ensures
            match confirmed(payload@, self.name@, key@) {
                Ok(_) => step matches Ok((Phase::Established(k), Action::Ready)) && k@ == key@,
                Err(e) => step matches Err(f) && f == e,
            },
    {
        let message = match decrypt(payload, &key, &Nonce::reserved()) {
            Ok(message) => message,
            Err(e) => { return Err(e); },
        };
        match check_confirmation(message, self.name.as_slice()) {
            Ok(_) => Ok((Phase::Established(key), Action::Ready)),
            Err(e) => Err(e),
        }
    }

    /// Ends the handshake: the two directions of the session where it is
    /// established, each at nonce zero, and nothing otherwise. The
    /// confirmations were sealed under the reserved nonce, so the messages
    /// of the session, counted from zero, share no nonce with them.
    pub fn finish(self) -> (halves: Option<(Sender, Receiver)>)
        ensures
            self.phase() matches Phase::Established(key) ==> (halves matches Some((sender, receiver))
                && sender.key() == key@ && sender.nonce() == nonce_at(0) && sender.sent() == 0
                && receiver.key() == key@
                && receiver.nonce() == nonce_at(0) && receiver.failed() is None),
            !(self.phase() is Established) ==> halves is None,
    {
        match self.phase {
            Phase::Established(key) => Some(split(key)),
            _ => None,
        }
    }
}

} // verus!
