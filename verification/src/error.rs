//! The ways in which a session can fail. Every failure is fatal to the
//! channel it occurs on.

use vstd::prelude::*;

verus! {

/// The three classes of failure.
#[derive(Clone, Copy, Debug, PartialEq, Eq, Structural)]
pub enum ErrorKind {
    /// The stream failed or ended early.
    Io,
    /// The bytes were well framed but make no sense in the protocol.
    Protocol,
    /// A message did not authenticate.
    Crypto,
}

/// A failure of the channel.
#[derive(Clone, Copy, Debug, PartialEq, Eq, Structural)]
pub enum Error {
    /// The stream ended before a whole frame had arrived.
    Truncated,
    /// A public key frame did not hold exactly the bytes of one key, or
    /// held a key that no session key can be derived from.
    MalformedPublicKey,
    /// A nonce frame did not hold exactly the bytes of one nonce.
    MalformedNonce,
    /// A decrypted message was not UTF-8 text.
    InvalidText,
    /// The peer confirmed a name other than ours.
    IncorrectRecipient,
    /// A frame arrived, or a message was to be sent, in a state that has no use for it.
    Unexpected,
    /// A frame failed authenticated decryption.
    AuthenticationFailed,
}

impl Error {
    /// The class a failure belongs to.
    pub open spec fn spec_kind(self) -> ErrorKind {
        match self {
            Error::Truncated => ErrorKind::Io,
            Error::MalformedPublicKey => ErrorKind::Protocol,
            Error::MalformedNonce => ErrorKind::Protocol,
            Error::InvalidText => ErrorKind::Protocol,
            Error::IncorrectRecipient => ErrorKind::Protocol,
            Error::Unexpected => ErrorKind::Protocol,
            Error::AuthenticationFailed => ErrorKind::Crypto,
        }
    }

    /// The class a failure belongs to.
    pub fn kind(self) -> (kind: ErrorKind)
        ensures
            kind == self.spec_kind(),
    {
        match self {
            Error::Truncated => ErrorKind::Io,
            Error::MalformedPublicKey => ErrorKind::Protocol,
            Error::MalformedNonce => ErrorKind::Protocol,
            Error::InvalidText => ErrorKind::Protocol,
            Error::IncorrectRecipient => ErrorKind::Protocol,
            Error::Unexpected => ErrorKind::Protocol,
            Error::AuthenticationFailed => ErrorKind::Crypto,
        }
    }
}

} // verus!
