//! An authenticated, encrypted channel between two peers over a byte stream:
//! length-prefixed framing, an ephemeral key agreement, counter nonces and
//! sealed messages.

pub mod channel;
pub mod cipher;
pub mod endian;
pub mod error;
pub mod frame;
pub mod handshake;
pub mod keys;
pub mod mask;
pub mod nonce;
pub mod sodium;
pub mod text;
