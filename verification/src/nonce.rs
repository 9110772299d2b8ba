//! Counter nonces: each direction of a session counts its messages from
//! zero, and seals message `i` under the number `i`.

use crate::endian::{
    le_bytes, le_value, lemma_le_bytes_len, lemma_le_bytes_of_value, lemma_le_value_injective,
    lemma_le_value_of_bytes, lemma_pow256_positive, pow256,
};
use crate::error::Error;
use crate::sodium;
use vstd::prelude::*;

verus! {

/// The number of bytes in a nonce.
pub const NONCE_LEN: usize = 24;

/// A nonce: a number below `pow256(24)`, held as its little-endian bytes.
#[derive(Clone, Copy, Debug)]
pub struct Nonce {
    pub bytes: [u8; 24],
}

impl View for Nonce {
    type V = Seq<u8>;

    open spec fn view(&self) -> Seq<u8> {
        self.bytes@
    }
}

/// The nonce that follows `nonce`: one more, and zero after the largest.
pub open spec fn successor(nonce: Seq<u8>) -> Seq<u8> {
    le_bytes((le_value(nonce) + 1) % pow256(nonce.len()), nonce.len())
}

/// The nonce under which a direction seals its message number `count`,
/// counting from zero.
pub open spec fn nonce_at(count: nat) -> Seq<u8>
    decreases count,
{
    if count == 0 {
        le_bytes(0, 24)
    } else {
        successor(nonce_at((count - 1) as nat))
    }
}

/// The largest nonce. It is set apart for the handshake: no message
/// counter reaches it in any session that can be run.
pub open spec fn reserved_nonce() -> Seq<u8> {
    le_bytes((pow256(24) - 1) as nat, 24)
}

impl Nonce {
    /// The number that the nonce holds.
    pub open spec fn value(&self) -> nat {
        le_value(self@)
    }

    /// The nonce zero, with which each direction starts.
    pub fn zero() -> (nonce: Nonce)
        ensures
            nonce@ == nonce_at(0),
            nonce.value() == 0,
    {
        let nonce = Nonce { bytes: [0u8; 24] };
        proof {
            lemma_zero_bytes(24);
            assert(nonce@ =~= le_bytes(0, 24));
            lemma_le_value_of_bytes(0, 24);
            lemma_pow256_positive(24);
        }
        nonce
    }

    /// The largest nonce, which the handshake seals its confirmation under.
    pub fn reserved() -> (nonce: Nonce)
        ensures
            nonce@ == reserved_nonce(),
            nonce.value() == pow256(24) - 1,
    {
        let nonce = Nonce { bytes: [0xffu8; 24] };
        proof {
            lemma_full_bytes(nonce@);
            lemma_le_bytes_of_value(nonce@);
        }
        nonce
    }

    /// Reads a nonce that was sent in a frame of its own: the payload must
    /// be exactly the nonce's bytes.
    pub fn from_slice(bytes: &[u8]) -> (result: Result<Nonce, Error>)
        ensures
            bytes.len() == 24 ==> (result matches Ok(nonce) && nonce@ == bytes@),
            bytes.len() != 24 ==> result matches Err(Error::MalformedNonce),
    {
        if bytes.len() != 24 {
            return Err(Error::MalformedNonce);
        }
        let mut nonce = Nonce { bytes: [0u8; 24] };
        let mut i: usize = 0;
        while i < 24
            invariant
                i <= 24,
                bytes.len() == 24,
                forall|j: int| 0 <= j < i ==> nonce.bytes@[j] == bytes@[j],
            decreases 24 - i,
        {
            nonce.bytes[i] = bytes[i];
            i = i + 1;
        }
        proof {
            assert(nonce@ =~= bytes@);
        }
        Ok(nonce)
    }

    /// Moves on to the next nonce.
    pub fn advance(&mut self)
        ensures
            final(self)@ == successor(old(self)@),
            final(self).value() == (old(self).value() + 1) % pow256(24),
    {
        sodium::increment(&mut self.bytes);
        proof {
            let next = successor(old(self)@);
            lemma_le_bytes_len((le_value(old(self)@) + 1) % pow256(24), 24);
            lemma_successor_value(old(self)@);
            lemma_le_value_injective(self@, next);
        }
    }
}

/// The little-endian digits of zero are all zero.
proof fn lemma_zero_bytes(width: nat)
    ensures
        le_bytes(0, width).len() == width,
        forall|i: int| 0 <= i < width ==> le_bytes(0, width)[i] == 0u8,
    decreases width,
{
    if width > 0 {
        lemma_zero_bytes((width - 1) as nat);
    }
}

/// Digits that are all 255 spell the largest number of their width.
proof fn lemma_full_bytes(s: Seq<u8>)
    requires
        forall|i: int| 0 <= i < s.len() ==> s[i] == 0xffu8,
    ensures
        le_value(s) == pow256(s.len()) - 1,
    decreases s.len(),
{
    if s.len() > 0 {
        lemma_full_bytes(s.drop_first());
    }
}

/// The successor of a nonce holds its value plus one, reduced to the width.
pub proof fn lemma_successor_value(nonce: Seq<u8>)
    ensures
        successor(nonce).len() == nonce.len(),
        le_value(successor(nonce)) == (le_value(nonce) + 1) % pow256(nonce.len()),
{
    let width = nonce.len();
    let next = (le_value(nonce) + 1) % pow256(width);
    lemma_pow256_positive(width);
    lemma_le_bytes_len(next, width);
    lemma_le_value_of_bytes(next, width);
    vstd::arithmetic::div_mod::lemma_mod_twice((le_value(nonce) + 1) as int, pow256(width) as int);
}

/// Counting from zero, message number `count` is sealed under the nonce
/// that holds the number `count`: the nonces of one direction run
/// 0, 1, 2, ... without a gap.
pub proof fn lemma_nonce_at_value(count: nat)
    requires
        count < pow256(24),
    ensures
        nonce_at(count).len() == 24,
        le_value(nonce_at(count)) == count,
        nonce_at(count) == le_bytes(count, 24),
    decreases count,
{
    lemma_pow256_positive(24);
    if count == 0 {
        lemma_le_bytes_len(0, 24);
        lemma_le_value_of_bytes(0, 24);
    } else {
        let before = nonce_at((count - 1) as nat);
        lemma_nonce_at_value((count - 1) as nat);
        lemma_successor_value(before);
        vstd::arithmetic::div_mod::lemma_small_mod(count, pow256(24));
    }
}

/// No nonce is used twice in one direction: two messages with different
/// numbers are sealed under different nonces.
pub proof fn lemma_nonces_distinct(i: nat, j: nat)
    requires
        i < pow256(24),
        j < pow256(24),
        i != j,
    ensures
        nonce_at(i) != nonce_at(j),
{
    lemma_nonce_at_value(i);
    lemma_nonce_at_value(j);
}

/// The reserved nonce is none of the nonces that a direction counts
/// through: whatever the handshake seals under it, no message of the
/// session is sealed under the same nonce.
pub proof fn lemma_reserved_nonce_apart(count: nat)
    requires
        count < pow256(24) - 1,
    ensures
        nonce_at(count) != reserved_nonce(),
{
    lemma_nonce_at_value(count);
    lemma_pow256_positive(24);
    lemma_le_value_of_bytes((pow256(24) - 1) as nat, 24);
    vstd::arithmetic::div_mod::lemma_small_mod((pow256(24) - 1) as nat, pow256(24));
}

/// The nonce of the `index`-th thing that one side seals under the session
/// key: first its confirmation, then its messages in their order.
pub open spec fn sealing_nonce(index: nat) -> Seq<u8> {
    if index == 0 {
        reserved_nonce()
    } else {
        nonce_at((index - 1) as nat)
    }
}

/// No nonce is used twice by one side of a session, the handshake
/// included: any two things that the side seals under the session key are
/// sealed under different nonces.
pub proof fn lemma_sealing_nonces_distinct(i: nat, j: nat)
    requires
        i < pow256(24),
        j < pow256(24),
        i != j,
    ensures
        sealing_nonce(i) != sealing_nonce(j),
{
    if i == 0 {
        lemma_reserved_nonce_apart((j - 1) as nat);
    } else if j == 0 {
        lemma_reserved_nonce_apart((i - 1) as nat);
    } else {
        lemma_nonces_distinct((i - 1) as nat, (j - 1) as nat);
    }
}

} // verus!
