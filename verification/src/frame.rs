//! The wire format: each frame is its payload's length as eight big-endian
//! bytes, followed by the payload.

use crate::endian::{be_bytes, be_value, lemma_be_bytes_len, lemma_be_value_of_bytes, pow256};
use crate::error::Error;
use vstd::prelude::*;
use vstd::slice::slice_subrange;

verus! {

/// The number of bytes in a frame's length prefix.
pub const HEADER_LEN: usize = 8;

/// The bytes on the wire of a frame that carries `payload`.
pub open spec fn frame_of(payload: Seq<u8>) -> Seq<u8> {
    be_bytes(payload.len(), 8) + payload
}

/// Whether `wire` starts with a whole frame.
pub open spec fn holds_frame(wire: Seq<u8>) -> bool {
    wire.len() >= 8 && be_value(wire.take(8)) + 8 <= wire.len()
}

/// The payload of the frame that `wire` starts with.
pub open spec fn first_payload(wire: Seq<u8>) -> Seq<u8>
    recommends
        holds_frame(wire),
{
    wire.subrange(8, 8 + be_value(wire.take(8)) as int)
}

/// Eight bytes hold the numbers below 2 to the 64.
pub proof fn lemma_pow256_8()
    ensures
        pow256(8) == 0x1_0000_0000_0000_0000,
{
    reveal_with_fuel(pow256, 9);
}

/// The length prefix of a payload of `n` bytes.
pub fn length_prefix(n: u64) -> (prefix: Vec<u8>)
    ensures
        prefix@ == be_bytes(n as nat, 8),
{
    let b7: u8 = (n % 256) as u8;
    let n1: u64 = n / 256;
    let b6: u8 = (n1 % 256) as u8;
    let n2: u64 = n1 / 256;
    let b5: u8 = (n2 % 256) as u8;
    let n3: u64 = n2 / 256;
    let b4: u8 = (n3 % 256) as u8;
    let n4: u64 = n3 / 256;
    let b3: u8 = (n4 % 256) as u8;
    let n5: u64 = n4 / 256;
    let b2: u8 = (n5 % 256) as u8;
    let n6: u64 = n5 / 256;
    let b1: u8 = (n6 % 256) as u8;
    let n7: u64 = n6 / 256;
    let b0: u8 = (n7 % 256) as u8;
    let prefix = vec![b0, b1, b2, b3, b4, b5, b6, b7];
    proof {
        reveal_with_fuel(be_bytes, 9);
        assert(prefix@ =~= be_bytes(n as nat, 8));
    }
    prefix
}

/// The payload length that a length prefix declares.
pub fn declared_length(prefix: &[u8]) -> (n: u64)
    requires
        prefix.len() == 8,
    ensures
        n == be_value(prefix@),
{
    let mut n: u64 = 0;
    let mut i: usize = 0;
    while i < 8
        invariant
            prefix.len() == 8,
            i <= 8,
            n == be_value(prefix@.take(i as int)),
            n < pow256(i as nat),
        decreases 8 - i,
    {
        proof {
            reveal_with_fuel(pow256, 9);
            assert(prefix@.take(i + 1).drop_last() =~= prefix@.take(i as int));
        }
        n = n * 256 + prefix[i] as u64;
        i = i + 1;
    }
    proof {
        assert(prefix@.take(8) =~= prefix@);
    }
    n
}

/// Frames a payload for the wire.
pub fn encode_frame(payload: &[u8]) -> (wire: Vec<u8>)
    requires
        payload.len() + 8 <= usize::MAX,
    ensures
        wire@ == frame_of(payload@),
{
    let mut wire = length_prefix(payload.len() as u64);
    let mut i: usize = 0;
    proof {
        lemma_be_bytes_len(payload@.len(), 8);
    }
    while i < payload.len()
        invariant
            i <= payload.len(),
            wire@ == be_bytes(payload@.len(), 8) + payload@.take(i as int),
        decreases payload.len() - i,
    {
        wire.push(payload[i]);
        proof {
            assert(payload@.take(i + 1) =~= payload@.take(i as int).push(payload@[i as int]));
            assert(wire@ =~= be_bytes(payload@.len(), 8) + payload@.take(i + 1));
        }
        i = i + 1;
    }
    proof {
        assert(payload@.take(payload@.len() as int) =~= payload@);
    }
    wire
}

/// Takes the first frame off the bytes that a stream delivered before it
/// ended. Gives the payload and the number of bytes the frame took, or
/// `Truncated` where the bytes end before the frame does.
pub fn decode_frame(wire: &[u8]) -> (result: Result<(Vec<u8>, usize), Error>)
    ensures
        holds_frame(wire@) ==> (result matches Ok((payload, used)) && payload@ == first_payload(
            wire@,
        ) && used == 8 + payload@.len()),
        !holds_frame(wire@) ==> result == Err::<(Vec<u8>, usize), Error>(Error::Truncated),
{
    if wire.len() < 8 {
        return Err(Error::Truncated);
    }
    let prefix = slice_subrange(wire, 0, 8);
    proof {
        assert(prefix@ =~= wire@.take(8));
    }
    let declared = declared_length(prefix);
    let rest: usize = wire.len() - 8;
    if declared > rest as u64 {
        return Err(Error::Truncated);
    }
    let len: usize = declared as usize;
    let mut payload: Vec<u8> = Vec::new();
    let mut i: usize = 0;
    while i < len
        invariant
            i <= len,
            len + 8 <= wire.len(),
            payload@ == wire@.subrange(8, 8 + i as int),
        decreases len - i,
    {
        payload.push(wire[8 + i]);
        proof {
            assert(payload@ =~= wire@.subrange(8, 8 + i + 1));
        }
        i = i + 1;
    }
    Ok((payload, 8 + len))
}

/// A frame followed by anything decodes to its payload, and takes eight
/// bytes more than the payload is long: what `encode_frame` writes,
/// `decode_frame` reads back, whatever follows it on the stream.
pub proof fn lemma_frame_round_trip(payload: Seq<u8>, rest: Seq<u8>)
    requires
        payload.len() <= u64::MAX,
    ensures
        holds_frame(frame_of(payload) + rest),
        first_payload(frame_of(payload) + rest) == payload,
        be_value((frame_of(payload) + rest).take(8)) == payload.len(),
{
    let wire = frame_of(payload) + rest;
    lemma_pow256_8();
    lemma_be_bytes_len(payload.len(), 8);
    lemma_be_value_of_bytes(payload.len(), 8);
    assert(wire.take(8) =~= be_bytes(payload.len(), 8));
    assert(payload.len() % pow256(8) == payload.len()) by {
        vstd::arithmetic::div_mod::lemma_small_mod(payload.len(), pow256(8));
    }
    assert(wire.subrange(8, 8 + payload.len() as int) =~= payload);
}

} // verus!
