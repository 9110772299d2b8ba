//! The repeating-key XOR mask under which the public keys cross the wire.
//! It hides nothing from anyone who knows the mask: it only keeps a key
//! frame from being read by a peer that expects another name.

use vstd::prelude::*;

verus! {

/// `bytes` with byte `i` XORed with byte `i mod mask.len()` of `mask`.
pub open spec fn masked(bytes: Seq<u8>, mask: Seq<u8>) -> Seq<u8> {
    Seq::new(bytes.len(), |i: int| bytes[i] ^ mask[i % mask.len() as int])
}

/// XORs `bytes` with `mask`, repeated as often as it takes.
pub fn apply_mask(bytes: &[u8], mask: &[u8]) -> (out: Vec<u8>)
    requires
        mask.len() > 0 || bytes.len() == 0,
    ensures
        out@ == masked(bytes@, mask@),
{
    let mut out: Vec<u8> = Vec::new();
    let mut i: usize = 0;
    while i < bytes.len()
        invariant
            i <= bytes.len(),
            mask.len() > 0 || bytes.len() == 0,
            out@ == masked(bytes@, mask@).take(i as int),
        decreases bytes.len() - i,
    {
        out.push(bytes[i] ^ mask[i % mask.len()]);
        proof {
            assert(out@ =~= masked(bytes@, mask@).take(i + 1));
        }
        i = i + 1;
    }
    proof {
        assert(out@ =~= masked(bytes@, mask@));
    }
    out
}

/// Masking twice with one mask gives the bytes back.
pub proof fn lemma_mask_twice(bytes: Seq<u8>, mask: Seq<u8>)
    ensures
        masked(masked(bytes, mask), mask) == bytes,
{
    let once = masked(bytes, mask);
    let twice = masked(once, mask);
    assert forall|i: int| 0 <= i < bytes.len() implies twice[i] == bytes[i] by {
        let b = bytes[i];
        let m = mask[i % mask.len() as int];
        assert((b ^ m) ^ m == b) by (bit_vector);
    }
    assert(twice =~= bytes);
}

} // verus!
