//! Fixed-width big-endian and little-endian encodings of natural numbers.

use vstd::prelude::*;

verus! {

/// 256 to the power `width`: the number of values that `width` bytes can hold.
pub open spec fn pow256(width: nat) -> nat
    decreases width,
{
    if width == 0 {
        1
    } else {
        256 * pow256((width - 1) as nat)
    }
}

/// The number that `s` spells when its first byte is the most significant.
pub open spec fn be_value(s: Seq<u8>) -> nat
    decreases s.len(),
{
    if s.len() == 0 {
        0
    } else {
        be_value(s.drop_last()) * 256 + s.last() as nat
    }
}

/// The `width` low-order base-256 digits of `n`, most significant first.
pub open spec fn be_bytes(n: nat, width: nat) -> Seq<u8>
    decreases width,
{
    if width == 0 {
        Seq::empty()
    } else {
        be_bytes(n / 256, (width - 1) as nat).push((n % 256) as u8)
    }
}

/// The number that `s` spells when its first byte is the least significant.
pub open spec fn le_value(s: Seq<u8>) -> nat
    decreases s.len(),
{
    if s.len() == 0 {
        0
    } else {
        s.first() as nat + 256 * le_value(s.drop_first())
    }
}

/// The `width` low-order base-256 digits of `n`, least significant first.
pub open spec fn le_bytes(n: nat, width: nat) -> Seq<u8>
    decreases width,
{
    if width == 0 {
        Seq::empty()
    } else {
        seq![(n % 256) as u8] + le_bytes(n / 256, (width - 1) as nat)
    }
}

/// No width holds zero values.
pub proof fn lemma_pow256_positive(width: nat)
    ensures
        pow256(width) > 0,
    decreases width,
{
    if width > 0 {
        lemma_pow256_positive((width - 1) as nat);
    }
}

/// The big-endian digits at a width are that many.
pub proof fn lemma_be_bytes_len(n: nat, width: nat)
    ensures
        be_bytes(n, width).len() == width,
    decreases width,
{
    if width > 0 {
        lemma_be_bytes_len(n / 256, (width - 1) as nat);
    }
}

/// The little-endian digits at a width are that many.
pub proof fn lemma_le_bytes_len(n: nat, width: nat)
    ensures
        le_bytes(n, width).len() == width,
    decreases width,
{
    if width > 0 {
        lemma_le_bytes_len(n / 256, (width - 1) as nat);
    }
}

/// Decoding the big-endian digits of `n` gives `n` back, reduced to the width.
pub proof fn lemma_be_value_of_bytes(n: nat, width: nat)
    ensures
        be_value(be_bytes(n, width)) == n % pow256(width),
    decreases width,
{
    lemma_pow256_positive(width);
    if width > 0 {
        let w = (width - 1) as nat;
        lemma_be_value_of_bytes(n / 256, w);
        lemma_pow256_positive(w);
        let s = be_bytes(n, width);
        assert(s.drop_last() =~= be_bytes(n / 256, w));
        assert(s.last() == (n % 256) as u8);
        lemma_mod_split(n, pow256(w));
    }
}

/// Decoding the little-endian digits of `n` gives `n` back, reduced to the width.
pub proof fn lemma_le_value_of_bytes(n: nat, width: nat)
    ensures
        le_value(le_bytes(n, width)) == n % pow256(width),
    decreases width,
{
    lemma_pow256_positive(width);
    if width > 0 {
        let w = (width - 1) as nat;
        lemma_le_value_of_bytes(n / 256, w);
        lemma_pow256_positive(w);
        let s = le_bytes(n, width);
        assert(s.drop_first() =~= le_bytes(n / 256, w));
        assert(s.first() == (n % 256) as u8);
        lemma_mod_split(n, pow256(w));
    }
}

/// Encoding a little-endian value at the width of its digits gives the digits back.
pub proof fn lemma_le_bytes_of_value(s: Seq<u8>)
    ensures
        le_bytes(le_value(s), s.len()) == s,
    decreases s.len(),
{
    if s.len() > 0 {
        lemma_le_bytes_of_value(s.drop_first());
        let n = le_value(s);
        let tail = le_value(s.drop_first());
        assert(n / 256 == tail && n % 256 == s.first() as nat);
        assert(le_bytes(n, s.len()) =~= s);
    } else {
        assert(le_bytes(le_value(s), s.len()) =~= s);
    }
}

/// Two digit strings of one width that spell the same little-endian number are equal.
pub proof fn lemma_le_value_injective(a: Seq<u8>, b: Seq<u8>)
    requires
        a.len() == b.len(),
        le_value(a) == le_value(b),
    ensures
        a == b,
{
    lemma_le_bytes_of_value(a);
    lemma_le_bytes_of_value(b);
}

/// `n mod 256m` is the low digit of `n` plus 256 times `(n / 256) mod m`.
proof fn lemma_mod_split(n: nat, m: nat)
    requires
        m > 0,
    ensures
        n % (256 * m) == (n % 256) + 256 * ((n / 256) % m),
{
    let q = n / 256;
    let r = n % 256;
    let qq = q / m;
    let qr = q % m;
    assert(q == m * qq + qr) by {
        vstd::arithmetic::div_mod::lemma_fundamental_div_mod(q as int, m as int);
    }
    assert(n == 256 * q + r);
    assert(n == (256 * m) * qq + (256 * qr + r)) by (nonlinear_arith)
        requires
            n == 256 * q + r,
            q == m * qq + qr,
    ;
    assert(0 <= 256 * qr + r < 256 * m) by (nonlinear_arith)
        requires
            0 <= qr < m,
            0 <= r < 256,
    ;
    vstd::arithmetic::div_mod::lemma_fundamental_div_mod_converse(
        n as int,
        (256 * m) as int,
        qq as int,
        (256 * qr + r) as int,
    );
}

} // verus!
