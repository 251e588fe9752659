//! Big-endian integer fields and small byte-vector helpers used by the
//! packet serializer and reader.

use vstd::prelude::*;

verus! {

/// The four big-endian bytes of `n`.
pub open spec fn be32(n: u32) -> Seq<u8> {
    seq![
        ((n >> 24) & 0xff) as u8,
        ((n >> 16) & 0xff) as u8,
        ((n >> 8) & 0xff) as u8,
        (n & 0xff) as u8,
    ]
}

/// The value of a four-byte big-endian field.
pub open spec fn be32_val(s: Seq<u8>) -> u32
    recommends
        s.len() == 4,
{
    (((s[0] as u32) << 24) | ((s[1] as u32) << 16) | ((s[2] as u32) << 8) | (s[3] as u32)) as u32
}

/// Decoding the four big-endian bytes of `n` gives `n` back.
pub proof fn lemma_be32_round(n: u32)
    ensures
        be32_val(be32(n)) == n,
{
    assert((((((n >> 24) & 0xff) as u8) as u32) << 24) | (((((n >> 16) & 0xff) as u8) as u32)
        << 16) | (((((n >> 8) & 0xff) as u8) as u32) << 8) | ((((n & 0xff) as u8) as u32))
        == n) by (bit_vector);
}

/// `n` zero bytes.
pub open spec fn zero_seq(n: nat) -> Seq<u8> {
    Seq::new(n, |i: int| 0u8)
}

/// Appends the four big-endian bytes of `n` to `v`.
pub fn push_u32_be(v: &mut Vec<u8>, n: u32)
    requires
        old(v)@.len() + 4 <= usize::MAX,
    ensures
        final(v)@ == old(v)@ + be32(n),
{
    v.push(((n >> 24) & 0xff) as u8);
    v.push(((n >> 16) & 0xff) as u8);
    v.push(((n >> 8) & 0xff) as u8);
    v.push((n & 0xff) as u8);
    assert(v@ =~= old(v)@ + be32(n));
}

/// Appends `n` zero bytes to `v`.
pub fn push_zeros(v: &mut Vec<u8>, n: usize)
    requires
        old(v)@.len() + n <= usize::MAX,
    ensures
        final(v)@ == old(v)@ + zero_seq(n as nat),
{
    let mut i: usize = 0;
    while i < n
        invariant
            i <= n,
            old(v)@.len() + n <= usize::MAX,
            v@ == old(v)@ + zero_seq(i as nat),
        decreases n - i,
    {
        v.push(0u8);
        i = i + 1;
        assert(v@ =~= old(v)@ + zero_seq(i as nat));
    }
}

/// Appends all of `s` to `v`.
pub fn extend_bytes(v: &mut Vec<u8>, s: &[u8])
    requires
        old(v)@.len() + s@.len() <= usize::MAX,
    ensures
        final(v)@ == old(v)@ + s@,
{
    let mut i: usize = 0;
    while i < s.len()
        invariant
            i <= s@.len(),
            old(v)@.len() + s@.len() <= usize::MAX,
            v@ == old(v)@ + s@.take(i as int),
        decreases s@.len() - i,
    {
        let b = s[i];
        v.push(b);
        i = i + 1;
        assert(v@ =~= old(v)@ + s@.take(i as int));
    }
    assert(v@ =~= old(v)@ + s@);
}

/// The bytes of `s` from `start` (inclusive) to `end` (exclusive), copied out.
pub fn subvec(s: &[u8], start: usize, end: usize) -> (r: Vec<u8>)
    requires
        start <= end,
        end <= s@.len(),
    ensures
        r@ == s@.subrange(start as int, end as int),
{
    let mut r: Vec<u8> = Vec::new();
    let mut i: usize = start;
    while i < end
        invariant
            start <= i <= end,
            end <= s@.len(),
            r@ == s@.subrange(start as int, i as int),
        decreases end - i,
    {
        let b = s[i];
        r.push(b);
        i = i + 1;
        assert(r@ =~= s@.subrange(start as int, i as int));
    }
    r
}

} // verus!
