use vstd::prelude::*;
use crate::types::Pubkey;

verus! {

/// The little-endian integer held by the eight bytes of `s` from `o` on.
pub open spec fn le_u64_at(s: Seq<u8>, o: int) -> int {
    s[o] as int + 0x100 * (s[o + 1] as int) + 0x10000 * (s[o + 2] as int) + 0x1000000 * (
    s[o + 3] as int) + 0x100000000 * (s[o + 4] as int) + 0x10000000000 * (s[o + 5] as int)
        + 0x1000000000000 * (s[o + 6] as int) + 0x100000000000000 * (s[o + 7] as int)
}

/// The address held by the 32 bytes of `s` from `o` on.
pub open spec fn pubkey_at(s: Seq<u8>, o: int) -> Pubkey {
    Pubkey {
        w0: le_u64_at(s, o) as u64,
        w1: le_u64_at(s, o + 8) as u64,
        w2: le_u64_at(s, o + 16) as u64,
        w3: le_u64_at(s, o + 24) as u64,
    }
}

/// Reads a little-endian `u64` at `offset`.
pub fn read_u64(data: &[u8], offset: usize) -> (r: u64)
    requires
        offset + 8 <= data@.len(),
    ensures
        r as int == le_u64_at(data@, offset as int),
{
    let o = offset;
    (data[o] as u64) + 0x100 * (data[o + 1] as u64) + 0x10000 * (data[o + 2] as u64) + 0x1000000 * (
    data[o + 3] as u64) + 0x100000000 * (data[o + 4] as u64) + 0x10000000000 * (data[o
        + 5] as u64) + 0x1000000000000 * (data[o + 6] as u64) + 0x100000000000000 * (data[o
        + 7] as u64)
}

/// Reads a 32-byte address at `offset`.
pub fn read_pubkey(data: &[u8], offset: usize) -> (r: Pubkey)
    requires
        offset + 32 <= data@.len(),
    ensures
        r == pubkey_at(data@, offset as int),
{
    let _n = data.len();
    Pubkey {
        w0: read_u64(data, offset),
        w1: read_u64(data, offset + 8),
        w2: read_u64(data, offset + 16),
        w3: read_u64(data, offset + 24),
    }
}

/// Appends the `n` low bytes of `v`, little-endian.
pub fn push_le(out: &mut Vec<u8>, v: u64, n: usize)
    requires
        n <= 8,
        v < byte_weight(n as int),
    ensures
        final(out)@.len() == old(out)@.len() + n,
        final(out)@.subrange(0, old(out)@.len() as int) == old(out)@,
        partial_le(final(out)@, old(out)@.len() as int, n as int) == v,
        final(out)@ == old(out)@ + low_bytes(v, n as int),
{
    let ghost start = out@.len() as int;
    let mut rest: u64 = v;
    let mut i: usize = 0;
    while i < n
        invariant
            0 <= i <= n <= 8,
            out@.len() == start + i,
            out@.subrange(0, start) == old(out)@,
            start == old(out)@.len(),
            v as int == partial_le(out@, start, i as int) + byte_weight(i as int) * rest,
            out@ == old(out)@ + low_bytes(v, i as int),
            rest as int == v as int / byte_weight(i as int),
        decreases n - i,
    {
        let b = (rest % 256) as u8;
        let ghost old_rest = rest;
        proof {
            assert(out@.push(b).subrange(0, start) == out@.subrange(0, start));
            lemma_partial_le_push(out@, b, start, i as int);
        }
        out.push(b);
        rest = rest / 256;
        proof {
            lemma_weight_step(i as int, old_rest as int, rest as int, b as int);
            lemma_partial_le_nonneg(out@, start, i as int);
            vstd::arithmetic::div_mod::lemma_div_denominator(v as int, byte_weight(i as int), 256);
            assert(out@ =~= old(out)@ + low_bytes(v, i + 1));
        }
        i = i + 1;
    }
    proof {
        assert(out@ =~= old(out)@ + low_bytes(v, n as int));
        assert(rest == 0) by {
            lemma_partial_le_nonneg(out@, start, n as int);
            let w = byte_weight(n as int);
            let p = partial_le(out@, start, n as int);
            assert(rest == 0) by (nonlinear_arith)
                requires
                    v == p + w * rest,
                    0 <= p,
                    v < w,
                    0 <= rest,
            ;
        }
        let w = byte_weight(n as int);
        assert(w * rest == 0) by (nonlinear_arith)
            requires
                rest == 0,
        ;
        assert(partial_le(out@, start, n as int) == v);
    }
}

/// Appends the little-endian bytes of `v`.
pub fn push_u64(out: &mut Vec<u8>, v: u64)
    ensures
        final(out)@.len() == old(out)@.len() + 8,
        final(out)@.subrange(0, old(out)@.len() as int) == old(out)@,
        le_u64_at(final(out)@, old(out)@.len() as int) == v,
        final(out)@ == old(out)@ + low_bytes(v, 8),
{
    proof {
        lemma_weight_8();
    }
    push_le(out, v, 8);
    proof {
        lemma_partial_le_8(out@, old(out)@.len() as int);
    }
}

/// Appends the little-endian bytes of `v`.
pub fn push_u32(out: &mut Vec<u8>, v: u32)
    ensures
        final(out)@.len() == old(out)@.len() + 4,
        final(out)@.subrange(0, old(out)@.len() as int) == old(out)@,
        partial_le(final(out)@, old(out)@.len() as int, 4) == v,
{
    proof {
        reveal_with_fuel(byte_weight, 5);
    }
    push_le(out, v as u64, 4);
}

/// The `n` low bytes of `v`, little-endian.
pub open spec fn low_bytes(v: u64, n: int) -> Seq<u8> {
    Seq::new(n as nat, |i: int| ((v as int / byte_weight(i)) % 256) as u8)
}

/// The 32 bytes of an address.
pub open spec fn key_bytes(k: Pubkey) -> Seq<u8> {
    low_bytes(k.w0, 8) + low_bytes(k.w1, 8) + low_bytes(k.w2, 8) + low_bytes(k.w3, 8)
}

impl Pubkey {
    /// The 32 bytes of the address.
    pub fn to_bytes(&self) -> (r: Vec<u8>)
        ensures
            r@ == key_bytes(*self),
            r@.len() == 32,
    {
        let mut r: Vec<u8> = Vec::new();
        push_u64(&mut r, self.w0);
        push_u64(&mut r, self.w1);
        push_u64(&mut r, self.w2);
        push_u64(&mut r, self.w3);
        assert(r@ =~= key_bytes(*self));
        r
    }
}

/// Weight of the `i`-th byte of a little-endian word.
pub open spec fn byte_weight(i: int) -> int
    decreases i,
{
    if i <= 0 {
        1
    } else {
        256 * byte_weight(i - 1)
    }
}

/// The value of the first `i` bytes from `start` on, little-endian.
pub open spec fn partial_le(s: Seq<u8>, start: int, i: int) -> int
    decreases i,
{
    if i <= 0 {
        0
    } else {
        partial_le(s, start, i - 1) + byte_weight(i - 1) * (s[start + i - 1] as int)
    }
}

proof fn lemma_partial_le_push(s: Seq<u8>, b: u8, start: int, i: int)
    requires
        0 <= start,
        0 <= i,
        s.len() == start + i,
    ensures
        partial_le(s.push(b), start, i + 1) == partial_le(s, start, i) + byte_weight(i) * (b as int),
    decreases i,
{
    lemma_partial_le_prefix(s, b, start, i);
}

proof fn lemma_partial_le_prefix(s: Seq<u8>, b: u8, start: int, j: int)
    requires
        0 <= start,
        0 <= j <= s.len() - start,
    ensures
        partial_le(s.push(b), start, j) == partial_le(s, start, j),
    decreases j,
{
    if j > 0 {
        lemma_partial_le_prefix(s, b, start, j - 1);
    }
}

proof fn lemma_weight_step(i: int, old_rest: int, rest: int, b: int)
    requires
        0 <= i,
        0 <= old_rest,
        rest == old_rest / 256,
        b == old_rest % 256,
    ensures
        byte_weight(i) * old_rest == byte_weight(i) * b + byte_weight(i + 1) * rest,
{
    let w = byte_weight(i);
    assert(byte_weight(i + 1) == 256 * w);
    assert(w * old_rest == w * b + (256 * w) * rest) by (nonlinear_arith)
        requires
            rest == old_rest / 256,
            b == old_rest % 256,
    ;
}

proof fn lemma_partial_le_nonneg(s: Seq<u8>, start: int, i: int)
    ensures
        0 <= partial_le(s, start, i),
        0 < byte_weight(i),
    decreases i,
{
    if i > 0 {
        lemma_partial_le_nonneg(s, start, i - 1);
        let w = byte_weight(i - 1);
        let x = s[start + i - 1] as int;
        assert(0 <= w * x) by (nonlinear_arith)
            requires
                0 < w,
                0 <= x,
        ;
    }
}

proof fn lemma_weight_8()
    ensures
        byte_weight(8) == 0x10000000000000000,
{
    reveal_with_fuel(byte_weight, 9);
}

proof fn lemma_partial_le_8(s: Seq<u8>, start: int)
    requires
        0 <= start,
        start + 8 <= s.len(),
    ensures
        partial_le(s, start, 8) == le_u64_at(s, start),
{
    reveal_with_fuel(byte_weight, 9);
    assert(byte_weight(1) == 0x100);
    assert(byte_weight(2) == 0x10000);
    assert(byte_weight(3) == 0x1000000);
    assert(byte_weight(4) == 0x100000000);
    assert(byte_weight(5) == 0x10000000000);
    assert(byte_weight(6) == 0x1000000000000);
    assert(byte_weight(7) == 0x100000000000000);
    reveal_with_fuel(partial_le, 2);
    assert(byte_weight(0) == 1);
    assert(partial_le(s, start, 0) == 0);
    let p1 = partial_le(s, start, 1);
    assert(p1 == s[start] as int);
    assert(partial_le(s, start, 2) == p1 + 0x100 * (s[start + 1] as int));
    assert(partial_le(s, start, 3) == partial_le(s, start, 2) + 0x10000 * (s[start + 2] as int));
    assert(partial_le(s, start, 4) == partial_le(s, start, 3) + 0x1000000 * (s[start + 3] as int));
    assert(partial_le(s, start, 5) == partial_le(s, start, 4) + 0x100000000 * (s[start
        + 4] as int));
    assert(partial_le(s, start, 6) == partial_le(s, start, 5) + 0x10000000000 * (s[start
        + 5] as int));
    assert(partial_le(s, start, 7) == partial_le(s, start, 6) + 0x1000000000000 * (s[start
        + 6] as int));
    assert(partial_le(s, start, 8) == partial_le(s, start, 7) + 0x100000000000000 * (s[start
        + 7] as int));
}

} // verus!
