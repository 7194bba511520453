//! Little-endian integers on the wire, and the contract every descriptor shape keeps.
use crate::error::Error;
use vstd::prelude::*;

verus! {

/// The 16-bit integer held in little-endian order at `b[i]` and `b[i + 1]`.
pub open spec fn u16_le(b: Seq<u8>, i: int) -> u16 {
    (b[i] as int + 256 * (b[i + 1] as int)) as u16
}

/// The 24-bit integer held in little-endian order in the three bytes from `b[i]`.
pub open spec fn u24_le(b: Seq<u8>, i: int) -> u32 {
    (b[i] as int + 256 * (b[i + 1] as int) + 65536 * (b[i + 2] as int)) as u32
}

/// The 32-bit integer held in little-endian order in the four bytes from `b[i]`.
pub open spec fn u32_le(b: Seq<u8>, i: int) -> u32 {
    (b[i] as int + 256 * (b[i + 1] as int) + 65536 * (b[i + 2] as int) + 16777216 * (b[i
        + 3] as int)) as u32
}

/// The 64-bit integer held in little-endian order in the eight bytes from `b[i]`.
pub open spec fn u64_le(b: Seq<u8>, i: int) -> u64 {
    (u32_le(b, i) as int + 4294967296 * (u32_le(b, i + 4) as int)) as u64
}

/// The two bytes of `x`, low byte first.
pub open spec fn u16_bytes(x: u16) -> Seq<u8> {
    seq![(x % 256) as u8, (x / 256) as u8]
}

/// The three low bytes of `x`, lowest first.
pub open spec fn u24_bytes(x: u32) -> Seq<u8> {
    seq![(x % 256) as u8, (x / 256 % 256) as u8, (x / 65536 % 256) as u8]
}

/// The four bytes of `x`, low byte first.
pub open spec fn u32_bytes(x: u32) -> Seq<u8> {
    seq![(x % 256) as u8, (x / 256 % 256) as u8, (x / 65536 % 256) as u8, (x / 16777216) as u8]
}

/// The eight bytes of `x`, low byte first.
pub open spec fn u64_bytes(x: u64) -> Seq<u8> {
    u32_bytes((x % 4294967296) as u32) + u32_bytes((x / 4294967296) as u32)
}

/// Reads the 16-bit integer at `b[i]`.
pub fn read_u16(b: &[u8], i: usize) -> (x: u16)
    requires
        i + 2 <= b@.len(),
    ensures
        x == u16_le(b@, i as int),
{
    let lo: u16 = b[i] as u16;
    let hi: u16 = b[i + 1] as u16;
    lo + 256 * hi
}

/// Reads the 32-bit integer at `b[i]`.
pub fn read_u32(b: &[u8], i: usize) -> (x: u32)
    requires
        i + 4 <= b@.len(),
    ensures
        x == u32_le(b@, i as int),
{
    let b0: u32 = b[i] as u32;
    let b1: u32 = b[i + 1] as u32;
    let b2: u32 = b[i + 2] as u32;
    let b3: u32 = b[i + 3] as u32;
    b0 + 256 * b1 + 65536 * b2 + 16777216 * b3
}

/// Reads the 24-bit integer at `b[i]`.
pub fn read_u24(b: &[u8], i: usize) -> (x: u32)
    requires
        i + 3 <= b@.len(),
    ensures
        x == u24_le(b@, i as int),
{
    let b0: u32 = b[i] as u32;
    let b1: u32 = b[i + 1] as u32;
    let b2: u32 = b[i + 2] as u32;
    b0 + 256 * b1 + 65536 * b2
}

/// Reads the 64-bit integer at `b[i]`.
pub fn read_u64(b: &[u8], i: usize) -> (x: u64)
    requires
        i + 8 <= b@.len(),
    ensures
        x == u64_le(b@, i as int),
{
    assert(i + 8 <= b.len());
    let lo: u64 = read_u32(b, i) as u64;
    let hi: u64 = read_u32(b, i + 4) as u64;
    lo + 4294967296 * hi
}

/// Appends the two bytes of `x` to `out`.
pub fn push_u16(out: &mut Vec<u8>, x: u16)
    ensures
        final(out)@ == old(out)@ + u16_bytes(x),
{
    out.push((x % 256) as u8);
    out.push((x / 256) as u8);
}

/// Appends the four bytes of `x` to `out`.
pub fn push_u32(out: &mut Vec<u8>, x: u32)
    ensures
        final(out)@ == old(out)@ + u32_bytes(x),
{
    out.push((x % 256) as u8);
    out.push((x / 256 % 256) as u8);
    out.push((x / 65536 % 256) as u8);
    out.push((x / 16777216) as u8);
}

/// Appends the three low bytes of `x` to `out`.
pub fn push_u24(out: &mut Vec<u8>, x: u32)
    ensures
        final(out)@ == old(out)@ + u24_bytes(x),
{
    out.push((x % 256) as u8);
    out.push((x / 256 % 256) as u8);
    out.push((x / 65536 % 256) as u8);
}

/// Appends the eight bytes of `x` to `out`.
pub fn push_u64(out: &mut Vec<u8>, x: u64)
    ensures
        final(out)@ == old(out)@ + u64_bytes(x),
{
    push_u32(out, (x % 4294967296) as u32);
    push_u32(out, (x / 4294967296) as u32);
}

/// A copy of `b[from..to]`.
pub fn copy_range(b: &[u8], from: usize, to: usize) -> (v: Vec<u8>)
    requires
        from <= to <= b@.len(),
    ensures
        v@ == b@.subrange(from as int, to as int),
{
    let mut v: Vec<u8> = Vec::new();
    v.extend_from_slice(&b[from..to]);
    v
}

/// An integer is read back from its bytes, wherever the bytes stand.
pub proof fn lemma_u16_le_bytes(e: Seq<u8>, i: int, x: u16)
    requires
        0 <= i,
        i + 2 <= e.len(),
        e.subrange(i, i + 2) == u16_bytes(x),
    ensures
        u16_le(e, i) == x,
{
    let part = e.subrange(i, i + 2);
    assert(part[0] == e[i + 0]);
    assert(part[1] == e[i + 1]);
}

/// An integer is read back from its bytes, wherever the bytes stand.
pub proof fn lemma_u24_le_bytes(e: Seq<u8>, i: int, x: u32)
    requires
        0 <= i,
        i + 3 <= e.len(),
        e.subrange(i, i + 3) == u24_bytes(x),
        x < 16777216,
    ensures
        u24_le(e, i) == x,
{
    let part = e.subrange(i, i + 3);
    assert(part[0] == e[i + 0]);
    assert(part[1] == e[i + 1]);
    assert(part[2] == e[i + 2]);
}

/// An integer is read back from its bytes, wherever the bytes stand.
pub proof fn lemma_u32_le_bytes(e: Seq<u8>, i: int, x: u32)
    requires
        0 <= i,
        i + 4 <= e.len(),
        e.subrange(i, i + 4) == u32_bytes(x),
    ensures
        u32_le(e, i) == x,
{
    let part = e.subrange(i, i + 4);
    assert(part[0] == e[i + 0]);
    assert(part[1] == e[i + 1]);
    assert(part[2] == e[i + 2]);
    assert(part[3] == e[i + 3]);
}

/// The digits of a two-byte number in base 256 are its bytes.
proof fn lemma_digits_u16(b0: u8, b1: u8)
    by (bit_vector)
    ensures
        (b0 as u32 + 256 * (b1 as u32)) % 256 == b0 as u32,
        (b0 as u32 + 256 * (b1 as u32)) / 256 == b1 as u32,
{
}

/// The digits of a three-byte number in base 256 are its bytes.
proof fn lemma_digits_u24(b0: u8, b1: u8, b2: u8)
    by (bit_vector)
    ensures
        (b0 as u32 + 256 * (b1 as u32) + 65536 * (b2 as u32)) % 256 == b0 as u32,
        (b0 as u32 + 256 * (b1 as u32) + 65536 * (b2 as u32)) / 256 % 256 == b1 as u32,
        (b0 as u32 + 256 * (b1 as u32) + 65536 * (b2 as u32)) / 65536 % 256 == b2 as u32,
{
}

/// The digits of a four-byte number in base 256 are its bytes.
proof fn lemma_digits_u32(b0: u8, b1: u8, b2: u8, b3: u8)
    by (bit_vector)
    ensures
        (b0 as u64 + 256 * (b1 as u64) + 65536 * (b2 as u64) + 16777216 * (b3 as u64)) % 256
            == b0 as u64,
        (b0 as u64 + 256 * (b1 as u64) + 65536 * (b2 as u64) + 16777216 * (b3 as u64)) / 256 % 256
            == b1 as u64,
        (b0 as u64 + 256 * (b1 as u64) + 65536 * (b2 as u64) + 16777216 * (b3 as u64)) / 65536
            % 256 == b2 as u64,
        (b0 as u64 + 256 * (b1 as u64) + 65536 * (b2 as u64) + 16777216 * (b3 as u64)) / 16777216
            == b3 as u64,
{
}

/// The bytes of an integer read from `b` are the bytes it was read from.
pub proof fn lemma_u16_bytes_le(b: Seq<u8>, i: int)
    requires
        0 <= i,
        i + 2 <= b.len(),
    ensures
        u16_bytes(u16_le(b, i)) == b.subrange(i, i + 2),
{
    lemma_digits_u16(b[i], b[i + 1]);
    assert(u16_bytes(u16_le(b, i)) =~= b.subrange(i, i + 2));
}

/// The bytes of a 24-bit integer read from `b` are the bytes it was read from.
pub proof fn lemma_u24_bytes_le(b: Seq<u8>, i: int)
    requires
        0 <= i,
        i + 3 <= b.len(),
    ensures
        u24_bytes(u24_le(b, i)) == b.subrange(i, i + 3),
{
    lemma_digits_u24(b[i], b[i + 1], b[i + 2]);
    assert(u24_bytes(u24_le(b, i)) =~= b.subrange(i, i + 3));
}

/// The bytes of a 32-bit integer read from `b` are the bytes it was read from.
pub proof fn lemma_u32_bytes_le(b: Seq<u8>, i: int)
    requires
        0 <= i,
        i + 4 <= b.len(),
    ensures
        u32_bytes(u32_le(b, i)) == b.subrange(i, i + 4),
{
    lemma_digits_u32(b[i], b[i + 1], b[i + 2], b[i + 3]);
    assert(u32_bytes(u32_le(b, i)) =~= b.subrange(i, i + 4));
}

/// The bytes of a 64-bit integer read from `b` are the bytes it was read from.
pub proof fn lemma_u64_bytes_le(b: Seq<u8>, i: int)
    requires
        0 <= i,
        i + 8 <= b.len(),
    ensures
        u64_bytes(u64_le(b, i)) == b.subrange(i, i + 8),
{
    let lo = u32_le(b, i);
    let hi = u32_le(b, i + 4);
    let x = u64_le(b, i);
    assert(x == lo + 4294967296 * hi);
    assert(x % 4294967296 == lo && x / 4294967296 == hi);
    lemma_u32_bytes_le(b, i);
    lemma_u32_bytes_le(b, i + 4);
    assert(b.subrange(i, i + 4) + b.subrange(i + 4, i + 8) =~= b.subrange(i, i + 8));
}

/// A 64-bit integer is read back from its bytes, wherever the bytes stand.
pub proof fn lemma_u64_le_bytes(e: Seq<u8>, i: int, x: u64)
    requires
        0 <= i,
        i + 8 <= e.len(),
        e.subrange(i, i + 8) == u64_bytes(x),
    ensures
        u64_le(e, i) == x,
{
    let lo = (x % 4294967296) as u32;
    let hi = (x / 4294967296) as u32;
    let part = e.subrange(i, i + 8);
    assert(e.subrange(i, i + 4) =~= part.subrange(0, 4));
    assert(e.subrange(i + 4, i + 8) =~= part.subrange(4, 8));
    assert(part.subrange(0, 4) =~= u32_bytes(lo));
    assert(part.subrange(4, 8) =~= u32_bytes(hi));
    lemma_u32_le_bytes(e, i, lo);
    lemma_u32_le_bytes(e, i + 4, hi);
}

/// The `count` pairs of bytes held from `b[from]` on.
pub open spec fn pairs_at(b: Seq<u8>, from: int, count: int) -> Seq<(u8, u8)> {
    Seq::new(count as nat, |k: int| (b[from + 2 * k], b[from + 2 * k + 1]))
}

/// The bytes of the pairs of `s`, one pair after the other.
pub open spec fn pair_bytes(s: Seq<(u8, u8)>) -> Seq<u8> {
    Seq::new(
        2 * s.len(),
        |i: int|
            if i % 2 == 0 {
                s[i / 2].0
            } else {
                s[i / 2].1
            },
    )
}

/// Reads `count` pairs of bytes from `b[from]` on.
pub fn read_pairs(b: &[u8], from: usize, count: usize) -> (v: Vec<(u8, u8)>)
    requires
        from + 2 * count <= b@.len(),
    ensures
        v@ == pairs_at(b@, from as int, count as int),
{
    let mut v: Vec<(u8, u8)> = Vec::new();
    let mut k: usize = 0;
    while k < count
        invariant
            k <= count,
            from + 2 * count <= b@.len(),
            b@.len() == b.len(),
            v@ == pairs_at(b@, from as int, k as int),
        decreases count - k,
    {
        v.push((b[from + 2 * k], b[from + 2 * k + 1]));
        k = k + 1;
        assert(v@ =~= pairs_at(b@, from as int, k as int));
    }
    v
}

/// Appends the bytes of the pairs of `s` to `out`.
pub fn push_pairs(out: &mut Vec<u8>, s: &Vec<(u8, u8)>)
    ensures
        final(out)@ == old(out)@ + pair_bytes(s@),
{
    let ghost start = out@;
    let mut k: usize = 0;
    assert(out@ =~= start + pair_bytes(s@.take(0)));
    while k < s.len()
        invariant
            k <= s.len(),
            out@ == start + pair_bytes(s@.take(k as int)),
        decreases s.len() - k,
    {
        let pair = s[k];
        out.push(pair.0);
        out.push(pair.1);
        k = k + 1;
        assert(out@ =~= start + pair_bytes(s@.take(k as int)));
    }
    assert(s@.take(k as int) =~= s@);
}

/// Pairs are read back from their bytes, wherever the bytes stand.
pub proof fn lemma_pairs_at_bytes(e: Seq<u8>, from: int, s: Seq<(u8, u8)>)
    requires
        0 <= from,
        from + 2 * s.len() <= e.len(),
        e.subrange(from, from + 2 * s.len()) == pair_bytes(s),
    ensures
        pairs_at(e, from, s.len() as int) == s,
{
    assert forall|k: int| 0 <= k < s.len() implies (e[from + 2 * k], e[from + 2 * k + 1])
        == s[k] by {
        let t = pair_bytes(s);
        let part = e.subrange(from, from + 2 * s.len());
        assert(part[2 * k] == t[2 * k]);
        assert(part[2 * k + 1] == t[2 * k + 1]);
    }
    assert(pairs_at(e, from, s.len() as int) =~= s);
}

/// The bytes of the pairs read from `b` are the bytes they were read from.
pub proof fn lemma_pair_bytes_at(b: Seq<u8>, from: int, count: int)
    requires
        0 <= from,
        0 <= count,
        from + 2 * count <= b.len(),
    ensures
        pair_bytes(pairs_at(b, from, count)) == b.subrange(from, from + 2 * count),
{
    assert(pair_bytes(pairs_at(b, from, count)) =~= b.subrange(from, from + 2 * count));
}

/// The `count` u16 integers held from `b[from]` on, each in little-endian order.
pub open spec fn u16s_at(b: Seq<u8>, from: int, count: int) -> Seq<u16> {
    Seq::new(count as nat, |k: int| u16_le(b, from + 2 * k))
}

/// The bytes of the integers of `s`, one after the other.
pub open spec fn u16s_bytes(s: Seq<u16>) -> Seq<u8> {
    Seq::new(2 * s.len(), |i: int| u16_bytes(s[i / 2])[i % 2])
}

/// Reads `count` integers from `b[from]` on.
pub fn read_u16s(b: &[u8], from: usize, count: usize) -> (v: Vec<u16>)
    requires
        from + 2 * count <= b@.len(),
    ensures
        v@ == u16s_at(b@, from as int, count as int),
{
    let mut v: Vec<u16> = Vec::new();
    let mut k: usize = 0;
    while k < count
        invariant
            k <= count,
            from + 2 * count <= b@.len(),
            b@.len() == b.len(),
            v@ == u16s_at(b@, from as int, k as int),
        decreases count - k,
    {
        v.push(read_u16(b, from + 2 * k));
        k = k + 1;
        assert(v@ =~= u16s_at(b@, from as int, k as int));
    }
    v
}

/// Appends the bytes of the integers of `s` to `out`.
pub fn push_u16s(out: &mut Vec<u8>, s: &Vec<u16>)
    ensures
        final(out)@ == old(out)@ + u16s_bytes(s@),
{
    let ghost start = out@;
    let mut k: usize = 0;
    assert(out@ =~= start + u16s_bytes(s@.take(0)));
    while k < s.len()
        invariant
            k <= s.len(),
            out@ == start + u16s_bytes(s@.take(k as int)),
        decreases s.len() - k,
    {
        push_u16(out, s[k]);
        k = k + 1;
        assert(out@ =~= start + u16s_bytes(s@.take(k as int)));
    }
    assert(s@.take(k as int) =~= s@);
}

/// Integers are read back from their bytes, wherever the bytes stand.
pub proof fn lemma_u16s_at_bytes(e: Seq<u8>, from: int, s: Seq<u16>)
    requires
        0 <= from,
        from + 2 * s.len() <= e.len(),
        e.subrange(from, from + 2 * s.len()) == u16s_bytes(s),
    ensures
        u16s_at(e, from, s.len() as int) == s,
{
    assert forall|k: int| 0 <= k < s.len() implies u16_le(e, from + 2 * k) == s[k] by {
        let t = u16s_bytes(s);
        let part = e.subrange(from, from + 2 * s.len());
        let word = e.subrange(from + 2 * k, from + 2 * k + 2);
        assert forall|j: int| 0 <= j < 2 implies word[j] == u16_bytes(s[k])[j] by {
            assert(part[2 * k + j] == t[2 * k + j]);
        }
        assert(word =~= u16_bytes(s[k]));
        lemma_u16_le_bytes(e, from + 2 * k, s[k]);
    }
    assert(u16s_at(e, from, s.len() as int) =~= s);
}

/// The bytes of the integers read from `b` are the bytes they were read from.
pub proof fn lemma_u16s_bytes_at(b: Seq<u8>, from: int, count: int)
    requires
        0 <= from,
        0 <= count,
        from + 2 * count <= b.len(),
    ensures
        u16s_bytes(u16s_at(b, from, count)) == b.subrange(from, from + 2 * count),
{
    let read = u16s_at(b, from, count);
    assert forall|i: int| 0 <= i < 2 * count implies u16s_bytes(read)[i] == b[from + i] by {
        let k = i / 2;
        lemma_u16_bytes_le(b, from + 2 * k);
        assert(b.subrange(from + 2 * k, from + 2 * k + 2)[i % 2] == b[from + i]);
    }
    assert(u16s_bytes(read) =~= b.subrange(from, from + 2 * count));
}

/// The `count` u24 integers held from `b[from]` on, each in little-endian order.
pub open spec fn u24s_at(b: Seq<u8>, from: int, count: int) -> Seq<u32> {
    Seq::new(count as nat, |k: int| u24_le(b, from + 3 * k))
}

/// The bytes of the integers of `s`, one after the other.
pub open spec fn u24s_bytes(s: Seq<u32>) -> Seq<u8> {
    Seq::new(3 * s.len(), |i: int| u24_bytes(s[i / 3])[i % 3])
}

/// Reads `count` integers from `b[from]` on.
pub fn read_u24s(b: &[u8], from: usize, count: usize) -> (v: Vec<u32>)
    requires
        from + 3 * count <= b@.len(),
    ensures
        v@ == u24s_at(b@, from as int, count as int),
{
    let mut v: Vec<u32> = Vec::new();
    let mut k: usize = 0;
    while k < count
        invariant
            k <= count,
            from + 3 * count <= b@.len(),
            b@.len() == b.len(),
            v@ == u24s_at(b@, from as int, k as int),
        decreases count - k,
    {
        v.push(read_u24(b, from + 3 * k));
        k = k + 1;
        assert(v@ =~= u24s_at(b@, from as int, k as int));
    }
    v
}

/// Appends the bytes of the integers of `s` to `out`.
pub fn push_u24s(out: &mut Vec<u8>, s: &Vec<u32>)
    ensures
        final(out)@ == old(out)@ + u24s_bytes(s@),
{
    let ghost start = out@;
    let mut k: usize = 0;
    assert(out@ =~= start + u24s_bytes(s@.take(0)));
    while k < s.len()
        invariant
            k <= s.len(),
            out@ == start + u24s_bytes(s@.take(k as int)),
        decreases s.len() - k,
    {
        push_u24(out, s[k]);
        k = k + 1;
        assert(out@ =~= start + u24s_bytes(s@.take(k as int)));
    }
    assert(s@.take(k as int) =~= s@);
}

/// Integers are read back from their bytes, wherever the bytes stand.
pub proof fn lemma_u24s_at_bytes(e: Seq<u8>, from: int, s: Seq<u32>)
    requires
        0 <= from,
        from + 3 * s.len() <= e.len(),
        e.subrange(from, from + 3 * s.len()) == u24s_bytes(s),
        forall|k: int| 0 <= k < s.len() ==> s[k] < 16777216,
    ensures
        u24s_at(e, from, s.len() as int) == s,
{
    assert forall|k: int| 0 <= k < s.len() implies u24_le(e, from + 3 * k) == s[k] by {
        let t = u24s_bytes(s);
        let part = e.subrange(from, from + 3 * s.len());
        let word = e.subrange(from + 3 * k, from + 3 * k + 3);
        assert forall|j: int| 0 <= j < 3 implies word[j] == u24_bytes(s[k])[j] by {
            assert(part[3 * k + j] == t[3 * k + j]);
        }
        assert(word =~= u24_bytes(s[k]));
        lemma_u24_le_bytes(e, from + 3 * k, s[k]);
    }
    assert(u24s_at(e, from, s.len() as int) =~= s);
}

/// The bytes of the integers read from `b` are the bytes they were read from.
pub proof fn lemma_u24s_bytes_at(b: Seq<u8>, from: int, count: int)
    requires
        0 <= from,
        0 <= count,
        from + 3 * count <= b.len(),
    ensures
        u24s_bytes(u24s_at(b, from, count)) == b.subrange(from, from + 3 * count),
{
    let read = u24s_at(b, from, count);
    assert forall|i: int| 0 <= i < 3 * count implies u24s_bytes(read)[i] == b[from + i] by {
        let k = i / 3;
        lemma_u24_bytes_le(b, from + 3 * k);
        assert(b.subrange(from + 3 * k, from + 3 * k + 3)[i % 3] == b[from + i]);
    }
    assert(u24s_bytes(read) =~= b.subrange(from, from + 3 * count));
}

/// The `count` u32 integers held from `b[from]` on, each in little-endian order.
pub open spec fn u32s_at(b: Seq<u8>, from: int, count: int) -> Seq<u32> {
    Seq::new(count as nat, |k: int| u32_le(b, from + 4 * k))
}

/// The bytes of the integers of `s`, one after the other.
pub open spec fn u32s_bytes(s: Seq<u32>) -> Seq<u8> {
    Seq::new(4 * s.len(), |i: int| u32_bytes(s[i / 4])[i % 4])
}

/// Reads `count` integers from `b[from]` on.
pub fn read_u32s(b: &[u8], from: usize, count: usize) -> (v: Vec<u32>)
    requires
        from + 4 * count <= b@.len(),
    ensures
        v@ == u32s_at(b@, from as int, count as int),
{
    let mut v: Vec<u32> = Vec::new();
    let mut k: usize = 0;
    while k < count
        invariant
            k <= count,
            from + 4 * count <= b@.len(),
            b@.len() == b.len(),
            v@ == u32s_at(b@, from as int, k as int),
        decreases count - k,
    {
        v.push(read_u32(b, from + 4 * k));
        k = k + 1;
        assert(v@ =~= u32s_at(b@, from as int, k as int));
    }
    v
}

/// Appends the bytes of the integers of `s` to `out`.
pub fn push_u32s(out: &mut Vec<u8>, s: &Vec<u32>)
    ensures
        final(out)@ == old(out)@ + u32s_bytes(s@),
{
    let ghost start = out@;
    let mut k: usize = 0;
    assert(out@ =~= start + u32s_bytes(s@.take(0)));
    while k < s.len()
        invariant
            k <= s.len(),
            out@ == start + u32s_bytes(s@.take(k as int)),
        decreases s.len() - k,
    {
        push_u32(out, s[k]);
        k = k + 1;
        assert(out@ =~= start + u32s_bytes(s@.take(k as int)));
    }
    assert(s@.take(k as int) =~= s@);
}

/// Integers are read back from their bytes, wherever the bytes stand.
pub proof fn lemma_u32s_at_bytes(e: Seq<u8>, from: int, s: Seq<u32>)
    requires
        0 <= from,
        from + 4 * s.len() <= e.len(),
        e.subrange(from, from + 4 * s.len()) == u32s_bytes(s),
    ensures
        u32s_at(e, from, s.len() as int) == s,
{
    assert forall|k: int| 0 <= k < s.len() implies u32_le(e, from + 4 * k) == s[k] by {
        let t = u32s_bytes(s);
        let part = e.subrange(from, from + 4 * s.len());
        let word = e.subrange(from + 4 * k, from + 4 * k + 4);
        assert forall|j: int| 0 <= j < 4 implies word[j] == u32_bytes(s[k])[j] by {
            assert(part[4 * k + j] == t[4 * k + j]);
        }
        assert(word =~= u32_bytes(s[k]));
        lemma_u32_le_bytes(e, from + 4 * k, s[k]);
    }
    assert(u32s_at(e, from, s.len() as int) =~= s);
}

/// The bytes of the integers read from `b` are the bytes they were read from.
pub proof fn lemma_u32s_bytes_at(b: Seq<u8>, from: int, count: int)
    requires
        0 <= from,
        0 <= count,
        from + 4 * count <= b.len(),
    ensures
        u32s_bytes(u32s_at(b, from, count)) == b.subrange(from, from + 4 * count),
{
    let read = u32s_at(b, from, count);
    assert forall|i: int| 0 <= i < 4 * count implies u32s_bytes(read)[i] == b[from + i] by {
        let k = i / 4;
        lemma_u32_bytes_le(b, from + 4 * k);
        assert(b.subrange(from + 4 * k, from + 4 * k + 4)[i % 4] == b[from + i]);
    }
    assert(u32s_bytes(read) =~= b.subrange(from, from + 4 * count));
}

/// One layout of descriptor payload bytes, with its decoder and its encoder.
pub trait DescriptorShape: Sized {
    /// The name that a length error carries.
    spec fn name() -> &'static str;

    /// The length of the fixed fields that every payload of this shape holds.
    spec fn min_len() -> nat;

    /// The number of bytes that the descriptor at the start of `b` takes. Counts
    /// are read from `b` one after the other, each only where `b` holds it.
    spec fn wire_len(b: Seq<u8>) -> nat;

    /// Every field of `self` is the one that the layout finds in `b`.
    spec fn decoded_from(&self, b: Seq<u8>) -> bool;

    /// The counts of `self` agree with its lists, and no string is resolved.
    /// Where a shape has neither, every value is well-formed.
    open spec fn wf(&self) -> bool {
        true
    }

    /// The bytes of `self` on the wire.
    spec fn encoding(&self) -> Seq<u8>;

    /// The payloads that hold nothing but what the fields keep: unless a shape
    /// reads over a byte or folds two values into one, every payload.
    open spec fn canonical(b: Seq<u8>) -> bool {
        true
    }

    /// The error with which a payload `b` that is too short is turned down: it
    /// names the shape, the number of bytes that the descriptor takes as far
    /// as `b` tells, and the number of bytes that `b` has. A shape that ends in
    /// another shape hands on the error of that one where its own fields are
    /// all there.
    open spec fn refusal(b: Seq<u8>) -> Error {
        Error::DescriptorTooShort {
            descriptor_name: Self::name(),
            expected: Self::wire_len(b) as usize,
            actual: b.len() as usize,
        }
    }

    /// Decodes the descriptor at the start of `value`.
    fn decode(value: &[u8]) -> (r: Result<Self, Error>)
        ensures
            r is Ok <==> value@.len() >= Self::wire_len(value@),
            r matches Ok(x) ==> x.decoded_from(value@),
            r matches Err(e) ==> e == Self::refusal(value@) && e is DescriptorTooShort,
            value@.len() < Self::min_len() ==> r is Err,
    ;

    /// Encodes `self`.
    fn encode(&self) -> (bytes: Vec<u8>)
        ensures
            bytes@ == self.encoding(),
    ;

    /// A well-formed value is the decoding of its own encoding, all of it.
    proof fn lemma_decode_encoded(&self)
        requires
            self.wf(),
        ensures
            Self::wire_len(self.encoding()) == self.encoding().len(),
            self.decoded_from(self.encoding()),
    ;

    /// What was decoded from a canonical payload encodes to the bytes that were read.
    proof fn lemma_encode_decoded(&self, b: Seq<u8>)
        requires
            b.len() >= Self::wire_len(b),
            self.decoded_from(b),
            Self::canonical(b),
        ensures
            self.wf(),
            self.encoding() == b.subrange(0, Self::wire_len(b) as int),
    ;
}

/// The low byte of the integer read from two bytes is the first of them.
pub proof fn lemma_digits_low(b0: u8, b1: u8)
    ensures
        ((b0 as int + 256 * (b1 as int)) as u16 % 256) as u8 == b0,
{
    lemma_digits_u16(b0, b1);
}

/// What is read from the first `o.len()` bytes of `e` is read from `o`, where `e` starts with `o`.
pub proof fn lemma_own_fields_kept(e: Seq<u8>, o: Seq<u8>)
    requires
        o.len() <= e.len(),
        e.subrange(0, o.len() as int) == o,
    ensures
        forall|i: int| 0 <= i < o.len() ==> e[i] == o[i],
        forall|i: int, j: int| 0 <= i <= j <= o.len() ==> e.subrange(i, j) == o.subrange(i, j),
        forall|i: int| 0 <= i && i + 2 <= o.len() ==> u16_le(e, i) == u16_le(o, i),
        forall|i: int| 0 <= i && i + 4 <= o.len() ==> u32_le(e, i) == u32_le(o, i),
{
    assert forall|i: int| 0 <= i < o.len() implies e[i] == o[i] by {
        assert(e.subrange(0, o.len() as int)[i] == e[i]);
    }
    assert forall|i: int, j: int| 0 <= i <= j <= o.len() implies e.subrange(i, j) == o.subrange(
        i,
        j,
    ) by {
        assert(e.subrange(i, j) =~= o.subrange(i, j));
    }
}

/// `x` is what the decoder of the shape `T` makes of `b`.
pub open spec fn accepts<T: DescriptorShape>(b: Seq<u8>, x: T) -> bool {
    b.len() >= T::wire_len(b) && x.decoded_from(b)
}

/// `e` is the error with which the decoder of the shape `T` turns `b` down.
pub open spec fn rejects<T: DescriptorShape>(b: Seq<u8>, e: Error) -> bool {
    b.len() < T::wire_len(b) && e == T::refusal(b) && e is DescriptorTooShort
}

/// Decoding the encoding of a well-formed value gives the value back: the
/// decoder takes the encoding, all of it, and what it makes of it is the value.
pub proof fn lemma_decode_encode<T: DescriptorShape>(x: T)
    requires
        x.wf(),
    ensures
        accepts(x.encoding(), x),
        T::wire_len(x.encoding()) == x.encoding().len(),
{
    x.lemma_decode_encoded();
}

/// `b` is a payload of the shape `T` and nothing after it, written the one
/// way in which the shape is encoded.
pub open spec fn exact<T: DescriptorShape>(b: Seq<u8>) -> bool {
    T::canonical(b) && b.len() == T::wire_len(b)
}

/// Encoding what was decoded from a canonical payload of exactly the length
/// of its descriptor gives the payload back.
pub proof fn lemma_encode_decode<T: DescriptorShape>(x: T, b: Seq<u8>)
    requires
        accepts(b, x),
        exact::<T>(b),
    ensures
        x.encoding() == b,
{
    x.lemma_encode_decoded(b);
    assert(b.subrange(0, b.len() as int) =~= b);
}

/// A copy of `b[from..]`.
pub fn copy_from(b: &[u8], from: usize) -> (v: Vec<u8>)
    requires
        from <= b@.len(),
    ensures
        v@ == b@.subrange(from as int, b@.len() as int),
{
    copy_range(b, from, b.len())
}

/// A copy of `b`.
pub fn copy_all(b: &[u8]) -> (v: Vec<u8>)
    ensures
        v@ == b@,
{
    let v = copy_range(b, 0, b.len());
    assert(v@ =~= b@);
    v
}

/// A copy of `v`.
pub fn copy_bytes(v: &Vec<u8>) -> (copy: Vec<u8>)
    ensures
        copy@ == v@,
{
    let copy = copy_range(v.as_slice(), 0, v.len());
    assert(copy@ =~= v@);
    copy
}

} // verus!
