//! Fixed-width integer encodings and small helpers on byte strings.

use vstd::prelude::*;

verus! {

/// The two bytes of `n` modulo 65536, most significant first.
pub open spec fn be16(n: int) -> Seq<u8> {
    seq![((n / 256) % 256) as u8, (n % 256) as u8]
}

/// The value that two bytes stand for, most significant first.
pub open spec fn be16_value(hi: u8, lo: u8) -> int {
    hi as int * 256 + lo as int
}

/// The four bytes of `n`, most significant first.
pub open spec fn be32(n: u32) -> Seq<u8> {
    seq![
        (n / 0x100_0000) as u8,
        ((n / 0x1_0000) % 256) as u8,
        ((n / 0x100) % 256) as u8,
        (n % 256) as u8,
    ]
}

/// The four bytes of `n`, least significant first.
pub open spec fn le32(n: u32) -> Seq<u8> {
    seq![
        (n % 256) as u8,
        ((n / 0x100) % 256) as u8,
        ((n / 0x1_0000) % 256) as u8,
        (n / 0x100_0000) as u8,
    ]
}

/// The value that four bytes stand for, least significant first.
pub open spec fn le32_value(b: Seq<u8>) -> int
    recommends
        b.len() == 4,
{
    b[0] as int + b[1] as int * 0x100 + b[2] as int * 0x1_0000 + b[3] as int * 0x100_0000
}

/// The eight bytes of `n`, most significant first.
pub open spec fn be64(n: u64) -> Seq<u8> {
    be32((n / 0x1_0000_0000) as u32) + be32((n % 0x1_0000_0000) as u32)
}

/// The eight bytes of `n`, least significant first.
pub open spec fn le64(n: u64) -> Seq<u8> {
    le32((n % 0x1_0000_0000) as u32) + le32((n / 0x1_0000_0000) as u32)
}

/// The two bytes of `n`, least significant first.
pub open spec fn le16(n: u16) -> Seq<u8> {
    seq![(n % 256) as u8, (n / 256) as u8]
}

/// The big-endian bytes of each number in turn.
pub open spec fn be32_all(numbers: Seq<u32>) -> Seq<u8>
    decreases numbers.len(),
{
    if numbers.len() == 0 {
        Seq::<u8>::empty()
    } else {
        be32_all(numbers.drop_last()) + be32(numbers.last())
    }
}

pub proof fn lemma_be32_all_len(numbers: Seq<u32>)
    ensures
        be32_all(numbers).len() == 4 * numbers.len(),
    decreases numbers.len(),
{
    if numbers.len() > 0 {
        lemma_be32_all_len(numbers.drop_last());
    }
}

/// Appends the big-endian bytes of each number in turn.
pub fn push_be32_all(out: &mut Vec<u8>, numbers: &[u32])
    ensures
        final(out)@ == old(out)@ + be32_all(numbers@),
{
    let mut i: usize = 0;
    assert(out@ =~= old(out)@ + be32_all(numbers@.take(0)));
    while i < numbers.len()
        invariant
            i <= numbers@.len(),
            out@ == old(out)@ + be32_all(numbers@.take(i as int)),
        decreases numbers@.len() - i,
    {
        push_be32(out, numbers[i]);
        i = i + 1;
        assert(numbers@.take(i as int).drop_last() =~= numbers@.take(i - 1));
        assert(out@ =~= old(out)@ + be32_all(numbers@.take(i as int)));
    }
    assert(numbers@.take(i as int) =~= numbers@);
}

/// The least significant byte of a length.
pub fn low_byte(n: usize) -> (b: u8)
    ensures
        b as int == n as int % 256,
{
    assert(n & 0xff == n % 256) by (bit_vector);
    (n & 0xff) as u8
}

/// The second least significant byte of a length.
pub fn second_byte(n: usize) -> (b: u8)
    ensures
        b as int == (n as int / 256) % 256,
{
    assert((n >> 8) & 0xff == (n / 256) % 256) by (bit_vector);
    ((n >> 8) & 0xff) as u8
}

pub fn push_be16(out: &mut Vec<u8>, n: usize)
    ensures
        final(out)@ == old(out)@ + be16(n as int),
{
    let hi = second_byte(n);
    let lo = low_byte(n);
    out.push(hi);
    out.push(lo);
    assert(out@ =~= old(out)@ + be16(n as int));
}

pub fn read_be16(hi: u8, lo: u8) -> (n: u16)
    ensures
        n as int == be16_value(hi, lo),
{
    (hi as u16) * 256 + (lo as u16)
}

pub fn push_be32(out: &mut Vec<u8>, n: u32)
    ensures
        final(out)@ == old(out)@ + be32(n),
{
    assert(n >> 24 == n / 0x100_0000) by (bit_vector);
    assert((n >> 16) & 0xff == (n / 0x1_0000) % 256) by (bit_vector);
    assert((n >> 8) & 0xff == (n / 0x100) % 256) by (bit_vector);
    assert(n & 0xff == n % 256) by (bit_vector);
    assert(n >> 24 < 256) by (bit_vector);
    out.push((n >> 24) as u8);
    out.push(((n >> 16) & 0xff) as u8);
    out.push(((n >> 8) & 0xff) as u8);
    out.push((n & 0xff) as u8);
    assert(out@ =~= old(out)@ + be32(n));
}

pub fn push_le32(out: &mut Vec<u8>, n: u32)
    ensures
        final(out)@ == old(out)@ + le32(n),
{
    assert(n >> 24 == n / 0x100_0000) by (bit_vector);
    assert((n >> 16) & 0xff == (n / 0x1_0000) % 256) by (bit_vector);
    assert((n >> 8) & 0xff == (n / 0x100) % 256) by (bit_vector);
    assert(n & 0xff == n % 256) by (bit_vector);
    assert(n >> 24 < 256) by (bit_vector);
    out.push((n & 0xff) as u8);
    out.push(((n >> 8) & 0xff) as u8);
    out.push(((n >> 16) & 0xff) as u8);
    out.push((n >> 24) as u8);
    assert(out@ =~= old(out)@ + le32(n));
}

pub fn push_be64(out: &mut Vec<u8>, n: u64)
    ensures
        final(out)@ == old(out)@ + be64(n),
{
    assert(n >> 32 == n / 0x1_0000_0000) by (bit_vector);
    assert(n & 0xffff_ffff == n % 0x1_0000_0000) by (bit_vector);
    assert(n >> 32 < 0x1_0000_0000) by (bit_vector);
    push_be32(out, (n >> 32) as u32);
    push_be32(out, (n & 0xffff_ffff) as u32);
    assert(out@ =~= old(out)@ + be64(n));
}

/// Reads four bytes at `at`, least significant first.
pub fn read_le32(data: &[u8], at: usize) -> (n: u32)
    requires
        at + 4 <= data@.len(),
    ensures
        n as int == le32_value(data@.subrange(at as int, at + 4)),
{
    let b0 = data[at] as u32;
    let b1 = data[at + 1] as u32;
    let b2 = data[at + 2] as u32;
    let b3 = data[at + 3] as u32;
    b0 + b1 * 0x100 + b2 * 0x1_0000 + b3 * 0x100_0000
}

/// A copy of `data[from..to]`.
pub fn copy_range(data: &[u8], from: usize, to: usize) -> (out: Vec<u8>)
    requires
        from <= to <= data@.len(),
    ensures
        out@ == data@.subrange(from as int, to as int),
{
    let mut out: Vec<u8> = Vec::new();
    let mut i: usize = from;
    while i < to
        invariant
            from <= i <= to <= data@.len(),
            out@ == data@.subrange(from as int, i as int),
        decreases to - i,
    {
        out.push(data[i]);
        i = i + 1;
        assert(out@ =~= data@.subrange(from as int, i as int));
    }
    out
}

/// Whether `data` begins with `prefix`.
pub fn starts_with(data: &[u8], prefix: &[u8]) -> (b: bool)
    ensures
        b == (prefix@.len() <= data@.len() && data@.subrange(0, prefix@.len() as int)
            == prefix@),
{
    if data.len() < prefix.len() {
        return false;
    }
    let mut i: usize = 0;
    while i < prefix.len()
        invariant
            i <= prefix@.len() <= data@.len(),
            data@.subrange(0, i as int) == prefix@.subrange(0, i as int),
        decreases prefix@.len() - i,
    {
        if data[i] != prefix[i] {
            assert(data@.subrange(0, prefix@.len() as int)[i as int] != prefix@[i as int]);
            return false;
        }
        i = i + 1;
        assert(data@.subrange(0, i as int) =~= data@.subrange(0, i - 1).push(data@[i - 1]));
        assert(prefix@.subrange(0, i as int) =~= prefix@.subrange(0, i - 1).push(
            prefix@[i - 1],
        ));
    }
    assert(prefix@.subrange(0, i as int) =~= prefix@);
    true
}

} // verus!
