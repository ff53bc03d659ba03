//! Consensus byte encodings of integers and byte strings.

use vstd::prelude::*;

verus! {

/// Appends `src` to `dst`.
pub fn append(dst: &mut Vec<u8>, src: &[u8])
    ensures
        final(dst)@ == old(dst)@ + src@,
{
    let mut i: usize = 0;
    while i < src.len()
        invariant
            i <= src@.len(),
            dst@ == old(dst)@ + src@.subrange(0, i as int),
        decreases src@.len() - i,
    {
        dst.push(src[i]);
        i += 1;
        assert(dst@ =~= old(dst)@ + src@.subrange(0, i as int));
    }
    assert(src@.subrange(0, src@.len() as int) =~= src@);
}

/// Byte `k` of `x`, counted from the low end.
pub open spec fn byte_at(x: int, k: int) -> u8 {
    ((x / pow256(k)) % 256) as u8
}

/// 256 to the power `k`, for `k` up to 8.
pub open spec fn pow256(k: int) -> int {
    if k <= 0 {
        1
    } else if k == 1 {
        0x100
    } else if k == 2 {
        0x1_0000
    } else if k == 3 {
        0x100_0000
    } else if k == 4 {
        0x1_0000_0000
    } else if k == 5 {
        0x100_0000_0000
    } else if k == 6 {
        0x1_0000_0000_0000
    } else if k == 7 {
        0x100_0000_0000_0000
    } else {
        0x1_0000_0000_0000_0000
    }
}

/// The two bytes of `x`, low byte first.
pub open spec fn le_bytes_u16(x: u16) -> Seq<u8> {
    seq![byte_at(x as int, 0), byte_at(x as int, 1)]
}

/// The two bytes of `x`, high byte first.
pub open spec fn be_bytes_u16(x: u16) -> Seq<u8> {
    seq![byte_at(x as int, 1), byte_at(x as int, 0)]
}

/// The four bytes of `x`, low byte first.
pub open spec fn le_bytes_u32(x: u32) -> Seq<u8> {
    seq![byte_at(x as int, 0), byte_at(x as int, 1), byte_at(x as int, 2), byte_at(x as int, 3)]
}

/// The eight bytes of `x`, low byte first.
pub open spec fn le_bytes_u64(x: u64) -> Seq<u8> {
    seq![
        byte_at(x as int, 0),
        byte_at(x as int, 1),
        byte_at(x as int, 2),
        byte_at(x as int, 3),
        byte_at(x as int, 4),
        byte_at(x as int, 5),
        byte_at(x as int, 6),
        byte_at(x as int, 7),
    ]
}

/// The unsigned 64-bit number with the bit pattern of `x` in two's complement.
pub open spec fn twos_complement(x: i64) -> u64 {
    if x >= 0 {
        x as u64
    } else {
        (x + 0x1_0000_0000_0000_0000) as u64
    }
}

/// The eight bytes of `x` in two's complement, low byte first.
pub open spec fn le_bytes_i64(x: i64) -> Seq<u8> {
    le_bytes_u64(twos_complement(x))
}

/// The variable-length encoding of a count or length.
pub open spec fn compact_size(n: u64) -> Seq<u8> {
    if n < 0xfd {
        seq![n as u8]
    } else if n <= 0xffff {
        seq![0xfdu8] + le_bytes_u16(n as u16)
    } else if n <= 0xffff_ffff {
        seq![0xfeu8] + le_bytes_u32(n as u32)
    } else {
        seq![0xffu8] + le_bytes_u64(n)
    }
}

/// A byte string behind its length in the variable-length encoding.
pub open spec fn with_length_prefix(data: Seq<u8>) -> Seq<u8> {
    compact_size(data.len() as u64) + data
}

/// Appends the two bytes of `x`, low byte first.
pub fn push_u16_le(dst: &mut Vec<u8>, x: u16)
    ensures
        final(dst)@ == old(dst)@ + le_bytes_u16(x),
{
    dst.push((x % 256) as u8);
    dst.push((x / 256) as u8);
    assert(dst@ =~= old(dst)@ + le_bytes_u16(x));
}

/// Appends the two bytes of `x`, high byte first.
pub fn push_u16_be(dst: &mut Vec<u8>, x: u16)
    ensures
        final(dst)@ == old(dst)@ + be_bytes_u16(x),
{
    dst.push((x / 256) as u8);
    dst.push((x % 256) as u8);
    assert(dst@ =~= old(dst)@ + be_bytes_u16(x));
}

/// Appends the four bytes of `x`, low byte first.
pub fn push_u32_le(dst: &mut Vec<u8>, x: u32)
    ensures
        final(dst)@ == old(dst)@ + le_bytes_u32(x),
{
    dst.push((x % 256) as u8);
    dst.push((x / 0x100 % 256) as u8);
    dst.push((x / 0x1_0000 % 256) as u8);
    dst.push((x / 0x100_0000) as u8);
    assert(dst@ =~= old(dst)@ + le_bytes_u32(x));
}

/// Appends the eight bytes of `x`, low byte first.
pub fn push_u64_le(dst: &mut Vec<u8>, x: u64)
    ensures
        final(dst)@ == old(dst)@ + le_bytes_u64(x),
{
    dst.push((x % 256) as u8);
    dst.push((x / 0x100 % 256) as u8);
    dst.push((x / 0x1_0000 % 256) as u8);
    dst.push((x / 0x100_0000 % 256) as u8);
    dst.push((x / 0x1_0000_0000 % 256) as u8);
    dst.push((x / 0x100_0000_0000 % 256) as u8);
    dst.push((x / 0x1_0000_0000_0000 % 256) as u8);
    dst.push((x / 0x100_0000_0000_0000) as u8);
    assert(dst@ =~= old(dst)@ + le_bytes_u64(x));
}

/// Appends the eight bytes of `x` in two's complement, low byte first.
pub fn push_i64_le(dst: &mut Vec<u8>, x: i64)
    ensures
        final(dst)@ == old(dst)@ + le_bytes_i64(x),
{
    let bits: u64 = if x >= 0 {
        x as u64
    } else {
        u64::MAX - ((-(x + 1)) as u64)
    };
    assert(bits == twos_complement(x));
    push_u64_le(dst, bits);
}

/// Appends the variable-length encoding of `n`.
pub fn push_compact_size(dst: &mut Vec<u8>, n: u64)
    ensures
        final(dst)@ == old(dst)@ + compact_size(n),
{
    if n < 0xfd {
        dst.push(n as u8);
        assert(dst@ =~= old(dst)@ + compact_size(n));
    } else if n <= 0xffff {
        dst.push(0xfdu8);
        push_u16_le(dst, n as u16);
        assert(dst@ =~= old(dst)@ + compact_size(n));
    } else if n <= 0xffff_ffff {
        dst.push(0xfeu8);
        push_u32_le(dst, n as u32);
        assert(dst@ =~= old(dst)@ + compact_size(n));
    } else {
        dst.push(0xffu8);
        push_u64_le(dst, n);
        assert(dst@ =~= old(dst)@ + compact_size(n));
    }
}

/// Appends `data` behind its length in the variable-length encoding.
pub fn push_with_length_prefix(dst: &mut Vec<u8>, data: &[u8])
    ensures
        final(dst)@ == old(dst)@ + with_length_prefix(data@),
{
    push_compact_size(dst, data.len() as u64);
    append(dst, data);
    assert(dst@ =~= old(dst)@ + with_length_prefix(data@));
}

} // verus!
