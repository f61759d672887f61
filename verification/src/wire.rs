//! Big-endian multi-byte integer reads and writes over the datagram buffer.

use vstd::prelude::*;

verus! {

pub open spec fn spec_u16_hi(x: u16) -> u8 {
    (x / 256) as u8
}

pub open spec fn spec_u16_lo(x: u16) -> u8 {
    (x % 256) as u8
}

/// The two big-endian bytes of a 16-bit value.
pub open spec fn spec_be16(x: u16) -> Seq<u8> {
    seq![spec_u16_hi(x), spec_u16_lo(x)]
}

/// The 16-bit value read from two big-endian bytes.
pub open spec fn spec_u16_of(hi: u8, lo: u8) -> u16 {
    ((hi as int) * 256 + (lo as int)) as u16
}

/// The four big-endian bytes of a 32-bit value.
pub open spec fn spec_be32(x: u32) -> Seq<u8> {
    seq![
        (x / 0x1000000) as u8,
        ((x / 0x10000) % 256) as u8,
        ((x / 256) % 256) as u8,
        (x % 256) as u8,
    ]
}

/// The 32-bit value read from four big-endian bytes.
pub open spec fn spec_u32_of(b0: u8, b1: u8, b2: u8, b3: u8) -> u32 {
    ((b0 as int) * 0x1000000 + (b1 as int) * 0x10000 + (b2 as int) * 256 + (b3 as int)) as u32
}

/// Reassembling the two bytes of a value gives the value back.
pub proof fn lemma_u16_round_trip(x: u16)
    ensures
        spec_u16_of(spec_u16_hi(x), spec_u16_lo(x)) == x,
{
    assert((x / 256) * 256 + x % 256 == x) by (bit_vector);
}

/// Reassembling the four bytes of a value gives the value back.
pub proof fn lemma_u32_round_trip(x: u32)
    ensures
        spec_u32_of(
            spec_be32(x)[0],
            spec_be32(x)[1],
            spec_be32(x)[2],
            spec_be32(x)[3],
        ) == x,
{
    assert((x / 0x1000000) * 0x1000000 + ((x / 0x10000) % 256) * 0x10000 + ((x / 256) % 256)
        * 256 + x % 256 == x) by (bit_vector);
}

/// Appends the two big-endian bytes of `x`.
pub fn push_u16(out: &mut Vec<u8>, x: u16)
    ensures
        final(out)@ == old(out)@ + spec_be16(x),
{
    out.push((x / 256) as u8);
    out.push((x % 256) as u8);
    proof {
        assert(out@ =~= old(out)@ + spec_be16(x));
    }
}

/// Appends the four big-endian bytes of `x`.
pub fn push_u32(out: &mut Vec<u8>, x: u32)
    ensures
        final(out)@ == old(out)@ + spec_be32(x),
{
    out.push((x / 0x1000000) as u8);
    out.push(((x / 0x10000) % 256) as u8);
    out.push(((x / 256) % 256) as u8);
    out.push((x % 256) as u8);
    proof {
        assert(out@ =~= old(out)@ + spec_be32(x));
    }
}

/// Reads the 16-bit value at `i`.
pub fn read_u16(bytes: &Vec<u8>, i: usize) -> (r: u16)
    requires
        i + 2 <= bytes@.len(),
    ensures
        r == spec_u16_of(bytes@[i as int], bytes@[i as int + 1]),
{
    let n: usize = bytes.len();
    let hi: u8 = bytes[i];
    let lo: u8 = bytes[i + 1];
    (hi as u16) * 256 + (lo as u16)
}

/// Reads the 32-bit value at `i`.
pub fn read_u32(bytes: &Vec<u8>, i: usize) -> (r: u32)
    requires
        i + 4 <= bytes@.len(),
    ensures
        r == spec_u32_of(
            bytes@[i as int],
            bytes@[i as int + 1],
            bytes@[i as int + 2],
            bytes@[i as int + 3],
        ),
{
    let n: usize = bytes.len();
    let b0: u8 = bytes[i];
    let b1: u8 = bytes[i + 1];
    let b2: u8 = bytes[i + 2];
    let b3: u8 = bytes[i + 3];
    (b0 as u32) * 0x1000000 + (b1 as u32) * 0x10000 + (b2 as u32) * 256 + (b3 as u32)
}

/// Appends the bytes of `src` between `from` and `to`.
pub fn push_range(out: &mut Vec<u8>, src: &Vec<u8>, from: usize, to: usize)
    requires
        from <= to <= src@.len(),
    ensures
        final(out)@ == old(out)@ + src@.subrange(from as int, to as int),
{
    let mut j: usize = from;
    while j < to
        invariant
            from <= j <= to <= src@.len(),
            out@ == old(out)@ + src@.subrange(from as int, j as int),
        decreases to - j,
    {
        out.push(src[j]);
        proof {
            assert(out@ =~= old(out)@ + src@.subrange(from as int, j as int + 1));
        }
        j = j + 1;
    }
    proof {
        assert(out@ =~= old(out)@ + src@.subrange(from as int, to as int));
    }
}

} // verus!
