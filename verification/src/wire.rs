//! Big-endian byte-order helpers shared by the wire codecs.

use vstd::prelude::*;

verus! {

/// High byte of a 16-bit big-endian value.
pub open spec fn be16_hi(x: u16) -> u8 {
    ((x >> 8) & 0xff) as u8
}

/// Low byte of a 16-bit big-endian value.
pub open spec fn be16_lo(x: u16) -> u8 {
    (x & 0xff) as u8
}

/// The 16-bit value read from two big-endian bytes.
pub open spec fn be16_val(b0: u8, b1: u8) -> u16 {
    ((b0 as u16) << 8) | (b1 as u16)
}

/// Byte `i` (0 = most significant) of a 32-bit big-endian value.
pub open spec fn be32_byte(x: u32, i: int) -> u8 {
    if i == 0 {
        ((x >> 24) & 0xff) as u8
    } else if i == 1 {
        ((x >> 16) & 0xff) as u8
    } else if i == 2 {
        ((x >> 8) & 0xff) as u8
    } else {
        (x & 0xff) as u8
    }
}

/// The 32-bit value read from four big-endian bytes.
pub open spec fn be32_val(b0: u8, b1: u8, b2: u8, b3: u8) -> u32 {
    ((b0 as u32) << 24) | ((b1 as u32) << 16) | ((b2 as u32) << 8) | (b3 as u32)
}

/// Byte `i` (0 = most significant) of a 64-bit big-endian value.
pub open spec fn be64_byte(x: u64, i: int) -> u8 {
    if i == 0 {
        ((x >> 56) & 0xff) as u8
    } else if i == 1 {
        ((x >> 48) & 0xff) as u8
    } else if i == 2 {
        ((x >> 40) & 0xff) as u8
    } else if i == 3 {
        ((x >> 32) & 0xff) as u8
    } else if i == 4 {
        ((x >> 24) & 0xff) as u8
    } else if i == 5 {
        ((x >> 16) & 0xff) as u8
    } else if i == 6 {
        ((x >> 8) & 0xff) as u8
    } else {
        (x & 0xff) as u8
    }
}

/// The 64-bit value read from eight big-endian bytes.
pub open spec fn be64_val(
    b0: u8,
    b1: u8,
    b2: u8,
    b3: u8,
    b4: u8,
    b5: u8,
    b6: u8,
    b7: u8,
) -> u64 {
    ((b0 as u64) << 56) | ((b1 as u64) << 48) | ((b2 as u64) << 40) | ((b3 as u64) << 32)
        | ((b4 as u64) << 24) | ((b5 as u64) << 16) | ((b6 as u64) << 8) | (b7 as u64)
}

/// Reading back the two big-endian bytes of a 16-bit value yields the value.
pub proof fn lemma_be16_roundtrip(x: u16)
    ensures
        be16_val(be16_hi(x), be16_lo(x)) == x,
{
    assert(be16_val(be16_hi(x), be16_lo(x)) == x) by (bit_vector);
}

/// Reading back the four big-endian bytes of a 32-bit value yields the value.
pub proof fn lemma_be32_roundtrip(x: u32)
    ensures
        be32_val(be32_byte(x, 0), be32_byte(x, 1), be32_byte(x, 2), be32_byte(x, 3)) == x,
{
    assert(be32_val(be32_byte(x, 0), be32_byte(x, 1), be32_byte(x, 2), be32_byte(x, 3)) == x)
        by (bit_vector);
}

/// Reading back the eight big-endian bytes of a 64-bit value yields the value.
pub proof fn lemma_be64_roundtrip(x: u64)
    ensures
        be64_val(
            be64_byte(x, 0),
            be64_byte(x, 1),
            be64_byte(x, 2),
            be64_byte(x, 3),
            be64_byte(x, 4),
            be64_byte(x, 5),
            be64_byte(x, 6),
            be64_byte(x, 7),
        ) == x,
{
    assert(be64_val(
        be64_byte(x, 0),
        be64_byte(x, 1),
        be64_byte(x, 2),
        be64_byte(x, 3),
        be64_byte(x, 4),
        be64_byte(x, 5),
        be64_byte(x, 6),
        be64_byte(x, 7),
    ) == x) by (bit_vector);
}

/// Appends the two big-endian bytes of `x` to `out`.
pub fn push_be16(out: &mut Vec<u8>, x: u16)
    ensures
        final(out)@ == old(out)@.push(be16_hi(x)).push(be16_lo(x)),
{
    proof {
        assert((x >> 8) & 0xff < 256 && x & 0xff < 256) by (bit_vector);
    }
    out.push(((x >> 8) & 0xff) as u8);
    out.push((x & 0xff) as u8);
}

/// Appends the four big-endian bytes of `x` to `out`.
pub fn push_be32(out: &mut Vec<u8>, x: u32)
    ensures
        final(out)@ == old(out)@.push(be32_byte(x, 0)).push(be32_byte(x, 1)).push(be32_byte(x, 2)).push(
            be32_byte(x, 3),
        ),
{
    proof {
        assert((x >> 24) & 0xff < 256 && (x >> 16) & 0xff < 256 && (x >> 8) & 0xff < 256 && x
            & 0xff < 256) by (bit_vector);
    }
    out.push(((x >> 24) & 0xff) as u8);
    out.push(((x >> 16) & 0xff) as u8);
    out.push(((x >> 8) & 0xff) as u8);
    out.push((x & 0xff) as u8);
}

/// Appends the eight big-endian bytes of `x` to `out`.
pub fn push_be64(out: &mut Vec<u8>, x: u64)
    ensures
        final(out)@ == old(out)@.push(be64_byte(x, 0)).push(be64_byte(x, 1)).push(be64_byte(x, 2)).push(
            be64_byte(x, 3),
        ).push(be64_byte(x, 4)).push(be64_byte(x, 5)).push(be64_byte(x, 6)).push(be64_byte(x, 7)),
{
    proof {
        assert((x >> 56) & 0xff < 256 && (x >> 48) & 0xff < 256 && (x >> 40) & 0xff < 256 && (x
            >> 32) & 0xff < 256 && (x >> 24) & 0xff < 256 && (x >> 16) & 0xff < 256 && (x >> 8)
            & 0xff < 256 && x & 0xff < 256) by (bit_vector);
    }
    out.push(((x >> 56) & 0xff) as u8);
    out.push(((x >> 48) & 0xff) as u8);
    out.push(((x >> 40) & 0xff) as u8);
    out.push(((x >> 32) & 0xff) as u8);
    out.push(((x >> 24) & 0xff) as u8);
    out.push(((x >> 16) & 0xff) as u8);
    out.push(((x >> 8) & 0xff) as u8);
    out.push((x & 0xff) as u8);
}

/// Reads a 16-bit value from two big-endian bytes.
pub fn read_be16(b0: u8, b1: u8) -> (r: u16)
    ensures
        r == be16_val(b0, b1),
{
    ((b0 as u16) << 8u16) | (b1 as u16)
}

/// Reads a 32-bit value from four big-endian bytes.
pub fn read_be32(b0: u8, b1: u8, b2: u8, b3: u8) -> (r: u32)
    ensures
        r == be32_val(b0, b1, b2, b3),
{
    ((b0 as u32) << 24u32) | ((b1 as u32) << 16u32) | ((b2 as u32) << 8u32) | (b3 as u32)
}

/// Reads a 64-bit value from eight big-endian bytes.
pub fn read_be64(b0: u8, b1: u8, b2: u8, b3: u8, b4: u8, b5: u8, b6: u8, b7: u8) -> (r: u64)
    ensures
        r == be64_val(b0, b1, b2, b3, b4, b5, b6, b7),
{
    ((b0 as u64) << 56u64) | ((b1 as u64) << 48u64) | ((b2 as u64) << 40u64) | ((b3 as u64)
        << 32u64) | ((b4 as u64) << 24u64) | ((b5 as u64) << 16u64) | ((b6 as u64) << 8u64) | (
    b7 as u64)
}

/// The unsigned 32-bit pattern that carries a signed 32-bit value on the wire.
pub open spec fn u32_of_i32(x: i32) -> u32 {
    if x >= 0 {
        x as u32
    } else {
        (x + 0x1_0000_0000) as u32
    }
}

/// The signed 32-bit value carried by an unsigned 32-bit wire pattern.
pub open spec fn i32_of_u32(x: u32) -> i32 {
    if x < 0x8000_0000 {
        x as i32
    } else {
        (x - 0x1_0000_0000) as i32
    }
}

/// The signed/unsigned 32-bit reinterpretation is its own inverse.
pub proof fn lemma_i32_u32_roundtrip(x: i32)
    ensures
        i32_of_u32(u32_of_i32(x)) == x,
{
}

/// Converts a signed 32-bit value to its unsigned wire pattern.
pub fn u32_from_i32(x: i32) -> (r: u32)
    ensures
        r == u32_of_i32(x),
{
    if x >= 0 {
        x as u32
    } else {
        ((x as i64) + 0x1_0000_0000i64) as u32
    }
}

/// Converts an unsigned wire pattern back to the signed 32-bit value.
pub fn i32_from_u32(x: u32) -> (r: i32)
    ensures
        r == i32_of_u32(x),
{
    if x < 0x8000_0000 {
        x as i32
    } else {
        ((x as i64) - 0x1_0000_0000i64) as i32
    }
}

} // verus!
