//! Bit-field helpers shared by the fixed-offset codecs, and the bit-level
//! facts (proved with the bit-vector solver) that the codecs rest on.

use vstd::prelude::*;

verus! {

/// The `width`-bit field of `x` that starts at bit `shift` (`mask` = 2^width - 1).
pub open spec fn field(x: u8, shift: u8, mask: u8) -> u8 {
    (x >> shift) & mask
}

/// `b` holds the 2-bit values `p0`, `p1`, `p2`, `p3` at bits 0-1, 2-3, 4-5, 6-7.
pub open spec fn byte_of_pairs(b: u8, p0: u8, p1: u8, p2: u8, p3: u8) -> bool {
    &&& field(b, 0, 3) == p0
    &&& field(b, 2, 3) == p1
    &&& field(b, 4, 3) == p2
    &&& field(b, 6, 3) == p3
}

/// The fields at the ends of a byte, written without `field`.
pub proof fn lemma_edge_fields(x: u8)
    ensures
        field(x, 0, 3) == x & 3u8,
        field(x, 0, 1) == x & 1u8,
        field(x, 3, 31) == x >> 3u8,
        field(x, 7, 1) == x >> 7u8,
        field(x, 2, 15) == (x >> 2u8) & 15u8,
        x >> 7u8 <= 1,
{
    assert((x >> 0u8) & 3u8 == x & 3u8 && (x >> 0u8) & 1u8 == x & 1u8 && (x >> 3u8) & 31u8 == x
        >> 3u8 && (x >> 7u8) & 1u8 == x >> 7u8 && x >> 7u8 <= 1) by (bit_vector);
}

/// A byte is determined by its four 2-bit fields.
pub proof fn lemma_byte_from_pairs(x: u8, y: u8)
    requires
        x & 3 == y & 3,
        (x >> 2) & 3 == (y >> 2) & 3,
        (x >> 4) & 3 == (y >> 4) & 3,
        (x >> 6) & 3 == (y >> 6) & 3,
    ensures
        x == y,
{
    assert(x == y) by (bit_vector)
        requires
            x & 3 == y & 3,
            (x >> 2) & 3 == (y >> 2) & 3,
            (x >> 4) & 3 == (y >> 4) & 3,
            (x >> 6) & 3 == (y >> 6) & 3,
    ;
}

/// Packing four 2-bit values into one byte puts each at its own offset.
pub proof fn lemma_pack_pairs(a: u8, b: u8, c: u8, d: u8)
    requires
        a < 4,
        b < 4,
        c < 4,
        d < 4,
    ensures
        ({
            let x = (a & 3) | ((b & 3) << 2) | ((c & 3) << 4) | ((d & 3) << 6);
            &&& x & 3 == a
            &&& (x >> 2) & 3 == b
            &&& (x >> 4) & 3 == c
            &&& (x >> 6) & 3 == d
        }),
{
    assert({
        let x = (a & 3) | ((b & 3) << 2) | ((c & 3) << 4) | ((d & 3) << 6);
        &&& x & 3 == a
        &&& (x >> 2) & 3 == b
        &&& (x >> 4) & 3 == c
        &&& (x >> 6) & 3 == d
    }) by (bit_vector)
        requires
            a < 4,
            b < 4,
            c < 4,
            d < 4,
    ;
}

/// A value below 4 is its own low two bits.
pub proof fn lemma_low_pair(x: u8)
    requires
        x < 4,
    ensures
        x & 3 == x,
{
    assert(x & 3 == x) by (bit_vector)
        requires
            x < 4,
    ;
}

/// Re-reading a 2-bit field leaves it unchanged, and the field at offset 0 is
/// the low two bits.
pub proof fn lemma_pair_idempotent(x: u8)
    ensures
        field(x, 0, 3) == x & 3,
        (x & 3) & 3 == x & 3,
        ((x >> 2) & 3) & 3 == (x >> 2) & 3,
        ((x >> 4) & 3) & 3 == (x >> 4) & 3,
        ((x >> 6) & 3) & 3 == (x >> 6) & 3,
{
    assert(field(x, 0, 3) == x & 3) by (bit_vector);
    assert({
        &&& (x & 3) & 3 == x & 3
        &&& ((x >> 2) & 3) & 3 == (x >> 2) & 3
        &&& ((x >> 4) & 3) & 3 == (x >> 4) & 3
        &&& ((x >> 6) & 3) & 3 == (x >> 6) & 3
    }) by (bit_vector);
}

/// The low two bits of any byte are below 4.
pub proof fn lemma_and3(y: u8)
    ensures
        y & 3 < 4,
{
    assert(y & 3 < 4) by (bit_vector);
}

/// Setting bits 0, 1 and 2 one after another according to three flags.
pub proof fn lemma_flag_byte(a: bool, b: bool, c: bool)
    ensures
        ({
            let x1: u8 = if a { 0u8 | 1u8 } else { 0u8 };
            let x2: u8 = if b { x1 | 2u8 } else { x1 };
            let x3: u8 = if c { x2 | 4u8 } else { x2 };
            &&& (field(x3, 0, 1) == 1) == a
            &&& (field(x3, 1, 1) == 1) == b
            &&& (field(x3, 2, 1) == 1) == c
            &&& field(x3, 3, 31) == 0
        }),
{
    assert({
        let x1: u8 = if a { 0u8 | 1u8 } else { 0u8 };
        let x2: u8 = if b { x1 | 2u8 } else { x1 };
        let x3: u8 = if c { x2 | 4u8 } else { x2 };
        &&& (((x3 >> 0u8) & 1u8) == 1u8) == a
        &&& (((x3 >> 1u8) & 1u8) == 1u8) == b
        &&& (((x3 >> 2u8) & 1u8) == 1u8) == c
        &&& ((x3 >> 3u8) & 31u8) == 0u8
    }) by (bit_vector);
}

/// The single-bit tests and the reserved-bit read of a control byte.
pub proof fn lemma_flag_tests(x: u8)
    ensures
        ((x & 1) != 0) == (field(x, 0, 1) == 1),
        ((x & 2) != 0) == (field(x, 1, 1) == 1),
        ((x & 4) != 0) == (field(x, 2, 1) == 1),
        (x >> 3) & 31 == field(x, 3, 31),
{
    assert({
        &&& ((x & 1) != 0) == (((x >> 0u8) & 1u8) == 1u8)
        &&& ((x & 2) != 0) == (((x >> 1u8) & 1u8) == 1u8)
        &&& ((x & 4) != 0) == (((x >> 2u8) & 1u8) == 1u8)
    }) by (bit_vector);
}

/// A control byte is determined by bits 0, 1, 2 and its bits 3-7.
pub proof fn lemma_control_byte_unique(x: u8, y: u8)
    requires
        (field(x, 0, 1) == 1) == (field(y, 0, 1) == 1),
        (field(x, 1, 1) == 1) == (field(y, 1, 1) == 1),
        (field(x, 2, 1) == 1) == (field(y, 2, 1) == 1),
        field(x, 3, 31) == field(y, 3, 31),
    ensures
        x == y,
{
    assert(x == y) by (bit_vector)
        requires
            (((x >> 0u8) & 1u8) == 1u8) == (((y >> 0u8) & 1u8) == 1u8),
            (((x >> 1u8) & 1u8) == 1u8) == (((y >> 1u8) & 1u8) == 1u8),
            (((x >> 2u8) & 1u8) == 1u8) == (((y >> 2u8) & 1u8) == 1u8),
            (x >> 3u8) & 31u8 == (y >> 3u8) & 31u8,
    ;
}

/// Building a PAL control byte: bits 0 and 1 from two flags, the version's
/// low four bits at bits 2-5, bit 6 from a third flag.
pub proof fn lemma_pal_control_byte(a: bool, b: bool, v: u8, c: bool)
    ensures
        ({
            let x1: u8 = if a { 0u8 | 1u8 } else { 0u8 };
            let x2: u8 = if b { x1 | 2u8 } else { x1 };
            let x3: u8 = x2 | ((v & 15u8) << 2u8);
            let x4: u8 = if c { x3 | 64u8 } else { x3 };
            &&& (field(x4, 0, 1) == 1) == a
            &&& (field(x4, 1, 1) == 1) == b
            &&& field(x4, 2, 15) == v & 15
            &&& (field(x4, 6, 1) == 1) == c
            &&& field(x4, 7, 1) == 0
        }),
{
    assert({
        let x1: u8 = if a { 0u8 | 1u8 } else { 0u8 };
        let x2: u8 = if b { x1 | 2u8 } else { x1 };
        let x3: u8 = x2 | ((v & 15u8) << 2u8);
        let x4: u8 = if c { x3 | 64u8 } else { x3 };
        &&& (((x4 >> 0u8) & 1u8) == 1u8) == a
        &&& (((x4 >> 1u8) & 1u8) == 1u8) == b
        &&& (x4 >> 2u8) & 15u8 == v & 15u8
        &&& (((x4 >> 6u8) & 1u8) == 1u8) == c
        &&& (x4 >> 7u8) & 1u8 == 0u8
    }) by (bit_vector);
}

/// The tests that read a PAL control byte, and the version field's range.
pub proof fn lemma_pal_control_tests(x: u8)
    ensures
        ((x & 1) != 0) == (field(x, 0, 1) == 1),
        ((x & 2) != 0) == (field(x, 1, 1) == 1),
        ((x & 64) != 0) == (field(x, 6, 1) == 1),
        ((x & 128) != 0) == (field(x, 7, 1) == 1),
        field(x, 2, 15) & 15 == field(x, 2, 15),
{
    assert({
        &&& ((x & 1) != 0) == (((x >> 0u8) & 1u8) == 1u8)
        &&& ((x & 2) != 0) == (((x >> 1u8) & 1u8) == 1u8)
        &&& ((x & 64) != 0) == (((x >> 6u8) & 1u8) == 1u8)
        &&& ((x & 128) != 0) == (((x >> 7u8) & 1u8) == 1u8)
        &&& ((x >> 2u8) & 15u8) & 15u8 == (x >> 2u8) & 15u8
    }) by (bit_vector);
}

/// A PAL control byte is determined by its fields.
pub proof fn lemma_pal_control_unique(x: u8, y: u8)
    requires
        (field(x, 0, 1) == 1) == (field(y, 0, 1) == 1),
        (field(x, 1, 1) == 1) == (field(y, 1, 1) == 1),
        field(x, 2, 15) == field(y, 2, 15),
        (field(x, 6, 1) == 1) == (field(y, 6, 1) == 1),
        (field(x, 7, 1) == 1) == (field(y, 7, 1) == 1),
    ensures
        x == y,
{
    assert(x == y) by (bit_vector)
        requires
            (((x >> 0u8) & 1u8) == 1u8) == (((y >> 0u8) & 1u8) == 1u8),
            (((x >> 1u8) & 1u8) == 1u8) == (((y >> 1u8) & 1u8) == 1u8),
            (x >> 2u8) & 15u8 == (y >> 2u8) & 15u8,
            (((x >> 6u8) & 1u8) == 1u8) == (((y >> 6u8) & 1u8) == 1u8),
            (((x >> 7u8) & 1u8) == 1u8) == (((y >> 7u8) & 1u8) == 1u8),
    ;
}

/// The low four bits of a byte are its value modulo 16.
pub proof fn lemma_low_nibble(x: u8)
    ensures
        x & 15 == x % 16,
{
    assert(x & 15 == x % 16) by (bit_vector);
}

/// A 32-bit value from four bytes, most significant first.
pub open spec fn be32(b0: u8, b1: u8, b2: u8, b3: u8) -> int {
    b0 as int * 16777216 + b1 as int * 65536 + b2 as int * 256 + b3 as int
}

/// Big-endian split of a 32-bit value into four bytes.
pub proof fn lemma_u32_split(x: u32)
    ensures
        be32(
            (x >> 24u32) as u8,
            ((x >> 16u32) & 0xFFu32) as u8,
            ((x >> 8u32) & 0xFFu32) as u8,
            (x & 0xFFu32) as u8,
        ) == x as int,
{
    assert(((x >> 24u32) as u8) as int * 16777216 + (((x >> 16u32) & 0xFFu32) as u8) as int * 65536
        + (((x >> 8u32) & 0xFFu32) as u8) as int * 256 + ((x & 0xFFu32) as u8) as int == x as int)
        by (bit_vector);
}

/// Big-endian join of four bytes into a 32-bit value, and the split back.
pub proof fn lemma_u32_join(b0: u8, b1: u8, b2: u8, b3: u8)
    ensures
        ({
            let x: u32 = ((b0 as u32) << 24u32) | ((b1 as u32) << 16u32) | ((b2 as u32) << 8u32)
                | (b3 as u32);
            &&& x as int == be32(b0, b1, b2, b3)
            &&& (x >> 24u32) as u8 == b0
            &&& ((x >> 16u32) & 0xFFu32) as u8 == b1
            &&& ((x >> 8u32) & 0xFFu32) as u8 == b2
            &&& (x & 0xFFu32) as u8 == b3
        }),
{
    assert({
        let x: u32 = ((b0 as u32) << 24u32) | ((b1 as u32) << 16u32) | ((b2 as u32) << 8u32)
            | (b3 as u32);
        &&& x as int == b0 as int * 16777216 + b1 as int * 65536 + b2 as int * 256 + b3 as int
        &&& (x >> 24u32) as u8 == b0
        &&& ((x >> 16u32) & 0xFFu32) as u8 == b1
        &&& ((x >> 8u32) & 0xFFu32) as u8 == b2
        &&& (x & 0xFFu32) as u8 == b3
    }) by (bit_vector);
}

/// A 32-bit value determines its big-endian bytes.
pub proof fn lemma_be32_unique(a0: u8, a1: u8, a2: u8, a3: u8, b0: u8, b1: u8, b2: u8, b3: u8)
    requires
        be32(a0, a1, a2, a3) == be32(b0, b1, b2, b3),
    ensures
        a0 == b0 && a1 == b1 && a2 == b2 && a3 == b3,
{
    lemma_u32_join(a0, a1, a2, a3);
    lemma_u32_join(b0, b1, b2, b3);
}

/// Joins four bytes, most significant first, into a 32-bit value.
pub fn be_u32(b0: u8, b1: u8, b2: u8, b3: u8) -> (r: u32)
    ensures
        r as int == be32(b0, b1, b2, b3),
{
    proof {
        lemma_u32_join(b0, b1, b2, b3);
    }
    ((b0 as u32) << 24u32) | ((b1 as u32) << 16u32) | ((b2 as u32) << 8u32) | (b3 as u32)
}

/// Setting the PFP-present (0x08) and SAP-present (0x10) bits of a zero byte.
pub proof fn lemma_presence_flags(a: bool, b: bool)
    ensures
        ({
            let x1: u8 = if a { 0u8 | 8u8 } else { 0u8 };
            let x2: u8 = if b { x1 | 16u8 } else { x1 };
            &&& ((x2 & 8u8) != 0) == a
            &&& ((x2 & 16u8) != 0) == b
            &&& x2 as int == (if a { 8int } else { 0 }) + (if b { 16int } else { 0 })
        }),
{
    assert({
        let x1: u8 = if a { 0u8 | 8u8 } else { 0u8 };
        let x2: u8 = if b { x1 | 16u8 } else { x1 };
        &&& ((x2 & 8u8) != 0) == a
        &&& ((x2 & 16u8) != 0) == b
        &&& x2 as int == (if a { 8int } else { 0 }) + (if b { 16int } else { 0 })
    }) by (bit_vector);
}

/// Big-endian split of a 16-bit value into two bytes, and the join back.
pub proof fn lemma_u16_be(x: u16, hi: u8, lo: u8)
    ensures
        ((x >> 8u16) as u8) as int == x as int / 256,
        ((x & 0xFFu16) as u8) as int == x as int % 256,
        (((hi as u16) << 8u16) | (lo as u16)) as int == hi as int * 256 + lo as int,
{
    assert(((x >> 8u16) as u8) as int == x as int / 256) by (bit_vector);
    assert(((x & 0xFFu16) as u8) as int == x as int % 256) by (bit_vector);
    assert((((hi as u16) << 8u16) | (lo as u16)) as int == hi as int * 256 + lo as int)
        by (bit_vector);
}

/// Joins two bytes, most significant first, into a 16-bit value.
pub fn be_u16(hi: u8, lo: u8) -> (r: u16)
    ensures
        r as int == hi as int * 256 + lo as int,
{
    proof {
        lemma_u16_be(0, hi, lo);
    }
    ((hi as u16) << 8u16) | (lo as u16)
}

} // verus!
