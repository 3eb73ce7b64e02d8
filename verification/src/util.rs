//! Small bit-level facts shared by the memory-mapped components.
//!
//! Address decoding throughout the console masks addresses with
//! power-of-two mirrors; these lemmas bound the results so that the
//! components can prove their table indexing in range.

use vstd::prelude::*;

verus! {

/// A masked value never exceeds the mask.
pub proof fn lemma_u16_and_le(x: u16, m: u16)
    ensures
        (x & m) <= m,
{
    assert((x & m) <= m) by (bit_vector);
}

/// Masking with a 15-bit mask clears bit 15.
pub proof fn lemma_u16_or_15bit(a: u16, b: u16)
    requires
        a < 0x8000,
        b < 0x8000,
    ensures
        (a | b) < 0x8000,
{
    assert(a < 0x8000 && b < 0x8000 ==> (a | b) < 0x8000) by (bit_vector);
}

/// A six-bit value shifted into the high byte stays within 14 bits.
pub proof fn lemma_u16_shl8_6bit(d: u16)
    ensures
        ((d & 0x3F) << 8) <= 0x3F00,
{
    assert(((d & 0x3F) << 8) <= 0x3F00) by (bit_vector);
}

/// Masking an address with a mirror window and then with the same window
/// again changes nothing.
pub proof fn lemma_u16_and_idempotent(x: u16, m: u16)
    ensures
        ((x & m) & m) == (x & m),
{
    assert(((x & m) & m) == (x & m)) by (bit_vector);
}

/// The three-bit register index of a PPU access is its address modulo 8.
pub proof fn lemma_u16_and_7_is_mod(x: u16)
    ensures
        (x & 7) == x % 8,
{
    assert((x & 7) == x % 8) by (bit_vector);
}

/// Masking a sum with 0x00FF is reduction modulo 256.
pub proof fn lemma_u16_low_byte_is_mod(x: u16)
    ensures
        (x & 0x00FF) == x % 256,
{
    assert((x & 0x00FF) == x % 256) by (bit_vector);
}

/// Masking with a low-bits mask of 5, 10, 12 or 14 bits is reduction
/// modulo the matching power of two.
pub proof fn lemma_u16_low_masks_are_mod(x: u16)
    ensures
        (x & 0x001F) == x % 32,
        (x & 0x03FF) == x % 0x0400,
        (x & 0x0FFF) == x % 0x1000,
        (x & 0x3FFF) == x % 0x4000,
        (x & 0x003F) == x % 64,
{
    assert((x & 0x001F) == x % 32 && (x & 0x03FF) == x % 0x0400 && (x & 0x0FFF) == x % 0x1000 && (x
        & 0x3FFF) == x % 0x4000 && (x & 0x003F) == x % 64) by (bit_vector);
}

/// Masking clears bits and can only shrink the value.
pub proof fn lemma_u16_and_le_self(x: u16, m: u16)
    ensures
        (x & m) <= x,
{
    assert((x & m) <= x) by (bit_vector);
}

/// A masked byte never exceeds its mask.
pub proof fn lemma_u8_and_le(x: u8, m: u8)
    ensures
        (x & m) <= m,
{
    assert((x & m) <= m) by (bit_vector);
}

/// A byte value shifted four bits left stays under 0x1000.
pub proof fn lemma_u16_shl4_le(x: u16)
    requires
        x <= 255,
    ensures
        (x << 4) <= 0x0FF0,
{
    assert(x <= 255 ==> (x << 4) <= 0x0FF0) by (bit_vector);
}

/// A bitwise or never exceeds the sum of its operands.
pub proof fn lemma_u16_or_le_sum(x: u16, y: u16)
    requires
        (x as int) + (y as int) <= 0xFFFF,
    ensures
        (x | y) <= (x as int) + (y as int),
{
    assert(x <= 0xFFFF - y ==> (x | y) <= x + y) by (bit_vector);
}

/// Complementing a byte is subtracting it from 255.
pub proof fn lemma_u8_not_is_sub(m: u8)
    ensures
        !m == 255 - m,
{
    assert(m + !m == 255) by (bit_vector);
}

} // verus!
