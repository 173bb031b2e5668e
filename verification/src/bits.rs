//! Facts relating the bit operations the hardware is described with to the
//! arithmetic the contracts are stated in.

use vstd::prelude::*;

verus! {

/// Masks and shifts of a byte in arithmetic terms.
pub proof fn lemma_byte_bits()
    by (bit_vector)
    ensures
        forall|a: u8| #![trigger (a & 0x0Fu8)] (a & 0x0Fu8) as int == a as int % 16,
        forall|a: u8| #![trigger (a & 0xF0u8)] (a & 0xF0u8) as int == a as int - a as int % 16,
        forall|a: u8| #![trigger (a & 0x80u8)] ((a & 0x80u8) == 0x80u8) == (a as int >= 128),
        forall|a: u8| #![trigger (a & 0x01u8)] (a & 0x01u8) as int == a as int % 2,
        forall|a: u8| #![trigger (a >> 1u8)] (a >> 1u8) as int == a as int / 2,
        forall|a: u8| #![trigger (a >> 4u8)] (a >> 4u8) as int == a as int / 16,
        forall|a: u8| #![trigger (a & 0x7Fu8)] (a & 0x7Fu8) as int == a as int % 128,
        forall|a: u8| #![trigger (a & 0x40u8)] ((a & 0x40u8) == 0x40u8) == ((a as int / 64) % 2 == 1),
        forall|a: u8| #![trigger (a & 0x20u8)] ((a & 0x20u8) == 0x20u8) == ((a as int / 32) % 2 == 1),
        forall|a: u8| #![trigger (a & 0x10u8)] ((a & 0x10u8) == 0x10u8) == ((a as int / 16) % 2 == 1),
        forall|a: u8| #![trigger (a & 0x08u8)] ((a & 0x08u8) == 0x08u8) == ((a as int / 8) % 2 == 1),
{
}

/// Left shifts of a byte in arithmetic terms.
pub proof fn lemma_byte_shl()
    by (bit_vector)
    ensures
        forall|a: u8| #![trigger (a << 1u8)] (a << 1u8) as int == 2 * (a as int % 128),
        forall|a: u8| #![trigger (a << 4u8)] (a << 4u8) as int == 16 * (a as int % 16),
{
}

/// Or of two bytes whose set bits do not overlap is their sum.
pub proof fn lemma_or_disjoint()
    by (bit_vector)
    ensures
        forall|x: u8| #![trigger (x | 0x80u8)] x < 128 ==> (x | 0x80u8) == x + 128,
        forall|x: u8, b: u8| #![trigger (x | b)] (x % 2 == 0 && b <= 1) ==> (x | b) == x + b,
        forall|low: u8, high: u8| #![trigger (low | high)] (low < 16 && high % 16 == 0) ==> (low | high) == low + high,
        forall|x: u8| #![trigger (0u8 | x)] (0u8 | x) == x,
        forall|x: u8| #![trigger (x | 0u8)] (x | 0u8) == x,
        forall|x: u8| #![trigger (0x80u8 | x)] x < 128 ==> (0x80u8 | x) == x + 128,
        forall|b: u8| #![trigger (0x01u8 & b)] b <= 1 ==> (0x01u8 & b) == b,
        forall|a: u8| #![trigger (a & 0x80u8)] (a & 0x80u8) == (if a >= 128 { 128u8 } else { 0u8 }),
{
}

/// The shifts and ors that assemble bank numbers, in arithmetic terms.
pub proof fn lemma_bank_bits()
    by (bit_vector)
    ensures
        forall|a: u8| #![trigger (a & 0x03u8)] (a & 0x03u8) as int == a as int % 4,
        forall|x: u16, y: u16| #![trigger ((x << 5u16) | y)] (x < 4 && y < 32) ==> ((x << 5u16) | y) as int == x as int * 32 + y as int,
        forall|x: u16| #![trigger (x << 8u16)] x < 2 ==> (x << 8u16) as int == x as int * 256,
{
}

/// The fields of the sweep register in arithmetic terms.
pub proof fn lemma_sweep_bits()
    by (bit_vector)
    ensures
        forall|a: u8| #![trigger ((a >> 4u8) & 0x07u8)] ((a >> 4u8) & 0x07u8) as int == (a as int / 16) % 8,
        forall|a: u8| #![trigger ((a & 0x08u8) >> 3u8)] (((a & 0x08u8) >> 3u8) == 0) == ((a as int / 8) % 2 == 0),
        forall|a: u8| #![trigger (a & 0x07u8)] (a & 0x07u8) as int == a as int % 8,
{
}

/// The length and volume fields of audio registers in arithmetic terms.
pub proof fn lemma_length_bits()
    by (bit_vector)
    ensures
        forall|a: u8| #![trigger (a & 0x3Fu8)] (a & 0x3Fu8) as int == a as int % 64,
        forall|a: u8| #![trigger (a & 0xF8u8)] ((a & 0xF8u8) == 0) == (a < 8),
{
}

/// What NR52 keeps of a written value, in arithmetic terms.
pub proof fn lemma_nr52_bits()
    by (bit_vector)
    ensures
        forall|c: u8, v: u8| #![trigger ((c & 0x0Fu8) | (v & 0x80u8) | 0x70u8)]
            (((c & 0x0Fu8) | (v & 0x80u8) | 0x70u8) as int) == c as int % 16 + (if v >= 128 { 128int } else { 0int }) + 0x70,
        forall|x: u8| #![trigger (x & 0x70u8)] x % 128 >= 0x70 && x % 16 < 16 && x < 128 && x >= 0x70 ==> (x & 0x70u8) == 0x70u8,
        forall|v: u8| #![trigger ((v >> 7u8) & 1u8)] (((v >> 7u8) & 1u8) == 1) == (v >= 128),
{
}

/// Replacing the low three bits of a byte, in arithmetic terms.
pub proof fn lemma_frequency_bits()
    by (bit_vector)
    ensures
        forall|a: u8| #![trigger (a & 0xF8u8)] (a & 0xF8u8) as int == a as int - a as int % 8,
        forall|k: u8, h: u8| #![trigger (k | h)] (k % 8 == 0 && h < 8) ==> (k | h) as int == k as int + h as int,
{
}

/// Masks of a word in arithmetic terms.
pub proof fn lemma_word_masks()
    by (bit_vector)
    ensures
        forall|a: u16| #![trigger (a & 0x0FFFu16)] (a & 0x0FFFu16) as int == a as int % 4096,
        forall|a: u16| #![trigger (a & 0x000Fu16)] (a & 0x000Fu16) as int == a as int % 16,
        forall|a: u16| #![trigger (a & 0x00FFu16)] (a & 0x00FFu16) as int == a as int % 256,
        forall|a: u16| #![trigger (a & 0xFFF0u16)] (a & 0xFFF0u16) as int == a as int - a as int % 16,
        forall|a: u16| #![trigger (a & 0x001Fu16)] (a & 0x001Fu16) as int == a as int % 32,
        forall|a: u16| #![trigger (a & 0x007Fu16)] (a & 0x007Fu16) as int == a as int % 128,
{
}

/// Testing a bit with a shifted mask agrees with shifting the byte and taking bit 0.
pub proof fn lemma_bit_test()
    by (bit_vector)
    ensures
        forall|v: u8, b: u8| #![trigger (v & (1u8 << b))]
            b < 8 ==> (((v & (1u8 << b)) != (1u8 << b)) == !(((v >> b) & 1u8) == 1u8)),
{
}

} // verus!
