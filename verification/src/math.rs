//! Byte and word helpers shared by the CPU, the cartridge and the audio unit.

use vstd::prelude::*;

verus! {

/// The word whose high byte is `high` and whose low byte is `low`.
pub open spec fn word_of(high: u8, low: u8) -> u16 {
    (high as int * 256 + low as int) as u16
}

/// The high byte of a word.
pub open spec fn high_byte(value: u16) -> u8 {
    (value as int / 256) as u8
}

/// The low byte of a word.
pub open spec fn low_byte(value: u16) -> u8 {
    (value as int % 256) as u8
}

/// Whether bit `position` of `value` is set.
pub open spec fn bit_set(value: u8, position: u8) -> bool {
    (value >> position) & 1 == 1
}

/// Shifting and masking a word agree with dividing by 256 and taking the remainder,
/// and joining two bytes by shift and or agrees with `word_of`.
pub proof fn lemma_word_bits()
    by (bit_vector)
    ensures
        forall|h: u8, l: u8|
            #![trigger ((h as u16) << 8u16) | (l as u16)]
            ((((h as u16) << 8u16) | (l as u16)) as int) == h as int * 256 + l as int,
        forall|v: u16| #![trigger (v >> 8u16)] ((v >> 8u16) as u8) as int == v as int / 256,
        forall|v: u16| #![trigger (v & 0xFFu16)] ((v & 0xFFu16) as u8) as int == v as int % 256,
{
}

/// Joins a high and a low byte into a word.
pub fn two_bytes_to_word(high: u8, low: u8) -> (w: u16)
    ensures
        w == word_of(high, low),
        w as int == high as int * 256 + low as int,
{
    proof { lemma_word_bits(); }
    ((high as u16) << 8) | (low as u16)
}

/// Splits a word into its high byte (first) and its low byte (second).
pub fn word_to_two_bytes(value: u16) -> (parts: (u8, u8))
    ensures
        parts.0 == high_byte(value),
        parts.1 == low_byte(value),
        word_of(parts.0, parts.1) == value,
{
    proof { lemma_word_bits(); }
    let high: u8 = (value >> 8) as u8;
    let low: u8 = (value & 0xFF) as u8;
    (high, low)
}

/// Tells whether bit `position` (0 to 7) of `value` is set.
pub fn is_bit_set(value: &u8, position: u8) -> (r: bool)
    requires
        position < 8,
    ensures
        r == bit_set(*value, position),
{
    (*value >> position) & 1 == 1
}

/// Joining two bytes and splitting the word gives the bytes back; splitting a word
/// and joining its bytes gives the word back.
pub proof fn lemma_word_bytes_roundtrip(high: u8, low: u8, w: u16)
    ensures
        high_byte(word_of(high, low)) == high,
        low_byte(word_of(high, low)) == low,
        word_of(high_byte(w), low_byte(w)) == w,
{
}

} // verus!
