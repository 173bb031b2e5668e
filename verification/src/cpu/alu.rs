//! The arithmetic and logic unit: byte and word arithmetic and the flags it sets.

use vstd::prelude::*;

use crate::bits::{lemma_byte_bits, lemma_byte_shl, lemma_or_disjoint, lemma_word_masks};
use crate::cpu::registers::{ByteRegister, CpuRegisters};

verus! {

/// The arithmetic and logic unit. It holds no state: each operation reads its
/// operands and writes the flags into the registers it is given.
pub struct Alu {}

/// `carry` as the number 0 or 1.
pub open spec fn carry_value(carry: bool) -> int {
    if carry { 1 } else { 0 }
}

/// The byte a byte's two nibbles swapped give.
pub open spec fn swapped(value: u8) -> u8 {
    ((value as int % 16) * 16 + value as int / 16) as u8
}

/// The result and the registers with their new flags of adding `b` and the carry to `a`.
pub open spec fn add_spec(registers: CpuRegisters, a: u8, b: u8, carry: bool) -> (u8, CpuRegisters) {
    let value = ((a as int + b as int + carry_value(carry)) % 256) as u8;
    (value, registers.with_flags(
        value == 0,
        false,
        a as int % 16 + b as int % 16 + carry_value(carry) >= 16,
        a as int + b as int + carry_value(carry) >= 256,
    ))
}

/// The result and the registers with their new flags of adding 1 to `a`.
pub open spec fn inc_spec(registers: CpuRegisters, a: u8) -> (u8, CpuRegisters) {
    let value = ((a as int + 1) % 256) as u8;
    (value, registers.with_flags(value == 0, false, a as int % 16 == 15, registers.flag_c))
}

/// The result and the registers with their new flags of subtracting `b` and the carry from `a`.
pub open spec fn sub_spec(registers: CpuRegisters, a: u8, b: u8, carry: bool) -> (u8, CpuRegisters) {
    let value = ((a as int - b as int - carry_value(carry) + 512) % 256) as u8;
    (value, registers.with_flags(
        value == 0,
        true,
        (a as int % 16) < b as int % 16 + carry_value(carry),
        (a as int) < b as int + carry_value(carry),
    ))
}

/// The result and the registers with their new flags of subtracting 1 from `a`.
pub open spec fn dec_spec(registers: CpuRegisters, a: u8) -> (u8, CpuRegisters) {
    let value = ((a as int + 255) % 256) as u8;
    (value, registers.with_flags(value == 0, true, a as int % 16 == 0, registers.flag_c))
}

/// The result and the registers with their new flags of a bitwise or.
pub open spec fn or_spec(registers: CpuRegisters, a: u8, b: u8) -> (u8, CpuRegisters) {
    (a | b, registers.with_flags(a | b == 0, false, false, false))
}

/// The result and the registers with their new flags of a bitwise and.
pub open spec fn and_spec(registers: CpuRegisters, a: u8, b: u8) -> (u8, CpuRegisters) {
    (a & b, registers.with_flags(a & b == 0, false, true, false))
}

/// The registers with the flags of comparing A with `b`.
pub open spec fn cp_spec(registers: CpuRegisters, b: u8) -> CpuRegisters {
    registers.with_flags(
        registers.a == b,
        true,
        (registers.a as int % 16) < b as int % 16,
        registers.a < b,
    )
}

/// The result and the registers with their new flags of swapping the nibbles of `value`.
pub open spec fn swap_spec(registers: CpuRegisters, value: u8) -> (u8, CpuRegisters) {
    (swapped(value), registers.with_flags(value == 0, false, false, false))
}

/// The result and the registers with their new flags of adding two words.
pub open spec fn add_nn_spec(registers: CpuRegisters, a: u16, b: u16) -> (u16, CpuRegisters) {
    (((a as int + b as int) % 65536) as u16, registers.with_flags(
        registers.flag_z,
        false,
        a as int % 4096 + b as int % 4096 >= 4096,
        a as int + b as int >= 65536,
    ))
}

/// The result and the registers with their new flags of adding a signed value to a word.
pub open spec fn add_nn_signed_spec(registers: CpuRegisters, a: u16, b: i16) -> (u16, CpuRegisters) {
    (((a as int + (b as u16) as int) % 65536) as u16, registers.with_flags(
        false,
        false,
        a as int % 16 + (b as u16) as int % 16 > 15,
        a as int % 256 + (b as u16) as int % 256 > 255,
    ))
}

impl Alu {
    /// Adds `b` and the carry to `a`, modulo 256. Sets Z if the result is 0, clears N,
    /// sets H on a carry out of bit 3 and C on a carry out of bit 7.
    pub fn add_n(&self, registers: &mut CpuRegisters, a: u8, b: u8, carry: bool) -> (value: u8)
        ensures
            (value, *final(registers)) == add_spec(*old(registers), a, b, carry),

    {
        proof { lemma_byte_bits(); }
        let carry_byte: u8 = if carry { 1 } else { 0 };
        registers.set_flag_n(false);
        registers.set_flag_h(((a & 0x0Fu8) + (b & 0x0Fu8) + carry_byte) >= 0x10);
        registers.set_flag_c((a as u16 + b as u16 + carry_byte as u16) >= 0x100);

        let value: u8 = a.wrapping_add(b).wrapping_add(carry_byte);

        registers.set_flag_z(value == 0);

        value
    }

    /// Adds 1 to `a`, modulo 256. Sets Z if the result is 0, clears N, sets H on a
    /// carry out of bit 3, leaves C as it was.
    pub fn inc_n(&self, registers: &mut CpuRegisters, a: u8) -> (value: u8)
        ensures
            (value, *final(registers)) == inc_spec(*old(registers), a),

    {
        proof { lemma_byte_bits(); }
        let b: u8 = 1;

        registers.set_flag_n(false);
        registers.set_flag_h(((a & 0x0Fu8) + b) >= 0x10);

        let value: u8 = a.wrapping_add(b);

        registers.set_flag_z(value == 0);

        value
    }

    /// Subtracts `b` and the carry from `a`, modulo 256. Sets Z if the result is 0,
    /// sets N, sets H on a borrow from bit 4 and C on a borrow.
    pub fn sub_n(&self, registers: &mut CpuRegisters, a: u8, b: u8, carry: bool) -> (value: u8)
        ensures
            (value, *final(registers)) == sub_spec(*old(registers), a, b, carry),

    {
        proof { lemma_byte_bits(); }
        let carry_byte: u8 = if carry { 1 } else { 0 };
        registers.set_flag_n(true);
        registers.set_flag_h((a & 0x0Fu8) < ((b & 0x0Fu8) + carry_byte));
        registers.set_flag_c((a as u16) < ((b as u16) + (carry_byte as u16)));

        let value: u8 = a.wrapping_sub(b).wrapping_sub(carry_byte);

        registers.set_flag_z(value == 0);

        value
    }

    /// Subtracts 1 from `a`, modulo 256. Sets Z if the result is 0, sets N, sets H on a
    /// borrow from bit 4, leaves C as it was.
    pub fn dec_n(&self, registers: &mut CpuRegisters, a: u8) -> (value: u8)
        ensures
            (value, *final(registers)) == dec_spec(*old(registers), a),

    {
        proof { lemma_byte_bits(); }
        let b: u8 = 1;

        registers.set_flag_n(true);
        registers.set_flag_h(b > (a & 0x0Fu8));

        let value: u8 = a.wrapping_sub(b);

        registers.set_flag_z(value == 0);

        value
    }

    /// Bitwise or. Sets Z if the result is 0 and clears N, H and C.
    pub fn or_n(&self, registers: &mut CpuRegisters, a: u8, b: u8) -> (result: u8)
        ensures
            (result, *final(registers)) == or_spec(*old(registers), a, b),

    {
        let result: u8 = a | b;

        registers.set_flag_z(result == 0);
        registers.set_flag_n(false);
        registers.set_flag_h(false);
        registers.set_flag_c(false);

        result
    }

    /// Bitwise and. Sets Z if the result is 0, clears N and C, sets H.
    pub fn and_n(&self, registers: &mut CpuRegisters, a: u8, b: u8) -> (result: u8)
        ensures
            (result, *final(registers)) == and_spec(*old(registers), a, b),

    {
        let result: u8 = a & b;

        registers.set_flag_z(result == 0);
        registers.set_flag_n(false);
        registers.set_flag_h(true);
        registers.set_flag_c(false);

        result
    }

    /// Compares A with `b` as a subtraction A - b whose result is dropped: sets Z if they
    /// are equal, sets N, sets H on a borrow from bit 4 and C if A is less than `b`.
    pub fn cp_n(&self, registers: &mut CpuRegisters, b: u8)
        ensures
            *final(registers) == cp_spec(*old(registers), b),

    {
        proof { lemma_byte_bits(); }
        let a: u8 = registers.read_byte(&ByteRegister::A);

        registers.set_flag_z(a == b);
        registers.set_flag_n(true);
        registers.set_flag_h((a & 0x0Fu8) < (b & 0x0Fu8));
        registers.set_flag_c(a < b);
    }

    /// Swaps the two nibbles of `value`. Sets Z if the value is 0 and clears N, H and C.
    pub fn swap_n(&self, registers: &mut CpuRegisters, value: u8) -> (result: u8)
        ensures
            (result, *final(registers)) == swap_spec(*old(registers), value),

    {
        proof {
            lemma_byte_bits();
            lemma_byte_shl();
        }
        registers.set_flag_n(false);
        registers.set_flag_c(false);
        registers.set_flag_h(false);
        registers.set_flag_z(value == 0);

        let new_low: u8 = (value >> 4u8) & 0x0Fu8;
        let new_high: u8 = (value << 4u8) & 0xF0u8;

        assert(new_low as int == value as int / 16);
        assert(new_high as int == (value as int % 16) * 16);
        assert((new_low | new_high) == new_low + new_high) by {
            lemma_or_disjoint();
        }
        new_low | new_high
    }

    // --- 16 bit ----------------------------------------------------------------------------------

    /// Adds two words, modulo 65536. Clears N, sets H on a carry out of bit 11 and C on a
    /// carry out of bit 15, leaves Z as it was.
    pub fn add_nn(&self, registers: &mut CpuRegisters, a: u16, b: u16) -> (value: u16)
        ensures
            (value, *final(registers)) == add_nn_spec(*old(registers), a, b),

    {
        proof { lemma_word_masks(); }
        registers.set_flag_n(false);

        let half_carry: bool = ((a & 0x0FFFu16) + (b & 0x0FFFu16)) >= 0x1000;
        registers.set_flag_h(half_carry);

        let carry: bool = (a as u32 + b as u32) >= 0x10000;
        registers.set_flag_c(carry);

        a.wrapping_add(b)
    }

    /// Adds a signed value to a word, modulo 65536, the signed value taken as its
    /// two's complement word. Clears Z and N, sets H on a carry out of bit 3 and C on a
    /// carry out of bit 7 of the low byte.
    pub fn add_nn_signed(&self, registers: &mut CpuRegisters, a: u16, b: i16) -> (value: u16)
        ensures
            (value, *final(registers)) == add_nn_signed_spec(*old(registers), a, b),

    {
        proof { lemma_word_masks(); }
        let b: u16 = b as u16;

        registers.set_flag_z(false);
        registers.set_flag_n(false);
        registers.set_flag_h((a & 0x000Fu16) + (b & 0x000Fu16) > 0x000F);
        registers.set_flag_c((a & 0x00FFu16) + (b & 0x00FFu16) > 0x00FF);

        a.wrapping_add(b)
    }

    /// Adds 1 to a word, modulo 65536; no flag changes.
    pub fn inc_nn(&self, value: u16) -> (r: u16)
        ensures
            r as int == (value as int + 1) % 65536,
    {
        value.wrapping_add(1)
    }

    /// Subtracts 1 from a word, modulo 65536; no flag changes.
    pub fn dec_nn(&self, value: u16) -> (r: u16)
        ensures
            r as int == (value as int + 65535) % 65536,
    {
        value.wrapping_sub(1)
    }
}

/// Swapping the nibbles of a byte twice gives the byte back.
pub proof fn lemma_swap_twice(value: u8)
    ensures
        swapped(swapped(value)) == value,
{
}

/// Incrementing and then decrementing a word gives it back, and the other way round.
pub proof fn lemma_inc_dec_nn_inverse(value: u16)
    ensures
        ((((value as int + 1) % 65536) + 65535) % 65536) == value,
        ((((value as int + 65535) % 65536) + 1) % 65536) == value,
{
}

} // verus!
