//! What each instruction of the full instruction set does, stated over the processor
//! and the bytes of memory.

use vstd::prelude::*;

use crate::cpu::alu::{
    add_nn_signed_spec, add_nn_spec, add_spec, and_spec, cp_spec, dec_spec, inc_spec, or_spec,
    sub_spec, swap_spec,
};
use crate::cpu::processor::Cpu;
use crate::cpu::registers::{ByteRegister, CpuRegisters, WordRegister};
use crate::cpu::semantics::{
    immediate_word, relative_target, rotated_left, rotated_right, shifted_right_keeping_top,
    top_of_stack,
};
use crate::memory::next_address;

verus! {

/// The stack pointer after pushing a word: two below `sp`, modulo 65536.
pub open spec fn below(sp: u16) -> u16 {
    ((sp as int + 65534) % 65536) as u16
}

/// The stack pointer after popping a word: two above `sp`, modulo 65536.
pub open spec fn above(sp: u16) -> u16 {
    ((sp as int + 2) % 65536) as u16
}

/// Memory with the word `value` written at `address`: its low byte at `address`, its high
/// byte at the next address.
pub open spec fn with_word_at(memory: Seq<u8>, address: u16, value: u16) -> Seq<u8> {
    memory.update(address as int, (value as int % 256) as u8).update(
        next_address(address),
        (value as int / 256) as u8,
    )
}

/// Memory after pushing `value` on a stack whose pointer is `sp`.
pub open spec fn stacked(memory: Seq<u8>, sp: u16, value: u16) -> Seq<u8> {
    with_word_at(memory, below(sp), value)
}

/// A word register plus one, modulo 65536.
pub open spec fn word_inc(value: u16) -> u16 {
    ((value as int + 1) % 65536) as u16
}

/// A word register minus one, modulo 65536.
pub open spec fn word_dec(value: u16) -> u16 {
    ((value as int + 65535) % 65536) as u16
}

/// A byte with bit `bit` cleared.
pub open spec fn bit_cleared(value: u8, bit: u8) -> u8 {
    value & !(1u8 << bit)
}

/// A byte with bit `bit` set.
pub open spec fn bit_raised(value: u8, bit: u8) -> u8 {
    value | (1u8 << bit)
}

/// `value` plus `k`, modulo 256.
pub open spec fn byte_plus(value: u8, k: int) -> u8 {
    if value + k > 255 { (value + k - 256) as u8 } else { (value + k) as u8 }
}

/// `value` minus `k`, modulo 256.
pub open spec fn byte_minus(value: u8, k: int) -> u8 {
    if value - k < 0 { (value - k + 256) as u8 } else { (value - k) as u8 }
}

/// The result of decimal adjustment of A, and whether the carry is set afterwards.
pub open spec fn daa_spec(a: u8, n: bool, h: bool, c: bool) -> (u8, bool) {
    if !n {
        let a1: u8 = if c || a > 0x99 { byte_plus(a, 0x60) } else { a };
        let a2: u8 = if h || a1 % 16 > 9 { byte_plus(a1, 0x06) } else { a1 };
        (a2, c || a > 0x99)
    } else {
        let a1: u8 = if c { byte_minus(a, 0x60) } else { a };
        let a2: u8 = if h { byte_minus(a1, 0x06) } else { a1 };
        (a2, c)
    }
}

/// The register a 0xCB-prefixed opcode works on, from its low three bits; 6 names the
/// byte at the address in HL instead.
pub open spec fn cb_register(code: u8) -> ByteRegister {
    if code == 0 {
        ByteRegister::B
    } else if code == 1 {
        ByteRegister::C
    } else if code == 2 {
        ByteRegister::D
    } else if code == 3 {
        ByteRegister::E
    } else if code == 4 {
        ByteRegister::H
    } else if code == 5 {
        ByteRegister::L
    } else {
        ByteRegister::A
    }
}

/// Whether the main opcode is one the processor executes.
pub open spec fn opcode_implemented(opcode: u8) -> bool {
    !(opcode == 0xD3 || opcode == 0xDB || opcode == 0xDD || opcode == 0xE3 || opcode == 0xE4
        || opcode == 0xEB || opcode == 0xEC || opcode == 0xED || opcode == 0xF4 || opcode == 0xFC
        || opcode == 0xFD)
}

impl Cpu {
    /// This processor with `registers`, moving the program counter by `pc_to_increment`
    /// once done and having taken `ccycles` clock cycles.
    pub open spec fn done(self, registers: CpuRegisters, pc_to_increment: i8, ccycles: u8) -> Self {
        Cpu { registers, pc_to_increment, last_instruction_ccycles: ccycles, ..self }
    }

    /// The byte after the opcode.
    pub open spec fn imm8(self, memory: Seq<u8>) -> u8 {
        memory[self.registers.pc + 1]
    }

    /// The word after the opcode, low byte first.
    pub open spec fn imm16(self, memory: Seq<u8>) -> u16 {
        immediate_word(memory, self.registers.pc)
    }

    /// The address in HL.
    pub open spec fn hl(self) -> u16 {
        self.registers.word(WordRegister::HL)
    }

    /// The byte at the address in HL.
    pub open spec fn mhl(self, memory: Seq<u8>) -> u8 {
        memory[self.hl() as int]
    }

    /// Whether the program counter plus `k` stays within 16 bits.
    pub open spec fn pc_fits(self, k: int) -> bool {
        self.registers.pc + k <= 0xFFFF
    }

    // --- Arithmetic ---------------------------------------------------------------------

    /// Does nothing.
    pub open spec fn nop_spec(self) -> Self {
        self.done(self.registers, 1, 4)
    }

    /// Decreases a byte register.
    pub open spec fn dec_r_spec(self, r: ByteRegister) -> Self {
        let (v, regs) = dec_spec(self.registers, self.registers.byte(r));
        self.done(regs.with_byte(r, v), 1, 4)
    }

    /// Decreases the byte at the address in HL.
    pub open spec fn dec_mhl_spec(self, memory: Seq<u8>) -> (Self, Seq<u8>) {
        let (v, regs) = dec_spec(self.registers, self.mhl(memory));
        (self.done(regs, 1, 12), memory.update(self.hl() as int, v))
    }

    /// Decreases a word register, modulo 65536; the flags are kept.
    pub open spec fn dec_rr_spec(self, rr: WordRegister) -> Self {
        self.done(self.registers.with_word(rr, word_dec(self.registers.word(rr))), 1, 8)
    }

    /// Increases a word register, modulo 65536; the flags are kept.
    pub open spec fn inc_rr_spec(self, rr: WordRegister) -> Self {
        self.done(self.registers.with_word(rr, word_inc(self.registers.word(rr))), 1, 8)
    }

    /// Increases a byte register.
    pub open spec fn inc_r_spec(self, r: ByteRegister) -> Self {
        let (v, regs) = inc_spec(self.registers, self.registers.byte(r));
        self.done(regs.with_byte(r, v), 1, 4)
    }

    /// Increases the byte at the address in HL.
    pub open spec fn inc_mhl_spec(self, memory: Seq<u8>) -> (Self, Seq<u8>) {
        let (v, regs) = inc_spec(self.registers, self.mhl(memory));
        (self.done(regs, 1, 12), memory.update(self.hl() as int, v))
    }

    /// A with `value` added by the arithmetic unit, `carry` included.
    pub open spec fn add_to_a(self, first: u8, second: u8, carry: bool, pc_to_increment: i8, ccycles: u8) -> Self {
        let (v, regs) = add_spec(self.registers, first, second, carry);
        self.done(CpuRegisters { a: v, ..regs }, pc_to_increment, ccycles)
    }

    /// A with a value subtracted by the arithmetic unit, `carry` included.
    pub open spec fn sub_from_a(self, value: u8, carry: bool, pc_to_increment: i8, ccycles: u8) -> Self {
        let (v, regs) = sub_spec(self.registers, self.registers.a, value, carry);
        self.done(CpuRegisters { a: v, ..regs }, pc_to_increment, ccycles)
    }

    /// Adds a register and the carry to A.
    pub open spec fn adc_a_r_spec(self, r: ByteRegister) -> Self {
        self.add_to_a(self.registers.a, self.registers.byte(r), self.registers.flag_c, 1, 4)
    }

    /// Adds the byte at the address in HL and the carry to A.
    pub open spec fn adc_a_mhl_spec(self, memory: Seq<u8>) -> Self {
        self.add_to_a(self.registers.a, self.mhl(memory), self.registers.flag_c, 1, 8)
    }

    /// Adds the byte after the opcode and the carry to A.
    pub open spec fn adc_a_n_spec(self, memory: Seq<u8>) -> Self {
        self.add_to_a(self.registers.a, self.imm8(memory), self.registers.flag_c, 2, 8)
    }

    /// Adds a register to A.
    pub open spec fn add_a_r_spec(self, r: ByteRegister) -> Self {
        self.add_to_a(self.registers.a, self.registers.byte(r), false, 1, 4)
    }

    /// Adds the byte after the opcode to A.
    pub open spec fn add_a_n_spec(self, memory: Seq<u8>) -> Self {
        self.add_to_a(self.imm8(memory), self.registers.a, false, 2, 8)
    }

    /// Adds the byte at the address in HL to A.
    pub open spec fn add_a_mhl_spec(self, memory: Seq<u8>) -> Self {
        self.add_to_a(self.mhl(memory), self.registers.a, false, 1, 8)
    }

    /// Adds a word register to HL; Z is kept.
    pub open spec fn add_hl_rr_spec(self, rr: WordRegister) -> Self {
        let (v, regs) = add_nn_spec(self.registers, self.hl(), self.registers.word(rr));
        self.done(regs.with_word(WordRegister::HL, v), 1, 8)
    }

    /// Adds the signed byte after the opcode to SP.
    pub open spec fn add_sp_n_spec(self, memory: Seq<u8>) -> Self {
        let (v, regs) = add_nn_signed_spec(self.registers, self.registers.sp, (self.imm8(memory) as i8) as i16);
        self.done(regs.with_word(WordRegister::SP, v), 2, 16)
    }

    /// Subtracts the byte after the opcode from A.
    pub open spec fn sub_n_spec(self, memory: Seq<u8>) -> Self {
        self.sub_from_a(self.imm8(memory), false, 2, 8)
    }

    /// Subtracts a register from A.
    pub open spec fn sub_r_spec(self, r: ByteRegister) -> Self {
        self.sub_from_a(self.registers.byte(r), false, 1, 4)
    }

    /// Subtracts the byte at the address in HL from A.
    pub open spec fn sub_mhl_spec(self, memory: Seq<u8>) -> Self {
        self.sub_from_a(self.mhl(memory), false, 1, 8)
    }

    /// Subtracts a register and the carry from A.
    pub open spec fn sbc_r_spec(self, r: ByteRegister) -> Self {
        self.sub_from_a(self.registers.byte(r), self.registers.flag_c, 1, 4)
    }

    /// Subtracts the byte at the address in HL and the carry from A.
    pub open spec fn sbc_mhl_spec(self, memory: Seq<u8>) -> Self {
        self.sub_from_a(self.mhl(memory), self.registers.flag_c, 1, 8)
    }

    /// Subtracts the byte after the opcode and the carry from A.
    pub open spec fn sbc_a_n_spec(self, memory: Seq<u8>) -> Self {
        self.sub_from_a(self.imm8(memory), self.registers.flag_c, 2, 8)
    }

    /// Rotates A right through the carry; Z, N and H are cleared.
    pub open spec fn rra_spec(self) -> Self {
        let a = self.registers.a;
        self.done(
            CpuRegisters { a: rotated_right(a, self.registers.flag_c), ..self.registers }.with_flags(
                false,
                false,
                false,
                a % 2 == 1,
            ),
            1,
            4,
        )
    }

    /// A with `value` xored in; Z is set if the result is 0, the other flags cleared.
    pub open spec fn xor_into_a(self, value: u8, pc_to_increment: i8, ccycles: u8) -> Self {
        let result = value ^ self.registers.a;
        self.done(
            CpuRegisters { a: result, ..self.registers.with_flags(result == 0, false, false, false) },
            pc_to_increment,
            ccycles,
        )
    }

    /// Xors a register into A.
    pub open spec fn xor_r_spec(self, r: ByteRegister) -> Self {
        let result = self.registers.a ^ self.registers.byte(r);
        self.done(
            CpuRegisters { a: result, ..self.registers.with_flags(result == 0, false, false, false) },
            1,
            4,
        )
    }

    /// Xors the byte after the opcode into A.
    pub open spec fn xor_n_spec(self, memory: Seq<u8>) -> Self {
        self.xor_into_a(self.imm8(memory), 2, 8)
    }

    /// Xors the byte at the address in HL into A.
    pub open spec fn xor_mhl_spec(self, memory: Seq<u8>) -> Self {
        self.xor_into_a(self.mhl(memory), 1, 8)
    }

    /// A ored with `value` by the arithmetic unit.
    pub open spec fn or_into_a(self, value: u8, pc_to_increment: i8, ccycles: u8) -> Self {
        let (v, regs) = or_spec(self.registers, value, self.registers.a);
        self.done(CpuRegisters { a: v, ..regs }, pc_to_increment, ccycles)
    }

    /// A anded with `value` by the arithmetic unit.
    pub open spec fn and_into_a(self, value: u8, pc_to_increment: i8, ccycles: u8) -> Self {
        let (v, regs) = and_spec(self.registers, value, self.registers.a);
        self.done(CpuRegisters { a: v, ..regs }, pc_to_increment, ccycles)
    }

    /// Ors a register into A.
    pub open spec fn or_r_spec(self, r: ByteRegister) -> Self {
        self.or_into_a(self.registers.byte(r), 1, 4)
    }

    /// Ors the byte at the address in HL into A.
    pub open spec fn or_mhl_spec(self, memory: Seq<u8>) -> Self {
        self.or_into_a(self.mhl(memory), 1, 8)
    }

    /// Ors the byte after the opcode into A.
    pub open spec fn or_n_spec(self, memory: Seq<u8>) -> Self {
        self.or_into_a(self.imm8(memory), 2, 8)
    }

    /// Ands a register into A.
    pub open spec fn and_r_spec(self, r: ByteRegister) -> Self {
        self.and_into_a(self.registers.byte(r), 1, 4)
    }

    /// Ands the byte at the address in HL into A.
    pub open spec fn and_mhl_spec(self, memory: Seq<u8>) -> Self {
        self.and_into_a(self.mhl(memory), 1, 8)
    }

    /// Ands the byte after the opcode into A.
    pub open spec fn and_n_spec(self, memory: Seq<u8>) -> Self {
        self.and_into_a(self.imm8(memory), 2, 8)
    }

    /// Complements A; sets N and H.
    pub open spec fn cpl_spec(self) -> Self {
        self.done(
            CpuRegisters { a: !self.registers.a, flag_n: true, flag_h: true, ..self.registers },
            1,
            4,
        )
    }

    /// Sets the carry; clears N and H.
    pub open spec fn scf_spec(self) -> Self {
        self.done(CpuRegisters { flag_n: false, flag_h: false, flag_c: true, ..self.registers }, 1, 4)
    }

    /// Complements the carry; clears N and H.
    pub open spec fn ccf_spec(self) -> Self {
        self.done(
            CpuRegisters { flag_n: false, flag_h: false, flag_c: !self.registers.flag_c, ..self.registers },
            1,
            4,
        )
    }

    /// Compares A with a register.
    pub open spec fn cp_r_spec(self, r: ByteRegister) -> Self {
        self.done(cp_spec(self.registers, self.registers.byte(r)), 1, 4)
    }

    /// Compares A with the byte after the opcode.
    pub open spec fn cp_n_spec(self, memory: Seq<u8>) -> Self {
        self.done(cp_spec(self.registers, self.imm8(memory)), 2, 8)
    }

    /// Compares A with the byte at the address in HL.
    pub open spec fn cp_mhl_spec(self, memory: Seq<u8>) -> Self {
        self.done(cp_spec(self.registers, self.mhl(memory)), 1, 8)
    }

    /// Decimal adjustment of A after a BCD addition or subtraction.
    pub open spec fn daa_result(self) -> Self {
        let r = self.registers;
        let (a, c) = daa_spec(r.a, r.flag_n, r.flag_h, r.flag_c);
        self.done(CpuRegisters { a, flag_z: a == 0, flag_h: false, flag_c: c, ..r }, 1, 4)
    }

    // --- Loads --------------------------------------------------------------------------

    /// Loads the byte after the opcode into a register.
    pub open spec fn ld_r_n_spec(self, memory: Seq<u8>, r: ByteRegister) -> Self {
        self.done(self.registers.with_byte(r, self.imm8(memory)), 2, 8)
    }

    /// Copies one register into another.
    pub open spec fn ld_r_r_spec(self, to: ByteRegister, from: ByteRegister) -> Self {
        self.done(self.registers.with_byte(to, self.registers.byte(from)), 1, 4)
    }

    /// Loads SP plus the signed byte after the opcode into HL.
    pub open spec fn ld_hl_sp_n_spec(self, memory: Seq<u8>) -> Self {
        let (v, regs) = add_nn_signed_spec(self.registers, self.registers.sp, (self.imm8(memory) as i8) as i16);
        self.done(regs.with_word(WordRegister::HL, v), 2, 12)
    }

    /// Copies HL into SP.
    pub open spec fn ld_sp_hl_spec(self) -> Self {
        self.done(self.registers.with_word(WordRegister::SP, self.hl()), 1, 8)
    }

    /// Loads the byte at the address in a word register into a register.
    pub open spec fn ld_r_mrr_spec(self, memory: Seq<u8>, to: ByteRegister, from: WordRegister) -> Self {
        self.done(self.registers.with_byte(to, memory[self.registers.word(from) as int]), 1, 8)
    }

    /// Stores A at 0xFF00 plus the byte after the opcode.
    pub open spec fn ldh_n_a_spec(self, memory: Seq<u8>) -> (Self, Seq<u8>) {
        (self.done(self.registers, 2, 12), memory.update(0xFF00 + self.imm8(memory), self.registers.a))
    }

    /// Stores A at 0xFF00 plus C.
    pub open spec fn ld_mc_a_spec(self, memory: Seq<u8>) -> (Self, Seq<u8>) {
        (self.done(self.registers, 1, 8), memory.update(0xFF00 + self.registers.c, self.registers.a))
    }

    /// Loads the byte at 0xFF00 plus C into A.
    pub open spec fn ld_a_mc_spec(self, memory: Seq<u8>) -> Self {
        self.done(CpuRegisters { a: memory[0xFF00 + self.registers.c], ..self.registers }, 1, 8)
    }

    /// Loads the byte at 0xFF00 plus the byte after the opcode into A.
    pub open spec fn ldh_a_n_spec(self, memory: Seq<u8>) -> Self {
        self.done(CpuRegisters { a: memory[0xFF00 + self.imm8(memory)], ..self.registers }, 2, 12)
    }

    /// Stores A at the address after the opcode.
    pub open spec fn ld_nn_a_spec(self, memory: Seq<u8>) -> (Self, Seq<u8>) {
        (self.done(self.registers, 3, 16), memory.update(self.imm16(memory) as int, self.registers.a))
    }

    /// Loads the byte at the address after the opcode into A.
    pub open spec fn ld_a_nn_spec(self, memory: Seq<u8>) -> Self {
        self.done(CpuRegisters { a: memory[self.imm16(memory) as int], ..self.registers }, 3, 16)
    }

    /// Stores A at the address in HL, then decreases HL.
    pub open spec fn ldd_mhl_a_spec(self, memory: Seq<u8>) -> (Self, Seq<u8>) {
        (
            self.done(self.registers.with_word(WordRegister::HL, word_dec(self.hl())), 1, 8),
            memory.update(self.hl() as int, self.registers.a),
        )
    }

    /// Stores A at the address in HL, then increases HL.
    pub open spec fn ldi_mhl_a_spec(self, memory: Seq<u8>) -> (Self, Seq<u8>) {
        (
            self.done(self.registers.with_word(WordRegister::HL, word_inc(self.hl())), 1, 8),
            memory.update(self.hl() as int, self.registers.a),
        )
    }

    /// Stores a register at the address in a word register.
    pub open spec fn ld_mrr_r_spec(self, memory: Seq<u8>, to: WordRegister, from: ByteRegister) -> (Self, Seq<u8>) {
        (
            self.done(self.registers, 1, 8),
            memory.update(self.registers.word(to) as int, self.registers.byte(from)),
        )
    }

    /// Stores the byte after the opcode at the address in HL.
    pub open spec fn ld_mhl_n_spec(self, memory: Seq<u8>) -> (Self, Seq<u8>) {
        (self.done(self.registers, 2, 12), memory.update(self.hl() as int, self.imm8(memory)))
    }

    /// Loads the byte at the address in HL into A, then increases HL.
    pub open spec fn ldi_a_mhl_spec(self, memory: Seq<u8>) -> Self {
        self.done(
            CpuRegisters { a: self.mhl(memory), ..self.registers }.with_word(WordRegister::HL, word_inc(self.hl())),
            1,
            8,
        )
    }

    /// Loads the byte at the address in HL into A, then decreases HL.
    pub open spec fn ldd_a_mhl_spec(self, memory: Seq<u8>) -> Self {
        self.done(
            CpuRegisters { a: self.mhl(memory), ..self.registers }.with_word(WordRegister::HL, word_dec(self.hl())),
            1,
            8,
        )
    }

    /// Loads the word after the opcode into a word register.
    pub open spec fn ld_rr_nn_spec(self, memory: Seq<u8>, rr: WordRegister) -> Self {
        self.done(self.registers.with_word(rr, self.imm16(memory)), 3, 12)
    }

    /// Stores SP at the address after the opcode.
    pub open spec fn ld_mnn_sp_spec(self, memory: Seq<u8>) -> (Self, Seq<u8>) {
        (self.done(self.registers, 3, 20), with_word_at(memory, self.imm16(memory), self.registers.sp))
    }

    // --- Jumps, calls and returns -------------------------------------------------------

    /// Jumps by the signed byte after the opcode, counted from the next instruction.
    pub open spec fn jr_n_spec(self, memory: Seq<u8>) -> Self {
        self.done(
            CpuRegisters {
                pc: relative_target(self.registers.pc as int, ((self.imm8(memory) as i8) + 2) as i8),
                ..self.registers
            },
            0,
            12,
        )
    }

    /// Whether the relative jump's offset plus 2 stays a signed byte.
    pub open spec fn jr_n_allowed(self, memory: Seq<u8>) -> bool {
        self.pc_fits(1) && (self.imm8(memory) as i8) + 2 <= 127
    }

    /// Jumps by the signed byte after the opcode if `condition` holds; otherwise goes on
    /// to the next instruction.
    pub open spec fn jr_if(self, memory: Seq<u8>, condition: bool) -> Self {
        let next = (self.registers.pc + 2) as u16;
        if condition {
            self.done(
                CpuRegisters { pc: relative_target(next as int, self.imm8(memory) as i8), ..self.registers },
                0,
                12,
            )
        } else {
            self.done(CpuRegisters { pc: next, ..self.registers }, 0, 8)
        }
    }

    /// Whether a conditional relative jump stays within the 16-bit signed range.
    pub open spec fn jr_if_allowed(self, memory: Seq<u8>, condition: bool) -> bool {
        &&& self.pc_fits(2)
        &&& condition ==> crate::cpu::semantics::relative_jump_in_range(
            (self.registers.pc + 2) as u16,
            self.imm8(memory) as i8,
        )
    }

    /// Jumps to the address after the opcode.
    pub open spec fn jp_nn_spec(self, memory: Seq<u8>) -> Self {
        self.done(CpuRegisters { pc: self.imm16(memory), ..self.registers }, 0, 16)
    }

    /// Jumps to the address in HL.
    pub open spec fn jp_mhl_spec(self) -> Self {
        self.done(CpuRegisters { pc: self.hl(), ..self.registers }, 0, 4)
    }

    /// Jumps to the address after the opcode if `condition` holds; otherwise goes on to
    /// the next instruction.
    pub open spec fn jp_if(self, memory: Seq<u8>, condition: bool) -> Self {
        if condition {
            self.done(CpuRegisters { pc: self.imm16(memory), ..self.registers }, 0, 16)
        } else {
            self.done(CpuRegisters { pc: (self.registers.pc + 3) as u16, ..self.registers }, 0, 12)
        }
    }

    /// Pushes the address of the next instruction and jumps to the address after the
    /// opcode, read once the push is done.
    pub open spec fn call_spec(self, memory: Seq<u8>) -> (Self, Seq<u8>) {
        let pushed_memory = stacked(memory, self.registers.sp, (self.registers.pc + 3) as u16);
        (
            self.done(
                CpuRegisters {
                    sp: below(self.registers.sp),
                    pc: immediate_word(pushed_memory, self.registers.pc),
                    ..self.registers
                },
                0,
                24,
            ),
            pushed_memory,
        )
    }

    /// Calls the address after the opcode if `condition` holds; otherwise goes on to the
    /// next instruction.
    pub open spec fn call_if(self, memory: Seq<u8>, condition: bool) -> (Self, Seq<u8>) {
        if condition {
            self.call_spec(memory)
        } else {
            (self.done(self.registers, 3, 12), memory)
        }
    }

    /// Pops the return address into the program counter.
    pub open spec fn ret_spec(self, memory: Seq<u8>) -> Self {
        self.done(
            CpuRegisters {
                pc: top_of_stack(memory, self.registers.sp),
                sp: above(self.registers.sp),
                ..self.registers
            },
            0,
            16,
        )
    }

    /// Returns and enables interrupts.
    pub open spec fn reti_spec(self, memory: Seq<u8>) -> Self {
        Cpu { ime: true, ..self.ret_spec(memory) }
    }

    /// Returns if `condition` holds; otherwise goes on to the next instruction.
    pub open spec fn ret_if(self, memory: Seq<u8>, condition: bool) -> Self {
        if condition {
            self.done(
                CpuRegisters {
                    pc: top_of_stack(memory, self.registers.sp),
                    sp: above(self.registers.sp),
                    ..self.registers
                },
                0,
                20,
            )
        } else {
            self.done(CpuRegisters { pc: (self.registers.pc + 1) as u16, ..self.registers }, 0, 8)
        }
    }

    /// Pushes the address of the next instruction and jumps to `target`.
    pub open spec fn rst_spec(self, memory: Seq<u8>, target: u8) -> (Self, Seq<u8>) {
        (
            self.done(
                CpuRegisters { sp: below(self.registers.sp), pc: target as u16, ..self.registers },
                0,
                16,
            ),
            stacked(memory, self.registers.sp, (self.registers.pc + 1) as u16),
        )
    }

    /// Pushes a word register.
    pub open spec fn push_rr_spec(self, memory: Seq<u8>, rr: WordRegister) -> (Self, Seq<u8>) {
        (
            self.done(CpuRegisters { sp: below(self.registers.sp), ..self.registers }, 1, 16),
            stacked(memory, self.registers.sp, self.registers.word(rr)),
        )
    }

    /// Pops the word on top of the stack into a word register.
    pub open spec fn pop_rr_spec(self, memory: Seq<u8>, rr: WordRegister) -> Self {
        self.done(
            CpuRegisters { sp: above(self.registers.sp), ..self.registers }.with_word(
                rr,
                top_of_stack(memory, self.registers.sp),
            ),
            1,
            12,
        )
    }

    /// Enters an interrupt handler: interrupts are disabled, the program counter pushed
    /// and `address` jumped to.
    pub open spec fn interrupt_spec(self, memory: Seq<u8>, address: u16) -> (Self, Seq<u8>) {
        (
            Cpu {
                ime: false,
                registers: CpuRegisters { sp: below(self.registers.sp), pc: address, ..self.registers },
                ..self
            },
            stacked(memory, self.registers.sp, self.registers.pc),
        )
    }

    // --- Rotations, shifts and bits -----------------------------------------------------

    /// The flags after a rotation or shift whose result is `value` and whose carry out is
    /// `carry`.
    pub open spec fn shift_flags(self, value: u8, carry: bool) -> CpuRegisters {
        self.registers.with_flags(value == 0, false, false, carry)
    }

    /// Rotates a register right through the carry.
    pub open spec fn rr_r_spec(self, r: ByteRegister) -> Self {
        let v = self.registers.byte(r);
        let result = rotated_right(v, self.registers.flag_c);
        self.done(self.shift_flags(result, v % 2 == 1).with_byte(r, result), 2, 8)
    }

    /// Rotates the byte at the address in HL right through the carry.
    pub open spec fn rr_mhl_spec(self, memory: Seq<u8>) -> (Self, Seq<u8>) {
        let v = self.mhl(memory);
        let result = rotated_right(v, self.registers.flag_c);
        (self.done(self.shift_flags(result, v % 2 == 1), 2, 16), memory.update(self.hl() as int, result))
    }

    /// Rotates a register left through the carry.
    pub open spec fn rl_r_spec(self, r: ByteRegister) -> Self {
        let v = self.registers.byte(r);
        let result = rotated_left(v, self.registers.flag_c);
        self.done(
            self.registers.with_byte(r, result).with_flags(result == 0, false, false, v >= 128),
            2,
            8,
        )
    }

    /// Rotates the byte at the address in HL left through the carry.
    pub open spec fn rl_mhl_spec(self, memory: Seq<u8>) -> (Self, Seq<u8>) {
        let v = self.mhl(memory);
        let result = rotated_left(v, self.registers.flag_c);
        (self.done(self.shift_flags(result, v >= 128), 2, 16), memory.update(self.hl() as int, result))
    }

    /// Rotates A left through the carry; Z, N and H are cleared.
    pub open spec fn rla_spec(self) -> Self {
        let a = self.registers.a;
        self.done(
            CpuRegisters { a: rotated_left(a, self.registers.flag_c), ..self.registers }.with_flags(
                false,
                false,
                false,
                a >= 128,
            ),
            1,
            4,
        )
    }

    /// Rotates a register left; bit 7 goes to the carry and to bit 0.
    pub open spec fn rlc_r_spec(self, r: ByteRegister) -> Self {
        let v = self.registers.byte(r);
        let result = rotated_left(v, v >= 128);
        self.done(self.shift_flags(result, v >= 128).with_byte(r, result), 2, 8)
    }

    /// Rotates the byte at the address in a word register left.
    pub open spec fn rlc_mrr_spec(self, memory: Seq<u8>, rr: WordRegister) -> (Self, Seq<u8>) {
        let address = self.registers.word(rr);
        let v = memory[address as int];
        let result = rotated_left(v, v >= 128);
        (self.done(self.shift_flags(result, v >= 128), 2, 16), memory.update(address as int, result))
    }

    /// Rotates A left; bit 7 goes to the carry and to bit 0; Z, N and H are cleared.
    pub open spec fn rlca_spec(self) -> Self {
        let a = self.registers.a;
        self.done(
            CpuRegisters { a: rotated_left(a, a >= 128), ..self.registers.with_flags(false, false, false, a >= 128) },
            1,
            4,
        )
    }

    /// Rotates a register right; bit 0 goes to the carry and to bit 7. Z reflects the
    /// result only for the prefixed form (`set_zero`), which is also two bytes long.
    pub open spec fn rrc_r_spec(self, r: ByteRegister, set_zero: bool) -> Self {
        let v = self.registers.byte(r);
        let result = rotated_right(v, v % 2 == 1);
        self.done(
            self.registers.with_flags(set_zero && result == 0, false, false, v % 2 == 1).with_byte(r, result),
            if set_zero { 2 } else { 1 },
            if set_zero { 8 } else { 4 },
        )
    }

    /// Rotates the byte at the address in HL right; bit 0 goes to the carry and to bit 7.
    pub open spec fn rrc_mhl_spec(self, memory: Seq<u8>) -> (Self, Seq<u8>) {
        let v = self.mhl(memory);
        let result = rotated_right(v, v % 2 == 1);
        (self.done(self.shift_flags(result, v % 2 == 1), 2, 16), memory.update(self.hl() as int, result))
    }

    /// Shifts a register right; bit 0 goes to the carry, bit 7 becomes 0.
    pub open spec fn srl_r_spec(self, r: ByteRegister) -> Self {
        let v = self.registers.byte(r);
        let result = (v / 2) as u8;
        self.done(self.registers.with_byte(r, result).with_flags(result == 0, false, false, v % 2 == 1), 2, 8)
    }

    /// Shifts the byte at the address in HL right; bit 7 becomes 0.
    pub open spec fn srl_mhl_spec(self, memory: Seq<u8>) -> (Self, Seq<u8>) {
        let v = self.mhl(memory);
        let result = (v / 2) as u8;
        (self.done(self.shift_flags(result, v % 2 == 1), 2, 16), memory.update(self.hl() as int, result))
    }

    /// Shifts a register left; bit 7 goes to the carry, bit 0 becomes 0.
    pub open spec fn sla_r_spec(self, r: ByteRegister) -> Self {
        let v = self.registers.byte(r);
        let result = ((v as int * 2) % 256) as u8;
        self.done(self.registers.with_byte(r, result).with_flags(result == 0, false, false, v >= 128), 2, 8)
    }

    /// Shifts the byte at the address in HL left; bit 0 becomes 0.
    pub open spec fn sla_mhl_spec(self, memory: Seq<u8>) -> (Self, Seq<u8>) {
        let v = self.mhl(memory);
        let result = ((v as int * 2) % 256) as u8;
        (self.done(self.shift_flags(result, v >= 128), 2, 16), memory.update(self.hl() as int, result))
    }

    /// Shifts a register right keeping bit 7; bit 0 goes to the carry.
    pub open spec fn sra_r_spec(self, r: ByteRegister) -> Self {
        let v = self.registers.byte(r);
        let result = shifted_right_keeping_top(v);
        self.done(self.registers.with_byte(r, result).with_flags(result == 0, false, false, v % 2 == 1), 2, 8)
    }

    /// Shifts the byte at the address in HL right keeping bit 7.
    pub open spec fn sra_mhl_spec(self, memory: Seq<u8>) -> (Self, Seq<u8>) {
        let v = self.mhl(memory);
        let result = shifted_right_keeping_top(v);
        (self.done(self.shift_flags(result, v % 2 == 1), 2, 16), memory.update(self.hl() as int, result))
    }

    /// Swaps the nibbles of a register.
    pub open spec fn swap_r_spec(self, r: ByteRegister) -> Self {
        let (v, regs) = swap_spec(self.registers, self.registers.byte(r));
        self.done(regs.with_byte(r, v), 2, 8)
    }

    /// Swaps the nibbles of the byte at the address in HL.
    pub open spec fn swap_mhl_spec(self, memory: Seq<u8>) -> (Self, Seq<u8>) {
        let (v, regs) = swap_spec(self.registers, self.mhl(memory));
        (self.done(regs, 2, 16), memory.update(self.hl() as int, v))
    }

    /// Clears a bit of a register.
    pub open spec fn res_v_r_spec(self, bit: u8, r: ByteRegister) -> Self {
        self.done(self.registers.with_byte(r, bit_cleared(self.registers.byte(r), bit)), 2, 8)
    }

    /// Clears a bit of the byte at the address in HL.
    pub open spec fn res_v_mhl_spec(self, memory: Seq<u8>, bit: u8) -> (Self, Seq<u8>) {
        (self.done(self.registers, 2, 16), memory.update(self.hl() as int, bit_cleared(self.mhl(memory), bit)))
    }

    /// Sets a bit of a register.
    pub open spec fn set_v_r_spec(self, bit: u8, r: ByteRegister) -> Self {
        self.done(self.registers.with_byte(r, bit_raised(self.registers.byte(r), bit)), 2, 8)
    }

    /// Sets a bit of the byte at the address in HL.
    pub open spec fn set_v_mhl_spec(self, memory: Seq<u8>, bit: u8) -> (Self, Seq<u8>) {
        (self.done(self.registers, 2, 16), memory.update(self.hl() as int, bit_raised(self.mhl(memory), bit)))
    }

    /// Tests a bit of `value`: Z is set if it is clear, N cleared, H set, C kept.
    pub open spec fn bit_test(self, value: u8, bit: u8, ccycles: u8) -> Self {
        self.done(
            CpuRegisters {
                flag_z: !crate::math::bit_set(value, bit),
                flag_n: false,
                flag_h: true,
                ..self.registers
            },
            2,
            ccycles,
        )
    }

    // --- Control ------------------------------------------------------------------------

    /// Disables interrupts.
    pub open spec fn di_spec(self) -> Self {
        Cpu { ime: false, ..self.done(self.registers, 1, 4) }
    }

    /// Enables interrupts.
    pub open spec fn ei_spec(self) -> Self {
        Cpu { ime: true, ..self.done(self.registers, 1, 4) }
    }

    /// Stops the processor: here, skips the two-byte instruction.
    pub open spec fn stop_spec(self) -> Self {
        self.done(self.registers, 2, 4)
    }

    /// Halts until the next interrupt; with interrupts disabled the next byte is skipped.
    pub open spec fn halt_spec(self) -> Self {
        Cpu { halted: true, ..self.done(self.registers, if self.ime { 1 } else { 2 }, 4) }
    }

    // --- Interrupts ---------------------------------------------------------------------

    /// Serves the interrupt whose flag is bit `bit` at `address` if interrupts are
    /// enabled; the halt state ends either way.
    pub open spec fn serve_interrupt(self, memory: Seq<u8>, bit: u8, address: u16) -> (Self, Seq<u8>) {
        let (c, m) = if self.ime {
            self.interrupt_spec(interrupt_acknowledged(memory, bit), address)
        } else {
            (self, memory)
        };
        (Cpu { halted: false, ..c }, m)
    }

    /// The vertical blank interrupt, at 0x40.
    pub open spec fn vblank_interrupt_spec(self, memory: Seq<u8>) -> (Self, Seq<u8>) {
        self.serve_interrupt(memory, 0, 0x40)
    }

    /// The LCD status interrupt, at 0x48: its flag is cleared whenever interrupts are
    /// enabled, but it is entered only while the display is on (bit 7 of LCDC).
    pub open spec fn lcd_stat_interrupt_spec(self, memory: Seq<u8>) -> (Self, Seq<u8>) {
        let acknowledged = interrupt_acknowledged(memory, 1);
        let (c, m) = if !self.ime {
            (self, memory)
        } else if crate::math::bit_set(acknowledged[0xFF40], 7) {
            self.interrupt_spec(acknowledged, 0x48)
        } else {
            (self, acknowledged)
        };
        (Cpu { halted: false, ..c }, m)
    }

    /// The timer overflow interrupt, at 0x50.
    pub open spec fn timer_overflow_interrupt_spec(self, memory: Seq<u8>) -> (Self, Seq<u8>) {
        self.serve_interrupt(memory, 2, 0x50)
    }

    /// The joypad interrupt, at 0x60.
    pub open spec fn p10_p13_transition_interrupt_spec(self, memory: Seq<u8>) -> (Self, Seq<u8>) {
        self.serve_interrupt(memory, 4, 0x60)
    }

    // --- Execution ----------------------------------------------------------------------

    /// The 0xCB-prefixed instruction whose opcode follows the prefix: the opcode's top
    /// five bits pick the operation (and the bit tested, cleared or set), its low three
    /// bits the register, 6 standing for the byte at the address in HL.
    pub open spec fn cb_spec(self, memory: Seq<u8>) -> (Self, Seq<u8>) {
        let op = memory[self.registers.pc + 1];
        let r = cb_register(op % 8);
        let on_memory = op % 8 == 6;
        let group = op / 8;
        if group == 0 {
            if on_memory { self.rlc_mrr_spec(memory, WordRegister::HL) } else { (self.rlc_r_spec(r), memory) }
        } else if group == 1 {
            if on_memory { self.rrc_mhl_spec(memory) } else { (self.rrc_r_spec(r, true), memory) }
        } else if group == 2 {
            if on_memory { self.rl_mhl_spec(memory) } else { (self.rl_r_spec(r), memory) }
        } else if group == 3 {
            if on_memory { self.rr_mhl_spec(memory) } else { (self.rr_r_spec(r), memory) }
        } else if group == 4 {
            if on_memory { self.sla_mhl_spec(memory) } else { (self.sla_r_spec(r), memory) }
        } else if group == 5 {
            if on_memory { self.sra_mhl_spec(memory) } else { (self.sra_r_spec(r), memory) }
        } else if group == 6 {
            if on_memory { self.swap_mhl_spec(memory) } else { (self.swap_r_spec(r), memory) }
        } else if group == 7 {
            if on_memory { self.srl_mhl_spec(memory) } else { (self.srl_r_spec(r), memory) }
        } else if group < 16 {
            let bit = (group - 8) as u8;
            if on_memory {
                (self.bit_test(self.mhl(memory), bit, 12), memory)
            } else {
                (self.bit_test(self.registers.byte(r), bit, 8), memory)
            }
        } else if group < 24 {
            let bit = (group - 16) as u8;
            if on_memory { self.res_v_mhl_spec(memory, bit) } else { (self.res_v_r_spec(bit, r), memory) }
        } else {
            let bit = (group - 24) as u8;
            if on_memory { self.set_v_mhl_spec(memory, bit) } else { (self.set_v_r_spec(bit, r), memory) }
        }
    }

    /// The instruction at the program counter, executed, before the program counter moves on.
    pub open spec fn execute_spec(self, memory: Seq<u8>) -> (Self, Seq<u8>) {
        let opcode = memory[self.registers.pc as int];
        if opcode < 0x40 {
            self.execute_00_3f_spec(memory, opcode)
        } else if opcode < 0x80 {
            self.execute_40_7f_spec(memory, opcode)
        } else if opcode < 0xC0 {
            self.execute_80_bf_spec(memory, opcode)
        } else {
            self.execute_c0_ff_spec(memory, opcode)
        }
    }

    /// Whether the instruction at the program counter runs without overflow.
    pub open spec fn execute_allowed(self, memory: Seq<u8>) -> bool {
        let opcode = memory[self.registers.pc as int];
        if opcode < 0x40 {
            self.allowed_00_3f(memory, opcode)
        } else if opcode < 0x80 {
            self.allowed_40_7f(memory, opcode)
        } else if opcode < 0xC0 {
            self.allowed_80_bf(memory, opcode)
        } else {
            self.allowed_c0_ff(memory, opcode)
        }
    }

    /// The instructions whose opcodes are in 0x00 to 0x3F.
    pub open spec fn execute_00_3f_spec(self, memory: Seq<u8>, opcode: u8) -> (Self, Seq<u8>) {
        if opcode == 0x00 {
            (self.nop_spec(), memory)
        } else if opcode == 0x01 {
            (self.ld_rr_nn_spec(memory, WordRegister::BC), memory)
        } else if opcode == 0x02 {
            self.ld_mrr_r_spec(memory, WordRegister::BC, ByteRegister::A)
        } else if opcode == 0x03 {
            (self.inc_rr_spec(WordRegister::BC), memory)
        } else if opcode == 0x04 {
            (self.inc_r_spec(ByteRegister::B), memory)
        } else if opcode == 0x05 {
            (self.dec_r_spec(ByteRegister::B), memory)
        } else if opcode == 0x06 {
            (self.ld_r_n_spec(memory, ByteRegister::B), memory)
        } else if opcode == 0x07 {
            (self.rlca_spec(), memory)
        } else if opcode == 0x08 {
            self.ld_mnn_sp_spec(memory)
        } else if opcode == 0x09 {
            (self.add_hl_rr_spec(WordRegister::BC), memory)
        } else if opcode == 0x0A {
            (self.ld_r_mrr_spec(memory, ByteRegister::A, WordRegister::BC), memory)
        } else if opcode == 0x0B {
            (self.dec_rr_spec(WordRegister::BC), memory)
        } else if opcode == 0x0C {
            (self.inc_r_spec(ByteRegister::C), memory)
        } else if opcode == 0x0D {
            (self.dec_r_spec(ByteRegister::C), memory)
        } else if opcode == 0x0E {
            (self.ld_r_n_spec(memory, ByteRegister::C), memory)
        } else if opcode == 0x0F {
            (self.rrc_r_spec(ByteRegister::A, false), memory)
        } else if opcode == 0x10 {
            (self.stop_spec(), memory)
        } else if opcode == 0x11 {
            (self.ld_rr_nn_spec(memory, WordRegister::DE), memory)
        } else if opcode == 0x12 {
            self.ld_mrr_r_spec(memory, WordRegister::DE, ByteRegister::A)
        } else if opcode == 0x13 {
            (self.inc_rr_spec(WordRegister::DE), memory)
        } else if opcode == 0x14 {
            (self.inc_r_spec(ByteRegister::D), memory)
        } else if opcode == 0x15 {
            (self.dec_r_spec(ByteRegister::D), memory)
        } else if opcode == 0x16 {
            (self.ld_r_n_spec(memory, ByteRegister::D), memory)
        } else if opcode == 0x17 {
            (self.rla_spec(), memory)
        } else if opcode == 0x18 {
            (self.jr_n_spec(memory), memory)
        } else if opcode == 0x19 {
            (self.add_hl_rr_spec(WordRegister::DE), memory)
        } else if opcode == 0x1A {
            (self.ld_r_mrr_spec(memory, ByteRegister::A, WordRegister::DE), memory)
        } else if opcode == 0x1B {
            (self.dec_rr_spec(WordRegister::DE), memory)
        } else if opcode == 0x1C {
            (self.inc_r_spec(ByteRegister::E), memory)
        } else if opcode == 0x1D {
            (self.dec_r_spec(ByteRegister::E), memory)
        } else if opcode == 0x1E {
            (self.ld_r_n_spec(memory, ByteRegister::E), memory)
        } else if opcode == 0x1F {
            (self.rra_spec(), memory)
        } else if opcode == 0x20 {
            (self.jr_if(memory, !self.registers.flag_z), memory)
        } else if opcode == 0x21 {
            (self.ld_rr_nn_spec(memory, WordRegister::HL), memory)
        } else if opcode == 0x22 {
            self.ldi_mhl_a_spec(memory)
        } else if opcode == 0x23 {
            (self.inc_rr_spec(WordRegister::HL), memory)
        } else if opcode == 0x24 {
            (self.inc_r_spec(ByteRegister::H), memory)
        } else if opcode == 0x25 {
            (self.dec_r_spec(ByteRegister::H), memory)
        } else if opcode == 0x26 {
            (self.ld_r_n_spec(memory, ByteRegister::H), memory)
        } else if opcode == 0x27 {
            (self.daa_result(), memory)
        } else if opcode == 0x28 {
            (self.jr_if(memory, self.registers.flag_z), memory)
        } else if opcode == 0x29 {
            (self.add_hl_rr_spec(WordRegister::HL), memory)
        } else if opcode == 0x2A {
            (self.ldi_a_mhl_spec(memory), memory)
        } else if opcode == 0x2B {
            (self.dec_rr_spec(WordRegister::HL), memory)
        } else if opcode == 0x2C {
            (self.inc_r_spec(ByteRegister::L), memory)
        } else if opcode == 0x2D {
            (self.dec_r_spec(ByteRegister::L), memory)
        } else if opcode == 0x2E {
            (self.ld_r_n_spec(memory, ByteRegister::L), memory)
        } else if opcode == 0x2F {
            (self.cpl_spec(), memory)
        } else if opcode == 0x30 {
            (self.jr_if(memory, !self.registers.flag_c), memory)
        } else if opcode == 0x31 {
            (self.ld_rr_nn_spec(memory, WordRegister::SP), memory)
        } else if opcode == 0x32 {
            self.ldd_mhl_a_spec(memory)
        } else if opcode == 0x33 {
            (self.inc_rr_spec(WordRegister::SP), memory)
        } else if opcode == 0x34 {
            self.inc_mhl_spec(memory)
        } else if opcode == 0x35 {
            self.dec_mhl_spec(memory)
        } else if opcode == 0x36 {
            self.ld_mhl_n_spec(memory)
        } else if opcode == 0x37 {
            (self.scf_spec(), memory)
        } else if opcode == 0x38 {
            (self.jr_if(memory, self.registers.flag_c), memory)
        } else if opcode == 0x39 {
            (self.add_hl_rr_spec(WordRegister::SP), memory)
        } else if opcode == 0x3A {
            (self.ldd_a_mhl_spec(memory), memory)
        } else if opcode == 0x3B {
            (self.dec_rr_spec(WordRegister::SP), memory)
        } else if opcode == 0x3C {
            (self.inc_r_spec(ByteRegister::A), memory)
        } else if opcode == 0x3D {
            (self.dec_r_spec(ByteRegister::A), memory)
        } else if opcode == 0x3E {
            (self.ld_r_n_spec(memory, ByteRegister::A), memory)
        } else if opcode == 0x3F {
            (self.ccf_spec(), memory)
        } else {
            (self, memory)
        }
    }

    /// Whether an instruction whose opcode is in 0x00 to 0x3F runs without overflow.
    pub open spec fn allowed_00_3f(self, memory: Seq<u8>, opcode: u8) -> bool {
        if opcode == 0x00 {
            true
        } else if opcode == 0x01 {
            self.pc_fits(1)
        } else if opcode == 0x02 {
            true
        } else if opcode == 0x03 {
            true
        } else if opcode == 0x04 {
            true
        } else if opcode == 0x05 {
            true
        } else if opcode == 0x06 {
            self.pc_fits(1)
        } else if opcode == 0x07 {
            true
        } else if opcode == 0x08 {
            self.pc_fits(1)
        } else if opcode == 0x09 {
            true
        } else if opcode == 0x0A {
            true
        } else if opcode == 0x0B {
            true
        } else if opcode == 0x0C {
            true
        } else if opcode == 0x0D {
            true
        } else if opcode == 0x0E {
            self.pc_fits(1)
        } else if opcode == 0x0F {
            true
        } else if opcode == 0x10 {
            true
        } else if opcode == 0x11 {
            self.pc_fits(1)
        } else if opcode == 0x12 {
            true
        } else if opcode == 0x13 {
            true
        } else if opcode == 0x14 {
            true
        } else if opcode == 0x15 {
            true
        } else if opcode == 0x16 {
            self.pc_fits(1)
        } else if opcode == 0x17 {
            true
        } else if opcode == 0x18 {
            self.jr_n_allowed(memory)
        } else if opcode == 0x19 {
            true
        } else if opcode == 0x1A {
            true
        } else if opcode == 0x1B {
            true
        } else if opcode == 0x1C {
            true
        } else if opcode == 0x1D {
            true
        } else if opcode == 0x1E {
            self.pc_fits(1)
        } else if opcode == 0x1F {
            true
        } else if opcode == 0x20 {
            self.jr_if_allowed(memory, !self.registers.flag_z)
        } else if opcode == 0x21 {
            self.pc_fits(1)
        } else if opcode == 0x22 {
            true
        } else if opcode == 0x23 {
            true
        } else if opcode == 0x24 {
            true
        } else if opcode == 0x25 {
            true
        } else if opcode == 0x26 {
            self.pc_fits(1)
        } else if opcode == 0x27 {
            true
        } else if opcode == 0x28 {
            self.jr_if_allowed(memory, self.registers.flag_z)
        } else if opcode == 0x29 {
            true
        } else if opcode == 0x2A {
            true
        } else if opcode == 0x2B {
            true
        } else if opcode == 0x2C {
            true
        } else if opcode == 0x2D {
            true
        } else if opcode == 0x2E {
            self.pc_fits(1)
        } else if opcode == 0x2F {
            true
        } else if opcode == 0x30 {
            self.jr_if_allowed(memory, !self.registers.flag_c)
        } else if opcode == 0x31 {
            self.pc_fits(1)
        } else if opcode == 0x32 {
            true
        } else if opcode == 0x33 {
            true
        } else if opcode == 0x34 {
            true
        } else if opcode == 0x35 {
            true
        } else if opcode == 0x36 {
            self.pc_fits(1)
        } else if opcode == 0x37 {
            true
        } else if opcode == 0x38 {
            self.jr_if_allowed(memory, self.registers.flag_c)
        } else if opcode == 0x39 {
            true
        } else if opcode == 0x3A {
            true
        } else if opcode == 0x3B {
            true
        } else if opcode == 0x3C {
            true
        } else if opcode == 0x3D {
            true
        } else if opcode == 0x3E {
            self.pc_fits(1)
        } else if opcode == 0x3F {
            true
        } else {
            false
        }
    }

    /// The instructions whose opcodes are in 0x40 to 0x7F.
    pub open spec fn execute_40_7f_spec(self, memory: Seq<u8>, opcode: u8) -> (Self, Seq<u8>) {
        if opcode == 0x40 {
            (self.ld_r_r_spec(ByteRegister::B, ByteRegister::B), memory)
        } else if opcode == 0x41 {
            (self.ld_r_r_spec(ByteRegister::B, ByteRegister::C), memory)
        } else if opcode == 0x42 {
            (self.ld_r_r_spec(ByteRegister::B, ByteRegister::D), memory)
        } else if opcode == 0x43 {
            (self.ld_r_r_spec(ByteRegister::B, ByteRegister::E), memory)
        } else if opcode == 0x44 {
            (self.ld_r_r_spec(ByteRegister::B, ByteRegister::H), memory)
        } else if opcode == 0x45 {
            (self.ld_r_r_spec(ByteRegister::B, ByteRegister::L), memory)
        } else if opcode == 0x46 {
            (self.ld_r_mrr_spec(memory, ByteRegister::B, WordRegister::HL), memory)
        } else if opcode == 0x47 {
            (self.ld_r_r_spec(ByteRegister::B, ByteRegister::A), memory)
        } else if opcode == 0x48 {
            (self.ld_r_r_spec(ByteRegister::C, ByteRegister::B), memory)
        } else if opcode == 0x49 {
            (self.ld_r_r_spec(ByteRegister::C, ByteRegister::C), memory)
        } else if opcode == 0x4A {
            (self.ld_r_r_spec(ByteRegister::C, ByteRegister::D), memory)
        } else if opcode == 0x4B {
            (self.ld_r_r_spec(ByteRegister::C, ByteRegister::E), memory)
        } else if opcode == 0x4C {
            (self.ld_r_r_spec(ByteRegister::C, ByteRegister::H), memory)
        } else if opcode == 0x4D {
            (self.ld_r_r_spec(ByteRegister::C, ByteRegister::L), memory)
        } else if opcode == 0x4E {
            (self.ld_r_mrr_spec(memory, ByteRegister::C, WordRegister::HL), memory)
        } else if opcode == 0x4F {
            (self.ld_r_r_spec(ByteRegister::C, ByteRegister::A), memory)
        } else if opcode == 0x50 {
            (self.ld_r_r_spec(ByteRegister::D, ByteRegister::B), memory)
        } else if opcode == 0x51 {
            (self.ld_r_r_spec(ByteRegister::D, ByteRegister::C), memory)
        } else if opcode == 0x52 {
            (self.ld_r_r_spec(ByteRegister::D, ByteRegister::D), memory)
        } else if opcode == 0x53 {
            (self.ld_r_r_spec(ByteRegister::D, ByteRegister::E), memory)
        } else if opcode == 0x54 {
            (self.ld_r_r_spec(ByteRegister::D, ByteRegister::H), memory)
        } else if opcode == 0x55 {
            (self.ld_r_r_spec(ByteRegister::D, ByteRegister::L), memory)
        } else if opcode == 0x56 {
            (self.ld_r_mrr_spec(memory, ByteRegister::D, WordRegister::HL), memory)
        } else if opcode == 0x57 {
            (self.ld_r_r_spec(ByteRegister::D, ByteRegister::A), memory)
        } else if opcode == 0x58 {
            (self.ld_r_r_spec(ByteRegister::E, ByteRegister::B), memory)
        } else if opcode == 0x59 {
            (self.ld_r_r_spec(ByteRegister::E, ByteRegister::C), memory)
        } else if opcode == 0x5A {
            (self.ld_r_r_spec(ByteRegister::E, ByteRegister::D), memory)
        } else if opcode == 0x5B {
            (self.ld_r_r_spec(ByteRegister::E, ByteRegister::E), memory)
        } else if opcode == 0x5C {
            (self.ld_r_r_spec(ByteRegister::E, ByteRegister::H), memory)
        } else if opcode == 0x5D {
            (self.ld_r_r_spec(ByteRegister::E, ByteRegister::L), memory)
        } else if opcode == 0x5E {
            (self.ld_r_mrr_spec(memory, ByteRegister::E, WordRegister::HL), memory)
        } else if opcode == 0x5F {
            (self.ld_r_r_spec(ByteRegister::E, ByteRegister::A), memory)
        } else if opcode == 0x60 {
            (self.ld_r_r_spec(ByteRegister::H, ByteRegister::B), memory)
        } else if opcode == 0x61 {
            (self.ld_r_r_spec(ByteRegister::H, ByteRegister::C), memory)
        } else if opcode == 0x62 {
            (self.ld_r_r_spec(ByteRegister::H, ByteRegister::D), memory)
        } else if opcode == 0x63 {
            (self.ld_r_r_spec(ByteRegister::H, ByteRegister::E), memory)
        } else if opcode == 0x64 {
            (self.ld_r_r_spec(ByteRegister::H, ByteRegister::H), memory)
        } else if opcode == 0x65 {
            (self.ld_r_r_spec(ByteRegister::H, ByteRegister::L), memory)
        } else if opcode == 0x66 {
            (self.ld_r_mrr_spec(memory, ByteRegister::H, WordRegister::HL), memory)
        } else if opcode == 0x67 {
            (self.ld_r_r_spec(ByteRegister::H, ByteRegister::A), memory)
        } else if opcode == 0x68 {
            (self.ld_r_r_spec(ByteRegister::L, ByteRegister::B), memory)
        } else if opcode == 0x69 {
            (self.ld_r_r_spec(ByteRegister::L, ByteRegister::C), memory)
        } else if opcode == 0x6A {
            (self.ld_r_r_spec(ByteRegister::L, ByteRegister::D), memory)
        } else if opcode == 0x6B {
            (self.ld_r_r_spec(ByteRegister::L, ByteRegister::E), memory)
        } else if opcode == 0x6C {
            (self.ld_r_r_spec(ByteRegister::L, ByteRegister::H), memory)
        } else if opcode == 0x6D {
            (self.ld_r_r_spec(ByteRegister::L, ByteRegister::L), memory)
        } else if opcode == 0x6E {
            (self.ld_r_mrr_spec(memory, ByteRegister::L, WordRegister::HL), memory)
        } else if opcode == 0x6F {
            (self.ld_r_r_spec(ByteRegister::L, ByteRegister::A), memory)
        } else if opcode == 0x70 {
            self.ld_mrr_r_spec(memory, WordRegister::HL, ByteRegister::B)
        } else if opcode == 0x71 {
            self.ld_mrr_r_spec(memory, WordRegister::HL, ByteRegister::C)
        } else if opcode == 0x72 {
            self.ld_mrr_r_spec(memory, WordRegister::HL, ByteRegister::D)
        } else if opcode == 0x73 {
            self.ld_mrr_r_spec(memory, WordRegister::HL, ByteRegister::E)
        } else if opcode == 0x74 {
            self.ld_mrr_r_spec(memory, WordRegister::HL, ByteRegister::H)
        } else if opcode == 0x75 {
            self.ld_mrr_r_spec(memory, WordRegister::HL, ByteRegister::L)
        } else if opcode == 0x76 {
            (self.halt_spec(), memory)
        } else if opcode == 0x77 {
            self.ld_mrr_r_spec(memory, WordRegister::HL, ByteRegister::A)
        } else if opcode == 0x78 {
            (self.ld_r_r_spec(ByteRegister::A, ByteRegister::B), memory)
        } else if opcode == 0x79 {
            (self.ld_r_r_spec(ByteRegister::A, ByteRegister::C), memory)
        } else if opcode == 0x7A {
            (self.ld_r_r_spec(ByteRegister::A, ByteRegister::D), memory)
        } else if opcode == 0x7B {
            (self.ld_r_r_spec(ByteRegister::A, ByteRegister::E), memory)
        } else if opcode == 0x7C {
            (self.ld_r_r_spec(ByteRegister::A, ByteRegister::H), memory)
        } else if opcode == 0x7D {
            (self.ld_r_r_spec(ByteRegister::A, ByteRegister::L), memory)
        } else if opcode == 0x7E {
            (self.ld_r_mrr_spec(memory, ByteRegister::A, WordRegister::HL), memory)
        } else if opcode == 0x7F {
            (self.ld_r_r_spec(ByteRegister::A, ByteRegister::A), memory)
        } else {
            (self, memory)
        }
    }

    /// Whether an instruction whose opcode is in 0x40 to 0x7F runs without overflow.
    pub open spec fn allowed_40_7f(self, memory: Seq<u8>, opcode: u8) -> bool {
        if opcode == 0x40 {
            true
        } else if opcode == 0x41 {
            true
        } else if opcode == 0x42 {
            true
        } else if opcode == 0x43 {
            true
        } else if opcode == 0x44 {
            true
        } else if opcode == 0x45 {
            true
        } else if opcode == 0x46 {
            true
        } else if opcode == 0x47 {
            true
        } else if opcode == 0x48 {
            true
        } else if opcode == 0x49 {
            true
        } else if opcode == 0x4A {
            true
        } else if opcode == 0x4B {
            true
        } else if opcode == 0x4C {
            true
        } else if opcode == 0x4D {
            true
        } else if opcode == 0x4E {
            true
        } else if opcode == 0x4F {
            true
        } else if opcode == 0x50 {
            true
        } else if opcode == 0x51 {
            true
        } else if opcode == 0x52 {
            true
        } else if opcode == 0x53 {
            true
        } else if opcode == 0x54 {
            true
        } else if opcode == 0x55 {
            true
        } else if opcode == 0x56 {
            true
        } else if opcode == 0x57 {
            true
        } else if opcode == 0x58 {
            true
        } else if opcode == 0x59 {
            true
        } else if opcode == 0x5A {
            true
        } else if opcode == 0x5B {
            true
        } else if opcode == 0x5C {
            true
        } else if opcode == 0x5D {
            true
        } else if opcode == 0x5E {
            true
        } else if opcode == 0x5F {
            true
        } else if opcode == 0x60 {
            true
        } else if opcode == 0x61 {
            true
        } else if opcode == 0x62 {
            true
        } else if opcode == 0x63 {
            true
        } else if opcode == 0x64 {
            true
        } else if opcode == 0x65 {
            true
        } else if opcode == 0x66 {
            true
        } else if opcode == 0x67 {
            true
        } else if opcode == 0x68 {
            true
        } else if opcode == 0x69 {
            true
        } else if opcode == 0x6A {
            true
        } else if opcode == 0x6B {
            true
        } else if opcode == 0x6C {
            true
        } else if opcode == 0x6D {
            true
        } else if opcode == 0x6E {
            true
        } else if opcode == 0x6F {
            true
        } else if opcode == 0x70 {
            true
        } else if opcode == 0x71 {
            true
        } else if opcode == 0x72 {
            true
        } else if opcode == 0x73 {
            true
        } else if opcode == 0x74 {
            true
        } else if opcode == 0x75 {
            true
        } else if opcode == 0x76 {
            true
        } else if opcode == 0x77 {
            true
        } else if opcode == 0x78 {
            true
        } else if opcode == 0x79 {
            true
        } else if opcode == 0x7A {
            true
        } else if opcode == 0x7B {
            true
        } else if opcode == 0x7C {
            true
        } else if opcode == 0x7D {
            true
        } else if opcode == 0x7E {
            true
        } else if opcode == 0x7F {
            true
        } else {
            false
        }
    }

    /// The instructions whose opcodes are in 0x80 to 0xBF.
    pub open spec fn execute_80_bf_spec(self, memory: Seq<u8>, opcode: u8) -> (Self, Seq<u8>) {
        if opcode == 0x80 {
            (self.add_a_r_spec(ByteRegister::B), memory)
        } else if opcode == 0x81 {
            (self.add_a_r_spec(ByteRegister::C), memory)
        } else if opcode == 0x82 {
            (self.add_a_r_spec(ByteRegister::D), memory)
        } else if opcode == 0x83 {
            (self.add_a_r_spec(ByteRegister::E), memory)
        } else if opcode == 0x84 {
            (self.add_a_r_spec(ByteRegister::H), memory)
        } else if opcode == 0x85 {
            (self.add_a_r_spec(ByteRegister::L), memory)
        } else if opcode == 0x86 {
            (self.add_a_mhl_spec(memory), memory)
        } else if opcode == 0x87 {
            (self.add_a_r_spec(ByteRegister::A), memory)
        } else if opcode == 0x88 {
            (self.adc_a_r_spec(ByteRegister::B), memory)
        } else if opcode == 0x89 {
            (self.adc_a_r_spec(ByteRegister::C), memory)
        } else if opcode == 0x8A {
            (self.adc_a_r_spec(ByteRegister::D), memory)
        } else if opcode == 0x8B {
            (self.adc_a_r_spec(ByteRegister::E), memory)
        } else if opcode == 0x8C {
            (self.adc_a_r_spec(ByteRegister::H), memory)
        } else if opcode == 0x8D {
            (self.adc_a_r_spec(ByteRegister::L), memory)
        } else if opcode == 0x8E {
            (self.adc_a_mhl_spec(memory), memory)
        } else if opcode == 0x8F {
            (self.adc_a_r_spec(ByteRegister::A), memory)
        } else if opcode == 0x90 {
            (self.sub_r_spec(ByteRegister::B), memory)
        } else if opcode == 0x91 {
            (self.sub_r_spec(ByteRegister::C), memory)
        } else if opcode == 0x92 {
            (self.sub_r_spec(ByteRegister::D), memory)
        } else if opcode == 0x93 {
            (self.sub_r_spec(ByteRegister::E), memory)
        } else if opcode == 0x94 {
            (self.sub_r_spec(ByteRegister::H), memory)
        } else if opcode == 0x95 {
            (self.sub_r_spec(ByteRegister::L), memory)
        } else if opcode == 0x96 {
            (self.sub_mhl_spec(memory), memory)
        } else if opcode == 0x97 {
            (self.sub_r_spec(ByteRegister::A), memory)
        } else if opcode == 0x98 {
            (self.sbc_r_spec(ByteRegister::B), memory)
        } else if opcode == 0x99 {
            (self.sbc_r_spec(ByteRegister::C), memory)
        } else if opcode == 0x9A {
            (self.sbc_r_spec(ByteRegister::D), memory)
        } else if opcode == 0x9B {
            (self.sbc_r_spec(ByteRegister::E), memory)
        } else if opcode == 0x9C {
            (self.sbc_r_spec(ByteRegister::H), memory)
        } else if opcode == 0x9D {
            (self.sbc_r_spec(ByteRegister::L), memory)
        } else if opcode == 0x9E {
            (self.sbc_mhl_spec(memory), memory)
        } else if opcode == 0x9F {
            (self.sbc_r_spec(ByteRegister::A), memory)
        } else if opcode == 0xA0 {
            (self.and_r_spec(ByteRegister::B), memory)
        } else if opcode == 0xA1 {
            (self.and_r_spec(ByteRegister::C), memory)
        } else if opcode == 0xA2 {
            (self.and_r_spec(ByteRegister::D), memory)
        } else if opcode == 0xA3 {
            (self.and_r_spec(ByteRegister::E), memory)
        } else if opcode == 0xA4 {
            (self.and_r_spec(ByteRegister::H), memory)
        } else if opcode == 0xA5 {
            (self.and_r_spec(ByteRegister::L), memory)
        } else if opcode == 0xA6 {
            (self.and_mhl_spec(memory), memory)
        } else if opcode == 0xA7 {
            (self.and_r_spec(ByteRegister::A), memory)
        } else if opcode == 0xA8 {
            (self.xor_r_spec(ByteRegister::B), memory)
        } else if opcode == 0xA9 {
            (self.xor_r_spec(ByteRegister::C), memory)
        } else if opcode == 0xAA {
            (self.xor_r_spec(ByteRegister::D), memory)
        } else if opcode == 0xAB {
            (self.xor_r_spec(ByteRegister::E), memory)
        } else if opcode == 0xAC {
            (self.xor_r_spec(ByteRegister::H), memory)
        } else if opcode == 0xAD {
            (self.xor_r_spec(ByteRegister::L), memory)
        } else if opcode == 0xAE {
            (self.xor_mhl_spec(memory), memory)
        } else if opcode == 0xAF {
            (self.xor_r_spec(ByteRegister::A), memory)
        } else if opcode == 0xB0 {
            (self.or_r_spec(ByteRegister::B), memory)
        } else if opcode == 0xB1 {
            (self.or_r_spec(ByteRegister::C), memory)
        } else if opcode == 0xB2 {
            (self.or_r_spec(ByteRegister::D), memory)
        } else if opcode == 0xB3 {
            (self.or_r_spec(ByteRegister::E), memory)
        } else if opcode == 0xB4 {
            (self.or_r_spec(ByteRegister::H), memory)
        } else if opcode == 0xB5 {
            (self.or_r_spec(ByteRegister::L), memory)
        } else if opcode == 0xB6 {
            (self.or_mhl_spec(memory), memory)
        } else if opcode == 0xB7 {
            (self.or_r_spec(ByteRegister::A), memory)
        } else if opcode == 0xB8 {
            (self.cp_r_spec(ByteRegister::B), memory)
        } else if opcode == 0xB9 {
            (self.cp_r_spec(ByteRegister::C), memory)
        } else if opcode == 0xBA {
            (self.cp_r_spec(ByteRegister::D), memory)
        } else if opcode == 0xBB {
            (self.cp_r_spec(ByteRegister::E), memory)
        } else if opcode == 0xBC {
            (self.cp_r_spec(ByteRegister::H), memory)
        } else if opcode == 0xBD {
            (self.cp_r_spec(ByteRegister::L), memory)
        } else if opcode == 0xBE {
            (self.cp_mhl_spec(memory), memory)
        } else if opcode == 0xBF {
            (self.cp_r_spec(ByteRegister::A), memory)
        } else {
            (self, memory)
        }
    }

    /// Whether an instruction whose opcode is in 0x80 to 0xBF runs without overflow.
    pub open spec fn allowed_80_bf(self, memory: Seq<u8>, opcode: u8) -> bool {
        if opcode == 0x80 {
            true
        } else if opcode == 0x81 {
            true
        } else if opcode == 0x82 {
            true
        } else if opcode == 0x83 {
            true
        } else if opcode == 0x84 {
            true
        } else if opcode == 0x85 {
            true
        } else if opcode == 0x86 {
            true
        } else if opcode == 0x87 {
            true
        } else if opcode == 0x88 {
            true
        } else if opcode == 0x89 {
            true
        } else if opcode == 0x8A {
            true
        } else if opcode == 0x8B {
            true
        } else if opcode == 0x8C {
            true
        } else if opcode == 0x8D {
            true
        } else if opcode == 0x8E {
            true
        } else if opcode == 0x8F {
            true
        } else if opcode == 0x90 {
            true
        } else if opcode == 0x91 {
            true
        } else if opcode == 0x92 {
            true
        } else if opcode == 0x93 {
            true
        } else if opcode == 0x94 {
            true
        } else if opcode == 0x95 {
            true
        } else if opcode == 0x96 {
            true
        } else if opcode == 0x97 {
            true
        } else if opcode == 0x98 {
            true
        } else if opcode == 0x99 {
            true
        } else if opcode == 0x9A {
            true
        } else if opcode == 0x9B {
            true
        } else if opcode == 0x9C {
            true
        } else if opcode == 0x9D {
            true
        } else if opcode == 0x9E {
            true
        } else if opcode == 0x9F {
            true
        } else if opcode == 0xA0 {
            true
        } else if opcode == 0xA1 {
            true
        } else if opcode == 0xA2 {
            true
        } else if opcode == 0xA3 {
            true
        } else if opcode == 0xA4 {
            true
        } else if opcode == 0xA5 {
            true
        } else if opcode == 0xA6 {
            true
        } else if opcode == 0xA7 {
            true
        } else if opcode == 0xA8 {
            true
        } else if opcode == 0xA9 {
            true
        } else if opcode == 0xAA {
            true
        } else if opcode == 0xAB {
            true
        } else if opcode == 0xAC {
            true
        } else if opcode == 0xAD {
            true
        } else if opcode == 0xAE {
            true
        } else if opcode == 0xAF {
            true
        } else if opcode == 0xB0 {
            true
        } else if opcode == 0xB1 {
            true
        } else if opcode == 0xB2 {
            true
        } else if opcode == 0xB3 {
            true
        } else if opcode == 0xB4 {
            true
        } else if opcode == 0xB5 {
            true
        } else if opcode == 0xB6 {
            true
        } else if opcode == 0xB7 {
            true
        } else if opcode == 0xB8 {
            true
        } else if opcode == 0xB9 {
            true
        } else if opcode == 0xBA {
            true
        } else if opcode == 0xBB {
            true
        } else if opcode == 0xBC {
            true
        } else if opcode == 0xBD {
            true
        } else if opcode == 0xBE {
            true
        } else if opcode == 0xBF {
            true
        } else {
            false
        }
    }

    /// The instructions whose opcodes are in 0xC0 to 0xFF.
    pub open spec fn execute_c0_ff_spec(self, memory: Seq<u8>, opcode: u8) -> (Self, Seq<u8>) {
        if opcode == 0xC0 {
            (self.ret_if(memory, !self.registers.flag_z), memory)
        } else if opcode == 0xC1 {
            (self.pop_rr_spec(memory, WordRegister::BC), memory)
        } else if opcode == 0xC2 {
            (self.jp_if(memory, !self.registers.flag_z), memory)
        } else if opcode == 0xC3 {
            (self.jp_nn_spec(memory), memory)
        } else if opcode == 0xC4 {
            self.call_if(memory, !self.registers.flag_z)
        } else if opcode == 0xC5 {
            self.push_rr_spec(memory, WordRegister::BC)
        } else if opcode == 0xC6 {
            (self.add_a_n_spec(memory), memory)
        } else if opcode == 0xC7 {
            self.rst_spec(memory, 0)
        } else if opcode == 0xC8 {
            (self.ret_if(memory, self.registers.flag_z), memory)
        } else if opcode == 0xC9 {
            (self.ret_spec(memory), memory)
        } else if opcode == 0xCA {
            (self.jp_if(memory, self.registers.flag_z), memory)
        } else if opcode == 0xCB {
            self.cb_spec(memory)
        } else if opcode == 0xCC {
            self.call_if(memory, self.registers.flag_z)
        } else if opcode == 0xCD {
            self.call_spec(memory)
        } else if opcode == 0xCE {
            (self.adc_a_n_spec(memory), memory)
        } else if opcode == 0xCF {
            self.rst_spec(memory, 0x08)
        } else if opcode == 0xD0 {
            (self.ret_if(memory, !self.registers.flag_c), memory)
        } else if opcode == 0xD1 {
            (self.pop_rr_spec(memory, WordRegister::DE), memory)
        } else if opcode == 0xD2 {
            (self.jp_if(memory, !self.registers.flag_c), memory)
        } else if opcode == 0xD4 {
            self.call_if(memory, !self.registers.flag_c)
        } else if opcode == 0xD5 {
            self.push_rr_spec(memory, WordRegister::DE)
        } else if opcode == 0xD6 {
            (self.sub_n_spec(memory), memory)
        } else if opcode == 0xD7 {
            self.rst_spec(memory, 0x10)
        } else if opcode == 0xD8 {
            (self.ret_if(memory, self.registers.flag_c), memory)
        } else if opcode == 0xD9 {
            (self.reti_spec(memory), memory)
        } else if opcode == 0xDA {
            (self.jp_if(memory, self.registers.flag_c), memory)
        } else if opcode == 0xDC {
            self.call_if(memory, self.registers.flag_c)
        } else if opcode == 0xDE {
            (self.sbc_a_n_spec(memory), memory)
        } else if opcode == 0xDF {
            self.rst_spec(memory, 0x18)
        } else if opcode == 0xE0 {
            self.ldh_n_a_spec(memory)
        } else if opcode == 0xE1 {
            (self.pop_rr_spec(memory, WordRegister::HL), memory)
        } else if opcode == 0xE2 {
            self.ld_mc_a_spec(memory)
        } else if opcode == 0xE5 {
            self.push_rr_spec(memory, WordRegister::HL)
        } else if opcode == 0xE6 {
            (self.and_n_spec(memory), memory)
        } else if opcode == 0xE7 {
            self.rst_spec(memory, 0x20)
        } else if opcode == 0xE8 {
            (self.add_sp_n_spec(memory), memory)
        } else if opcode == 0xE9 {
            (self.jp_mhl_spec(), memory)
        } else if opcode == 0xEA {
            self.ld_nn_a_spec(memory)
        } else if opcode == 0xEE {
            (self.xor_n_spec(memory), memory)
        } else if opcode == 0xEF {
            self.rst_spec(memory, 0x28)
        } else if opcode == 0xF0 {
            (self.ldh_a_n_spec(memory), memory)
        } else if opcode == 0xF1 {
            (self.pop_rr_spec(memory, WordRegister::AF), memory)
        } else if opcode == 0xF2 {
            (self.ld_a_mc_spec(memory), memory)
        } else if opcode == 0xF3 {
            (self.di_spec(), memory)
        } else if opcode == 0xF5 {
            self.push_rr_spec(memory, WordRegister::AF)
        } else if opcode == 0xF6 {
            (self.or_n_spec(memory), memory)
        } else if opcode == 0xF7 {
            self.rst_spec(memory, 0x30)
        } else if opcode == 0xF8 {
            (self.ld_hl_sp_n_spec(memory), memory)
        } else if opcode == 0xF9 {
            (self.ld_sp_hl_spec(), memory)
        } else if opcode == 0xFA {
            (self.ld_a_nn_spec(memory), memory)
        } else if opcode == 0xFB {
            (self.ei_spec(), memory)
        } else if opcode == 0xFE {
            (self.cp_n_spec(memory), memory)
        } else if opcode == 0xFF {
            self.rst_spec(memory, 0x38)
        } else {
            (self, memory)
        }
    }

    /// Whether an instruction whose opcode is in 0xC0 to 0xFF runs without overflow.
    pub open spec fn allowed_c0_ff(self, memory: Seq<u8>, opcode: u8) -> bool {
        if opcode == 0xC0 {
            (!(!self.registers.flag_z) ==> self.pc_fits(1))
        } else if opcode == 0xC1 {
            true
        } else if opcode == 0xC2 {
            self.pc_fits(3)
        } else if opcode == 0xC3 {
            self.pc_fits(1)
        } else if opcode == 0xC4 {
            (!self.registers.flag_z ==> self.pc_fits(3))
        } else if opcode == 0xC5 {
            true
        } else if opcode == 0xC6 {
            self.pc_fits(1)
        } else if opcode == 0xC7 {
            self.pc_fits(1)
        } else if opcode == 0xC8 {
            (!(self.registers.flag_z) ==> self.pc_fits(1))
        } else if opcode == 0xC9 {
            true
        } else if opcode == 0xCA {
            self.pc_fits(3)
        } else if opcode == 0xCB {
            self.pc_fits(1)
        } else if opcode == 0xCC {
            (self.registers.flag_z ==> self.pc_fits(3))
        } else if opcode == 0xCD {
            self.pc_fits(3)
        } else if opcode == 0xCE {
            self.pc_fits(1)
        } else if opcode == 0xCF {
            self.pc_fits(1)
        } else if opcode == 0xD0 {
            (!(!self.registers.flag_c) ==> self.pc_fits(1))
        } else if opcode == 0xD1 {
            true
        } else if opcode == 0xD2 {
            self.pc_fits(3)
        } else if opcode == 0xD4 {
            (!self.registers.flag_c ==> self.pc_fits(3))
        } else if opcode == 0xD5 {
            true
        } else if opcode == 0xD6 {
            self.pc_fits(1)
        } else if opcode == 0xD7 {
            self.pc_fits(1)
        } else if opcode == 0xD8 {
            (!(self.registers.flag_c) ==> self.pc_fits(1))
        } else if opcode == 0xD9 {
            true
        } else if opcode == 0xDA {
            self.pc_fits(3)
        } else if opcode == 0xDC {
            (self.registers.flag_c ==> self.pc_fits(3))
        } else if opcode == 0xDE {
            self.pc_fits(1)
        } else if opcode == 0xDF {
            self.pc_fits(1)
        } else if opcode == 0xE0 {
            self.pc_fits(1)
        } else if opcode == 0xE1 {
            true
        } else if opcode == 0xE2 {
            true
        } else if opcode == 0xE5 {
            true
        } else if opcode == 0xE6 {
            self.pc_fits(1)
        } else if opcode == 0xE7 {
            self.pc_fits(1)
        } else if opcode == 0xE8 {
            self.pc_fits(1)
        } else if opcode == 0xE9 {
            true
        } else if opcode == 0xEA {
            self.pc_fits(1)
        } else if opcode == 0xEE {
            self.pc_fits(1)
        } else if opcode == 0xEF {
            self.pc_fits(1)
        } else if opcode == 0xF0 {
            self.pc_fits(1)
        } else if opcode == 0xF1 {
            true
        } else if opcode == 0xF2 {
            true
        } else if opcode == 0xF3 {
            true
        } else if opcode == 0xF5 {
            true
        } else if opcode == 0xF6 {
            self.pc_fits(1)
        } else if opcode == 0xF7 {
            self.pc_fits(1)
        } else if opcode == 0xF8 {
            self.pc_fits(1)
        } else if opcode == 0xF9 {
            true
        } else if opcode == 0xFA {
            self.pc_fits(1)
        } else if opcode == 0xFB {
            true
        } else if opcode == 0xFE {
            self.pc_fits(1)
        } else if opcode == 0xFF {
            self.pc_fits(1)
        } else {
            false
        }
    }

    /// This processor as a step starts: no instruction counted yet.
    pub open spec fn started(self) -> Self {
        Cpu { pc_to_increment: -1i8, last_instruction_ccycles: 0u8, ..self }
    }

    /// The processor and memory after the instruction of a step, or after waiting while
    /// halted (4 cycles, the program counter kept), before the program counter moves on.
    pub open spec fn stepped(self, memory: Seq<u8>) -> (Self, Seq<u8>) {
        if self.halted {
            (Cpu { last_instruction_ccycles: 4, pc_to_increment: 0, ..self.started() }, memory)
        } else {
            self.started().execute_spec(memory)
        }
    }

    /// The processor and memory after one step: the program counter moved on by what the
    /// instruction asked.
    pub open spec fn step_spec(self, memory: Seq<u8>) -> (Self, Seq<u8>) {
        let (c, m) = self.stepped(memory);
        (Cpu { registers: CpuRegisters { pc: (c.registers.pc + c.pc_to_increment) as u16, ..c.registers }, ..c }, m)
    }

    /// Whether one step runs without a panic: the opcode is implemented, its instruction
    /// runs without overflow and the program counter does not pass 0xFFFF.
    pub open spec fn step_allowed(self, memory: Seq<u8>) -> bool {
        let (c, m) = self.stepped(memory);
        &&& !self.halted ==> opcode_implemented(memory[self.registers.pc as int])
        &&& !self.halted ==> self.started().execute_allowed(memory)
        &&& 0 <= c.pc_to_increment
        &&& c.registers.pc + c.pc_to_increment <= 0xFFFF
    }
}

/// Memory with bit `bit` of the interrupt flag register (0xFF0F) cleared.
pub open spec fn interrupt_acknowledged(memory: Seq<u8>, bit: u8) -> Seq<u8> {
    memory.update(0xFF0F, bit_cleared(memory[0xFF0F], bit))
}

/// Whether a processor state after an instruction moves the program counter within 16
/// bits.
pub open spec fn moves_within_range(c: Cpu) -> bool {
    0 <= c.pc_to_increment && c.registers.pc + c.pc_to_increment <= 0xFFFF
}

impl Cpu {
    /// The relative jump at the program counter, if the opcode is one, stays in range: for
    /// JR the offset plus 2 is a signed byte; for a conditional JR whose condition holds,
    /// the target is within the signed 16-bit range.
    pub open spec fn relative_jump_fits(self, memory: Seq<u8>) -> bool {
        let opcode = memory[self.registers.pc as int];
        let target_ok = crate::cpu::semantics::relative_jump_in_range(
            (self.registers.pc + 2) as u16,
            self.imm8(memory) as i8,
        );
        if opcode == 0x18 {
            (self.imm8(memory) as i8) + 2 <= 127
        } else if opcode == 0x20 {
            !self.registers.flag_z ==> target_ok
        } else if opcode == 0x28 {
            self.registers.flag_z ==> target_ok
        } else if opcode == 0x30 {
            !self.registers.flag_c ==> target_ok
        } else if opcode == 0x38 {
            self.registers.flag_c ==> target_ok
        } else {
            true
        }
    }

    /// A condition for a step to run that can be read off the bytes at the program
    /// counter: the processor is halted, or the program counter is at most 0xFFFC, the
    /// opcode is implemented and a relative jump stays in range.
    pub open spec fn step_clearly_allowed(self, memory: Seq<u8>) -> bool {
        self.halted || (self.registers.pc <= 0xFFFC && opcode_implemented(memory[self.registers.pc as int])
            && self.relative_jump_fits(memory))
    }
}

#[verifier::rlimit(100)]
proof fn lemma_clearly_allowed_00_3f(cpu: Cpu, memory: Seq<u8>)
    requires
        memory.len() == 0x10000,
        cpu.registers.pc <= 0xFFFC,
        memory[cpu.registers.pc as int] < 0x40,
        cpu.relative_jump_fits(memory),
    ensures
        cpu.allowed_00_3f(memory, memory[cpu.registers.pc as int]),
        moves_within_range(cpu.execute_00_3f_spec(memory, memory[cpu.registers.pc as int]).0),
{
}

#[verifier::rlimit(100)]
proof fn lemma_clearly_allowed_40_7f(cpu: Cpu, memory: Seq<u8>)
    requires
        memory.len() == 0x10000,
        cpu.registers.pc <= 0xFFFC,
        0x40 <= memory[cpu.registers.pc as int] < 0x80,
    ensures
        cpu.allowed_40_7f(memory, memory[cpu.registers.pc as int]),
        moves_within_range(cpu.execute_40_7f_spec(memory, memory[cpu.registers.pc as int]).0),
{
}

#[verifier::rlimit(100)]
proof fn lemma_clearly_allowed_80_bf(cpu: Cpu, memory: Seq<u8>)
    requires
        memory.len() == 0x10000,
        cpu.registers.pc <= 0xFFFC,
        0x80 <= memory[cpu.registers.pc as int] < 0xC0,
    ensures
        cpu.allowed_80_bf(memory, memory[cpu.registers.pc as int]),
        moves_within_range(cpu.execute_80_bf_spec(memory, memory[cpu.registers.pc as int]).0),
{
}

#[verifier::rlimit(100)]
proof fn lemma_clearly_allowed_c0_ff(cpu: Cpu, memory: Seq<u8>)
    requires
        memory.len() == 0x10000,
        cpu.registers.pc <= 0xFFFC,
        0xC0 <= memory[cpu.registers.pc as int],
        opcode_implemented(memory[cpu.registers.pc as int]),
    ensures
        cpu.allowed_c0_ff(memory, memory[cpu.registers.pc as int]),
        moves_within_range(cpu.execute_c0_ff_spec(memory, memory[cpu.registers.pc as int]).0),
{
}

/// A state whose step is clearly allowed by the bytes at the program counter can step.
pub proof fn lemma_step_clearly_allowed(cpu: Cpu, memory: Seq<u8>)
    requires
        memory.len() == 0x10000,
        cpu.step_clearly_allowed(memory),
    ensures
        cpu.step_allowed(memory),
{
    if !cpu.halted {
        let s = cpu.started();
        let opcode = memory[cpu.registers.pc as int];
        if opcode < 0x40 {
            lemma_clearly_allowed_00_3f(s, memory);
        } else if opcode < 0x80 {
            lemma_clearly_allowed_40_7f(s, memory);
        } else if opcode < 0xC0 {
            lemma_clearly_allowed_80_bf(s, memory);
        } else {
            lemma_clearly_allowed_c0_ff(s, memory);
        }
    }
}

} // verus!
