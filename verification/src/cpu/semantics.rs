//! What each instruction of the processor does, stated over the processor's state
//! and the bytes of memory.

use vstd::prelude::*;

use crate::cpu::alu::{
    add_nn_spec, add_spec, and_spec, cp_spec, dec_spec, inc_spec, or_spec, sub_spec, swap_spec,
};
use crate::cpu::registers::{CpuRegisters, WordRegister};
use crate::memory::next_address;

verus! {

/// The processor state that contracts speak of.
pub struct CpuView {
    /// The registers.
    pub registers: CpuRegisters,
    /// The clock cycles left in the current frame.
    pub available_cycles: i32,
    /// How far the program counter moves once the last instruction is done; -1 before
    /// any instruction.
    pub pc_to_increment: i8,
    /// The clock cycles the last instruction took; -1 before any instruction.
    pub last_instruction_ccycles: i8,
    /// The interrupt master enable flag.
    pub ime: bool,
    /// Whether executed instructions are traced.
    pub debug: bool,
}

/// The word after the opcode at `pc`, low byte first.
pub open spec fn immediate_word(memory: Seq<u8>, pc: u16) -> u16 {
    (memory[next_address((pc + 1) as u16)] as int * 256 + memory[pc + 1] as int) as u16
}

/// Memory after pushing `value` on a stack whose pointer is `sp`: its low byte at
/// `sp - 2` and its high byte at `sp - 1`.
pub open spec fn pushed(memory: Seq<u8>, sp: u16, value: u16) -> Seq<u8> {
    memory.update(sp - 2, (value as int % 256) as u8).update(sp - 1, (value as int / 256) as u8)
}

/// The word on top of a stack whose pointer is `sp`, low byte first.
pub open spec fn top_of_stack(memory: Seq<u8>, sp: u16) -> u16 {
    (memory[sp as int] as int + memory[next_address(sp)] as int * 256) as u16
}

/// The address `offset` bytes away from `pc`, modulo 65536.
pub open spec fn relative_target(pc: int, offset: i8) -> u16 {
    ((pc + offset as int + 65536) % 65536) as u16
}

/// Whether `pc`, read as a signed 16-bit value, plus `offset` stays a signed 16-bit value.
pub open spec fn relative_jump_in_range(pc: u16, offset: i8) -> bool {
    let signed_pc: int = if pc >= 0x8000 { pc as int - 65536 } else { pc as int };
    -32768 <= signed_pc + offset as int <= 32767
}

/// A byte rotated right through the carry: bit 0 leaves, the carry enters at bit 7.
pub open spec fn rotated_right(value: u8, carry: bool) -> u8 {
    (value as int / 2 + (if carry { 128int } else { 0int })) as u8
}

/// A byte rotated left through the carry: bit 7 leaves, the carry enters at bit 0.
pub open spec fn rotated_left(value: u8, carry: bool) -> u8 {
    ((value as int * 2) % 256 + (if carry { 1int } else { 0int })) as u8
}

/// A byte shifted right by one with its bit 7 kept.
pub open spec fn shifted_right_keeping_top(value: u8) -> u8 {
    (value as int / 2 + (if value >= 128 { 128int } else { 0int })) as u8
}

/// Whether the opcode is one this instruction set executes.
pub open spec fn implemented(opcode: u8) -> bool {
    opcode == 0x00 || opcode == 0x01 || opcode == 0x02 || opcode == 0x03 || opcode == 0x04 || opcode == 0x05 || opcode == 0x06 || opcode == 0x0B || opcode == 0x0C || opcode == 0x0D || opcode == 0x0E || opcode == 0x11 || opcode == 0x12 || opcode == 0x13 || opcode == 0x14 || opcode == 0x15 || opcode == 0x16 || opcode == 0x17 || opcode == 0x18 || opcode == 0x19 || opcode == 0x1A || opcode == 0x1C || opcode == 0x1D || opcode == 0x1E || opcode == 0x1F || opcode == 0x20 || opcode == 0x21 || opcode == 0x22 || opcode == 0x23 || opcode == 0x24 || opcode == 0x25 || opcode == 0x26 || opcode == 0x28 || opcode == 0x29 || opcode == 0x2A || opcode == 0x2C || opcode == 0x2D || opcode == 0x2E || opcode == 0x2F || opcode == 0x30 || opcode == 0x31 || opcode == 0x32 || opcode == 0x34 || opcode == 0x35 || opcode == 0x36 || opcode == 0x37 || opcode == 0x38 || opcode == 0x3C || opcode == 0x3D || opcode == 0x3E || opcode == 0x3F || opcode == 0x46 || opcode == 0x47 || opcode == 0x49 || opcode == 0x4E || opcode == 0x4F || opcode == 0x56 || opcode == 0x57 || opcode == 0x5E || opcode == 0x5F || opcode == 0x60 || opcode == 0x66 || opcode == 0x67 || opcode == 0x6E || opcode == 0x6F || opcode == 0x70 || opcode == 0x71 || opcode == 0x72 || opcode == 0x77 || opcode == 0x78 || opcode == 0x79 || opcode == 0x7A || opcode == 0x7B || opcode == 0x7C || opcode == 0x7D || opcode == 0x7E || opcode == 0x86 || opcode == 0x87 || opcode == 0x89 || opcode == 0x90 || opcode == 0xA1 || opcode == 0xA7 || opcode == 0xA9 || opcode == 0xAE || opcode == 0xAF || opcode == 0xB0 || opcode == 0xB1 || opcode == 0xB6 || opcode == 0xB7 || opcode == 0xBE || opcode == 0xC0 || opcode == 0xC1 || opcode == 0xC3 || opcode == 0xC4 || opcode == 0xC5 || opcode == 0xC6 || opcode == 0xC8 || opcode == 0xC9 || opcode == 0xCA || opcode == 0xCB || opcode == 0xCD || opcode == 0xCE || opcode == 0xD0 || opcode == 0xD1 || opcode == 0xD5 || opcode == 0xD6 || opcode == 0xD9 || opcode == 0xDF || opcode == 0xE0 || opcode == 0xE1 || opcode == 0xE2 || opcode == 0xE5 || opcode == 0xE6 || opcode == 0xE9 || opcode == 0xEA || opcode == 0xEE || opcode == 0xEF || opcode == 0xF0 || opcode == 0xF1 || opcode == 0xF3 || opcode == 0xF5 || opcode == 0xF6 || opcode == 0xFA || opcode == 0xFB || opcode == 0xFE || opcode == 0xFF
}

/// Whether the opcode after a 0xCB prefix is one this instruction set executes.
pub open spec fn cb_implemented(opcode: u8) -> bool {
    opcode == 0x11 || opcode == 0x19 || opcode == 0x1A || opcode == 0x37 || opcode == 0x3F || opcode == 0x7C || opcode == 0x87 || opcode == 0x38
}

impl CpuView {
    /// This state after an instruction that left `registers`, moves the program
    /// counter by `pc_to_increment` once done and took `ccycles` clock cycles.
    pub open spec fn executed(self, registers: CpuRegisters, pc_to_increment: i8, ccycles: i8) -> Self {
        CpuView { registers, pc_to_increment, last_instruction_ccycles: ccycles, ..self }
    }

    /// Does nothing.
    pub open spec fn nop(self) -> CpuView {
        self.executed(self.registers, 1, 4)
    }

    /// Decreases register A.
    pub open spec fn dec_a(self) -> CpuView {
        self.executed(CpuRegisters { a: dec_spec(self.registers, self.registers.a).0, ..dec_spec(self.registers, self.registers.a).1 }, 1, 4)
    }

    /// Decreases register B.
    pub open spec fn dec_b(self) -> CpuView {
        self.executed(CpuRegisters { b: dec_spec(self.registers, self.registers.b).0, ..dec_spec(self.registers, self.registers.b).1 }, 1, 4)
    }

    /// Decreases register C.
    pub open spec fn dec_c(self) -> CpuView {
        self.executed(CpuRegisters { c: dec_spec(self.registers, self.registers.c).0, ..dec_spec(self.registers, self.registers.c).1 }, 1, 4)
    }

    /// Decreases register D.
    pub open spec fn dec_d(self) -> CpuView {
        self.executed(CpuRegisters { d: dec_spec(self.registers, self.registers.d).0, ..dec_spec(self.registers, self.registers.d).1 }, 1, 4)
    }

    /// Decreases register E.
    pub open spec fn dec_e(self) -> CpuView {
        self.executed(CpuRegisters { e: dec_spec(self.registers, self.registers.e).0, ..dec_spec(self.registers, self.registers.e).1 }, 1, 4)
    }

    /// Decreases register H.
    pub open spec fn dec_h(self) -> CpuView {
        self.executed(CpuRegisters { h: dec_spec(self.registers, self.registers.h).0, ..dec_spec(self.registers, self.registers.h).1 }, 1, 4)
    }

    /// Decreases register L.
    pub open spec fn dec_l(self) -> CpuView {
        self.executed(CpuRegisters { l: dec_spec(self.registers, self.registers.l).0, ..dec_spec(self.registers, self.registers.l).1 }, 1, 4)
    }

    /// Decreases the byte at the address in HL.
    pub open spec fn dec_mhl(self, memory: Seq<u8>) -> (CpuView, Seq<u8>) {
        (self.executed(dec_spec(self.registers, memory[self.registers.word(WordRegister::HL) as int]).1, 1, 12), memory.update(self.registers.word(WordRegister::HL) as int, dec_spec(self.registers, memory[self.registers.word(WordRegister::HL) as int]).0))
    }

    /// Decreases register pair BC, modulo 65536; the flags are not changed.
    pub open spec fn dec_bc(self) -> CpuView {
        self.executed(self.registers.with_word(WordRegister::BC, ((self.registers.word(WordRegister::BC) as int + 65535) % 65536) as u16), 1, 8)
    }

    /// Increases register pair BC, modulo 65536; the flags are not changed.
    pub open spec fn inc_bc(self) -> CpuView {
        self.executed(self.registers.with_word(WordRegister::BC, ((self.registers.word(WordRegister::BC) as int + 1) % 65536) as u16), 1, 8)
    }

    /// Increases register pair DE, modulo 65536; the flags are not changed.
    pub open spec fn inc_de(self) -> CpuView {
        self.executed(self.registers.with_word(WordRegister::DE, ((self.registers.word(WordRegister::DE) as int + 1) % 65536) as u16), 1, 8)
    }

    /// Increases register pair HL, modulo 65536; the flags are not changed.
    pub open spec fn inc_hl(self) -> CpuView {
        self.executed(self.registers.with_word(WordRegister::HL, ((self.registers.word(WordRegister::HL) as int + 1) % 65536) as u16), 1, 8)
    }

    /// Increases register A.
    pub open spec fn inc_a(self) -> CpuView {
        self.executed(CpuRegisters { a: inc_spec(self.registers, self.registers.a).0, ..inc_spec(self.registers, self.registers.a).1 }, 1, 4)
    }

    /// Increases register D.
    pub open spec fn inc_d(self) -> CpuView {
        self.executed(CpuRegisters { d: inc_spec(self.registers, self.registers.d).0, ..inc_spec(self.registers, self.registers.d).1 }, 1, 4)
    }

    /// Increases register E.
    pub open spec fn inc_e(self) -> CpuView {
        self.executed(CpuRegisters { e: inc_spec(self.registers, self.registers.e).0, ..inc_spec(self.registers, self.registers.e).1 }, 1, 4)
    }

    /// Increases register B.
    pub open spec fn inc_b(self) -> CpuView {
        self.executed(CpuRegisters { b: inc_spec(self.registers, self.registers.b).0, ..inc_spec(self.registers, self.registers.b).1 }, 1, 4)
    }

    /// Increases register C.
    pub open spec fn inc_c(self) -> CpuView {
        self.executed(CpuRegisters { c: inc_spec(self.registers, self.registers.c).0, ..inc_spec(self.registers, self.registers.c).1 }, 1, 4)
    }

    /// Increases register H.
    pub open spec fn inc_h(self) -> CpuView {
        self.executed(CpuRegisters { h: inc_spec(self.registers, self.registers.h).0, ..inc_spec(self.registers, self.registers.h).1 }, 1, 4)
    }

    /// Increases register L.
    pub open spec fn inc_l(self) -> CpuView {
        self.executed(CpuRegisters { l: inc_spec(self.registers, self.registers.l).0, ..inc_spec(self.registers, self.registers.l).1 }, 1, 4)
    }

    /// Increases the byte at the address in HL.
    pub open spec fn inc_mhl(self, memory: Seq<u8>) -> (CpuView, Seq<u8>) {
        (self.executed(inc_spec(self.registers, memory[self.registers.word(WordRegister::HL) as int]).1, 1, 12), memory.update(self.registers.word(WordRegister::HL) as int, inc_spec(self.registers, memory[self.registers.word(WordRegister::HL) as int]).0))
    }

    /// Adds register C and the carry flag to A.
    pub open spec fn adc_a_c(self) -> CpuView {
        self.executed(CpuRegisters { a: add_spec(self.registers, self.registers.a, self.registers.c, self.registers.flag_c).0, ..add_spec(self.registers, self.registers.a, self.registers.c, self.registers.flag_c).1 }, 1, 4)
    }

    /// The states in which `adc_a_n` runs without overflow.
    pub open spec fn adc_a_n_allowed(self, memory: Seq<u8>) -> bool {
        (self.registers.pc < 0xFFFF)
    }

    /// Adds the byte after the opcode and the carry flag to A.
    pub open spec fn adc_a_n(self, memory: Seq<u8>) -> CpuView {
        self.executed(CpuRegisters { a: add_spec(self.registers, self.registers.a, memory[self.registers.pc + 1], self.registers.flag_c).0, ..add_spec(self.registers, self.registers.a, memory[self.registers.pc + 1], self.registers.flag_c).1 }, 2, 8)
    }

    /// Adds A to A.
    pub open spec fn add_a_a(self) -> CpuView {
        self.executed(CpuRegisters { a: add_spec(self.registers, self.registers.a, self.registers.a, false).0, ..add_spec(self.registers, self.registers.a, self.registers.a, false).1 }, 1, 4)
    }

    /// The states in which `add_a_n` runs without overflow.
    pub open spec fn add_a_n_allowed(self, memory: Seq<u8>) -> bool {
        (self.registers.pc < 0xFFFF)
    }

    /// Adds the byte after the opcode to A.
    pub open spec fn add_a_n(self, memory: Seq<u8>) -> CpuView {
        self.executed(CpuRegisters { a: add_spec(self.registers, memory[self.registers.pc + 1], self.registers.a, false).0, ..add_spec(self.registers, memory[self.registers.pc + 1], self.registers.a, false).1 }, 2, 8)
    }

    /// Adds the byte at the address in HL to A.
    pub open spec fn add_a_mhl(self, memory: Seq<u8>) -> CpuView {
        self.executed(CpuRegisters { a: add_spec(self.registers, memory[self.registers.word(WordRegister::HL) as int], self.registers.a, false).0, ..add_spec(self.registers, memory[self.registers.word(WordRegister::HL) as int], self.registers.a, false).1 }, 1, 8)
    }

    /// Adds register pair DE to HL; Z is not changed.
    pub open spec fn add_hl_de(self) -> CpuView {
        self.executed(add_nn_spec(self.registers, self.registers.word(WordRegister::HL), self.registers.word(WordRegister::DE)).1.with_word(WordRegister::HL, add_nn_spec(self.registers, self.registers.word(WordRegister::HL), self.registers.word(WordRegister::DE)).0), 1, 8)
    }

    /// Adds register pair HL to HL; Z is not changed.
    pub open spec fn add_hl_hl(self) -> CpuView {
        self.executed(add_nn_spec(self.registers, self.registers.word(WordRegister::HL), self.registers.word(WordRegister::HL)).1.with_word(WordRegister::HL, add_nn_spec(self.registers, self.registers.word(WordRegister::HL), self.registers.word(WordRegister::HL)).0), 1, 8)
    }

    /// The states in which `sub_n` runs without overflow.
    pub open spec fn sub_n_allowed(self, memory: Seq<u8>) -> bool {
        (self.registers.pc < 0xFFFF)
    }

    /// Subtracts the byte after the opcode from A.
    pub open spec fn sub_n(self, memory: Seq<u8>) -> CpuView {
        self.executed(CpuRegisters { a: sub_spec(self.registers, self.registers.a, memory[self.registers.pc + 1], false).0, ..sub_spec(self.registers, self.registers.a, memory[self.registers.pc + 1], false).1 }, 2, 8)
    }

    /// Subtracts register B from A.
    pub open spec fn sub_b(self) -> CpuView {
        self.executed(CpuRegisters { a: sub_spec(self.registers, self.registers.a, self.registers.b, false).0, ..sub_spec(self.registers, self.registers.a, self.registers.b, false).1 }, 1, 4)
    }

    /// Rotates A right through the carry flag: bit 0 goes to the carry, the carry to bit 7; the other flags are not changed.
    pub open spec fn rra(self) -> CpuView {
        self.executed(CpuRegisters { a: rotated_right(self.registers.a, self.registers.flag_c), flag_c: self.registers.a as int % 2 == 1, ..self.registers }, 1, 4)
    }

    /// XORs A with A into A: sets Z if the result is 0, clears N, H and C.
    pub open spec fn xor_a(self) -> CpuView {
        self.executed(CpuRegisters { a: (self.registers.a ^ self.registers.a), ..self.registers.with_flags((self.registers.a ^ self.registers.a) == 0, false, false, false) }, 1, 4)
    }

    /// XORs C with A into A: sets Z if the result is 0, clears N, H and C.
    pub open spec fn xor_c(self) -> CpuView {
        self.executed(CpuRegisters { a: (self.registers.c ^ self.registers.a), ..self.registers.with_flags((self.registers.c ^ self.registers.a) == 0, false, false, false) }, 1, 4)
    }

    /// The states in which `xor_n` runs without overflow.
    pub open spec fn xor_n_allowed(self, memory: Seq<u8>) -> bool {
        (self.registers.pc < 0xFFFF)
    }

    /// XORs the byte after the opcode with A into A: sets Z if the result is 0, clears N, H and C.
    pub open spec fn xor_n(self, memory: Seq<u8>) -> CpuView {
        self.executed(CpuRegisters { a: (memory[self.registers.pc + 1] ^ self.registers.a), ..self.registers.with_flags((memory[self.registers.pc + 1] ^ self.registers.a) == 0, false, false, false) }, 2, 8)
    }

    /// XORs the byte at the address in HL with A into A: sets Z if the result is 0, clears N, H and C.
    pub open spec fn xor_mhl(self, memory: Seq<u8>) -> CpuView {
        self.executed(CpuRegisters { a: (memory[self.registers.word(WordRegister::HL) as int] ^ self.registers.a), ..self.registers.with_flags((memory[self.registers.word(WordRegister::HL) as int] ^ self.registers.a) == 0, false, false, false) }, 1, 8)
    }

    /// ORs A with A into A.
    pub open spec fn or_a(self) -> CpuView {
        self.executed(CpuRegisters { a: or_spec(self.registers, self.registers.a, self.registers.a).0, ..or_spec(self.registers, self.registers.a, self.registers.a).1 }, 1, 4)
    }

    /// ORs B with A into A.
    pub open spec fn or_b(self) -> CpuView {
        self.executed(CpuRegisters { a: or_spec(self.registers, self.registers.b, self.registers.a).0, ..or_spec(self.registers, self.registers.b, self.registers.a).1 }, 1, 4)
    }

    /// ORs C with A into A.
    pub open spec fn or_c(self) -> CpuView {
        self.executed(CpuRegisters { a: or_spec(self.registers, self.registers.c, self.registers.a).0, ..or_spec(self.registers, self.registers.c, self.registers.a).1 }, 1, 4)
    }

    /// ORs the byte at the address in HL with A into A.
    pub open spec fn or_mhl(self, memory: Seq<u8>) -> CpuView {
        self.executed(CpuRegisters { a: or_spec(self.registers, memory[self.registers.word(WordRegister::HL) as int], self.registers.a).0, ..or_spec(self.registers, memory[self.registers.word(WordRegister::HL) as int], self.registers.a).1 }, 1, 8)
    }

    /// The states in which `or_n` runs without overflow.
    pub open spec fn or_n_allowed(self, memory: Seq<u8>) -> bool {
        (self.registers.pc < 0xFFFF)
    }

    /// ORs the byte after the opcode with A into A.
    pub open spec fn or_n(self, memory: Seq<u8>) -> CpuView {
        self.executed(CpuRegisters { a: or_spec(self.registers, memory[self.registers.pc + 1], self.registers.a).0, ..or_spec(self.registers, memory[self.registers.pc + 1], self.registers.a).1 }, 2, 8)
    }

    /// ANDs A with A into A.
    pub open spec fn and_a(self) -> CpuView {
        self.executed(CpuRegisters { a: and_spec(self.registers, self.registers.a, self.registers.a).0, ..and_spec(self.registers, self.registers.a, self.registers.a).1 }, 1, 4)
    }

    /// ANDs C with A into A.
    pub open spec fn and_c(self) -> CpuView {
        self.executed(CpuRegisters { a: and_spec(self.registers, self.registers.c, self.registers.a).0, ..and_spec(self.registers, self.registers.c, self.registers.a).1 }, 1, 4)
    }

    /// The states in which `and_n` runs without overflow.
    pub open spec fn and_n_allowed(self, memory: Seq<u8>) -> bool {
        (self.registers.pc < 0xFFFF)
    }

    /// ANDs the byte after the opcode with A into A.
    pub open spec fn and_n(self, memory: Seq<u8>) -> CpuView {
        self.executed(CpuRegisters { a: and_spec(self.registers, memory[self.registers.pc + 1], self.registers.a).0, ..and_spec(self.registers, memory[self.registers.pc + 1], self.registers.a).1 }, 2, 8)
    }

    /// Complements A; sets N and H.
    pub open spec fn cpl(self) -> CpuView {
        self.executed(CpuRegisters { a: !self.registers.a, flag_n: true, flag_h: true, ..self.registers }, 1, 4)
    }

    /// Sets the carry flag and clears N and H.
    pub open spec fn scf(self) -> CpuView {
        self.executed(CpuRegisters { flag_n: false, flag_h: false, flag_c: true, ..self.registers }, 1, 4)
    }

    /// Complements the carry flag.
    pub open spec fn ccf(self) -> CpuView {
        self.executed(CpuRegisters { flag_c: !self.registers.flag_c, ..self.registers }, 1, 4)
    }

    /// The states in which `cp_n` runs without overflow.
    pub open spec fn cp_n_allowed(self, memory: Seq<u8>) -> bool {
        (self.registers.pc < 0xFFFF)
    }

    /// Compares A with the byte after the opcode.
    pub open spec fn cp_n(self, memory: Seq<u8>) -> CpuView {
        self.executed(cp_spec(self.registers, memory[self.registers.pc + 1]), 2, 8)
    }

    /// Compares A with the byte at the address in HL.
    pub open spec fn cp_mhl(self, memory: Seq<u8>) -> CpuView {
        self.executed(cp_spec(self.registers, memory[self.registers.word(WordRegister::HL) as int]), 1, 8)
    }

    /// The states in which `ld_b_n` runs without overflow.
    pub open spec fn ld_b_n_allowed(self, memory: Seq<u8>) -> bool {
        (self.registers.pc < 0xFFFF)
    }

    /// Loads the byte after the opcode into register B.
    pub open spec fn ld_b_n(self, memory: Seq<u8>) -> CpuView {
        self.executed(CpuRegisters { b: memory[self.registers.pc + 1], ..self.registers }, 2, 8)
    }

    /// The states in which `ld_c_n` runs without overflow.
    pub open spec fn ld_c_n_allowed(self, memory: Seq<u8>) -> bool {
        (self.registers.pc < 0xFFFF)
    }

    /// Loads the byte after the opcode into register C.
    pub open spec fn ld_c_n(self, memory: Seq<u8>) -> CpuView {
        self.executed(CpuRegisters { c: memory[self.registers.pc + 1], ..self.registers }, 2, 8)
    }

    /// The states in which `ld_d_n` runs without overflow.
    pub open spec fn ld_d_n_allowed(self, memory: Seq<u8>) -> bool {
        (self.registers.pc < 0xFFFF)
    }

    /// Loads the byte after the opcode into register D.
    pub open spec fn ld_d_n(self, memory: Seq<u8>) -> CpuView {
        self.executed(CpuRegisters { d: memory[self.registers.pc + 1], ..self.registers }, 2, 8)
    }

    /// The states in which `ld_h_n` runs without overflow.
    pub open spec fn ld_h_n_allowed(self, memory: Seq<u8>) -> bool {
        (self.registers.pc < 0xFFFF)
    }

    /// Loads the byte after the opcode into register H.
    pub open spec fn ld_h_n(self, memory: Seq<u8>) -> CpuView {
        self.executed(CpuRegisters { h: memory[self.registers.pc + 1], ..self.registers }, 2, 8)
    }

    /// Loads register C into register C.
    pub open spec fn ld_c_c(self) -> CpuView {
        self.executed(CpuRegisters { c: self.registers.c, ..self.registers }, 1, 4)
    }

    /// Loads register B into register H.
    pub open spec fn ld_h_b(self) -> CpuView {
        self.executed(CpuRegisters { h: self.registers.b, ..self.registers }, 1, 4)
    }

    /// Loads register A into register H.
    pub open spec fn ld_h_a(self) -> CpuView {
        self.executed(CpuRegisters { h: self.registers.a, ..self.registers }, 1, 4)
    }

    /// Loads register A into register L.
    pub open spec fn ld_l_a(self) -> CpuView {
        self.executed(CpuRegisters { l: self.registers.a, ..self.registers }, 1, 4)
    }

    /// The states in which `ld_e_n` runs without overflow.
    pub open spec fn ld_e_n_allowed(self, memory: Seq<u8>) -> bool {
        (self.registers.pc < 0xFFFF)
    }

    /// Loads the byte after the opcode into register E.
    pub open spec fn ld_e_n(self, memory: Seq<u8>) -> CpuView {
        self.executed(CpuRegisters { e: memory[self.registers.pc + 1], ..self.registers }, 2, 8)
    }

    /// The states in which `ld_hl_nn` runs without overflow.
    pub open spec fn ld_hl_nn_allowed(self, memory: Seq<u8>) -> bool {
        (self.registers.pc < 0xFFFE)
    }

    /// Loads the word after the opcode into HL: L from its first byte, H from its second.
    pub open spec fn ld_hl_nn(self, memory: Seq<u8>) -> CpuView {
        self.executed(CpuRegisters { l: memory[self.registers.pc + 1], h: memory[self.registers.pc + 2], ..self.registers }, 3, 12)
    }

    /// The states in which `ld_sp_nn` runs without overflow.
    pub open spec fn ld_sp_nn_allowed(self, memory: Seq<u8>) -> bool {
        (self.registers.pc < 0xFFFF)
    }

    /// Loads the word after the opcode into SP.
    pub open spec fn ld_sp_nn(self, memory: Seq<u8>) -> CpuView {
        self.executed(CpuRegisters { sp: immediate_word(memory, self.registers.pc), ..self.registers }, 3, 12)
    }

    /// The states in which `ld_a_n` runs without overflow.
    pub open spec fn ld_a_n_allowed(self, memory: Seq<u8>) -> bool {
        (self.registers.pc < 0xFFFF)
    }

    /// Loads the byte after the opcode into register A.
    pub open spec fn ld_a_n(self, memory: Seq<u8>) -> CpuView {
        self.executed(CpuRegisters { a: memory[self.registers.pc + 1], ..self.registers }, 2, 8)
    }

    /// The states in which `ld_l_n` runs without overflow.
    pub open spec fn ld_l_n_allowed(self, memory: Seq<u8>) -> bool {
        (self.registers.pc < 0xFFFF)
    }

    /// Loads the byte after the opcode into register L.
    pub open spec fn ld_l_n(self, memory: Seq<u8>) -> CpuView {
        self.executed(CpuRegisters { l: memory[self.registers.pc + 1], ..self.registers }, 2, 8)
    }

    /// Loads the byte at the address in HL into register B.
    pub open spec fn ld_b_mhl(self, memory: Seq<u8>) -> CpuView {
        self.executed(CpuRegisters { b: memory[self.registers.word(WordRegister::HL) as int], ..self.registers }, 1, 8)
    }

    /// Loads the byte at the address in HL into register C.
    pub open spec fn ld_c_mhl(self, memory: Seq<u8>) -> CpuView {
        self.executed(CpuRegisters { c: memory[self.registers.word(WordRegister::HL) as int], ..self.registers }, 1, 8)
    }

    /// Loads the byte at the address in HL into register D.
    pub open spec fn ld_d_mhl(self, memory: Seq<u8>) -> CpuView {
        self.executed(CpuRegisters { d: memory[self.registers.word(WordRegister::HL) as int], ..self.registers }, 1, 8)
    }

    /// Loads the byte at the address in HL into register L.
    pub open spec fn ld_l_mhl(self, memory: Seq<u8>) -> CpuView {
        self.executed(CpuRegisters { l: memory[self.registers.word(WordRegister::HL) as int], ..self.registers }, 1, 8)
    }

    /// Loads the byte at the address in HL into register H.
    pub open spec fn ld_h_mhl(self, memory: Seq<u8>) -> CpuView {
        self.executed(CpuRegisters { h: memory[self.registers.word(WordRegister::HL) as int], ..self.registers }, 1, 8)
    }

    /// Loads the byte at the address in DE into register A.
    pub open spec fn ld_a_mde(self, memory: Seq<u8>) -> CpuView {
        self.executed(CpuRegisters { a: memory[self.registers.word(WordRegister::DE) as int], ..self.registers }, 1, 8)
    }

    /// Loads the byte at the address in HL into register A.
    pub open spec fn ld_a_mhl(self, memory: Seq<u8>) -> CpuView {
        self.executed(CpuRegisters { a: memory[self.registers.word(WordRegister::HL) as int], ..self.registers }, 1, 8)
    }

    /// Loads register B into register A.
    pub open spec fn ld_a_b(self) -> CpuView {
        self.executed(CpuRegisters { a: self.registers.b, ..self.registers }, 1, 4)
    }

    /// Loads register C into register A.
    pub open spec fn ld_a_c(self) -> CpuView {
        self.executed(CpuRegisters { a: self.registers.c, ..self.registers }, 1, 4)
    }

    /// Loads register D into register A.
    pub open spec fn ld_a_d(self) -> CpuView {
        self.executed(CpuRegisters { a: self.registers.d, ..self.registers }, 1, 4)
    }

    /// Loads register E into register A.
    pub open spec fn ld_a_e(self) -> CpuView {
        self.executed(CpuRegisters { a: self.registers.e, ..self.registers }, 1, 4)
    }

    /// Loads register H into register A.
    pub open spec fn ld_a_h(self) -> CpuView {
        self.executed(CpuRegisters { a: self.registers.h, ..self.registers }, 1, 4)
    }

    /// Loads register L into register A.
    pub open spec fn ld_a_l(self) -> CpuView {
        self.executed(CpuRegisters { a: self.registers.l, ..self.registers }, 1, 4)
    }

    /// Loads register A into register B.
    pub open spec fn ld_b_a(self) -> CpuView {
        self.executed(CpuRegisters { b: self.registers.a, ..self.registers }, 1, 4)
    }

    /// Loads register A into register C.
    pub open spec fn ld_c_a(self) -> CpuView {
        self.executed(CpuRegisters { c: self.registers.a, ..self.registers }, 1, 4)
    }

    /// Loads register A into register D.
    pub open spec fn ld_d_a(self) -> CpuView {
        self.executed(CpuRegisters { d: self.registers.a, ..self.registers }, 1, 4)
    }

    /// Loads register A into register E.
    pub open spec fn ld_e_a(self) -> CpuView {
        self.executed(CpuRegisters { e: self.registers.a, ..self.registers }, 1, 4)
    }

    /// Loads the byte at the address in HL into register E.
    pub open spec fn ld_e_mhl(self, memory: Seq<u8>) -> CpuView {
        self.executed(CpuRegisters { e: memory[self.registers.word(WordRegister::HL) as int], ..self.registers }, 1, 8)
    }

    /// The states in which `ldh_n_a` runs without overflow.
    pub open spec fn ldh_n_a_allowed(self, memory: Seq<u8>) -> bool {
        (self.registers.pc < 0xFFFF)
    }

    /// Writes A to the address 0xFF00 plus the byte after the opcode.
    pub open spec fn ldh_n_a(self, memory: Seq<u8>) -> (CpuView, Seq<u8>) {
        (self.executed(self.registers, 2, 12), memory.update(0xFF00 + memory[self.registers.pc + 1], self.registers.a))
    }

    /// Writes A to the address 0xFF00 plus C.
    pub open spec fn ld_mc_a(self, memory: Seq<u8>) -> (CpuView, Seq<u8>) {
        (self.executed(self.registers, 1, 8), memory.update(0xFF00 + self.registers.c, self.registers.a))
    }

    /// The states in which `ldh_a_n` runs without overflow.
    pub open spec fn ldh_a_n_allowed(self, memory: Seq<u8>) -> bool {
        (self.registers.pc < 0xFFFF)
    }

    /// Loads into A the byte at the address 0xFF00 plus the byte after the opcode.
    pub open spec fn ldh_a_n(self, memory: Seq<u8>) -> (CpuView, Seq<u8>) {
        (self.executed(CpuRegisters { a: memory[0xFF00 + memory[self.registers.pc + 1]], ..self.registers }, 2, 12), memory)
    }

    /// The states in which `ld_nn_a` runs without overflow.
    pub open spec fn ld_nn_a_allowed(self, memory: Seq<u8>) -> bool {
        (self.registers.pc < 0xFFFF)
    }

    /// Writes A to the address given by the word after the opcode.
    pub open spec fn ld_nn_a(self, memory: Seq<u8>) -> (CpuView, Seq<u8>) {
        (self.executed(self.registers, 3, 16), memory.update(immediate_word(memory, self.registers.pc) as int, self.registers.a))
    }

    /// The states in which `ld_a_nn` runs without overflow.
    pub open spec fn ld_a_nn_allowed(self, memory: Seq<u8>) -> bool {
        (self.registers.pc < 0xFFFF)
    }

    /// Loads into A the byte at the address given by the word after the opcode.
    pub open spec fn ld_a_nn(self, memory: Seq<u8>) -> (CpuView, Seq<u8>) {
        (self.executed(CpuRegisters { a: memory[immediate_word(memory, self.registers.pc) as int], ..self.registers }, 3, 16), memory)
    }

    /// Writes A to the address in HL and decreases HL.
    pub open spec fn ldd_mhl_a(self, memory: Seq<u8>) -> (CpuView, Seq<u8>) {
        (self.executed(self.registers.with_word(WordRegister::HL, ((self.registers.word(WordRegister::HL) as int + 65535) % 65536) as u16), 1, 4), memory.update(self.registers.word(WordRegister::HL) as int, self.registers.a))
    }

    /// Writes A to the address in HL and increases HL.
    pub open spec fn ldi_mhl_a(self, memory: Seq<u8>) -> (CpuView, Seq<u8>) {
        (self.executed(self.registers.with_word(WordRegister::HL, ((self.registers.word(WordRegister::HL) as int + 1) % 65536) as u16), 1, 4), memory.update(self.registers.word(WordRegister::HL) as int, self.registers.a))
    }

    /// Writes register A to the address in BC.
    pub open spec fn ld_mbc_a(self, memory: Seq<u8>) -> (CpuView, Seq<u8>) {
        (self.executed(self.registers, 1, 8), memory.update(self.registers.word(WordRegister::BC) as int, self.registers.a))
    }

    /// Writes register A to the address in DE.
    pub open spec fn ld_mde_a(self, memory: Seq<u8>) -> (CpuView, Seq<u8>) {
        (self.executed(self.registers, 1, 8), memory.update(self.registers.word(WordRegister::DE) as int, self.registers.a))
    }

    /// Writes register A to the address in HL.
    pub open spec fn ld_mhl_a(self, memory: Seq<u8>) -> (CpuView, Seq<u8>) {
        (self.executed(self.registers, 1, 8), memory.update(self.registers.word(WordRegister::HL) as int, self.registers.a))
    }

    /// Writes register B to the address in HL.
    pub open spec fn ld_mhl_b(self, memory: Seq<u8>) -> (CpuView, Seq<u8>) {
        (self.executed(self.registers, 1, 8), memory.update(self.registers.word(WordRegister::HL) as int, self.registers.b))
    }

    /// Writes register C to the address in HL.
    pub open spec fn ld_mhl_c(self, memory: Seq<u8>) -> (CpuView, Seq<u8>) {
        (self.executed(self.registers, 1, 8), memory.update(self.registers.word(WordRegister::HL) as int, self.registers.c))
    }

    /// Writes register D to the address in HL.
    pub open spec fn ld_mhl_d(self, memory: Seq<u8>) -> (CpuView, Seq<u8>) {
        (self.executed(self.registers, 1, 8), memory.update(self.registers.word(WordRegister::HL) as int, self.registers.d))
    }

    /// The states in which `ld_mhl_n` runs without overflow.
    pub open spec fn ld_mhl_n_allowed(self, memory: Seq<u8>) -> bool {
        (self.registers.pc < 0xFFFF)
    }

    /// Writes the byte after the opcode to the address in HL.
    pub open spec fn ld_mhl_n(self, memory: Seq<u8>) -> (CpuView, Seq<u8>) {
        (self.executed(self.registers, 2, 12), memory.update(self.registers.word(WordRegister::HL) as int, memory[self.registers.pc + 1]))
    }

    /// Loads into A the byte at the address in HL and increases HL.
    pub open spec fn ldi_a_mhl(self, memory: Seq<u8>) -> CpuView {
        self.executed((CpuRegisters { a: memory[self.registers.word(WordRegister::HL) as int], ..self.registers }).with_word(WordRegister::HL, ((self.registers.word(WordRegister::HL) as int + 1) % 65536) as u16), 1, 8)
    }

    /// The states in which `ld_bc_nn` runs without overflow.
    pub open spec fn ld_bc_nn_allowed(self, memory: Seq<u8>) -> bool {
        (self.registers.pc < 0xFFFF)
    }

    /// Loads the word after the opcode into BC.
    pub open spec fn ld_bc_nn(self, memory: Seq<u8>) -> CpuView {
        self.executed(self.registers.with_word(WordRegister::BC, immediate_word(memory, self.registers.pc)), 3, 12)
    }

    /// The states in which `ld_de_nn` runs without overflow.
    pub open spec fn ld_de_nn_allowed(self, memory: Seq<u8>) -> bool {
        (self.registers.pc < 0xFFFF)
    }

    /// Loads the word after the opcode into DE.
    pub open spec fn ld_de_nn(self, memory: Seq<u8>) -> CpuView {
        self.executed(self.registers.with_word(WordRegister::DE, immediate_word(memory, self.registers.pc)), 3, 12)
    }

    /// The states in which `jr_n` runs without overflow.
    pub open spec fn jr_n_allowed(self, memory: Seq<u8>) -> bool {
        (self.registers.pc < 0xFFFF)
        && ((memory[self.registers.pc + 1] as i8) <= 125)
    }

    /// Jumps by the signed byte after the opcode, counted from the next instruction.
    pub open spec fn jr_n(self, memory: Seq<u8>) -> CpuView {
        self.executed(CpuRegisters { pc: relative_target(self.registers.pc + 2, (memory[self.registers.pc + 1] as i8)), ..self.registers }, 0, 12)
    }

    /// The states in which `jr_nz_n` runs without overflow.
    pub open spec fn jr_nz_n_allowed(self, memory: Seq<u8>) -> bool {
        (self.registers.pc < 0xFFFE)
        && (!self.registers.flag_z ==> relative_jump_in_range((self.registers.pc + 2) as u16, (memory[self.registers.pc + 1] as i8)))
    }

    /// Jumps by the signed byte after the opcode, counted from the next instruction, if Z is not set; otherwise goes on to the next instruction.
    pub open spec fn jr_nz_n(self, memory: Seq<u8>) -> CpuView {
        self.executed(CpuRegisters { pc: if !self.registers.flag_z { relative_target(self.registers.pc + 2, (memory[self.registers.pc + 1] as i8)) } else { (self.registers.pc + 2) as u16 }, ..self.registers }, 0, if !self.registers.flag_z { 12 } else { 8 })
    }

    /// The states in which `jr_z_n` runs without overflow.
    pub open spec fn jr_z_n_allowed(self, memory: Seq<u8>) -> bool {
        (self.registers.pc < 0xFFFE)
        && (self.registers.flag_z ==> relative_jump_in_range((self.registers.pc + 2) as u16, (memory[self.registers.pc + 1] as i8)))
    }

    /// Jumps by the signed byte after the opcode, counted from the next instruction, if Z is set; otherwise goes on to the next instruction.
    pub open spec fn jr_z_n(self, memory: Seq<u8>) -> CpuView {
        self.executed(CpuRegisters { pc: if self.registers.flag_z { relative_target(self.registers.pc + 2, (memory[self.registers.pc + 1] as i8)) } else { (self.registers.pc + 2) as u16 }, ..self.registers }, 0, if self.registers.flag_z { 12 } else { 8 })
    }

    /// The states in which `jr_c_n` runs without overflow.
    pub open spec fn jr_c_n_allowed(self, memory: Seq<u8>) -> bool {
        (self.registers.pc < 0xFFFE)
        && (self.registers.flag_c ==> relative_jump_in_range((self.registers.pc + 2) as u16, (memory[self.registers.pc + 1] as i8)))
    }

    /// Jumps by the signed byte after the opcode, counted from the next instruction, if C is set; otherwise goes on to the next instruction.
    pub open spec fn jr_c_n(self, memory: Seq<u8>) -> CpuView {
        self.executed(CpuRegisters { pc: if self.registers.flag_c { relative_target(self.registers.pc + 2, (memory[self.registers.pc + 1] as i8)) } else { (self.registers.pc + 2) as u16 }, ..self.registers }, 0, if self.registers.flag_c { 12 } else { 8 })
    }

    /// The states in which `jr_nc_n` runs without overflow.
    pub open spec fn jr_nc_n_allowed(self, memory: Seq<u8>) -> bool {
        (self.registers.pc < 0xFFFE)
        && (!self.registers.flag_c ==> relative_jump_in_range((self.registers.pc + 2) as u16, (memory[self.registers.pc + 1] as i8)))
    }

    /// Jumps by the signed byte after the opcode, counted from the next instruction, if C is not set; otherwise goes on to the next instruction.
    pub open spec fn jr_nc_n(self, memory: Seq<u8>) -> CpuView {
        self.executed(CpuRegisters { pc: if !self.registers.flag_c { relative_target(self.registers.pc + 2, (memory[self.registers.pc + 1] as i8)) } else { (self.registers.pc + 2) as u16 }, ..self.registers }, 0, if !self.registers.flag_c { 12 } else { 8 })
    }

    /// The states in which `jp_nn` runs without overflow.
    pub open spec fn jp_nn_allowed(self, memory: Seq<u8>) -> bool {
        (self.registers.pc < 0xFFFF)
    }

    /// Jumps to the address given by the word after the opcode.
    pub open spec fn jp_nn(self, memory: Seq<u8>) -> CpuView {
        self.executed(CpuRegisters { pc: immediate_word(memory, self.registers.pc), ..self.registers }, 0, 16)
    }

    /// Jumps to the address in HL.
    pub open spec fn jp_mhl(self) -> CpuView {
        self.executed(CpuRegisters { pc: self.registers.word(WordRegister::HL), ..self.registers }, 0, 4)
    }

    /// The states in which `jp_z_nn` runs without overflow.
    pub open spec fn jp_z_nn_allowed(self, memory: Seq<u8>) -> bool {
        (self.registers.pc < 0xFFFD)
    }

    /// Jumps to the address given by the word after the opcode if Z is set; otherwise goes on to the next instruction.
    pub open spec fn jp_z_nn(self, memory: Seq<u8>) -> CpuView {
        self.executed(CpuRegisters { pc: if self.registers.flag_z { immediate_word(memory, self.registers.pc) } else { (self.registers.pc + 3) as u16 }, ..self.registers }, 0, if self.registers.flag_z { 16 } else { 12 })
    }

    /// The states in which `call` runs without overflow.
    pub open spec fn call_allowed(self, memory: Seq<u8>) -> bool {
        (self.registers.pc < 0xFFFD)
        && (self.registers.sp >= 2)
    }

    /// Pushes the address of the next instruction and jumps to the address given by the word after the opcode, read once the push is done.
    pub open spec fn call(self, memory: Seq<u8>) -> (CpuView, Seq<u8>) {
        (self.executed(CpuRegisters { sp: (self.registers.sp - 2) as u16, pc: immediate_word(pushed(memory, self.registers.sp, (self.registers.pc + 3) as u16), self.registers.pc), ..self.registers }, 0, 24), pushed(memory, self.registers.sp, (self.registers.pc + 3) as u16))
    }

    /// The states in which `call_nz_nn` runs without overflow.
    pub open spec fn call_nz_nn_allowed(self, memory: Seq<u8>) -> bool {
        !self.registers.flag_z ==> (self.registers.pc < 0xFFFD && self.registers.sp >= 2)
    }

    /// If Z is not set, pushes the address of the next instruction and jumps to the address given by the word after the opcode; otherwise goes on to the next instruction.
    pub open spec fn call_nz_nn(self, memory: Seq<u8>) -> (CpuView, Seq<u8>) {
        (if self.registers.flag_z { self.executed(self.registers, 3, 12) } else { self.executed(CpuRegisters { sp: (self.registers.sp - 2) as u16, pc: immediate_word(pushed(memory, self.registers.sp, (self.registers.pc + 3) as u16), self.registers.pc), ..self.registers }, 0, 24) }, if self.registers.flag_z { memory } else { pushed(memory, self.registers.sp, (self.registers.pc + 3) as u16) })
    }

    /// The states in which `ret` runs without overflow.
    pub open spec fn ret_allowed(self, memory: Seq<u8>) -> bool {
        (self.registers.sp < 0xFFFE)
    }

    /// Pops the return address off the stack and jumps to it.
    pub open spec fn ret(self, memory: Seq<u8>) -> (CpuView, Seq<u8>) {
        (self.executed(CpuRegisters { pc: top_of_stack(memory, self.registers.sp), sp: (self.registers.sp + 2) as u16, ..self.registers }, 0, 16), memory)
    }

    /// The states in which `reti` runs without overflow.
    pub open spec fn reti_allowed(self, memory: Seq<u8>) -> bool {
        (self.registers.sp < 0xFFFE)
    }

    /// Pops the return address off the stack, jumps to it and enables interrupts.
    pub open spec fn reti(self, memory: Seq<u8>) -> (CpuView, Seq<u8>) {
        (CpuView { ime: true, ..self.executed(CpuRegisters { pc: top_of_stack(memory, self.registers.sp), sp: (self.registers.sp + 2) as u16, ..self.registers }, 0, 16) }, memory)
    }

    /// The states in which `ret_nz` runs without overflow.
    pub open spec fn ret_nz_allowed(self, memory: Seq<u8>) -> bool {
        (!self.registers.flag_z ==> self.registers.sp < 0xFFFE)
        && (!(!self.registers.flag_z) ==> self.registers.pc < 0xFFFF)
    }

    /// Returns if Z is not set; otherwise goes on to the next instruction.
    pub open spec fn ret_nz(self, memory: Seq<u8>) -> (CpuView, Seq<u8>) {
        (if !self.registers.flag_z { self.executed(CpuRegisters { pc: top_of_stack(memory, self.registers.sp), sp: (self.registers.sp + 2) as u16, ..self.registers }, 0, 20) } else { self.executed(CpuRegisters { pc: (self.registers.pc + 1) as u16, ..self.registers }, 0, 8) }, memory)
    }

    /// The states in which `ret_z` runs without overflow.
    pub open spec fn ret_z_allowed(self, memory: Seq<u8>) -> bool {
        (self.registers.flag_z ==> self.registers.sp < 0xFFFE)
        && (!(self.registers.flag_z) ==> self.registers.pc < 0xFFFF)
    }

    /// Returns if Z is set; otherwise goes on to the next instruction.
    pub open spec fn ret_z(self, memory: Seq<u8>) -> (CpuView, Seq<u8>) {
        (if self.registers.flag_z { self.executed(CpuRegisters { pc: top_of_stack(memory, self.registers.sp), sp: (self.registers.sp + 2) as u16, ..self.registers }, 0, 20) } else { self.executed(CpuRegisters { pc: (self.registers.pc + 1) as u16, ..self.registers }, 0, 8) }, memory)
    }

    /// The states in which `ret_nc` runs without overflow.
    pub open spec fn ret_nc_allowed(self, memory: Seq<u8>) -> bool {
        (!self.registers.flag_c ==> self.registers.sp < 0xFFFE)
        && (!(!self.registers.flag_c) ==> self.registers.pc < 0xFFFF)
    }

    /// Returns if C is not set; otherwise goes on to the next instruction.
    pub open spec fn ret_nc(self, memory: Seq<u8>) -> (CpuView, Seq<u8>) {
        (if !self.registers.flag_c { self.executed(CpuRegisters { pc: top_of_stack(memory, self.registers.sp), sp: (self.registers.sp + 2) as u16, ..self.registers }, 0, 20) } else { self.executed(CpuRegisters { pc: (self.registers.pc + 1) as u16, ..self.registers }, 0, 8) }, memory)
    }

    /// The states in which `rst_18` runs without overflow.
    pub open spec fn rst_18_allowed(self, memory: Seq<u8>) -> bool {
        (self.registers.pc < 0xFFFF)
        && (self.registers.sp >= 2)
    }

    /// Pushes the address of the next instruction and jumps to 0x18.
    pub open spec fn rst_18(self, memory: Seq<u8>) -> (CpuView, Seq<u8>) {
        (self.executed(CpuRegisters { sp: (self.registers.sp - 2) as u16, pc: 0x18, ..self.registers }, 0, 16), pushed(memory, self.registers.sp, (self.registers.pc + 1) as u16))
    }

    /// The states in which `rst_38` runs without overflow.
    pub open spec fn rst_38_allowed(self, memory: Seq<u8>) -> bool {
        (self.registers.pc < 0xFFFF)
        && (self.registers.sp >= 2)
    }

    /// Pushes the address of the next instruction and jumps to 0x38.
    pub open spec fn rst_38(self, memory: Seq<u8>) -> (CpuView, Seq<u8>) {
        (self.executed(CpuRegisters { sp: (self.registers.sp - 2) as u16, pc: 0x38, ..self.registers }, 0, 16), pushed(memory, self.registers.sp, (self.registers.pc + 1) as u16))
    }

    /// The states in which `rst_28` runs without overflow.
    pub open spec fn rst_28_allowed(self, memory: Seq<u8>) -> bool {
        (self.registers.pc < 0xFFFF)
        && (self.registers.sp >= 2)
    }

    /// Pushes the address of the next instruction and jumps to 0x28.
    pub open spec fn rst_28(self, memory: Seq<u8>) -> (CpuView, Seq<u8>) {
        (self.executed(CpuRegisters { sp: (self.registers.sp - 2) as u16, pc: 0x28, ..self.registers }, 0, 16), pushed(memory, self.registers.sp, (self.registers.pc + 1) as u16))
    }

    /// The states in which `push_hl` runs without overflow.
    pub open spec fn push_hl_allowed(self, memory: Seq<u8>) -> bool {
        (self.registers.sp >= 2)
    }

    /// Pushes HL on the stack.
    pub open spec fn push_hl(self, memory: Seq<u8>) -> (CpuView, Seq<u8>) {
        (self.executed(CpuRegisters { sp: (self.registers.sp - 2) as u16, ..self.registers }, 1, 16), pushed(memory, self.registers.sp, self.registers.word(WordRegister::HL)))
    }

    /// The states in which `push_bc` runs without overflow.
    pub open spec fn push_bc_allowed(self, memory: Seq<u8>) -> bool {
        (self.registers.sp >= 2)
    }

    /// Pushes BC on the stack.
    pub open spec fn push_bc(self, memory: Seq<u8>) -> (CpuView, Seq<u8>) {
        (self.executed(CpuRegisters { sp: (self.registers.sp - 2) as u16, ..self.registers }, 1, 16), pushed(memory, self.registers.sp, self.registers.word(WordRegister::BC)))
    }

    /// The states in which `push_af` runs without overflow.
    pub open spec fn push_af_allowed(self, memory: Seq<u8>) -> bool {
        (self.registers.sp >= 2)
    }

    /// Pushes AF on the stack.
    pub open spec fn push_af(self, memory: Seq<u8>) -> (CpuView, Seq<u8>) {
        (self.executed(CpuRegisters { sp: (self.registers.sp - 2) as u16, ..self.registers }, 1, 16), pushed(memory, self.registers.sp, self.registers.word(WordRegister::AF)))
    }

    /// The states in which `push_de` runs without overflow.
    pub open spec fn push_de_allowed(self, memory: Seq<u8>) -> bool {
        (self.registers.sp >= 2)
    }

    /// Pushes DE on the stack.
    pub open spec fn push_de(self, memory: Seq<u8>) -> (CpuView, Seq<u8>) {
        (self.executed(CpuRegisters { sp: (self.registers.sp - 2) as u16, ..self.registers }, 1, 16), pushed(memory, self.registers.sp, self.registers.word(WordRegister::DE)))
    }

    /// The states in which `pop_af` runs without overflow.
    pub open spec fn pop_af_allowed(self, memory: Seq<u8>) -> bool {
        (self.registers.sp < 0xFFFE)
    }

    /// Pops the word on top of the stack into AF (only the high four bits of F are kept).
    pub open spec fn pop_af(self, memory: Seq<u8>) -> (CpuView, Seq<u8>) {
        (self.executed((CpuRegisters { sp: (self.registers.sp + 2) as u16, ..self.registers }).with_word(WordRegister::AF, top_of_stack(memory, self.registers.sp)), 1, 12), memory)
    }

    /// The states in which `pop_bc` runs without overflow.
    pub open spec fn pop_bc_allowed(self, memory: Seq<u8>) -> bool {
        (self.registers.sp < 0xFFFE)
    }

    /// Pops the word on top of the stack into BC.
    pub open spec fn pop_bc(self, memory: Seq<u8>) -> (CpuView, Seq<u8>) {
        (self.executed((CpuRegisters { sp: (self.registers.sp + 2) as u16, ..self.registers }).with_word(WordRegister::BC, top_of_stack(memory, self.registers.sp)), 1, 12), memory)
    }

    /// The states in which `pop_de` runs without overflow.
    pub open spec fn pop_de_allowed(self, memory: Seq<u8>) -> bool {
        (self.registers.sp < 0xFFFE)
    }

    /// Pops the word on top of the stack into DE.
    pub open spec fn pop_de(self, memory: Seq<u8>) -> (CpuView, Seq<u8>) {
        (self.executed((CpuRegisters { sp: (self.registers.sp + 2) as u16, ..self.registers }).with_word(WordRegister::DE, top_of_stack(memory, self.registers.sp)), 1, 12), memory)
    }

    /// The states in which `pop_hl` runs without overflow.
    pub open spec fn pop_hl_allowed(self, memory: Seq<u8>) -> bool {
        (self.registers.sp < 0xFFFE)
    }

    /// Pops the word on top of the stack into HL.
    pub open spec fn pop_hl(self, memory: Seq<u8>) -> (CpuView, Seq<u8>) {
        (self.executed((CpuRegisters { sp: (self.registers.sp + 2) as u16, ..self.registers }).with_word(WordRegister::HL, top_of_stack(memory, self.registers.sp)), 1, 12), memory)
    }

    /// Rotates register C right through the carry flag; sets Z if the result is 0 and clears N and H.
    pub open spec fn rr_c(self) -> CpuView {
        self.executed(CpuRegisters { c: rotated_right(self.registers.c, self.registers.flag_c), ..self.registers.with_flags(rotated_right(self.registers.c, self.registers.flag_c) == 0, false, false, self.registers.c as int % 2 == 1) }, 2, 8)
    }

    /// Rotates register C left through the carry flag; sets Z if the result is 0 and clears N and H.
    pub open spec fn rl_c(self) -> CpuView {
        self.executed(CpuRegisters { c: rotated_left(self.registers.c, self.registers.flag_c), ..self.registers.with_flags(rotated_left(self.registers.c, self.registers.flag_c) == 0, false, false, self.registers.c >= 128) }, 2, 8)
    }

    /// Rotates A left through the carry flag; sets Z if the result is 0 and clears N and H.
    pub open spec fn rla(self) -> CpuView {
        self.executed(CpuRegisters { a: rotated_left(self.registers.a, self.registers.flag_c), ..self.registers.with_flags(rotated_left(self.registers.a, self.registers.flag_c) == 0, false, false, self.registers.a >= 128) }, 1, 4)
    }

    /// Rotates register D right through the carry flag; sets Z if the result is 0 and clears N and H.
    pub open spec fn rr_d(self) -> CpuView {
        self.executed(CpuRegisters { d: rotated_right(self.registers.d, self.registers.flag_c), ..self.registers.with_flags(rotated_right(self.registers.d, self.registers.flag_c) == 0, false, false, self.registers.d as int % 2 == 1) }, 2, 8)
    }

    /// Shifts register A right, keeping its bit 7 and moving bit 0 to the carry; sets Z if the result is 0 and clears N and H.
    pub open spec fn srl_a(self) -> CpuView {
        self.executed(CpuRegisters { a: shifted_right_keeping_top(self.registers.a), ..self.registers.with_flags(shifted_right_keeping_top(self.registers.a) == 0, false, false, self.registers.a as int % 2 == 1) }, 2, 8)
    }

    /// Shifts register B right, keeping its bit 7 and moving bit 0 to the carry; sets Z if the result is 0 and clears N and H.
    pub open spec fn srl_b(self) -> CpuView {
        self.executed(CpuRegisters { b: shifted_right_keeping_top(self.registers.b), ..self.registers.with_flags(shifted_right_keeping_top(self.registers.b) == 0, false, false, self.registers.b as int % 2 == 1) }, 2, 8)
    }

    /// Tests bit 7 of H: sets Z if it is 0, clears N, sets H.
    pub open spec fn bit_7_h(self) -> CpuView {
        self.executed(CpuRegisters { flag_z: self.registers.h < 128, flag_n: false, flag_h: true, ..self.registers }, 2, 8)
    }

    /// Swaps the nibbles of A.
    pub open spec fn swap_a(self) -> CpuView {
        self.executed(CpuRegisters { a: swap_spec(self.registers, self.registers.a).0, ..swap_spec(self.registers, self.registers.a).1 }, 2, 8)
    }

    /// Clears bit 0 of A.
    pub open spec fn res_0_a(self) -> CpuView {
        self.executed(CpuRegisters { a: self.registers.a & 0xFEu8, ..self.registers }, 2, 8)
    }

    /// Disables interrupts.
    pub open spec fn di(self) -> CpuView {
        CpuView { ime: false, ..self.executed(self.registers, 1, 4) }
    }

    /// Enables interrupts.
    pub open spec fn ei(self) -> CpuView {
        CpuView { ime: true, ..self.executed(self.registers, 1, 4) }
    }

    /// The states in which the instruction after a 0xCB prefix can run.
    pub open spec fn prefix_cb_allowed(self, memory: Seq<u8>) -> bool {
        self.registers.pc < 0xFFFF && cb_implemented(memory[self.registers.pc + 1])
    }

    /// Executes the instruction whose opcode follows a 0xCB prefix.
    pub open spec fn prefix_cb(self, memory: Seq<u8>) -> CpuView {
        let opcode = memory[self.registers.pc + 1];
        if opcode == 0x11 {
            self.rl_c()
        } else if opcode == 0x19 {
            self.rr_c()
        } else if opcode == 0x1A {
            self.rr_d()
        } else if opcode == 0x37 {
            self.swap_a()
        } else if opcode == 0x3F {
            self.srl_a()
        } else if opcode == 0x7C {
            self.bit_7_h()
        } else if opcode == 0x87 {
            self.res_0_a()
        } else if opcode == 0x38 {
            self.srl_b()
        } else {
            self
        }
    }
    /// This state as a step starts: no instruction counted yet.
    pub open spec fn started(self) -> Self {
        CpuView { pc_to_increment: -1i8, last_instruction_ccycles: -1i8, ..self }
    }

    /// The instruction at the program counter, executed, before the program counter
    /// moves on and its cycles are counted.
    pub open spec fn execute(self, memory: Seq<u8>) -> (CpuView, Seq<u8>) {
        let opcode = memory[self.registers.pc as int];
        if opcode == 0x00 {
            (self.nop(), memory)
        } else if opcode == 0x01 {
            (self.ld_bc_nn(memory), memory)
        } else if opcode == 0x02 {
            self.ld_mbc_a(memory)
        } else if opcode == 0x03 {
            (self.inc_bc(), memory)
        } else if opcode == 0x04 {
            (self.inc_b(), memory)
        } else if opcode == 0x05 {
            (self.dec_b(), memory)
        } else if opcode == 0x06 {
            (self.ld_b_n(memory), memory)
        } else if opcode == 0x0B {
            (self.dec_bc(), memory)
        } else if opcode == 0x0C {
            (self.inc_c(), memory)
        } else if opcode == 0x0D {
            (self.dec_c(), memory)
        } else if opcode == 0x0E {
            (self.ld_c_n(memory), memory)
        } else if opcode == 0x11 {
            (self.ld_de_nn(memory), memory)
        } else if opcode == 0x12 {
            self.ld_mde_a(memory)
        } else if opcode == 0x13 {
            (self.inc_de(), memory)
        } else if opcode == 0x14 {
            (self.inc_d(), memory)
        } else if opcode == 0x15 {
            (self.dec_d(), memory)
        } else if opcode == 0x16 {
            (self.ld_d_n(memory), memory)
        } else if opcode == 0x17 {
            (self.rla(), memory)
        } else if opcode == 0x18 {
            (self.jr_n(memory), memory)
        } else if opcode == 0x19 {
            (self.add_hl_de(), memory)
        } else if opcode == 0x1A {
            (self.ld_a_mde(memory), memory)
        } else if opcode == 0x1C {
            (self.inc_e(), memory)
        } else if opcode == 0x1D {
            (self.dec_e(), memory)
        } else if opcode == 0x1E {
            (self.ld_e_n(memory), memory)
        } else if opcode == 0x1F {
            (self.rra(), memory)
        } else if opcode == 0x20 {
            (self.jr_nz_n(memory), memory)
        } else if opcode == 0x21 {
            (self.ld_hl_nn(memory), memory)
        } else if opcode == 0x22 {
            self.ldi_mhl_a(memory)
        } else if opcode == 0x23 {
            (self.inc_hl(), memory)
        } else if opcode == 0x24 {
            (self.inc_h(), memory)
        } else if opcode == 0x25 {
            (self.dec_h(), memory)
        } else if opcode == 0x26 {
            (self.ld_h_n(memory), memory)
        } else if opcode == 0x28 {
            (self.jr_z_n(memory), memory)
        } else if opcode == 0x29 {
            (self.add_hl_hl(), memory)
        } else if opcode == 0x2A {
            (self.ldi_a_mhl(memory), memory)
        } else if opcode == 0x2C {
            (self.inc_l(), memory)
        } else if opcode == 0x2D {
            (self.dec_l(), memory)
        } else if opcode == 0x2E {
            (self.ld_l_n(memory), memory)
        } else if opcode == 0x2F {
            (self.cpl(), memory)
        } else if opcode == 0x30 {
            (self.jr_nc_n(memory), memory)
        } else if opcode == 0x31 {
            (self.ld_sp_nn(memory), memory)
        } else if opcode == 0x32 {
            self.ldd_mhl_a(memory)
        } else if opcode == 0x34 {
            self.inc_mhl(memory)
        } else if opcode == 0x35 {
            self.dec_mhl(memory)
        } else if opcode == 0x36 {
            self.ld_mhl_n(memory)
        } else if opcode == 0x37 {
            (self.scf(), memory)
        } else if opcode == 0x38 {
            (self.jr_c_n(memory), memory)
        } else if opcode == 0x3C {
            (self.inc_a(), memory)
        } else if opcode == 0x3D {
            (self.dec_a(), memory)
        } else if opcode == 0x3E {
            (self.ld_a_n(memory), memory)
        } else if opcode == 0x3F {
            (self.ccf(), memory)
        } else if opcode == 0x46 {
            (self.ld_b_mhl(memory), memory)
        } else if opcode == 0x47 {
            (self.ld_b_a(), memory)
        } else if opcode == 0x49 {
            (self.ld_c_c(), memory)
        } else if opcode == 0x4E {
            (self.ld_c_mhl(memory), memory)
        } else if opcode == 0x4F {
            (self.ld_c_a(), memory)
        } else if opcode == 0x56 {
            (self.ld_d_mhl(memory), memory)
        } else if opcode == 0x57 {
            (self.ld_d_a(), memory)
        } else if opcode == 0x5E {
            (self.ld_e_mhl(memory), memory)
        } else if opcode == 0x5F {
            (self.ld_e_a(), memory)
        } else if opcode == 0x60 {
            (self.ld_h_b(), memory)
        } else if opcode == 0x66 {
            (self.ld_h_mhl(memory), memory)
        } else if opcode == 0x67 {
            (self.ld_h_a(), memory)
        } else if opcode == 0x6E {
            (self.ld_l_mhl(memory), memory)
        } else if opcode == 0x6F {
            (self.ld_l_a(), memory)
        } else if opcode == 0x70 {
            self.ld_mhl_b(memory)
        } else if opcode == 0x71 {
            self.ld_mhl_c(memory)
        } else if opcode == 0x72 {
            self.ld_mhl_d(memory)
        } else if opcode == 0x77 {
            self.ld_mhl_a(memory)
        } else if opcode == 0x78 {
            (self.ld_a_b(), memory)
        } else if opcode == 0x79 {
            (self.ld_a_c(), memory)
        } else if opcode == 0x7A {
            (self.ld_a_d(), memory)
        } else if opcode == 0x7B {
            (self.ld_a_e(), memory)
        } else if opcode == 0x7C {
            (self.ld_a_h(), memory)
        } else if opcode == 0x7D {
            (self.ld_a_l(), memory)
        } else if opcode == 0x7E {
            (self.ld_a_mhl(memory), memory)
        } else if opcode == 0x86 {
            (self.add_a_mhl(memory), memory)
        } else if opcode == 0x87 {
            (self.add_a_a(), memory)
        } else if opcode == 0x89 {
            (self.adc_a_c(), memory)
        } else if opcode == 0x90 {
            (self.sub_b(), memory)
        } else if opcode == 0xA1 {
            (self.and_c(), memory)
        } else if opcode == 0xA7 {
            (self.and_a(), memory)
        } else if opcode == 0xA9 {
            (self.xor_c(), memory)
        } else if opcode == 0xAE {
            (self.xor_mhl(memory), memory)
        } else if opcode == 0xAF {
            (self.xor_a(), memory)
        } else if opcode == 0xB0 {
            (self.or_b(), memory)
        } else if opcode == 0xB1 {
            (self.or_c(), memory)
        } else if opcode == 0xB6 {
            (self.or_mhl(memory), memory)
        } else if opcode == 0xB7 {
            (self.or_a(), memory)
        } else if opcode == 0xBE {
            (self.cp_mhl(memory), memory)
        } else if opcode == 0xC0 {
            self.ret_nz(memory)
        } else if opcode == 0xC1 {
            self.pop_bc(memory)
        } else if opcode == 0xC3 {
            (self.jp_nn(memory), memory)
        } else if opcode == 0xC4 {
            self.call_nz_nn(memory)
        } else if opcode == 0xC5 {
            self.push_bc(memory)
        } else if opcode == 0xC6 {
            (self.add_a_n(memory), memory)
        } else if opcode == 0xC8 {
            self.ret_z(memory)
        } else if opcode == 0xC9 {
            self.ret(memory)
        } else if opcode == 0xCA {
            (self.jp_z_nn(memory), memory)
        } else if opcode == 0xCB {
            (self.prefix_cb(memory), memory)
        } else if opcode == 0xCD {
            self.call(memory)
        } else if opcode == 0xCE {
            (self.adc_a_n(memory), memory)
        } else if opcode == 0xD0 {
            self.ret_nc(memory)
        } else if opcode == 0xD1 {
            self.pop_de(memory)
        } else if opcode == 0xD5 {
            self.push_de(memory)
        } else if opcode == 0xD6 {
            (self.sub_n(memory), memory)
        } else if opcode == 0xD9 {
            self.reti(memory)
        } else if opcode == 0xDF {
            self.rst_18(memory)
        } else if opcode == 0xE0 {
            self.ldh_n_a(memory)
        } else if opcode == 0xE1 {
            self.pop_hl(memory)
        } else if opcode == 0xE2 {
            self.ld_mc_a(memory)
        } else if opcode == 0xE5 {
            self.push_hl(memory)
        } else if opcode == 0xE6 {
            (self.and_n(memory), memory)
        } else if opcode == 0xE9 {
            (self.jp_mhl(), memory)
        } else if opcode == 0xEA {
            self.ld_nn_a(memory)
        } else if opcode == 0xEE {
            (self.xor_n(memory), memory)
        } else if opcode == 0xEF {
            self.rst_28(memory)
        } else if opcode == 0xF0 {
            self.ldh_a_n(memory)
        } else if opcode == 0xF1 {
            self.pop_af(memory)
        } else if opcode == 0xF3 {
            (self.di(), memory)
        } else if opcode == 0xF5 {
            self.push_af(memory)
        } else if opcode == 0xF6 {
            (self.or_n(memory), memory)
        } else if opcode == 0xFA {
            self.ld_a_nn(memory)
        } else if opcode == 0xFB {
            (self.ei(), memory)
        } else if opcode == 0xFE {
            (self.cp_n(memory), memory)
        } else if opcode == 0xFF {
            self.rst_38(memory)
        } else {
            (self, memory)
        }
    }
    /// Whether the instruction at the program counter can run without overflow.
    pub open spec fn execute_allowed(self, memory: Seq<u8>) -> bool {
        let opcode = memory[self.registers.pc as int];
        if opcode == 0x00 {
            true
        } else if opcode == 0x01 {
            self.ld_bc_nn_allowed(memory)
        } else if opcode == 0x02 {
            true
        } else if opcode == 0x03 {
            true
        } else if opcode == 0x04 {
            true
        } else if opcode == 0x05 {
            true
        } else if opcode == 0x06 {
            self.ld_b_n_allowed(memory)
        } else if opcode == 0x0B {
            true
        } else if opcode == 0x0C {
            true
        } else if opcode == 0x0D {
            true
        } else if opcode == 0x0E {
            self.ld_c_n_allowed(memory)
        } else if opcode == 0x11 {
            self.ld_de_nn_allowed(memory)
        } else if opcode == 0x12 {
            true
        } else if opcode == 0x13 {
            true
        } else if opcode == 0x14 {
            true
        } else if opcode == 0x15 {
            true
        } else if opcode == 0x16 {
            self.ld_d_n_allowed(memory)
        } else if opcode == 0x17 {
            true
        } else if opcode == 0x18 {
            self.jr_n_allowed(memory)
        } else if opcode == 0x19 {
            true
        } else if opcode == 0x1A {
            true
        } else if opcode == 0x1C {
            true
        } else if opcode == 0x1D {
            true
        } else if opcode == 0x1E {
            self.ld_e_n_allowed(memory)
        } else if opcode == 0x1F {
            true
        } else if opcode == 0x20 {
            self.jr_nz_n_allowed(memory)
        } else if opcode == 0x21 {
            self.ld_hl_nn_allowed(memory)
        } else if opcode == 0x22 {
            true
        } else if opcode == 0x23 {
            true
        } else if opcode == 0x24 {
            true
        } else if opcode == 0x25 {
            true
        } else if opcode == 0x26 {
            self.ld_h_n_allowed(memory)
        } else if opcode == 0x28 {
            self.jr_z_n_allowed(memory)
        } else if opcode == 0x29 {
            true
        } else if opcode == 0x2A {
            true
        } else if opcode == 0x2C {
            true
        } else if opcode == 0x2D {
            true
        } else if opcode == 0x2E {
            self.ld_l_n_allowed(memory)
        } else if opcode == 0x2F {
            true
        } else if opcode == 0x30 {
            self.jr_nc_n_allowed(memory)
        } else if opcode == 0x31 {
            self.ld_sp_nn_allowed(memory)
        } else if opcode == 0x32 {
            true
        } else if opcode == 0x34 {
            true
        } else if opcode == 0x35 {
            true
        } else if opcode == 0x36 {
            self.ld_mhl_n_allowed(memory)
        } else if opcode == 0x37 {
            true
        } else if opcode == 0x38 {
            self.jr_c_n_allowed(memory)
        } else if opcode == 0x3C {
            true
        } else if opcode == 0x3D {
            true
        } else if opcode == 0x3E {
            self.ld_a_n_allowed(memory)
        } else if opcode == 0x3F {
            true
        } else if opcode == 0x46 {
            true
        } else if opcode == 0x47 {
            true
        } else if opcode == 0x49 {
            true
        } else if opcode == 0x4E {
            true
        } else if opcode == 0x4F {
            true
        } else if opcode == 0x56 {
            true
        } else if opcode == 0x57 {
            true
        } else if opcode == 0x5E {
            true
        } else if opcode == 0x5F {
            true
        } else if opcode == 0x60 {
            true
        } else if opcode == 0x66 {
            true
        } else if opcode == 0x67 {
            true
        } else if opcode == 0x6E {
            true
        } else if opcode == 0x6F {
            true
        } else if opcode == 0x70 {
            true
        } else if opcode == 0x71 {
            true
        } else if opcode == 0x72 {
            true
        } else if opcode == 0x77 {
            true
        } else if opcode == 0x78 {
            true
        } else if opcode == 0x79 {
            true
        } else if opcode == 0x7A {
            true
        } else if opcode == 0x7B {
            true
        } else if opcode == 0x7C {
            true
        } else if opcode == 0x7D {
            true
        } else if opcode == 0x7E {
            true
        } else if opcode == 0x86 {
            true
        } else if opcode == 0x87 {
            true
        } else if opcode == 0x89 {
            true
        } else if opcode == 0x90 {
            true
        } else if opcode == 0xA1 {
            true
        } else if opcode == 0xA7 {
            true
        } else if opcode == 0xA9 {
            true
        } else if opcode == 0xAE {
            true
        } else if opcode == 0xAF {
            true
        } else if opcode == 0xB0 {
            true
        } else if opcode == 0xB1 {
            true
        } else if opcode == 0xB6 {
            true
        } else if opcode == 0xB7 {
            true
        } else if opcode == 0xBE {
            true
        } else if opcode == 0xC0 {
            self.ret_nz_allowed(memory)
        } else if opcode == 0xC1 {
            self.pop_bc_allowed(memory)
        } else if opcode == 0xC3 {
            self.jp_nn_allowed(memory)
        } else if opcode == 0xC4 {
            self.call_nz_nn_allowed(memory)
        } else if opcode == 0xC5 {
            self.push_bc_allowed(memory)
        } else if opcode == 0xC6 {
            self.add_a_n_allowed(memory)
        } else if opcode == 0xC8 {
            self.ret_z_allowed(memory)
        } else if opcode == 0xC9 {
            self.ret_allowed(memory)
        } else if opcode == 0xCA {
            self.jp_z_nn_allowed(memory)
        } else if opcode == 0xCB {
            self.prefix_cb_allowed(memory)
        } else if opcode == 0xCD {
            self.call_allowed(memory)
        } else if opcode == 0xCE {
            self.adc_a_n_allowed(memory)
        } else if opcode == 0xD0 {
            self.ret_nc_allowed(memory)
        } else if opcode == 0xD1 {
            self.pop_de_allowed(memory)
        } else if opcode == 0xD5 {
            self.push_de_allowed(memory)
        } else if opcode == 0xD6 {
            self.sub_n_allowed(memory)
        } else if opcode == 0xD9 {
            self.reti_allowed(memory)
        } else if opcode == 0xDF {
            self.rst_18_allowed(memory)
        } else if opcode == 0xE0 {
            self.ldh_n_a_allowed(memory)
        } else if opcode == 0xE1 {
            self.pop_hl_allowed(memory)
        } else if opcode == 0xE2 {
            true
        } else if opcode == 0xE5 {
            self.push_hl_allowed(memory)
        } else if opcode == 0xE6 {
            self.and_n_allowed(memory)
        } else if opcode == 0xE9 {
            true
        } else if opcode == 0xEA {
            self.ld_nn_a_allowed(memory)
        } else if opcode == 0xEE {
            self.xor_n_allowed(memory)
        } else if opcode == 0xEF {
            self.rst_28_allowed(memory)
        } else if opcode == 0xF0 {
            self.ldh_a_n_allowed(memory)
        } else if opcode == 0xF1 {
            self.pop_af_allowed(memory)
        } else if opcode == 0xF3 {
            true
        } else if opcode == 0xF5 {
            self.push_af_allowed(memory)
        } else if opcode == 0xF6 {
            self.or_n_allowed(memory)
        } else if opcode == 0xFA {
            self.ld_a_nn_allowed(memory)
        } else if opcode == 0xFB {
            true
        } else if opcode == 0xFE {
            self.cp_n_allowed(memory)
        } else if opcode == 0xFF {
            self.rst_38_allowed(memory)
        } else {
            false
        }
    }
    /// The state after one step: the instruction at the program counter is executed,
    /// then the program counter moves on by what the instruction asks and its cycles are
    /// taken from those left in the frame.
    pub open spec fn step(self, memory: Seq<u8>) -> (CpuView, Seq<u8>) {
        let (v, m) = self.started().execute(memory);
        (
            CpuView {
                registers: CpuRegisters {
                    pc: (v.registers.pc + v.pc_to_increment) as u16,
                    ..v.registers
                },
                available_cycles: (v.available_cycles - v.last_instruction_ccycles) as i32,
                ..v
            },
            m,
        )
    }

    /// Whether one step can run: the opcode is implemented, its instruction runs without
    /// overflow, the program counter does not pass 0xFFFF and the cycle count stays an i32.
    pub open spec fn step_allowed(self, memory: Seq<u8>) -> bool {
        let (v, m) = self.started().execute(memory);
        &&& implemented(memory[self.registers.pc as int])
        &&& self.started().execute_allowed(memory)
        &&& v.registers.pc + v.pc_to_increment <= 0xFFFF
        &&& v.available_cycles - v.last_instruction_ccycles >= i32::MIN
    }
}

} // verus!
