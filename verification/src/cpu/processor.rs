//! The processor with its full instruction set, the 0xCB-prefixed instructions, the
//! halt state and the interrupt entry points.

use vstd::prelude::*;

use crate::bits::{lemma_bit_test, lemma_byte_bits, lemma_byte_shl, lemma_or_disjoint};
use crate::bus::address::Address;
use crate::cpu::alu::Alu;
use crate::cpu::instructions::{below, interrupt_acknowledged, opcode_implemented, stacked};
use crate::cpu::registers::{ByteRegister, CpuRegisters, WordRegister};
use crate::memory::Memory;

verus! {

/// Sign-extending and reinterpreting casts in arithmetic terms.
proof fn lemma_casts()
    by (bit_vector)
    ensures
        forall|x: i8| #![trigger (x as u16)] (x as u16) as int == if x < 0 { x as int + 65536 } else { x as int },
        forall|x: u16| #![trigger (x as i16)] (x as i16) as int == if x >= 0x8000 { x as int - 65536 } else { x as int },
        forall|x: i16| #![trigger (x as u16)] (x as u16) as int == if x < 0 { x as int + 65536 } else { x as int },
        forall|x: u8| #![trigger (x as i8)] (x as i8) as int == if x >= 0x80 { x as int - 256 } else { x as int },
        forall|x: i8| #![trigger (x as i16)] (x as i16) as int == x as int,
{
}

/// The low four bits of a byte.
fn low_nibble(value: u8) -> (r: u8)
    ensures
        r as int == value as int % 16,
{
    proof { lemma_byte_bits(); }
    value & 0x0fu8
}

/// Whether the processor executes the main opcode `opcode`.
pub fn is_implemented(opcode: u8) -> (r: bool)
    ensures
        r == opcode_implemented(opcode),
{
    !(opcode == 0xD3 || opcode == 0xDB || opcode == 0xDD || opcode == 0xE3 || opcode == 0xE4
        || opcode == 0xEB || opcode == 0xEC || opcode == 0xED || opcode == 0xF4 || opcode == 0xFC
        || opcode == 0xFD)
}

/// The processor.
pub struct Cpu {
    /// The registers.
    pub registers: CpuRegisters,
    /// The arithmetic and logic unit.
    pub alu: Alu,
    /// How far the program counter moves once the current instruction is done; -1
    /// while none has run.
    pub pc_to_increment: i8,
    /// The clock cycles the last instruction took.
    pub last_instruction_ccycles: u8,
    /// The interrupt master enable flag.
    pub ime: bool,
    /// Whether the processor waits for an interrupt.
    pub halted: bool,
}

impl Cpu {
    /// The clock cycles in one frame.
    pub const AVAILABLE_CCYCLES_PER_FRAME: i32 = 70221;

    /// A processor at power-up, with interrupts disabled and not halted.
    pub fn new(bootstrap: bool) -> (cpu: Cpu)
        ensures
            cpu.registers == (if bootstrap {
                CpuRegisters { pc: 0x0001, ..CpuRegisters::spec_default() }
            } else {
                CpuRegisters::spec_default()
            }),
            cpu.pc_to_increment == -1,
            cpu.last_instruction_ccycles == 0,
            !cpu.ime,
            !cpu.halted,
    {
        Cpu {
            registers: CpuRegisters::new(bootstrap),
            alu: Alu {},
            pc_to_increment: -1,
            last_instruction_ccycles: 0,
            ime: false,
            halted: false,
        }
    }

    /// Moves the program counter to the start of the cartridge program, 0x0100.
    pub fn reset(&mut self)
        ensures
            *final(self) == (Cpu { registers: CpuRegisters { pc: 0x100, ..old(self).registers }, ..*old(self) }),
    {
        self.registers.pc = 0x100;
    }

    // --- ARITHMETIC INSTRUCTIONS ---------------------------------------------------------

    fn nop(&mut self)
        ensures
            *final(self) == old(self).nop_spec(),
    {
        self.pc_to_increment = 1;
        self.last_instruction_ccycles = 4;
    }

    fn dec_r(&mut self, register: ByteRegister)
        ensures
            *final(self) == old(self).dec_r_spec(register),
    {
        let value: u8 = self.registers.read_byte(&register);
        let value: u8 = self.alu.dec_n(&mut self.registers, value);
        self.registers.write_byte(&register, value);

        self.pc_to_increment = 1;
        self.last_instruction_ccycles = 4;
    }

    fn dec_mhl(&mut self, memory: &mut Memory)
        requires
            old(memory).wf(),
        ensures
            (*final(self), final(memory)@) == old(self).dec_mhl_spec(old(memory)@),
            final(memory).wf(),
    {
        let pos: u16 = self.registers.read_word(&WordRegister::HL);
        let value: u8 = memory.read_8(pos);
        let value: u8 = self.alu.dec_n(&mut self.registers, value);
        memory.write_8(pos, value);

        self.pc_to_increment = 1;
        self.last_instruction_ccycles = 12;
    }

    fn dec_rr(&mut self, register: WordRegister)
        ensures
            *final(self) == old(self).dec_rr_spec(register),
    {
        let value: u16 = self.registers.read_word(&register);
        let value: u16 = self.alu.dec_nn(value);
        self.registers.write_word(&register, value);

        self.pc_to_increment = 1;
        self.last_instruction_ccycles = 8;
    }

    fn inc_rr(&mut self, register: WordRegister)
        ensures
            *final(self) == old(self).inc_rr_spec(register),
    {
        let value: u16 = self.registers.read_word(&register);
        let value: u16 = self.alu.inc_nn(value);
        self.registers.write_word(&register, value);

        self.pc_to_increment = 1;
        self.last_instruction_ccycles = 8;
    }

    fn inc_r(&mut self, register: ByteRegister)
        ensures
            *final(self) == old(self).inc_r_spec(register),
    {
        let value: u8 = self.registers.read_byte(&register);
        let value: u8 = self.alu.inc_n(&mut self.registers, value);
        self.registers.write_byte(&register, value);

        self.pc_to_increment = 1;
        self.last_instruction_ccycles = 4;
    }

    fn inc_mhl(&mut self, memory: &mut Memory)
        requires
            old(memory).wf(),
        ensures
            (*final(self), final(memory)@) == old(self).inc_mhl_spec(old(memory)@),
            final(memory).wf(),
    {
        let position: u16 = self.registers.read_word(&WordRegister::HL);
        let value: u8 = memory.read_8(position);
        let value: u8 = self.alu.inc_n(&mut self.registers, value);
        memory.write_8(position, value);

        self.pc_to_increment = 1;
        self.last_instruction_ccycles = 12;
    }

    fn adc_a_r(&mut self, register: ByteRegister)
        ensures
            *final(self) == old(self).adc_a_r_spec(register),
    {
        let value1: u8 = self.registers.read_byte(&ByteRegister::A);
        let value2: u8 = self.registers.read_byte(&register);

        let carry: bool = self.registers.is_flag_c();

        let result: u8 = self.alu.add_n(&mut self.registers, value1, value2, carry);

        self.registers.write_byte(&ByteRegister::A, result);

        self.pc_to_increment = 1;
        self.last_instruction_ccycles = 4;
    }

    fn adc_a_mhl(&mut self, memory: &Memory)
        requires
            memory.wf(),
        ensures
            *final(self) == old(self).adc_a_mhl_spec(memory@),
    {
        let value1: u8 = self.registers.read_byte(&ByteRegister::A);
        let value2: u8 = memory.read_8(self.registers.read_word(&WordRegister::HL));

        let carry: bool = self.registers.is_flag_c();

        let result: u8 = self.alu.add_n(&mut self.registers, value1, value2, carry);
        self.registers.write_byte(&ByteRegister::A, result);

        self.pc_to_increment = 1;
        self.last_instruction_ccycles = 8;
    }

    fn adc_a_n(&mut self, memory: &Memory)
        requires
            memory.wf(),
            old(self).pc_fits(1),
        ensures
            *final(self) == old(self).adc_a_n_spec(memory@),
    {
        let value1: u8 = self.registers.a;
        let value2: u8 = memory.read_8(self.registers.pc + 1);

        let carry: bool = self.registers.is_flag_c();

        let result: u8 = self.alu.add_n(&mut self.registers, value1, value2, carry);
        self.registers.a = result;

        self.pc_to_increment = 2;
        self.last_instruction_ccycles = 8;
    }

    fn add_a_r(&mut self, register_v: ByteRegister)
        ensures
            *final(self) == old(self).add_a_r_spec(register_v),
    {
        let value1: u8 = self.registers.read_byte(&ByteRegister::A);
        let value2: u8 = self.registers.read_byte(&register_v);

        let result: u8 = self.alu.add_n(&mut self.registers, value1, value2, false);
        self.registers.write_byte(&ByteRegister::A, result);

        self.pc_to_increment = 1;
        self.last_instruction_ccycles = 4;
    }

    fn add_a_n(&mut self, memory: &Memory)
        requires
            memory.wf(),
            old(self).pc_fits(1),
        ensures
            *final(self) == old(self).add_a_n_spec(memory@),
    {
        let value1: u8 = memory.read_8(self.registers.pc + 1);
        let value2: u8 = self.registers.read_byte(&ByteRegister::A);

        let result: u8 = self.alu.add_n(&mut self.registers, value1, value2, false);
        self.registers.write_byte(&ByteRegister::A, result);

        self.pc_to_increment = 2;
        self.last_instruction_ccycles = 8;
    }

    fn add_a_mhl(&mut self, memory: &Memory)
        requires
            memory.wf(),
        ensures
            *final(self) == old(self).add_a_mhl_spec(memory@),
    {
        let value1: u8 = memory.read_8(self.registers.read_word(&WordRegister::HL));
        let value2: u8 = self.registers.read_byte(&ByteRegister::A);

        let result: u8 = self.alu.add_n(&mut self.registers, value1, value2, false);
        self.registers.write_byte(&ByteRegister::A, result);

        self.pc_to_increment = 1;
        self.last_instruction_ccycles = 8;
    }

    fn add_hl_rr(&mut self, register: WordRegister)
        ensures
            *final(self) == old(self).add_hl_rr_spec(register),
    {
        let value1: u16 = self.registers.read_word(&WordRegister::HL);
        let value2: u16 = self.registers.read_word(&register);

        let result: u16 = self.alu.add_nn(&mut self.registers, value1, value2);
        self.registers.write_word(&WordRegister::HL, result);

        self.pc_to_increment = 1;
        self.last_instruction_ccycles = 8;
    }

    fn add_sp_n(&mut self, memory: &Memory)
        requires
            memory.wf(),
            old(self).pc_fits(1),
        ensures
            *final(self) == old(self).add_sp_n_spec(memory@),
    {
        let value1: u16 = self.registers.read_word(&WordRegister::SP);
        let value2: i8 = memory.read_8_signed(self.registers.read_word(&WordRegister::PC) + 1);

        let result: u16 = self.alu.add_nn_signed(&mut self.registers, value1, value2 as i16);
        self.registers.write_word(&WordRegister::SP, result);

        self.pc_to_increment = 2;
        self.last_instruction_ccycles = 16;
    }

    fn sub_n(&mut self, memory: &Memory)
        requires
            memory.wf(),
            old(self).pc_fits(1),
        ensures
            *final(self) == old(self).sub_n_spec(memory@),
    {
        let to_subtract: u8 = memory.read_8(self.registers.pc + 1);

        let value: u8 = self.registers.read_byte(&ByteRegister::A);

        let value: u8 = self.alu.sub_n(&mut self.registers, value, to_subtract, false);
        self.registers.write_byte(&ByteRegister::A, value);

        self.pc_to_increment = 2;
        self.last_instruction_ccycles = 8;
    }

    fn sub_r(&mut self, register: ByteRegister)
        ensures
            *final(self) == old(self).sub_r_spec(register),
    {
        let value: u8 = self.registers.read_byte(&ByteRegister::A);
        let to_subtract: u8 = self.registers.read_byte(&register);
        let value: u8 = self.alu.sub_n(&mut self.registers, value, to_subtract, false);
        self.registers.write_byte(&ByteRegister::A, value);

        self.pc_to_increment = 1;
        self.last_instruction_ccycles = 4;
    }

    fn sub_mhl(&mut self, memory: &Memory)
        requires
            memory.wf(),
        ensures
            *final(self) == old(self).sub_mhl_spec(memory@),
    {
        let value: u8 = self.registers.read_byte(&ByteRegister::A);

        let to_subtract: u8 = memory.read_8(self.registers.read_word(&WordRegister::HL));

        let value: u8 = self.alu.sub_n(&mut self.registers, value, to_subtract, false);
        self.registers.write_byte(&ByteRegister::A, value);

        self.pc_to_increment = 1;
        self.last_instruction_ccycles = 8;
    }

    fn sbc_r(&mut self, register: ByteRegister)
        ensures
            *final(self) == old(self).sbc_r_spec(register),
    {
        let value: u8 = self.registers.read_byte(&ByteRegister::A);
        let to_subtract: u8 = self.registers.read_byte(&register);

        let carry: bool = self.registers.is_flag_c();

        let value: u8 = self.alu.sub_n(&mut self.registers, value, to_subtract, carry);

        self.registers.write_byte(&ByteRegister::A, value);

        self.pc_to_increment = 1;
        self.last_instruction_ccycles = 4;
    }

    fn sbc_mhl(&mut self, memory: &Memory)
        requires
            memory.wf(),
        ensures
            *final(self) == old(self).sbc_mhl_spec(memory@),
    {
        let value: u8 = self.registers.read_byte(&ByteRegister::A);

        let to_subtract: u8 = memory.read_8(self.registers.read_word(&WordRegister::HL));

        let carry: bool = self.registers.is_flag_c();

        let value: u8 = self.alu.sub_n(&mut self.registers, value, to_subtract, carry);

        self.registers.write_byte(&ByteRegister::A, value);

        self.pc_to_increment = 1;
        self.last_instruction_ccycles = 8;
    }

    fn sbc_a_n(&mut self, memory: &Memory)
        requires
            memory.wf(),
            old(self).pc_fits(1),
        ensures
            *final(self) == old(self).sbc_a_n_spec(memory@),
    {
        let value1: u8 = self.registers.read_byte(&ByteRegister::A);
        let value2: u8 = memory.read_8(self.registers.read_word(&WordRegister::PC) + 1);

        let carry: bool = self.registers.is_flag_c();

        let result: u8 = self.alu.sub_n(&mut self.registers, value1, value2, carry);

        self.registers.write_byte(&ByteRegister::A, result);

        self.pc_to_increment = 2;
        self.last_instruction_ccycles = 8;
    }

    /// Rotates A right through the carry flag.
    #[verifier::rlimit(40)]
    fn rra(&mut self)
        ensures
            *final(self) == old(self).rra_spec(),
    {
        proof {
            lemma_byte_bits();
            lemma_or_disjoint();
        }
        let carry: bool = self.registers.is_flag_c();

        let value: u8 = self.registers.read_byte(&ByteRegister::A);

        let new_carry: bool = value & 0x1u8 == 1;
        let mut new_a: u8 = value >> 1u8;

        if carry {
            new_a = new_a | 0b10000000u8;
        } else {
            new_a = new_a & 0b01111111u8;
        }

        self.registers.write_byte(&ByteRegister::A, new_a);

        self.registers.write_byte(&ByteRegister::F, 0);
        self.registers.set_flag_c(new_carry);

        self.pc_to_increment = 1;
        self.last_instruction_ccycles = 4;
    }

    fn xor_r(&mut self, register: ByteRegister)
        ensures
            *final(self) == old(self).xor_r_spec(register),
    {
        let value1: u8 = self.registers.read_byte(&register);
        let mut result: u8 = self.registers.read_byte(&ByteRegister::A);

        result = result ^ value1;

        self.registers.set_flag_z(result == 0);
        self.registers.set_flag_n(false);
        self.registers.set_flag_h(false);
        self.registers.set_flag_c(false);

        self.registers.write_byte(&ByteRegister::A, result);

        self.pc_to_increment = 1;
        self.last_instruction_ccycles = 4;
    }

    fn xor_n(&mut self, memory: &Memory)
        requires
            memory.wf(),
            old(self).pc_fits(1),
        ensures
            *final(self) == old(self).xor_n_spec(memory@),
    {
        let value: u8 = memory.read_8(self.registers.pc + 1);
        let result: u8 = value ^ self.registers.read_byte(&ByteRegister::A);

        self.registers.set_flag_z(result == 0);
        self.registers.set_flag_n(false);
        self.registers.set_flag_h(false);
        self.registers.set_flag_c(false);

        self.registers.write_byte(&ByteRegister::A, result);

        self.pc_to_increment = 2;
        self.last_instruction_ccycles = 8;
    }

    /// Xors the byte at the address in HL into A; sets Z if the result is 0 and clears
    /// N, H and C.
    fn xor_mhl(&mut self, memory: &Memory)
        requires
            memory.wf(),
        ensures
            *final(self) == old(self).xor_mhl_spec(memory@),
    {
        let mut value: u8 = memory.read_8(self.registers.read_word(&WordRegister::HL));
        value = value ^ self.registers.read_byte(&ByteRegister::A);

        self.registers.set_flag_z(value == 0);
        self.registers.set_flag_n(false);
        self.registers.set_flag_h(false);
        self.registers.set_flag_c(false);

        self.registers.write_byte(&ByteRegister::A, value);

        self.pc_to_increment = 1;
        self.last_instruction_ccycles = 8;
    }

    fn or_r(&mut self, register: ByteRegister)
        ensures
            *final(self) == old(self).or_r_spec(register),
    {
        let value1: u8 = self.registers.read_byte(&register);
        let value2: u8 = self.registers.read_byte(&ByteRegister::A);

        let result: u8 = self.alu.or_n(&mut self.registers, value1, value2);

        self.registers.write_byte(&ByteRegister::A, result);

        self.pc_to_increment = 1;
        self.last_instruction_ccycles = 4;
    }

    fn or_mhl(&mut self, memory: &Memory)
        requires
            memory.wf(),
        ensures
            *final(self) == old(self).or_mhl_spec(memory@),
    {
        let value1: u8 = memory.read_8(self.registers.read_word(&WordRegister::HL));
        let value2: u8 = self.registers.read_byte(&ByteRegister::A);

        let result: u8 = self.alu.or_n(&mut self.registers, value1, value2);

        self.registers.write_byte(&ByteRegister::A, result);

        self.pc_to_increment = 1;
        self.last_instruction_ccycles = 8;
    }

    fn or_n(&mut self, memory: &Memory)
        requires
            memory.wf(),
            old(self).pc_fits(1),
        ensures
            *final(self) == old(self).or_n_spec(memory@),
    {
        let value1: u8 = memory.read_8(self.registers.pc + 1);
        let value2: u8 = self.registers.read_byte(&ByteRegister::A);

        let result: u8 = self.alu.or_n(&mut self.registers, value1, value2);

        self.registers.write_byte(&ByteRegister::A, result);

        self.pc_to_increment = 2;
        self.last_instruction_ccycles = 8;
    }

    fn and_r(&mut self, register: ByteRegister)
        ensures
            *final(self) == old(self).and_r_spec(register),
    {
        let value1: u8 = self.registers.read_byte(&register);
        let value2: u8 = self.registers.read_byte(&ByteRegister::A);

        let result: u8 = self.alu.and_n(&mut self.registers, value1, value2);

        self.registers.write_byte(&ByteRegister::A, result);

        self.pc_to_increment = 1;
        self.last_instruction_ccycles = 4;
    }

    fn and_mhl(&mut self, memory: &Memory)
        requires
            memory.wf(),
        ensures
            *final(self) == old(self).and_mhl_spec(memory@),
    {
        let value1: u8 = memory.read_8(self.registers.read_word(&WordRegister::HL));
        let value2: u8 = self.registers.read_byte(&ByteRegister::A);

        let result: u8 = self.alu.and_n(&mut self.registers, value1, value2);

        self.registers.write_byte(&ByteRegister::A, result);

        self.pc_to_increment = 1;
        self.last_instruction_ccycles = 8;
    }

    fn and_n(&mut self, memory: &Memory)
        requires
            memory.wf(),
            old(self).pc_fits(1),
        ensures
            *final(self) == old(self).and_n_spec(memory@),
    {
        let value1: u8 = memory.read_8(self.registers.pc + 1);
        let value2: u8 = self.registers.a;

        let result: u8 = self.alu.and_n(&mut self.registers, value1, value2);

        self.registers.a = result;

        self.pc_to_increment = 2;
        self.last_instruction_ccycles = 8;
    }

    fn cpl(&mut self)
        ensures
            *final(self) == old(self).cpl_spec(),
    {
        self.registers.set_flag_n(true);
        self.registers.set_flag_h(true);

        let value: u8 = !self.registers.read_byte(&ByteRegister::A);
        self.registers.write_byte(&ByteRegister::A, value);

        self.pc_to_increment = 1;
        self.last_instruction_ccycles = 4;
    }

    // --- FLAG INSTRUCTIONS ---------------------------------------------------------------

    fn scf(&mut self)
        ensures
            *final(self) == old(self).scf_spec(),
    {
        self.registers.set_flag_n(false);
        self.registers.set_flag_h(false);
        self.registers.set_flag_c(true);

        self.pc_to_increment = 1;
        self.last_instruction_ccycles = 4;
    }

    fn ccf(&mut self)
        ensures
            *final(self) == old(self).ccf_spec(),
    {
        self.registers.set_flag_n(false);
        self.registers.set_flag_h(false);
        let carry: bool = self.registers.is_flag_c();
        self.registers.set_flag_c(!carry);

        self.pc_to_increment = 1;
        self.last_instruction_ccycles = 4;
    }

    fn cp_r(&mut self, register: ByteRegister)
        ensures
            *final(self) == old(self).cp_r_spec(register),
    {
        let n: u8 = self.registers.read_byte(&register);

        self.alu.cp_n(&mut self.registers, n);

        self.pc_to_increment = 1;
        self.last_instruction_ccycles = 4;
    }

    fn cp_n(&mut self, memory: &Memory)
        requires
            memory.wf(),
            old(self).pc_fits(1),
        ensures
            *final(self) == old(self).cp_n_spec(memory@),
    {
        let n: u8 = memory.read_8(self.registers.pc + 1);

        self.alu.cp_n(&mut self.registers, n);

        self.pc_to_increment = 2;
        self.last_instruction_ccycles = 8;
    }

    fn cp_mhl(&mut self, memory: &Memory)
        requires
            memory.wf(),
        ensures
            *final(self) == old(self).cp_mhl_spec(memory@),
    {
        let n: u8 = memory.read_8(self.registers.read_word(&WordRegister::HL));

        self.alu.cp_n(&mut self.registers, n);

        self.pc_to_increment = 1;
        self.last_instruction_ccycles = 8;
    }

    // --- LOAD INSTRUCTIONS ---------------------------------------------------------------

    fn ld_r_n(&mut self, memory: &Memory, register: ByteRegister)
        requires
            memory.wf(),
            old(self).pc_fits(1),
        ensures
            *final(self) == old(self).ld_r_n_spec(memory@, register),
    {
        let value: u8 = memory.read_8(self.registers.read_word(&WordRegister::PC) + 1);
        self.registers.write_byte(&register, value);

        self.pc_to_increment = 2;
        self.last_instruction_ccycles = 8;
    }

    fn ld_r_r(&mut self, register_to: ByteRegister, register_from: ByteRegister)
        ensures
            *final(self) == old(self).ld_r_r_spec(register_to, register_from),
    {
        let value: u8 = self.registers.read_byte(&register_from);
        self.registers.write_byte(&register_to, value);

        self.pc_to_increment = 1;
        self.last_instruction_ccycles = 4;
    }

    fn ld_hl_sp_n(&mut self, memory: &Memory)
        requires
            memory.wf(),
            old(self).pc_fits(1),
        ensures
            *final(self) == old(self).ld_hl_sp_n_spec(memory@),
    {
        let add1: u16 = self.registers.read_word(&WordRegister::SP);
        let add2: i8 = memory.read_8_signed(self.registers.read_word(&WordRegister::PC) + 1);

        let new_value: u16 = self.alu.add_nn_signed(&mut self.registers, add1, add2 as i16);
        self.registers.write_word(&WordRegister::HL, new_value);

        self.pc_to_increment = 2;
        self.last_instruction_ccycles = 12;
    }

    fn ld_sp_hl(&mut self)
        ensures
            *final(self) == old(self).ld_sp_hl_spec(),
    {
        let new_value: u16 = self.registers.read_word(&WordRegister::HL);
        self.registers.write_word(&WordRegister::SP, new_value);

        self.pc_to_increment = 1;
        self.last_instruction_ccycles = 8;
    }

    fn ld_r_mrr(&mut self, memory: &Memory, register_to: ByteRegister, register_from: WordRegister)
        requires
            memory.wf(),
        ensures
            *final(self) == old(self).ld_r_mrr_spec(memory@, register_to, register_from),
    {
        let value: u8 = memory.read_8(self.registers.read_word(&register_from));
        self.registers.write_byte(&register_to, value);

        self.pc_to_increment = 1;
        self.last_instruction_ccycles = 8;
    }

    /// Writes A to 0xFF00 plus the byte after the opcode.
    fn ldh_n_a(&mut self, memory: &mut Memory)
        requires
            old(memory).wf(),
            old(self).pc_fits(1),
        ensures
            (*final(self), final(memory)@) == old(self).ldh_n_a_spec(old(memory)@),
            final(memory).wf(),
    {
        let to_sum: u16 = memory.read_8(self.registers.pc + 1) as u16;

        let mem_addr: u16 = Address::IO_REGISTERS_START + to_sum;

        memory.write_8(mem_addr, self.registers.a);

        self.pc_to_increment = 2;
        self.last_instruction_ccycles = 12;
    }

    /// Writes A to 0xFF00 plus C.
    fn ld_mc_a(&mut self, memory: &mut Memory)
        requires
            old(memory).wf(),
        ensures
            (*final(self), final(memory)@) == old(self).ld_mc_a_spec(old(memory)@),
            final(memory).wf(),
    {
        let mem_addr: u16 = Address::IO_REGISTERS_START + self.registers.read_byte(&ByteRegister::C) as u16;
        memory.write_8(mem_addr, self.registers.a);

        self.pc_to_increment = 1;
        self.last_instruction_ccycles = 8;
    }

    /// Loads the byte at 0xFF00 plus C into A.
    fn ld_a_mc(&mut self, memory: &Memory)
        requires
            memory.wf(),
        ensures
            *final(self) == old(self).ld_a_mc_spec(memory@),
    {
        let mem_addr: u16 = Address::IO_REGISTERS_START + self.registers.read_byte(&ByteRegister::C) as u16;

        self.registers.a = memory.read_8(mem_addr);

        self.pc_to_increment = 1;
        self.last_instruction_ccycles = 8;
    }

    /// Loads the byte at 0xFF00 plus the byte after the opcode into A.
    fn ldh_a_n(&mut self, memory: &Memory)
        requires
            memory.wf(),
            old(self).pc_fits(1),
        ensures
            *final(self) == old(self).ldh_a_n_spec(memory@),
    {
        let to_sum: u16 = memory.read_8(self.registers.pc + 1) as u16;

        let mem_addr: u16 = Address::IO_REGISTERS_START + to_sum;
        self.registers.a = memory.read_8(mem_addr);

        self.pc_to_increment = 2;
        self.last_instruction_ccycles = 12;
    }

    /// Writes A to the address after the opcode.
    fn ld_nn_a(&mut self, memory: &mut Memory)
        requires
            old(memory).wf(),
            old(self).pc_fits(1),
        ensures
            (*final(self), final(memory)@) == old(self).ld_nn_a_spec(old(memory)@),
            final(memory).wf(),
    {
        let mem_addr: u16 = memory.read_16(self.registers.pc + 1);

        memory.write_8(mem_addr, self.registers.a);

        self.pc_to_increment = 3;
        self.last_instruction_ccycles = 16;
    }

    /// Loads the byte at the address after the opcode into A.
    fn ld_a_nn(&mut self, memory: &Memory)
        requires
            memory.wf(),
            old(self).pc_fits(1),
        ensures
            *final(self) == old(self).ld_a_nn_spec(memory@),
    {
        let mem_addr: u16 = memory.read_16(self.registers.pc + 1);

        self.registers.a = memory.read_8(mem_addr);

        self.pc_to_increment = 3;
        self.last_instruction_ccycles = 16;
    }

    /// Writes A to the address in HL and decreases HL.
    fn ldd_mhl_a(&mut self, memory: &mut Memory)
        requires
            old(memory).wf(),
        ensures
            (*final(self), final(memory)@) == old(self).ldd_mhl_a_spec(old(memory)@),
            final(memory).wf(),
    {
        let pos: u16 = self.registers.read_word(&WordRegister::HL);
        memory.write_8(pos, self.registers.a);

        let value: u16 = self.alu.dec_nn(pos);
        self.registers.write_word(&WordRegister::HL, value);

        self.pc_to_increment = 1;
        self.last_instruction_ccycles = 8;
    }

    /// Writes A to the address in HL and increases HL.
    fn ldi_mhl_a(&mut self, memory: &mut Memory)
        requires
            old(memory).wf(),
        ensures
            (*final(self), final(memory)@) == old(self).ldi_mhl_a_spec(old(memory)@),
            final(memory).wf(),
    {
        let pos: u16 = self.registers.read_word(&WordRegister::HL);

        memory.write_8(pos, self.registers.a);

        let value: u16 = self.alu.inc_nn(pos);
        self.registers.write_word(&WordRegister::HL, value);

        self.pc_to_increment = 1;
        self.last_instruction_ccycles = 8;
    }

    fn ld_mrr_r(&mut self, memory: &mut Memory, register_to: WordRegister, register_from: ByteRegister)
        requires
            old(memory).wf(),
        ensures
            (*final(self), final(memory)@) == old(self).ld_mrr_r_spec(old(memory)@, register_to, register_from),
            final(memory).wf(),
    {
        let address: u16 = self.registers.read_word(&register_to);
        let value: u8 = self.registers.read_byte(&register_from);
        memory.write_8(address, value);

        self.pc_to_increment = 1;
        self.last_instruction_ccycles = 8;
    }

    /// Writes the byte after the opcode to the address in HL.
    fn ld_mhl_n(&mut self, memory: &mut Memory)
        requires
            old(memory).wf(),
            old(self).pc_fits(1),
        ensures
            (*final(self), final(memory)@) == old(self).ld_mhl_n_spec(old(memory)@),
            final(memory).wf(),
    {
        let value: u8 = memory.read_8(self.registers.pc + 1);

        memory.write_8(self.registers.read_word(&WordRegister::HL), value);

        self.pc_to_increment = 2;
        self.last_instruction_ccycles = 12;
    }

    fn ldi_a_mhl(&mut self, memory: &Memory)
        requires
            memory.wf(),
        ensures
            *final(self) == old(self).ldi_a_mhl_spec(memory@),
    {
        let mut new_value_hl: u16 = self.registers.read_word(&WordRegister::HL);

        let value: u8 = memory.read_8(new_value_hl);
        self.registers.a = value;

        new_value_hl = self.alu.inc_nn(new_value_hl);

        self.registers.write_word(&WordRegister::HL, new_value_hl);

        self.pc_to_increment = 1;
        self.last_instruction_ccycles = 8;
    }

    fn ldd_a_mhl(&mut self, memory: &Memory)
        requires
            memory.wf(),
        ensures
            *final(self) == old(self).ldd_a_mhl_spec(memory@),
    {
        let mut new_value_hl: u16 = self.registers.read_word(&WordRegister::HL);
        let value: u8 = memory.read_8(new_value_hl);
        self.registers.a = value;

        new_value_hl = self.alu.dec_nn(new_value_hl);

        self.registers.write_word(&WordRegister::HL, new_value_hl);

        self.pc_to_increment = 1;
        self.last_instruction_ccycles = 8;
    }

    fn ld_rr_nn(&mut self, memory: &Memory, register: WordRegister)
        requires
            memory.wf(),
            old(self).pc_fits(1),
        ensures
            *final(self) == old(self).ld_rr_nn_spec(memory@, register),
    {
        let value: u16 = memory.read_16(self.registers.pc + 1);
        self.registers.write_word(&register, value);

        self.pc_to_increment = 3;
        self.last_instruction_ccycles = 12;
    }

    fn ld_mnn_sp(&mut self, memory: &mut Memory)
        requires
            old(memory).wf(),
            old(self).pc_fits(1),
        ensures
            (*final(self), final(memory)@) == old(self).ld_mnn_sp_spec(old(memory)@),
            final(memory).wf(),
    {
        let mem_addr: u16 = memory.read_16(self.registers.read_word(&WordRegister::PC) + 1);

        let value: u16 = self.registers.read_word(&WordRegister::SP);
        memory.write_16(mem_addr, value);

        self.pc_to_increment = 3;
        self.last_instruction_ccycles = 20;
    }

    // --- JUMP INSTRUCTIONS ---------------------------------------------------------------

    /// Jumps by the signed byte after the opcode, counted from the next instruction.
    fn jr_n(&mut self, memory: &Memory)
        requires
            memory.wf(),
            old(self).jr_n_allowed(memory@),
        ensures
            *final(self) == old(self).jr_n_spec(memory@),
    {
        proof { lemma_casts(); }
        let to_sum: i8 = memory.read_8_signed(self.registers.pc + 1) + 2;

        self.registers.pc = self.registers.pc.wrapping_add(to_sum as u16);

        self.pc_to_increment = 0;
        self.last_instruction_ccycles = 12;
    }

    /// Jumps by the signed byte after the opcode if Z is clear; otherwise goes on to the
    /// next instruction.
    fn jr_nz_n(&mut self, memory: &Memory)
        requires
            memory.wf(),
            old(self).jr_if_allowed(memory@, !old(self).registers.flag_z),
        ensures
            *final(self) == old(self).jr_if(memory@, !old(self).registers.flag_z),
    {
        proof { lemma_casts(); }
        let possible_value: i8 = memory.read_8_signed(self.registers.pc + 1);

        self.registers.pc = self.registers.pc + 2;

        if !self.registers.is_flag_z() {
            self.registers.pc = (self.registers.pc as i16 + possible_value as i16) as u16;
            self.last_instruction_ccycles = 12;
        } else {
            self.last_instruction_ccycles = 8;
        }

        self.pc_to_increment = 0;
    }

    /// Jumps by the signed byte after the opcode if Z is set.
    fn jr_z_n(&mut self, memory: &Memory)
        requires
            memory.wf(),
            old(self).jr_if_allowed(memory@, old(self).registers.flag_z),
        ensures
            *final(self) == old(self).jr_if(memory@, old(self).registers.flag_z),
    {
        proof { lemma_casts(); }
        let possible_value: i8 = memory.read_8_signed(self.registers.pc + 1);

        self.registers.pc = self.registers.pc + 2;

        if self.registers.is_flag_z() {
            self.registers.pc = (self.registers.pc as i16 + possible_value as i16) as u16;
            self.last_instruction_ccycles = 12;
        } else {
            self.last_instruction_ccycles = 8;
        }

        self.pc_to_increment = 0;
    }

    /// Jumps by the signed byte after the opcode if C is set.
    fn jr_c_n(&mut self, memory: &Memory)
        requires
            memory.wf(),
            old(self).jr_if_allowed(memory@, old(self).registers.flag_c),
        ensures
            *final(self) == old(self).jr_if(memory@, old(self).registers.flag_c),
    {
        proof { lemma_casts(); }
        let possible_value: i8 = memory.read_8_signed(self.registers.pc + 1);

        self.registers.pc = self.registers.pc + 2;

        if self.registers.is_flag_c() {
            self.registers.pc = (self.registers.pc as i16 + possible_value as i16) as u16;
            self.last_instruction_ccycles = 12;
        } else {
            self.last_instruction_ccycles = 8;
        }

        self.pc_to_increment = 0;
    }

    /// Jumps by the signed byte after the opcode if C is clear.
    fn jr_nc_n(&mut self, memory: &Memory)
        requires
            memory.wf(),
            old(self).jr_if_allowed(memory@, !old(self).registers.flag_c),
        ensures
            *final(self) == old(self).jr_if(memory@, !old(self).registers.flag_c),
    {
        proof { lemma_casts(); }
        let possible_value: i8 = memory.read_8_signed(self.registers.pc + 1);

        self.registers.pc = self.registers.pc + 2;

        if !self.registers.is_flag_c() {
            self.registers.pc = (self.registers.pc as i16 + possible_value as i16) as u16;
            self.last_instruction_ccycles = 12;
        } else {
            self.last_instruction_ccycles = 8;
        }

        self.pc_to_increment = 0;
    }

    /// Jumps to the address after the opcode.
    fn jp_nn(&mut self, memory: &Memory)
        requires
            memory.wf(),
            old(self).pc_fits(1),
        ensures
            *final(self) == old(self).jp_nn_spec(memory@),
    {
        self.registers.pc = memory.read_16(self.registers.pc + 1);

        self.pc_to_increment = 0;
        self.last_instruction_ccycles = 16;
    }

    /// Jumps to the address in HL.
    fn jp_mhl(&mut self)
        ensures
            *final(self) == old(self).jp_mhl_spec(),
    {
        self.registers.pc = self.registers.read_word(&WordRegister::HL);

        self.pc_to_increment = 0;
        self.last_instruction_ccycles = 4;
    }

    /// Jumps to the address after the opcode if C is set.
    fn jp_c_nn(&mut self, memory: &Memory)
        requires
            memory.wf(),
            old(self).pc_fits(3),
        ensures
            *final(self) == old(self).jp_if(memory@, old(self).registers.flag_c),
    {
        let possible_value: u16 = memory.read_16(self.registers.pc + 1);

        self.registers.pc = self.registers.pc + 3;

        if self.registers.is_flag_c() {
            self.registers.pc = possible_value;
            self.last_instruction_ccycles = 16;
        } else {
            self.last_instruction_ccycles = 12;
        }

        self.pc_to_increment = 0;
    }

    /// Jumps to the address after the opcode if C is clear.
    fn jp_nc_nn(&mut self, memory: &Memory)
        requires
            memory.wf(),
            old(self).pc_fits(3),
        ensures
            *final(self) == old(self).jp_if(memory@, !old(self).registers.flag_c),
    {
        let possible_value: u16 = memory.read_16(self.registers.read_word(&WordRegister::PC) + 1);

        self.registers.pc = self.registers.pc + 3;

        if !self.registers.is_flag_c() {
            self.registers.write_word(&WordRegister::PC, possible_value);
            self.last_instruction_ccycles = 16;
        } else {
            self.last_instruction_ccycles = 12;
        }

        self.pc_to_increment = 0;
    }

    /// Jumps to the address after the opcode if Z is set.
    fn jp_z_nn(&mut self, memory: &Memory)
        requires
            memory.wf(),
            old(self).pc_fits(3),
        ensures
            *final(self) == old(self).jp_if(memory@, old(self).registers.flag_z),
    {
        let possible_value: u16 = memory.read_16(self.registers.pc + 1);

        self.registers.pc = self.registers.pc + 3;

        if self.registers.is_flag_z() {
            self.registers.pc = possible_value;
            self.last_instruction_ccycles = 16;
        } else {
            self.last_instruction_ccycles = 12;
        }

        self.pc_to_increment = 0;
    }

    /// Jumps to the address after the opcode if Z is clear.
    fn jp_nz_nn(&mut self, memory: &Memory)
        requires
            memory.wf(),
            old(self).pc_fits(3),
        ensures
            *final(self) == old(self).jp_if(memory@, !old(self).registers.flag_z),
    {
        let possible_value: u16 = memory.read_16(self.registers.pc + 1);

        self.registers.pc = self.registers.pc + 3;

        if !self.registers.is_flag_z() {
            self.registers.pc = possible_value;
            self.last_instruction_ccycles = 16;
        } else {
            self.last_instruction_ccycles = 12;
        }

        self.pc_to_increment = 0;
    }

    // --- FUNC INSTRUCTIONS ---------------------------------------------------------------

    /// Pushes the address of the next instruction and jumps to the address after the opcode.
    fn call(&mut self, memory: &mut Memory)
        requires
            old(memory).wf(),
            old(self).pc_fits(3),
        ensures
            (*final(self), final(memory)@) == old(self).call_spec(old(memory)@),
            final(memory).wf(),
    {
        let next_pc: u16 = self.registers.pc + 3;
        self.push_vv(memory, next_pc);

        self.registers.pc = memory.read_16(self.registers.pc + 1);

        self.pc_to_increment = 0;
        self.last_instruction_ccycles = 24;
    }

    /// Calls the address after the opcode if Z is set.
    fn call_z_nn(&mut self, memory: &mut Memory)
        requires
            old(memory).wf(),
            old(self).registers.flag_z ==> old(self).pc_fits(3),
        ensures
            (*final(self), final(memory)@) == old(self).call_if(old(memory)@, old(self).registers.flag_z),
            final(memory).wf(),
    {
        if !self.registers.is_flag_z() {
            self.pc_to_increment = 3;
            self.last_instruction_ccycles = 12;

            return;
        }

        self.call(memory);
    }

    /// Calls the address after the opcode if Z is clear.
    fn call_nz_nn(&mut self, memory: &mut Memory)
        requires
            old(memory).wf(),
            !old(self).registers.flag_z ==> old(self).pc_fits(3),
        ensures
            (*final(self), final(memory)@) == old(self).call_if(old(memory)@, !old(self).registers.flag_z),
            final(memory).wf(),
    {
        if self.registers.is_flag_z() {
            self.pc_to_increment = 3;
            self.last_instruction_ccycles = 12;

            return;
        }

        self.call(memory);
    }

    /// Calls the address after the opcode if C is set.
    fn call_c_nn(&mut self, memory: &mut Memory)
        requires
            old(memory).wf(),
            old(self).registers.flag_c ==> old(self).pc_fits(3),
        ensures
            (*final(self), final(memory)@) == old(self).call_if(old(memory)@, old(self).registers.flag_c),
            final(memory).wf(),
    {
        if !self.registers.is_flag_c() {
            self.pc_to_increment = 3;
            self.last_instruction_ccycles = 12;

            return;
        }

        self.call(memory);
    }

    /// Calls the address after the opcode if C is clear.
    fn call_nc_nn(&mut self, memory: &mut Memory)
        requires
            old(memory).wf(),
            !old(self).registers.flag_c ==> old(self).pc_fits(3),
        ensures
            (*final(self), final(memory)@) == old(self).call_if(old(memory)@, !old(self).registers.flag_c),
            final(memory).wf(),
    {
        if self.registers.is_flag_c() {
            self.pc_to_increment = 3;
            self.last_instruction_ccycles = 12;

            return;
        }

        self.call(memory);
    }

    /// Pops the return address into the program counter.
    fn ret(&mut self, memory: &Memory)
        requires
            memory.wf(),
        ensures
            *final(self) == old(self).ret_spec(memory@),
    {
        self.registers.pc = self.pop_vv(memory);

        self.pc_to_increment = 0;
        self.last_instruction_ccycles = 16;
    }

    /// Returns and enables interrupts.
    fn reti(&mut self, memory: &Memory)
        requires
            memory.wf(),
        ensures
            *final(self) == old(self).reti_spec(memory@),
    {
        self.registers.pc = self.pop_vv(memory);

        self.ime = true;

        self.pc_to_increment = 0;
        self.last_instruction_ccycles = 16;
    }

    /// Returns if Z is clear.
    fn ret_nz(&mut self, memory: &Memory)
        requires
            memory.wf(),
            old(self).registers.flag_z ==> old(self).pc_fits(1),
        ensures
            *final(self) == old(self).ret_if(memory@, !old(self).registers.flag_z),
    {
        if !self.registers.is_flag_z() {
            self.registers.pc = self.pop_vv(memory);
            self.last_instruction_ccycles = 20;
        } else {
            self.registers.pc = self.registers.pc + 1;
            self.last_instruction_ccycles = 8;
        }

        self.pc_to_increment = 0;
    }

    /// Returns if Z is set.
    fn ret_z(&mut self, memory: &Memory)
        requires
            memory.wf(),
            !old(self).registers.flag_z ==> old(self).pc_fits(1),
        ensures
            *final(self) == old(self).ret_if(memory@, old(self).registers.flag_z),
    {
        if self.registers.is_flag_z() {
            self.registers.pc = self.pop_vv(memory);
            self.last_instruction_ccycles = 20;
        } else {
            self.registers.pc = self.registers.pc + 1;
            self.last_instruction_ccycles = 8;
        }

        self.pc_to_increment = 0;
    }

    /// Returns if C is clear.
    fn ret_nc(&mut self, memory: &Memory)
        requires
            memory.wf(),
            old(self).registers.flag_c ==> old(self).pc_fits(1),
        ensures
            *final(self) == old(self).ret_if(memory@, !old(self).registers.flag_c),
    {
        if !self.registers.is_flag_c() {
            self.registers.pc = self.pop_vv(memory);
            self.last_instruction_ccycles = 20;
        } else {
            self.registers.pc = self.registers.pc + 1;
            self.last_instruction_ccycles = 8;
        }

        self.pc_to_increment = 0;
    }

    /// Returns if C is set.
    fn ret_c(&mut self, memory: &Memory)
        requires
            memory.wf(),
            !old(self).registers.flag_c ==> old(self).pc_fits(1),
        ensures
            *final(self) == old(self).ret_if(memory@, old(self).registers.flag_c),
    {
        if self.registers.is_flag_c() {
            self.registers.pc = self.pop_vv(memory);
            self.last_instruction_ccycles = 20;
        } else {
            self.registers.pc = self.registers.pc + 1;
            self.last_instruction_ccycles = 8;
        }

        self.pc_to_increment = 0;
    }

    // --- RESTART INSTRUCTIONS ------------------------------------------------------------

    fn rst_v_w_out(&mut self, memory: &mut Memory, value: u8)
        requires
            old(memory).wf(),
            old(self).pc_fits(1),
        ensures
            (*final(self), final(memory)@) == old(self).rst_spec(old(memory)@, value),
            final(memory).wf(),
    {
        self.rst_v(memory, value)
    }

    // --- STACK INSTRUCTIONS --------------------------------------------------------------

    fn push_rr(&mut self, memory: &mut Memory, register: WordRegister)
        requires
            old(memory).wf(),
        ensures
            (*final(self), final(memory)@) == old(self).push_rr_spec(old(memory)@, register),
            final(memory).wf(),
    {
        let reg: u16 = self.registers.read_word(&register);
        self.push_vv(memory, reg);

        self.pc_to_increment = 1;
        self.last_instruction_ccycles = 16;
    }

    fn pop_rr(&mut self, memory: &Memory, register: WordRegister)
        requires
            memory.wf(),
        ensures
            *final(self) == old(self).pop_rr_spec(memory@, register),
    {
        let popped: u16 = self.pop_vv(memory);
        self.registers.write_word(&register, popped);

        self.pc_to_increment = 1;
        self.last_instruction_ccycles = 12;
    }

    // --- INTERNAL ------------------------------------------------------------------------

    /// Pushes a word: SP goes down by two, modulo 65536, and the word is written there.
    fn push_vv(&mut self, memory: &mut Memory, value: u16)
        requires
            old(memory).wf(),
        ensures
            final(memory)@ == stacked(old(memory)@, old(self).registers.sp, value),
            final(memory).wf(),
            *final(self) == (Cpu {
                registers: CpuRegisters { sp: below(old(self).registers.sp), ..old(self).registers },
                ..*old(self)
            }),
    {
        let new_sp: u16 = self.registers.sp.wrapping_sub(2);

        memory.write_16(new_sp, value);

        self.registers.sp = new_sp;
    }

    /// Pops a word: it is read at SP, and SP goes up by two, modulo 65536.
    fn pop_vv(&mut self, memory: &Memory) -> (value: u16)
        requires
            memory.wf(),
        ensures
            value == crate::cpu::semantics::top_of_stack(memory@, old(self).registers.sp),
            *final(self) == (Cpu {
                registers: CpuRegisters {
                    sp: crate::cpu::instructions::above(old(self).registers.sp),
                    ..old(self).registers
                },
                ..*old(self)
            }),
    {
        let value: u16 = memory.read_16(self.registers.sp);

        self.registers.sp = self.registers.sp.wrapping_add(2);

        value
    }

    /// Pushes the address of the next instruction and jumps to `value`.
    fn rst_v(&mut self, memory: &mut Memory, value: u8)
        requires
            old(memory).wf(),
            old(self).pc_fits(1),
        ensures
            (*final(self), final(memory)@) == old(self).rst_spec(old(memory)@, value),
            final(memory).wf(),
    {
        let next: u16 = self.registers.pc + 1;
        self.push_vv(memory, next);

        self.registers.pc = value as u16;

        self.pc_to_increment = 0;
        self.last_instruction_ccycles = 16;
    }

    /// Disables interrupts, pushes the program counter and jumps to `new_address`.
    fn interrupt_vv(&mut self, memory: &mut Memory, new_address: u16)
        requires
            old(memory).wf(),
        ensures
            (*final(self), final(memory)@) == old(self).interrupt_spec(old(memory)@, new_address),
            final(memory).wf(),
    {
        self.ime = false;
        let pc: u16 = self.registers.pc;
        self.push_vv(memory, pc);
        self.registers.pc = new_address;
    }

    // --- ROTATIONS AND SHIFTS ------------------------------------------------------------

    #[verifier::rlimit(40)]
    fn rr_r(&mut self, register: ByteRegister)
        ensures
            *final(self) == old(self).rr_r_spec(register),
    {
        proof {
            lemma_byte_bits();
            lemma_or_disjoint();
        }
        let mut value: u8 = self.registers.read_byte(&register);

        let carry: bool = value & 0b1u8 == 1;
        let msf: u8 = if self.registers.is_flag_c() { 0b10000000 } else { 0 };

        value = msf | ((value >> 1u8) & 0b01111111u8);

        self.registers.set_flag_z(value == 0);
        self.registers.set_flag_c(carry);
        self.registers.set_flag_h(false);
        self.registers.set_flag_n(false);

        self.registers.write_byte(&register, value);

        self.pc_to_increment = 2;
        self.last_instruction_ccycles = 8;
    }

    #[verifier::rlimit(40)]
    fn rr_mhl(&mut self, memory: &mut Memory)
        requires
            old(memory).wf(),
        ensures
            (*final(self), final(memory)@) == old(self).rr_mhl_spec(old(memory)@),
            final(memory).wf(),
    {
        proof {
            lemma_byte_bits();
            lemma_or_disjoint();
        }
        let address: u16 = self.registers.read_word(&WordRegister::HL);

        let mut value: u8 = memory.read_8(address);

        let carry: bool = value & 0b1u8 == 1;
        let msf: u8 = if self.registers.is_flag_c() { 0b10000000 } else { 0 };

        value = msf | ((value >> 1u8) & 0b01111111u8);

        self.registers.set_flag_z(value == 0);
        self.registers.set_flag_c(carry);
        self.registers.set_flag_h(false);
        self.registers.set_flag_n(false);

        memory.write_8(address, value);

        self.pc_to_increment = 2;
        self.last_instruction_ccycles = 16;
    }

    #[verifier::rlimit(40)]
    fn rl_r(&mut self, register: ByteRegister)
        ensures
            *final(self) == old(self).rl_r_spec(register),
    {
        proof {
            lemma_byte_shl();
            lemma_or_disjoint();
        }
        let mut value: u8 = self.registers.read_byte(&register);
        let new_carry: bool = value & 0b10000000u8 == 0b10000000u8;
        let carry_bit: u8 = if self.registers.is_flag_c() { 1 } else { 0 };

        value = (value << 1u8) | (0x1u8 & carry_bit);

        self.registers.write_byte(&register, value);

        self.registers.set_flag_z(value == 0);
        self.registers.set_flag_c(new_carry);
        self.registers.set_flag_h(false);
        self.registers.set_flag_n(false);

        self.pc_to_increment = 2;
        self.last_instruction_ccycles = 8;
    }

    #[verifier::rlimit(40)]
    fn rl_mhl(&mut self, memory: &mut Memory)
        requires
            old(memory).wf(),
        ensures
            (*final(self), final(memory)@) == old(self).rl_mhl_spec(old(memory)@),
            final(memory).wf(),
    {
        proof {
            lemma_byte_bits();
            lemma_byte_shl();
            lemma_or_disjoint();
        }
        let address: u16 = self.registers.read_word(&WordRegister::HL);

        let mut value: u8 = memory.read_8(address);
        let new_carry: bool = value & 0b10000000u8 == 0b10000000u8;
        let carry_bit: u8 = if self.registers.is_flag_c() { 1 } else { 0 };

        value = (value << 1u8) | (0x1u8 & carry_bit);

        memory.write_8(address, value);

        self.registers.set_flag_z(value == 0);
        self.registers.set_flag_c(new_carry);
        self.registers.set_flag_h(false);
        self.registers.set_flag_n(false);

        self.pc_to_increment = 2;
        self.last_instruction_ccycles = 16;
    }

    /// Rotates A left through the carry flag.
    #[verifier::rlimit(40)]
    fn rla(&mut self)
        ensures
            *final(self) == old(self).rla_spec(),
    {
        proof {
            lemma_byte_bits();
            lemma_byte_shl();
            lemma_or_disjoint();
        }
        let new_carry: bool = self.registers.a & 0b10000000u8 == 0b10000000u8;
        let carry_bit: u8 = if self.registers.is_flag_c() { 1 } else { 0 };

        self.registers.a = self.registers.a << 1u8;
        self.registers.a = self.registers.a | (0b00000001u8 & carry_bit);

        self.registers.set_flag_z(false);
        self.registers.set_flag_c(new_carry);
        self.registers.set_flag_h(false);
        self.registers.set_flag_n(false);

        self.pc_to_increment = 1;
        self.last_instruction_ccycles = 4;
    }

    #[verifier::rlimit(40)]
    fn rlc_r(&mut self, register: ByteRegister)
        ensures
            *final(self) == old(self).rlc_r_spec(register),
    {
        proof {
            lemma_byte_bits();
            lemma_byte_shl();
            lemma_or_disjoint();
        }
        let mut value: u8 = self.registers.read_byte(&register);
        let new_carry: bool = value & 0b10000000u8 == 0b10000000u8;
        let carry_bit: u8 = if new_carry { 1 } else { 0 };

        value = value << 1u8;
        value = value | carry_bit;

        self.registers.set_flag_z(value == 0);
        self.registers.set_flag_n(false);
        self.registers.set_flag_h(false);
        self.registers.set_flag_c(new_carry);

        self.registers.write_byte(&register, value);

        self.pc_to_increment = 2;
        self.last_instruction_ccycles = 8;
    }

    #[verifier::rlimit(40)]
    fn rlc_mrr(&mut self, memory: &mut Memory, register: WordRegister)
        requires
            old(memory).wf(),
        ensures
            (*final(self), final(memory)@) == old(self).rlc_mrr_spec(old(memory)@, register),
            final(memory).wf(),
    {
        proof {
            lemma_byte_bits();
            lemma_byte_shl();
            lemma_or_disjoint();
        }
        let address: u16 = self.registers.read_word(&register);
        let mut value: u8 = memory.read_8(address);
        let new_carry: bool = value & 0b10000000u8 == 0b10000000u8;
        let carry_bit: u8 = if new_carry { 1 } else { 0 };

        value = value << 1u8;
        value = value | carry_bit;

        self.registers.set_flag_z(value == 0);
        self.registers.set_flag_n(false);
        self.registers.set_flag_h(false);
        self.registers.set_flag_c(new_carry);

        memory.write_8(address, value);

        self.pc_to_increment = 2;
        self.last_instruction_ccycles = 16;
    }

    #[verifier::rlimit(40)]
    fn rlca(&mut self)
        ensures
            *final(self) == old(self).rlca_spec(),
    {
        proof {
            lemma_byte_bits();
            lemma_byte_shl();
            lemma_or_disjoint();
        }
        let mut value: u8 = self.registers.read_byte(&ByteRegister::A);
        let new_carry: bool = value & 0b10000000u8 == 0b10000000u8;
        let carry_bit: u8 = if new_carry { 1 } else { 0 };

        value = value << 1u8;
        value = value | carry_bit;

        self.registers.set_flag_z(false);
        self.registers.set_flag_c(new_carry);
        self.registers.set_flag_h(false);
        self.registers.set_flag_n(false);

        self.registers.write_byte(&ByteRegister::A, value);

        self.pc_to_increment = 1;
        self.last_instruction_ccycles = 4;
    }

    #[verifier::rlimit(40)]
    fn rrc_r(&mut self, register: ByteRegister, set_zero: bool)
        ensures
            *final(self) == old(self).rrc_r_spec(register, set_zero),
    {
        proof {
            lemma_byte_bits();
            lemma_or_disjoint();
        }
        let mut value: u8 = self.registers.read_byte(&register);
        let new_carry: bool = value & 0x1u8 == 0x1u8;
        let carry_bit: u8 = if new_carry { 0x80 } else { 0 };

        value = value >> 1u8;
        value = value | carry_bit;

        self.registers.set_flag_z(if set_zero { value == 0 } else { false });
        self.registers.set_flag_c(new_carry);
        self.registers.set_flag_h(false);
        self.registers.set_flag_n(false);

        self.registers.write_byte(&register, value);

        self.pc_to_increment = if set_zero { 2 } else { 1 };
        self.last_instruction_ccycles = if set_zero { 8 } else { 4 };
    }

    #[verifier::rlimit(40)]
    fn rrc_mhl(&mut self, memory: &mut Memory)
        requires
            old(memory).wf(),
        ensures
            (*final(self), final(memory)@) == old(self).rrc_mhl_spec(old(memory)@),
            final(memory).wf(),
    {
        proof {
            lemma_byte_bits();
            lemma_or_disjoint();
        }
        let address: u16 = self.registers.read_word(&WordRegister::HL);
        let mut value: u8 = memory.read_8(address);

        let new_carry: bool = value & 0x1u8 == 0x1u8;
        let carry_bit: u8 = if new_carry { 0x80 } else { 0 };

        value = value >> 1u8;
        value = value | carry_bit;

        self.registers.set_flag_z(value == 0);
        self.registers.set_flag_c(new_carry);
        self.registers.set_flag_h(false);
        self.registers.set_flag_n(false);

        memory.write_8(address, value);

        self.pc_to_increment = 2;
        self.last_instruction_ccycles = 16;
    }

    #[verifier::rlimit(40)]
    fn srl_r(&mut self, register: ByteRegister)
        ensures
            *final(self) == old(self).srl_r_spec(register),
    {
        proof { lemma_byte_bits(); }
        let value: u8 = self.registers.read_byte(&register);

        let carry: bool = value & 0x1u8 == 1;

        let result: u8 = (value >> 1u8) & 0b01111111u8;
        self.registers.write_byte(&register, result);

        self.registers.set_flag_z(result == 0);
        self.registers.set_flag_c(carry);
        self.registers.set_flag_h(false);
        self.registers.set_flag_n(false);

        self.pc_to_increment = 2;
        self.last_instruction_ccycles = 8;
    }

    #[verifier::rlimit(40)]
    fn srl_mhl(&mut self, memory: &mut Memory)
        requires
            old(memory).wf(),
        ensures
            (*final(self), final(memory)@) == old(self).srl_mhl_spec(old(memory)@),
            final(memory).wf(),
    {
        proof { lemma_byte_bits(); }
        let address: u16 = self.registers.read_word(&WordRegister::HL);
        let mut value: u8 = memory.read_8(address);

        let carry: bool = value & 0x1u8 == 1;

        value = (value >> 1u8) & 0b01111111u8;

        memory.write_8(address, value);

        self.registers.set_flag_z(value == 0);
        self.registers.set_flag_c(carry);
        self.registers.set_flag_h(false);
        self.registers.set_flag_n(false);

        self.pc_to_increment = 2;
        self.last_instruction_ccycles = 16;
    }

    #[verifier::rlimit(40)]
    fn sla_r(&mut self, register: ByteRegister)
        ensures
            *final(self) == old(self).sla_r_spec(register),
    {
        proof {
            lemma_byte_bits();
            lemma_byte_shl();
        }
        let mut value: u8 = self.registers.read_byte(&register);

        let carry: bool = value & 0b10000000u8 == 0b10000000u8;

        value = value << 1u8;

        self.registers.write_byte(&register, value);

        self.registers.set_flag_z(value == 0);
        self.registers.set_flag_n(false);
        self.registers.set_flag_h(false);
        self.registers.set_flag_c(carry);

        self.pc_to_increment = 2;
        self.last_instruction_ccycles = 8;
    }

    #[verifier::rlimit(40)]
    fn sla_mhl(&mut self, memory: &mut Memory)
        requires
            old(memory).wf(),
        ensures
            (*final(self), final(memory)@) == old(self).sla_mhl_spec(old(memory)@),
            final(memory).wf(),
    {
        proof {
            lemma_byte_bits();
            lemma_byte_shl();
        }
        let address: u16 = self.registers.read_word(&WordRegister::HL);
        let mut value: u8 = memory.read_8(address);

        let carry: bool = value & 0b10000000u8 == 0b10000000u8;

        value = value << 1u8;

        memory.write_8(address, value);

        self.registers.set_flag_z(value == 0);
        self.registers.set_flag_n(false);
        self.registers.set_flag_h(false);
        self.registers.set_flag_c(carry);

        self.pc_to_increment = 2;
        self.last_instruction_ccycles = 16;
    }

    #[verifier::rlimit(40)]
    fn sra_r(&mut self, register: ByteRegister)
        ensures
            *final(self) == old(self).sra_r_spec(register),
    {
        proof {
            lemma_byte_bits();
            lemma_or_disjoint();
        }
        let mut value: u8 = self.registers.read_byte(&register);
        let msb: u8 = value & 0b10000000u8;
        let carry: bool = value & 0x1u8 == 0x1u8;

        value = value >> 1u8;
        value = value | msb;

        self.registers.write_byte(&register, value);

        self.registers.set_flag_z(value == 0);
        self.registers.set_flag_n(false);
        self.registers.set_flag_h(false);
        self.registers.set_flag_c(carry);

        self.pc_to_increment = 2;
        self.last_instruction_ccycles = 8;
    }

    #[verifier::rlimit(40)]
    fn sra_mhl(&mut self, memory: &mut Memory)
        requires
            old(memory).wf(),
        ensures
            (*final(self), final(memory)@) == old(self).sra_mhl_spec(old(memory)@),
            final(memory).wf(),
    {
        proof {
            lemma_byte_bits();
            lemma_or_disjoint();
        }
        let address: u16 = self.registers.read_word(&WordRegister::HL);
        let mut value: u8 = memory.read_8(address);

        let msb: u8 = value & 0b10000000u8;
        let carry: bool = value & 0x1u8 == 0x1u8;

        value = value >> 1u8;
        value = value | msb;

        memory.write_8(address, value);

        self.registers.set_flag_z(value == 0);
        self.registers.set_flag_n(false);
        self.registers.set_flag_h(false);
        self.registers.set_flag_c(carry);

        self.pc_to_increment = 2;
        self.last_instruction_ccycles = 16;
    }

    fn swap_r(&mut self, register: ByteRegister)
        ensures
            *final(self) == old(self).swap_r_spec(register),
    {
        let mut value: u8 = self.registers.read_byte(&register);
        value = self.alu.swap_n(&mut self.registers, value);
        self.registers.write_byte(&register, value);

        self.pc_to_increment = 2;
        self.last_instruction_ccycles = 8;
    }

    fn swap_mhl(&mut self, memory: &mut Memory)
        requires
            old(memory).wf(),
        ensures
            (*final(self), final(memory)@) == old(self).swap_mhl_spec(old(memory)@),
            final(memory).wf(),
    {
        let address: u16 = self.registers.read_word(&WordRegister::HL);
        let mut value: u8 = memory.read_8(address);

        value = self.alu.swap_n(&mut self.registers, value);

        memory.write_8(address, value);

        self.pc_to_increment = 2;
        self.last_instruction_ccycles = 16;
    }

    // --- BIT INSTRUCTIONS ----------------------------------------------------------------

    fn res_v_r(&mut self, bit: u8, register: ByteRegister)
        requires
            bit < 8,
        ensures
            *final(self) == old(self).res_v_r_spec(bit, register),
    {
        let mask: u8 = !(0x1u8 << bit);

        let value: u8 = self.registers.read_byte(&register) & mask;
        self.registers.write_byte(&register, value);

        self.pc_to_increment = 2;
        self.last_instruction_ccycles = 8;
    }

    fn res_v_mhl(&mut self, memory: &mut Memory, bit: u8)
        requires
            old(memory).wf(),
            bit < 8,
        ensures
            (*final(self), final(memory)@) == old(self).res_v_mhl_spec(old(memory)@, bit),
            final(memory).wf(),
    {
        let pos: u16 = self.registers.read_word(&WordRegister::HL);

        let mut value: u8 = memory.read_8(pos);
        value = value & !(0x1u8 << bit);
        memory.write_8(pos, value);

        self.pc_to_increment = 2;
        self.last_instruction_ccycles = 16;
    }

    fn set_v_r(&mut self, bit: u8, register: ByteRegister)
        requires
            bit < 8,
        ensures
            *final(self) == old(self).set_v_r_spec(bit, register),
    {
        let mask: u8 = 0x1u8 << bit;

        let value: u8 = self.registers.read_byte(&register) | mask;
        self.registers.write_byte(&register, value);

        self.pc_to_increment = 2;
        self.last_instruction_ccycles = 8;
    }

    fn set_v_mhl(&mut self, memory: &mut Memory, bit: u8)
        requires
            old(memory).wf(),
            bit < 8,
        ensures
            (*final(self), final(memory)@) == old(self).set_v_mhl_spec(old(memory)@, bit),
            final(memory).wf(),
    {
        let mut value: u8 = memory.read_8(self.registers.read_word(&WordRegister::HL));
        value = value | (0x1u8 << bit);
        memory.write_8(self.registers.read_word(&WordRegister::HL), value);

        self.pc_to_increment = 2;
        self.last_instruction_ccycles = 16;
    }

    fn bit_v_r(&mut self, bit: u8, register: ByteRegister)
        requires
            bit < 8,
        ensures
            *final(self) == old(self).bit_test(old(self).registers.byte(register), bit, 8),
    {
        proof { lemma_bit_test(); }
        let mask: u8 = 1u8 << bit;
        let value: u8 = self.registers.read_byte(&register);

        let zero: bool = value & mask != mask;

        self.registers.set_flag_z(zero);
        self.registers.set_flag_n(false);
        self.registers.set_flag_h(true);

        self.pc_to_increment = 2;
        self.last_instruction_ccycles = 8;
    }

    fn bit_v_mhl(&mut self, memory: &Memory, bit: u8)
        requires
            memory.wf(),
            bit < 8,
        ensures
            *final(self) == old(self).bit_test(old(self).mhl(memory@), bit, 12),
    {
        proof { lemma_bit_test(); }
        let mask: u8 = 1u8 << bit;

        let value: u8 = memory.read_8(self.registers.read_word(&WordRegister::HL));

        let zero: bool = value & mask != mask;

        self.registers.set_flag_z(zero);
        self.registers.set_flag_n(false);
        self.registers.set_flag_h(true);

        self.pc_to_increment = 2;
        self.last_instruction_ccycles = 12;
    }

    /// Adjusts A to a binary-coded decimal after an addition or a subtraction.
    fn daa(&mut self)
        ensures
            *final(self) == old(self).daa_result(),
    {
        let mut register_a: u8 = self.registers.read_byte(&ByteRegister::A);

        if !self.registers.is_flag_n() {
            // Addition
            if self.registers.is_flag_c() || register_a > 0x99 {
                register_a = register_a.wrapping_add(0x60);
                self.registers.set_flag_c(true);
            }

            if self.registers.is_flag_h() || low_nibble(register_a) > 0x09 {
                register_a = register_a.wrapping_add(0x06);
            }
        } else {
            if self.registers.is_flag_c() {
                register_a = register_a.wrapping_sub(0x60);
            }

            if self.registers.is_flag_h() {
                register_a = register_a.wrapping_sub(0x06);
            }
        }

        self.registers.set_flag_z(register_a == 0);
        self.registers.set_flag_h(false);

        self.registers.write_byte(&ByteRegister::A, register_a);

        self.pc_to_increment = 1;
        self.last_instruction_ccycles = 4;
    }

    // --- INTERRUPTS ----------------------------------------------------------------------

    /// Clears bit `bit` of the interrupt flag register.
    fn acknowledge_interrupt(memory: &mut Memory, bit: u8)
        requires
            old(memory).wf(),
            bit < 8,
        ensures
            final(memory)@ == interrupt_acknowledged(old(memory)@, bit),
            final(memory).wf(),
    {
        let flags: u8 = memory.read_8(Address::IF_INTERRUPT_FLAG);
        memory.write_8(Address::IF_INTERRUPT_FLAG, flags & !(0x1u8 << bit));
    }

    /// Serves the vertical blank interrupt if interrupts are enabled, and leaves the halt state.
    pub fn vblank_interrupt(&mut self, memory: &mut Memory)
        requires
            old(memory).wf(),
        ensures
            (*final(self), final(memory)@) == old(self).vblank_interrupt_spec(old(memory)@),
            final(memory).wf(),
    {
        if self.ime {
            Self::acknowledge_interrupt(memory, 0);

            self.interrupt_vv(memory, 0x40)
        }

        self.unhalt()
    }

    /// Serves the LCD status interrupt if interrupts are enabled and the display is on,
    /// and leaves the halt state.
    pub fn lcd_stat_interrupt(&mut self, memory: &mut Memory)
        requires
            old(memory).wf(),
        ensures
            (*final(self), final(memory)@) == old(self).lcd_stat_interrupt_spec(old(memory)@),
            final(memory).wf(),
    {
        if self.ime {
            Self::acknowledge_interrupt(memory, 1);

            let lcd_control: u8 = memory.read_8(Address::LCDC);
            let lcd_enabled: bool = crate::math::is_bit_set(&lcd_control, 7);

            if lcd_enabled {
                self.interrupt_vv(memory, 0x48)
            }
        }

        self.unhalt()
    }

    /// Serves the timer overflow interrupt if interrupts are enabled, and leaves the halt state.
    pub fn timer_overflow_interrupt(&mut self, memory: &mut Memory)
        requires
            old(memory).wf(),
        ensures
            (*final(self), final(memory)@) == old(self).timer_overflow_interrupt_spec(old(memory)@),
            final(memory).wf(),
    {
        if self.ime {
            Self::acknowledge_interrupt(memory, 2);

            self.interrupt_vv(memory, 0x50)
        }

        self.unhalt()
    }

    /// Serves the joypad (P10 to P13 transition) interrupt if interrupts are enabled, and
    /// leaves the halt state.
    pub fn p10_p13_transition_interrupt(&mut self, memory: &mut Memory)
        requires
            old(memory).wf(),
        ensures
            (*final(self), final(memory)@) == old(self).p10_p13_transition_interrupt_spec(old(memory)@),
            final(memory).wf(),
    {
        if self.ime {
            Self::acknowledge_interrupt(memory, 4);

            self.interrupt_vv(memory, 0x60)
        }

        self.unhalt();
    }

    /// Disables interrupts.
    fn di(&mut self)
        ensures
            *final(self) == old(self).di_spec(),
    {
        self.ime = false;

        self.pc_to_increment = 1;
        self.last_instruction_ccycles = 4;
    }

    /// Enables interrupts.
    fn ei(&mut self)
        ensures
            *final(self) == old(self).ei_spec(),
    {
        self.ime = true;

        self.pc_to_increment = 1;
        self.last_instruction_ccycles = 4;
    }

    fn stop(&mut self)
        ensures
            *final(self) == old(self).stop_spec(),
    {
        self.pc_to_increment = 2;
        self.last_instruction_ccycles = 4;
    }

    // --- HALT ----------------------------------------------------------------------------

    fn unhalt(&mut self)
        ensures
            *final(self) == (Cpu { halted: false, ..*old(self) }),
    {
        self.halted = false;
    }

    fn halt(&mut self)
        ensures
            *final(self) == old(self).halt_spec(),
    {
        self.halted = true;

        if self.ime {
            self.pc_to_increment = 1;
        } else {
            self.pc_to_increment = 2;
        }

        self.last_instruction_ccycles = 4;
    }

    // --- EXECUTION -----------------------------------------------------------------------

    /// A check, from the bytes at the program counter, that a step can run: the processor
    /// is halted, or the program counter is at most 0xFFFC, the opcode is implemented and a
    /// relative jump stays in range. It passes only where `step` may be called; it refuses
    /// instructions at 0xFFFD to 0xFFFF, whose program counter could pass 0xFFFF.
    pub fn can_step(&self, memory: &Memory) -> (r: bool)
        requires
            memory.wf(),
        ensures
            r == self.step_clearly_allowed(memory@),
            r ==> self.step_allowed(self.memory_for_step(*memory)),
    {
        proof {
            let m = self.memory_for_step(*memory);
            if self.unmaps_bootstrap(*memory) {
                assert(m[self.registers.pc as int] == memory@[self.registers.pc as int]);
                assert(self.registers.pc < 0xFFFC ==> m[self.registers.pc + 1] == memory@[self.registers.pc + 1]);
            }
        }
        if self.halted {
            proof { crate::cpu::instructions::lemma_step_clearly_allowed(*self, self.memory_for_step(*memory)); }
            return true;
        }
        let pc: u16 = self.registers.pc;
        if pc > 0xFFFC {
            return false;
        }
        let opcode: u8 = memory.read_8(pc);
        if !is_implemented(opcode) {
            return false;
        }
        let offset: i8 = memory.read_8(pc + 1) as i8;
        let next: u16 = pc + 2;
        let signed_next: i32 = if next >= 0x8000 { next as i32 - 65536 } else { next as i32 };
        let target_ok: bool = -32768 <= signed_next + offset as i32 && signed_next + offset as i32 <= 32767;
        let r: bool = if opcode == 0x18 {
            offset as i32 + 2 <= 127
        } else if opcode == 0x20 {
            self.registers.flag_z || target_ok
        } else if opcode == 0x28 {
            !self.registers.flag_z || target_ok
        } else if opcode == 0x30 {
            self.registers.flag_c || target_ok
        } else if opcode == 0x38 {
            !self.registers.flag_c || target_ok
        } else {
            true
        };
        proof {
            if r {
                let m = self.memory_for_step(*memory);
                assert(self.step_clearly_allowed(m));
                crate::cpu::instructions::lemma_step_clearly_allowed(*self, m);
            }
        }
        r
    }

    /// Whether a step starts by unmapping the bootstrap ROM: the processor runs, the
    /// program counter is at 0x100 (where the cartridge's code begins) and a ROM is mapped.
    pub open spec fn unmaps_bootstrap(self, memory: Memory) -> bool {
        !self.halted && self.registers.pc == 0x100 && memory.hidden_bytes() is Some
    }

    /// The address space a step works on: the one given, or the one the unmapped
    /// bootstrap ROM leaves.
    pub open spec fn memory_for_step(self, memory: Memory) -> Seq<u8> {
        if self.unmaps_bootstrap(memory) { memory.unmapped() } else { memory@ }
    }

    /// Runs one step: unless halted, the instruction at the program counter is executed;
    /// the program counter then moves on by what the instruction asks. Returns the clock
    /// cycles taken (4 while halted).
    pub fn step(&mut self, memory: &mut Memory) -> (ccycles: u8)
        requires
            old(memory).wf(),
            old(self).step_allowed(old(self).memory_for_step(*old(memory))),
        ensures
            (*final(self), final(memory)@) == old(self).step_spec(old(self).memory_for_step(*old(memory))),
            final(memory).hidden_bytes() == (if old(self).unmaps_bootstrap(*old(memory)) {
                None
            } else {
                old(memory).hidden_bytes()
            }),
            ccycles == final(self).last_instruction_ccycles,
            final(memory).wf(),
    {
        if !self.halted && self.registers.pc == 0x100 && memory.has_bootstrap_rom() {
            memory.erase_bootstrap_rom();
        }

        let hidden = memory.detach_bootstrap();
        let ccycles: u8 = self.run_instruction(memory);
        memory.attach_bootstrap(hidden);
        ccycles
    }

    /// Runs the instruction at the program counter (or idles while halted) and moves the
    /// program counter on.
    fn run_instruction(&mut self, memory: &mut Memory) -> (ccycles: u8)
        requires
            old(memory).wf(),
            old(self).step_allowed(old(memory)@),
        ensures
            (*final(self), final(memory)@) == old(self).step_spec(old(memory)@),
            ccycles == final(self).last_instruction_ccycles,
            final(memory).wf(),
    {
        self.pc_to_increment = -1;
        self.last_instruction_ccycles = 0;

        if !self.halted {
            self.execute(memory);
        } else {
            self.last_instruction_ccycles = 4;
            self.pc_to_increment = 0;
        }

        self.registers.pc = self.registers.pc + self.pc_to_increment as u16;

        self.last_instruction_ccycles
    }

    /// Executes the instruction at the program counter.
    fn execute(&mut self, memory: &mut Memory)
        requires
            old(memory).wf(),
            opcode_implemented(old(memory)@[old(self).registers.pc as int]),
            old(self).execute_allowed(old(memory)@),
        ensures
            (*final(self), final(memory)@) == old(self).execute_spec(old(memory)@),
            final(memory).wf(),
    {
        let instruction: u8 = memory.read_8(self.registers.pc);

        if instruction < 0x40 {
            self.execute_00_3f(memory, instruction)
        } else if instruction < 0x80 {
            self.execute_40_7f(memory, instruction)
        } else if instruction < 0xC0 {
            self.execute_80_bf(memory, instruction)
        } else {
            self.execute_c0_ff(memory, instruction)
        }
    }

    /// Executes the 0xCB-prefixed instruction whose opcode follows the prefix.
    fn prefix_cb(&mut self, memory: &mut Memory)
        requires
            old(memory).wf(),
            old(self).pc_fits(1),
        ensures
            (*final(self), final(memory)@) == old(self).cb_spec(old(memory)@),
            final(memory).wf(),
    {
        let op: u8 = memory.read_8(self.registers.pc + 1);

        if op < 0x40 {
            self.prefix_cb_00_3f(memory, op)
        } else if op < 0x80 {
            self.prefix_cb_40_7f(memory, op)
        } else if op < 0xC0 {
            self.prefix_cb_80_bf(memory, op)
        } else {
            self.prefix_cb_c0_ff(memory, op)
        }
    }

    /// Executes an instruction whose opcode is in 0x00 to 0x3F.
    #[verifier::rlimit(100)]
    fn execute_00_3f(&mut self, memory: &mut Memory, instruction: u8)
        requires
            old(memory).wf(),
            instruction == old(memory)@[old(self).registers.pc as int],
            0 <= instruction < 64,
            opcode_implemented(instruction),
            old(self).execute_allowed(old(memory)@),
        ensures
            (*final(self), final(memory)@) == old(self).execute_spec(old(memory)@),
            final(memory).wf(),
    {
        match instruction {
            0x00 => self.nop(),
            0x01 => self.ld_rr_nn(&*memory, WordRegister::BC),
            0x02 => self.ld_mrr_r(memory, WordRegister::BC, ByteRegister::A),
            0x03 => self.inc_rr(WordRegister::BC),
            0x04 => self.inc_r(ByteRegister::B),
            0x05 => self.dec_r(ByteRegister::B),
            0x06 => self.ld_r_n(&*memory, ByteRegister::B),
            0x07 => self.rlca(),
            0x08 => self.ld_mnn_sp(memory),
            0x09 => self.add_hl_rr(WordRegister::BC),
            0x0A => self.ld_r_mrr(&*memory, ByteRegister::A, WordRegister::BC),
            0x0B => self.dec_rr(WordRegister::BC),
            0x0C => self.inc_r(ByteRegister::C),
            0x0D => self.dec_r(ByteRegister::C),
            0x0E => self.ld_r_n(&*memory, ByteRegister::C),
            0x0F => self.rrc_r(ByteRegister::A, false),
            0x10 => self.stop(),
            0x11 => self.ld_rr_nn(&*memory, WordRegister::DE),
            0x12 => self.ld_mrr_r(memory, WordRegister::DE, ByteRegister::A),
            0x13 => self.inc_rr(WordRegister::DE),
            0x14 => self.inc_r(ByteRegister::D),
            0x15 => self.dec_r(ByteRegister::D),
            0x16 => self.ld_r_n(&*memory, ByteRegister::D),
            0x17 => self.rla(),
            0x18 => self.jr_n(&*memory),
            0x19 => self.add_hl_rr(WordRegister::DE),
            0x1A => self.ld_r_mrr(&*memory, ByteRegister::A, WordRegister::DE),
            0x1B => self.dec_rr(WordRegister::DE),
            0x1C => self.inc_r(ByteRegister::E),
            0x1D => self.dec_r(ByteRegister::E),
            0x1E => self.ld_r_n(&*memory, ByteRegister::E),
            0x1F => self.rra(),
            0x20 => self.jr_nz_n(&*memory),
            0x21 => self.ld_rr_nn(&*memory, WordRegister::HL),
            0x22 => self.ldi_mhl_a(memory),
            0x23 => self.inc_rr(WordRegister::HL),
            0x24 => self.inc_r(ByteRegister::H),
            0x25 => self.dec_r(ByteRegister::H),
            0x26 => self.ld_r_n(&*memory, ByteRegister::H),
            0x27 => self.daa(),
            0x28 => self.jr_z_n(&*memory),
            0x29 => self.add_hl_rr(WordRegister::HL),
            0x2A => self.ldi_a_mhl(&*memory),
            0x2B => self.dec_rr(WordRegister::HL),
            0x2C => self.inc_r(ByteRegister::L),
            0x2D => self.dec_r(ByteRegister::L),
            0x2E => self.ld_r_n(&*memory, ByteRegister::L),
            0x2F => self.cpl(),
            0x30 => self.jr_nc_n(&*memory),
            0x31 => self.ld_rr_nn(&*memory, WordRegister::SP),
            0x32 => self.ldd_mhl_a(memory),
            0x33 => self.inc_rr(WordRegister::SP),
            0x34 => self.inc_mhl(memory),
            0x35 => self.dec_mhl(memory),
            0x36 => self.ld_mhl_n(memory),
            0x37 => self.scf(),
            0x38 => self.jr_c_n(&*memory),
            0x39 => self.add_hl_rr(WordRegister::SP),
            0x3A => self.ldd_a_mhl(&*memory),
            0x3B => self.dec_rr(WordRegister::SP),
            0x3C => self.inc_r(ByteRegister::A),
            0x3D => self.dec_r(ByteRegister::A),
            0x3E => self.ld_r_n(&*memory, ByteRegister::A),
            0x3F => self.ccf(),
            _ => {},
        }
    }

    /// Executes a 0xCB-prefixed instruction whose opcode is in 0x00 to 0x3F.
    #[verifier::rlimit(100)]
    fn prefix_cb_00_3f(&mut self, memory: &mut Memory, op: u8)
        requires
            old(memory).wf(),
            old(self).pc_fits(1),
            op == old(memory)@[old(self).registers.pc + 1],
            0 <= op < 64,
        ensures
            (*final(self), final(memory)@) == old(self).cb_spec(old(memory)@),
            final(memory).wf(),
    {
        match op {
            0x00 => self.rlc_r(ByteRegister::B),
            0x01 => self.rlc_r(ByteRegister::C),
            0x02 => self.rlc_r(ByteRegister::D),
            0x03 => self.rlc_r(ByteRegister::E),
            0x04 => self.rlc_r(ByteRegister::H),
            0x05 => self.rlc_r(ByteRegister::L),
            0x06 => self.rlc_mrr(memory, WordRegister::HL),
            0x07 => self.rlc_r(ByteRegister::A),
            0x08 => self.rrc_r(ByteRegister::B, true),
            0x09 => self.rrc_r(ByteRegister::C, true),
            0x0A => self.rrc_r(ByteRegister::D, true),
            0x0B => self.rrc_r(ByteRegister::E, true),
            0x0C => self.rrc_r(ByteRegister::H, true),
            0x0D => self.rrc_r(ByteRegister::L, true),
            0x0E => self.rrc_mhl(memory),
            0x0F => self.rrc_r(ByteRegister::A, true),
            0x10 => self.rl_r(ByteRegister::B),
            0x11 => self.rl_r(ByteRegister::C),
            0x12 => self.rl_r(ByteRegister::D),
            0x13 => self.rl_r(ByteRegister::E),
            0x14 => self.rl_r(ByteRegister::H),
            0x15 => self.rl_r(ByteRegister::L),
            0x16 => self.rl_mhl(memory),
            0x17 => self.rl_r(ByteRegister::A),
            0x18 => self.rr_r(ByteRegister::B),
            0x19 => self.rr_r(ByteRegister::C),
            0x1A => self.rr_r(ByteRegister::D),
            0x1B => self.rr_r(ByteRegister::E),
            0x1C => self.rr_r(ByteRegister::H),
            0x1D => self.rr_r(ByteRegister::L),
            0x1E => self.rr_mhl(memory),
            0x1F => self.rr_r(ByteRegister::A),
            0x20 => self.sla_r(ByteRegister::B),
            0x21 => self.sla_r(ByteRegister::C),
            0x22 => self.sla_r(ByteRegister::D),
            0x23 => self.sla_r(ByteRegister::E),
            0x24 => self.sla_r(ByteRegister::H),
            0x25 => self.sla_r(ByteRegister::L),
            0x26 => self.sla_mhl(memory),
            0x27 => self.sla_r(ByteRegister::A),
            0x28 => self.sra_r(ByteRegister::B),
            0x29 => self.sra_r(ByteRegister::C),
            0x2A => self.sra_r(ByteRegister::D),
            0x2B => self.sra_r(ByteRegister::E),
            0x2C => self.sra_r(ByteRegister::H),
            0x2D => self.sra_r(ByteRegister::L),
            0x2E => self.sra_mhl(memory),
            0x2F => self.sra_r(ByteRegister::A),
            0x30 => self.swap_r(ByteRegister::B),
            0x31 => self.swap_r(ByteRegister::C),
            0x32 => self.swap_r(ByteRegister::D),
            0x33 => self.swap_r(ByteRegister::E),
            0x34 => self.swap_r(ByteRegister::H),
            0x35 => self.swap_r(ByteRegister::L),
            0x36 => self.swap_mhl(memory),
            0x37 => self.swap_r(ByteRegister::A),
            0x38 => self.srl_r(ByteRegister::B),
            0x39 => self.srl_r(ByteRegister::C),
            0x3A => self.srl_r(ByteRegister::D),
            0x3B => self.srl_r(ByteRegister::E),
            0x3C => self.srl_r(ByteRegister::H),
            0x3D => self.srl_r(ByteRegister::L),
            0x3E => self.srl_mhl(memory),
            0x3F => self.srl_r(ByteRegister::A),
            _ => {},
        }
    }

    /// Executes an instruction whose opcode is in 0x40 to 0x7F.
    #[verifier::rlimit(100)]
    fn execute_40_7f(&mut self, memory: &mut Memory, instruction: u8)
        requires
            old(memory).wf(),
            instruction == old(memory)@[old(self).registers.pc as int],
            64 <= instruction < 128,
            opcode_implemented(instruction),
            old(self).execute_allowed(old(memory)@),
        ensures
            (*final(self), final(memory)@) == old(self).execute_spec(old(memory)@),
            final(memory).wf(),
    {
        match instruction {
            0x40 => self.ld_r_r(ByteRegister::B, ByteRegister::B),
            0x41 => self.ld_r_r(ByteRegister::B, ByteRegister::C),
            0x42 => self.ld_r_r(ByteRegister::B, ByteRegister::D),
            0x43 => self.ld_r_r(ByteRegister::B, ByteRegister::E),
            0x44 => self.ld_r_r(ByteRegister::B, ByteRegister::H),
            0x45 => self.ld_r_r(ByteRegister::B, ByteRegister::L),
            0x46 => self.ld_r_mrr(&*memory, ByteRegister::B, WordRegister::HL),
            0x47 => self.ld_r_r(ByteRegister::B, ByteRegister::A),
            0x48 => self.ld_r_r(ByteRegister::C, ByteRegister::B),
            0x49 => self.ld_r_r(ByteRegister::C, ByteRegister::C),
            0x4A => self.ld_r_r(ByteRegister::C, ByteRegister::D),
            0x4B => self.ld_r_r(ByteRegister::C, ByteRegister::E),
            0x4C => self.ld_r_r(ByteRegister::C, ByteRegister::H),
            0x4D => self.ld_r_r(ByteRegister::C, ByteRegister::L),
            0x4E => self.ld_r_mrr(&*memory, ByteRegister::C, WordRegister::HL),
            0x4F => self.ld_r_r(ByteRegister::C, ByteRegister::A),
            0x50 => self.ld_r_r(ByteRegister::D, ByteRegister::B),
            0x51 => self.ld_r_r(ByteRegister::D, ByteRegister::C),
            0x52 => self.ld_r_r(ByteRegister::D, ByteRegister::D),
            0x53 => self.ld_r_r(ByteRegister::D, ByteRegister::E),
            0x54 => self.ld_r_r(ByteRegister::D, ByteRegister::H),
            0x55 => self.ld_r_r(ByteRegister::D, ByteRegister::L),
            0x56 => self.ld_r_mrr(&*memory, ByteRegister::D, WordRegister::HL),
            0x57 => self.ld_r_r(ByteRegister::D, ByteRegister::A),
            0x58 => self.ld_r_r(ByteRegister::E, ByteRegister::B),
            0x59 => self.ld_r_r(ByteRegister::E, ByteRegister::C),
            0x5A => self.ld_r_r(ByteRegister::E, ByteRegister::D),
            0x5B => self.ld_r_r(ByteRegister::E, ByteRegister::E),
            0x5C => self.ld_r_r(ByteRegister::E, ByteRegister::H),
            0x5D => self.ld_r_r(ByteRegister::E, ByteRegister::L),
            0x5E => self.ld_r_mrr(&*memory, ByteRegister::E, WordRegister::HL),
            0x5F => self.ld_r_r(ByteRegister::E, ByteRegister::A),
            0x60 => self.ld_r_r(ByteRegister::H, ByteRegister::B),
            0x61 => self.ld_r_r(ByteRegister::H, ByteRegister::C),
            0x62 => self.ld_r_r(ByteRegister::H, ByteRegister::D),
            0x63 => self.ld_r_r(ByteRegister::H, ByteRegister::E),
            0x64 => self.ld_r_r(ByteRegister::H, ByteRegister::H),
            0x65 => self.ld_r_r(ByteRegister::H, ByteRegister::L),
            0x66 => self.ld_r_mrr(&*memory, ByteRegister::H, WordRegister::HL),
            0x67 => self.ld_r_r(ByteRegister::H, ByteRegister::A),
            0x68 => self.ld_r_r(ByteRegister::L, ByteRegister::B),
            0x69 => self.ld_r_r(ByteRegister::L, ByteRegister::C),
            0x6A => self.ld_r_r(ByteRegister::L, ByteRegister::D),
            0x6B => self.ld_r_r(ByteRegister::L, ByteRegister::E),
            0x6C => self.ld_r_r(ByteRegister::L, ByteRegister::H),
            0x6D => self.ld_r_r(ByteRegister::L, ByteRegister::L),
            0x6E => self.ld_r_mrr(&*memory, ByteRegister::L, WordRegister::HL),
            0x6F => self.ld_r_r(ByteRegister::L, ByteRegister::A),
            0x70 => self.ld_mrr_r(memory, WordRegister::HL, ByteRegister::B),
            0x71 => self.ld_mrr_r(memory, WordRegister::HL, ByteRegister::C),
            0x72 => self.ld_mrr_r(memory, WordRegister::HL, ByteRegister::D),
            0x73 => self.ld_mrr_r(memory, WordRegister::HL, ByteRegister::E),
            0x74 => self.ld_mrr_r(memory, WordRegister::HL, ByteRegister::H),
            0x75 => self.ld_mrr_r(memory, WordRegister::HL, ByteRegister::L),
            0x76 => self.halt(),
            0x77 => self.ld_mrr_r(memory, WordRegister::HL, ByteRegister::A),
            0x78 => self.ld_r_r(ByteRegister::A, ByteRegister::B),
            0x79 => self.ld_r_r(ByteRegister::A, ByteRegister::C),
            0x7A => self.ld_r_r(ByteRegister::A, ByteRegister::D),
            0x7B => self.ld_r_r(ByteRegister::A, ByteRegister::E),
            0x7C => self.ld_r_r(ByteRegister::A, ByteRegister::H),
            0x7D => self.ld_r_r(ByteRegister::A, ByteRegister::L),
            0x7E => self.ld_r_mrr(&*memory, ByteRegister::A, WordRegister::HL),
            0x7F => self.ld_r_r(ByteRegister::A, ByteRegister::A),
            _ => {},
        }
    }

    /// Executes a 0xCB-prefixed instruction whose opcode is in 0x40 to 0x7F.
    #[verifier::rlimit(100)]
    fn prefix_cb_40_7f(&mut self, memory: &mut Memory, op: u8)
        requires
            old(memory).wf(),
            old(self).pc_fits(1),
            op == old(memory)@[old(self).registers.pc + 1],
            64 <= op < 128,
        ensures
            (*final(self), final(memory)@) == old(self).cb_spec(old(memory)@),
            final(memory).wf(),
    {
        match op {
            0x40 => self.bit_v_r(0, ByteRegister::B),
            0x41 => self.bit_v_r(0, ByteRegister::C),
            0x42 => self.bit_v_r(0, ByteRegister::D),
            0x43 => self.bit_v_r(0, ByteRegister::E),
            0x44 => self.bit_v_r(0, ByteRegister::H),
            0x45 => self.bit_v_r(0, ByteRegister::L),
            0x46 => self.bit_v_mhl(&*memory, 0),
            0x47 => self.bit_v_r(0, ByteRegister::A),
            0x48 => self.bit_v_r(1, ByteRegister::B),
            0x49 => self.bit_v_r(1, ByteRegister::C),
            0x4A => self.bit_v_r(1, ByteRegister::D),
            0x4B => self.bit_v_r(1, ByteRegister::E),
            0x4C => self.bit_v_r(1, ByteRegister::H),
            0x4D => self.bit_v_r(1, ByteRegister::L),
            0x4E => self.bit_v_mhl(&*memory, 1),
            0x4F => self.bit_v_r(1, ByteRegister::A),
            0x50 => self.bit_v_r(2, ByteRegister::B),
            0x51 => self.bit_v_r(2, ByteRegister::C),
            0x52 => self.bit_v_r(2, ByteRegister::D),
            0x53 => self.bit_v_r(2, ByteRegister::E),
            0x54 => self.bit_v_r(2, ByteRegister::H),
            0x55 => self.bit_v_r(2, ByteRegister::L),
            0x56 => self.bit_v_mhl(&*memory, 2),
            0x57 => self.bit_v_r(2, ByteRegister::A),
            0x58 => self.bit_v_r(3, ByteRegister::B),
            0x59 => self.bit_v_r(3, ByteRegister::C),
            0x5A => self.bit_v_r(3, ByteRegister::D),
            0x5B => self.bit_v_r(3, ByteRegister::E),
            0x5C => self.bit_v_r(3, ByteRegister::H),
            0x5D => self.bit_v_r(3, ByteRegister::L),
            0x5E => self.bit_v_mhl(&*memory, 3),
            0x5F => self.bit_v_r(3, ByteRegister::A),
            0x60 => self.bit_v_r(4, ByteRegister::B),
            0x61 => self.bit_v_r(4, ByteRegister::C),
            0x62 => self.bit_v_r(4, ByteRegister::D),
            0x63 => self.bit_v_r(4, ByteRegister::E),
            0x64 => self.bit_v_r(4, ByteRegister::H),
            0x65 => self.bit_v_r(4, ByteRegister::L),
            0x66 => self.bit_v_mhl(&*memory, 4),
            0x67 => self.bit_v_r(4, ByteRegister::A),
            0x68 => self.bit_v_r(5, ByteRegister::B),
            0x69 => self.bit_v_r(5, ByteRegister::C),
            0x6A => self.bit_v_r(5, ByteRegister::D),
            0x6B => self.bit_v_r(5, ByteRegister::E),
            0x6C => self.bit_v_r(5, ByteRegister::H),
            0x6D => self.bit_v_r(5, ByteRegister::L),
            0x6E => self.bit_v_mhl(&*memory, 5),
            0x6F => self.bit_v_r(5, ByteRegister::A),
            0x70 => self.bit_v_r(6, ByteRegister::B),
            0x71 => self.bit_v_r(6, ByteRegister::C),
            0x72 => self.bit_v_r(6, ByteRegister::D),
            0x73 => self.bit_v_r(6, ByteRegister::E),
            0x74 => self.bit_v_r(6, ByteRegister::H),
            0x75 => self.bit_v_r(6, ByteRegister::L),
            0x76 => self.bit_v_mhl(&*memory, 6),
            0x77 => self.bit_v_r(6, ByteRegister::A),
            0x78 => self.bit_v_r(7, ByteRegister::B),
            0x79 => self.bit_v_r(7, ByteRegister::C),
            0x7A => self.bit_v_r(7, ByteRegister::D),
            0x7B => self.bit_v_r(7, ByteRegister::E),
            0x7C => self.bit_v_r(7, ByteRegister::H),
            0x7D => self.bit_v_r(7, ByteRegister::L),
            0x7E => self.bit_v_mhl(&*memory, 7),
            0x7F => self.bit_v_r(7, ByteRegister::A),
            _ => {},
        }
    }

    /// Executes an instruction whose opcode is in 0x80 to 0xBF.
    #[verifier::rlimit(100)]
    fn execute_80_bf(&mut self, memory: &mut Memory, instruction: u8)
        requires
            old(memory).wf(),
            instruction == old(memory)@[old(self).registers.pc as int],
            128 <= instruction < 192,
            opcode_implemented(instruction),
            old(self).execute_allowed(old(memory)@),
        ensures
            (*final(self), final(memory)@) == old(self).execute_spec(old(memory)@),
            final(memory).wf(),
    {
        match instruction {
            0x80 => self.add_a_r(ByteRegister::B),
            0x81 => self.add_a_r(ByteRegister::C),
            0x82 => self.add_a_r(ByteRegister::D),
            0x83 => self.add_a_r(ByteRegister::E),
            0x84 => self.add_a_r(ByteRegister::H),
            0x85 => self.add_a_r(ByteRegister::L),
            0x86 => self.add_a_mhl(&*memory),
            0x87 => self.add_a_r(ByteRegister::A),
            0x88 => self.adc_a_r(ByteRegister::B),
            0x89 => self.adc_a_r(ByteRegister::C),
            0x8A => self.adc_a_r(ByteRegister::D),
            0x8B => self.adc_a_r(ByteRegister::E),
            0x8C => self.adc_a_r(ByteRegister::H),
            0x8D => self.adc_a_r(ByteRegister::L),
            0x8E => self.adc_a_mhl(&*memory),
            0x8F => self.adc_a_r(ByteRegister::A),
            0x90 => self.sub_r(ByteRegister::B),
            0x91 => self.sub_r(ByteRegister::C),
            0x92 => self.sub_r(ByteRegister::D),
            0x93 => self.sub_r(ByteRegister::E),
            0x94 => self.sub_r(ByteRegister::H),
            0x95 => self.sub_r(ByteRegister::L),
            0x96 => self.sub_mhl(&*memory),
            0x97 => self.sub_r(ByteRegister::A),
            0x98 => self.sbc_r(ByteRegister::B),
            0x99 => self.sbc_r(ByteRegister::C),
            0x9A => self.sbc_r(ByteRegister::D),
            0x9B => self.sbc_r(ByteRegister::E),
            0x9C => self.sbc_r(ByteRegister::H),
            0x9D => self.sbc_r(ByteRegister::L),
            0x9E => self.sbc_mhl(&*memory),
            0x9F => self.sbc_r(ByteRegister::A),
            0xA0 => self.and_r(ByteRegister::B),
            0xA1 => self.and_r(ByteRegister::C),
            0xA2 => self.and_r(ByteRegister::D),
            0xA3 => self.and_r(ByteRegister::E),
            0xA4 => self.and_r(ByteRegister::H),
            0xA5 => self.and_r(ByteRegister::L),
            0xA6 => self.and_mhl(&*memory),
            0xA7 => self.and_r(ByteRegister::A),
            0xA8 => self.xor_r(ByteRegister::B),
            0xA9 => self.xor_r(ByteRegister::C),
            0xAA => self.xor_r(ByteRegister::D),
            0xAB => self.xor_r(ByteRegister::E),
            0xAC => self.xor_r(ByteRegister::H),
            0xAD => self.xor_r(ByteRegister::L),
            0xAE => self.xor_mhl(&*memory),
            0xAF => self.xor_r(ByteRegister::A),
            0xB0 => self.or_r(ByteRegister::B),
            0xB1 => self.or_r(ByteRegister::C),
            0xB2 => self.or_r(ByteRegister::D),
            0xB3 => self.or_r(ByteRegister::E),
            0xB4 => self.or_r(ByteRegister::H),
            0xB5 => self.or_r(ByteRegister::L),
            0xB6 => self.or_mhl(&*memory),
            0xB7 => self.or_r(ByteRegister::A),
            0xB8 => self.cp_r(ByteRegister::B),
            0xB9 => self.cp_r(ByteRegister::C),
            0xBA => self.cp_r(ByteRegister::D),
            0xBB => self.cp_r(ByteRegister::E),
            0xBC => self.cp_r(ByteRegister::H),
            0xBD => self.cp_r(ByteRegister::L),
            0xBE => self.cp_mhl(&*memory),
            0xBF => self.cp_r(ByteRegister::A),
            _ => {},
        }
    }

    /// Executes a 0xCB-prefixed instruction whose opcode is in 0x80 to 0xBF.
    #[verifier::rlimit(100)]
    fn prefix_cb_80_bf(&mut self, memory: &mut Memory, op: u8)
        requires
            old(memory).wf(),
            old(self).pc_fits(1),
            op == old(memory)@[old(self).registers.pc + 1],
            128 <= op < 192,
        ensures
            (*final(self), final(memory)@) == old(self).cb_spec(old(memory)@),
            final(memory).wf(),
    {
        match op {
            0x80 => self.res_v_r(0, ByteRegister::B),
            0x81 => self.res_v_r(0, ByteRegister::C),
            0x82 => self.res_v_r(0, ByteRegister::D),
            0x83 => self.res_v_r(0, ByteRegister::E),
            0x84 => self.res_v_r(0, ByteRegister::H),
            0x85 => self.res_v_r(0, ByteRegister::L),
            0x86 => self.res_v_mhl(memory, 0),
            0x87 => self.res_v_r(0, ByteRegister::A),
            0x88 => self.res_v_r(1, ByteRegister::B),
            0x89 => self.res_v_r(1, ByteRegister::C),
            0x8A => self.res_v_r(1, ByteRegister::D),
            0x8B => self.res_v_r(1, ByteRegister::E),
            0x8C => self.res_v_r(1, ByteRegister::H),
            0x8D => self.res_v_r(1, ByteRegister::L),
            0x8E => self.res_v_mhl(memory, 1),
            0x8F => self.res_v_r(1, ByteRegister::A),
            0x90 => self.res_v_r(2, ByteRegister::B),
            0x91 => self.res_v_r(2, ByteRegister::C),
            0x92 => self.res_v_r(2, ByteRegister::D),
            0x93 => self.res_v_r(2, ByteRegister::E),
            0x94 => self.res_v_r(2, ByteRegister::H),
            0x95 => self.res_v_r(2, ByteRegister::L),
            0x96 => self.res_v_mhl(memory, 2),
            0x97 => self.res_v_r(2, ByteRegister::A),
            0x98 => self.res_v_r(3, ByteRegister::B),
            0x99 => self.res_v_r(3, ByteRegister::C),
            0x9A => self.res_v_r(3, ByteRegister::D),
            0x9B => self.res_v_r(3, ByteRegister::E),
            0x9C => self.res_v_r(3, ByteRegister::H),
            0x9D => self.res_v_r(3, ByteRegister::L),
            0x9E => self.res_v_mhl(memory, 3),
            0x9F => self.res_v_r(3, ByteRegister::A),
            0xA0 => self.res_v_r(4, ByteRegister::B),
            0xA1 => self.res_v_r(4, ByteRegister::C),
            0xA2 => self.res_v_r(4, ByteRegister::D),
            0xA3 => self.res_v_r(4, ByteRegister::E),
            0xA4 => self.res_v_r(4, ByteRegister::H),
            0xA5 => self.res_v_r(4, ByteRegister::L),
            0xA6 => self.res_v_mhl(memory, 4),
            0xA7 => self.res_v_r(4, ByteRegister::A),
            0xA8 => self.res_v_r(5, ByteRegister::B),
            0xA9 => self.res_v_r(5, ByteRegister::C),
            0xAA => self.res_v_r(5, ByteRegister::D),
            0xAB => self.res_v_r(5, ByteRegister::E),
            0xAC => self.res_v_r(5, ByteRegister::H),
            0xAD => self.res_v_r(5, ByteRegister::L),
            0xAE => self.res_v_mhl(memory, 5),
            0xAF => self.res_v_r(5, ByteRegister::A),
            0xB0 => self.res_v_r(6, ByteRegister::B),
            0xB1 => self.res_v_r(6, ByteRegister::C),
            0xB2 => self.res_v_r(6, ByteRegister::D),
            0xB3 => self.res_v_r(6, ByteRegister::E),
            0xB4 => self.res_v_r(6, ByteRegister::H),
            0xB5 => self.res_v_r(6, ByteRegister::L),
            0xB6 => self.res_v_mhl(memory, 6),
            0xB7 => self.res_v_r(6, ByteRegister::A),
            0xB8 => self.res_v_r(7, ByteRegister::B),
            0xB9 => self.res_v_r(7, ByteRegister::C),
            0xBA => self.res_v_r(7, ByteRegister::D),
            0xBB => self.res_v_r(7, ByteRegister::E),
            0xBC => self.res_v_r(7, ByteRegister::H),
            0xBD => self.res_v_r(7, ByteRegister::L),
            0xBE => self.res_v_mhl(memory, 7),
            0xBF => self.res_v_r(7, ByteRegister::A),
            _ => {},
        }
    }

    /// Executes an instruction whose opcode is in 0xC0 to 0xFF.
    #[verifier::rlimit(100)]
    fn execute_c0_ff(&mut self, memory: &mut Memory, instruction: u8)
        requires
            old(memory).wf(),
            instruction == old(memory)@[old(self).registers.pc as int],
            192 <= instruction < 256,
            opcode_implemented(instruction),
            old(self).execute_allowed(old(memory)@),
        ensures
            (*final(self), final(memory)@) == old(self).execute_spec(old(memory)@),
            final(memory).wf(),
    {
        match instruction {
            0xC0 => self.ret_nz(&*memory),
            0xC1 => self.pop_rr(&*memory, WordRegister::BC),
            0xC2 => self.jp_nz_nn(&*memory),
            0xC3 => self.jp_nn(&*memory),
            0xC4 => self.call_nz_nn(memory),
            0xC5 => self.push_rr(memory, WordRegister::BC),
            0xC6 => self.add_a_n(&*memory),
            0xC7 => self.rst_v_w_out(memory, 0),
            0xC8 => self.ret_z(&*memory),
            0xC9 => self.ret(&*memory),
            0xCA => self.jp_z_nn(&*memory),
            0xCB => self.prefix_cb(memory),
            0xCC => self.call_z_nn(memory),
            0xCD => self.call(memory),
            0xCE => self.adc_a_n(&*memory),
            0xCF => self.rst_v_w_out(memory, 0x08),
            0xD0 => self.ret_nc(&*memory),
            0xD1 => self.pop_rr(&*memory, WordRegister::DE),
            0xD2 => self.jp_nc_nn(&*memory),
            0xD4 => self.call_nc_nn(memory),
            0xD5 => self.push_rr(memory, WordRegister::DE),
            0xD6 => self.sub_n(&*memory),
            0xD7 => self.rst_v_w_out(memory, 0x10),
            0xD8 => self.ret_c(&*memory),
            0xD9 => self.reti(&*memory),
            0xDA => self.jp_c_nn(&*memory),
            0xDC => self.call_c_nn(memory),
            0xDE => self.sbc_a_n(&*memory),
            0xDF => self.rst_v_w_out(memory, 0x18),
            0xE0 => self.ldh_n_a(memory),
            0xE1 => self.pop_rr(&*memory, WordRegister::HL),
            0xE2 => self.ld_mc_a(memory),
            0xE5 => self.push_rr(memory, WordRegister::HL),
            0xE6 => self.and_n(&*memory),
            0xE7 => self.rst_v_w_out(memory, 0x20),
            0xE8 => self.add_sp_n(&*memory),
            0xE9 => self.jp_mhl(),
            0xEA => self.ld_nn_a(memory),
            0xEE => self.xor_n(&*memory),
            0xEF => self.rst_v_w_out(memory, 0x28),
            0xF0 => self.ldh_a_n(&*memory),
            0xF1 => self.pop_rr(&*memory, WordRegister::AF),
            0xF2 => self.ld_a_mc(&*memory),
            0xF3 => self.di(),
            0xF5 => self.push_rr(memory, WordRegister::AF),
            0xF6 => self.or_n(&*memory),
            0xF7 => self.rst_v_w_out(memory, 0x30),
            0xF8 => self.ld_hl_sp_n(&*memory),
            0xF9 => self.ld_sp_hl(),
            0xFA => self.ld_a_nn(&*memory),
            0xFB => self.ei(),
            0xFE => self.cp_n(&*memory),
            0xFF => self.rst_v_w_out(memory, 0x38),
            _ => {},
        }
    }

    /// Executes a 0xCB-prefixed instruction whose opcode is in 0xC0 to 0xFF.
    fn prefix_cb_c0_ff(&mut self, memory: &mut Memory, op: u8)
        requires
            old(memory).wf(),
            old(self).pc_fits(1),
            op == old(memory)@[old(self).registers.pc + 1],
            192 <= op,
        ensures
            (*final(self), final(memory)@) == old(self).cb_spec(old(memory)@),
            final(memory).wf(),
    {
        if op < 0xE0 {
            self.prefix_cb_c0_df(memory, op)
        } else {
            self.prefix_cb_e0_ff(memory, op)
        }
    }

    /// Executes a 0xCB-prefixed instruction whose opcode is in 0xC0 to 0xDF.
    #[verifier::rlimit(100)]
    fn prefix_cb_c0_df(&mut self, memory: &mut Memory, op: u8)
        requires
            old(memory).wf(),
            old(self).pc_fits(1),
            op == old(memory)@[old(self).registers.pc + 1],
            192 <= op < 224,
        ensures
            (*final(self), final(memory)@) == old(self).cb_spec(old(memory)@),
            final(memory).wf(),
    {
        match op {
            0xC0 => self.set_v_r(0, ByteRegister::B),
            0xC1 => self.set_v_r(0, ByteRegister::C),
            0xC2 => self.set_v_r(0, ByteRegister::D),
            0xC3 => self.set_v_r(0, ByteRegister::E),
            0xC4 => self.set_v_r(0, ByteRegister::H),
            0xC5 => self.set_v_r(0, ByteRegister::L),
            0xC6 => self.set_v_mhl(memory, 0),
            0xC7 => self.set_v_r(0, ByteRegister::A),
            0xC8 => self.set_v_r(1, ByteRegister::B),
            0xC9 => self.set_v_r(1, ByteRegister::C),
            0xCA => self.set_v_r(1, ByteRegister::D),
            0xCB => self.set_v_r(1, ByteRegister::E),
            0xCC => self.set_v_r(1, ByteRegister::H),
            0xCD => self.set_v_r(1, ByteRegister::L),
            0xCE => self.set_v_mhl(memory, 1),
            0xCF => self.set_v_r(1, ByteRegister::A),
            0xD0 => self.set_v_r(2, ByteRegister::B),
            0xD1 => self.set_v_r(2, ByteRegister::C),
            0xD2 => self.set_v_r(2, ByteRegister::D),
            0xD3 => self.set_v_r(2, ByteRegister::E),
            0xD4 => self.set_v_r(2, ByteRegister::H),
            0xD5 => self.set_v_r(2, ByteRegister::L),
            0xD6 => self.set_v_mhl(memory, 2),
            0xD7 => self.set_v_r(2, ByteRegister::A),
            0xD8 => self.set_v_r(3, ByteRegister::B),
            0xD9 => self.set_v_r(3, ByteRegister::C),
            0xDA => self.set_v_r(3, ByteRegister::D),
            0xDB => self.set_v_r(3, ByteRegister::E),
            0xDC => self.set_v_r(3, ByteRegister::H),
            0xDD => self.set_v_r(3, ByteRegister::L),
            0xDE => self.set_v_mhl(memory, 3),
            0xDF => self.set_v_r(3, ByteRegister::A),
            _ => {},
        }
    }

    /// Executes a 0xCB-prefixed instruction whose opcode is in 0xE0 to 0xFF.
    #[verifier::rlimit(100)]
    fn prefix_cb_e0_ff(&mut self, memory: &mut Memory, op: u8)
        requires
            old(memory).wf(),
            old(self).pc_fits(1),
            op == old(memory)@[old(self).registers.pc + 1],
            224 <= op < 256,
        ensures
            (*final(self), final(memory)@) == old(self).cb_spec(old(memory)@),
            final(memory).wf(),
    {
        match op {
            0xE0 => self.set_v_r(4, ByteRegister::B),
            0xE1 => self.set_v_r(4, ByteRegister::C),
            0xE2 => self.set_v_r(4, ByteRegister::D),
            0xE3 => self.set_v_r(4, ByteRegister::E),
            0xE4 => self.set_v_r(4, ByteRegister::H),
            0xE5 => self.set_v_r(4, ByteRegister::L),
            0xE6 => self.set_v_mhl(memory, 4),
            0xE7 => self.set_v_r(4, ByteRegister::A),
            0xE8 => self.set_v_r(5, ByteRegister::B),
            0xE9 => self.set_v_r(5, ByteRegister::C),
            0xEA => self.set_v_r(5, ByteRegister::D),
            0xEB => self.set_v_r(5, ByteRegister::E),
            0xEC => self.set_v_r(5, ByteRegister::H),
            0xED => self.set_v_r(5, ByteRegister::L),
            0xEE => self.set_v_mhl(memory, 5),
            0xEF => self.set_v_r(5, ByteRegister::A),
            0xF0 => self.set_v_r(6, ByteRegister::B),
            0xF1 => self.set_v_r(6, ByteRegister::C),
            0xF2 => self.set_v_r(6, ByteRegister::D),
            0xF3 => self.set_v_r(6, ByteRegister::E),
            0xF4 => self.set_v_r(6, ByteRegister::H),
            0xF5 => self.set_v_r(6, ByteRegister::L),
            0xF6 => self.set_v_mhl(memory, 6),
            0xF7 => self.set_v_r(6, ByteRegister::A),
            0xF8 => self.set_v_r(7, ByteRegister::B),
            0xF9 => self.set_v_r(7, ByteRegister::C),
            0xFA => self.set_v_r(7, ByteRegister::D),
            0xFB => self.set_v_r(7, ByteRegister::E),
            0xFC => self.set_v_r(7, ByteRegister::H),
            0xFD => self.set_v_r(7, ByteRegister::L),
            0xFE => self.set_v_mhl(memory, 7),
            0xFF => self.set_v_r(7, ByteRegister::A),
            _ => {},
        }
    }
}

} // verus!
