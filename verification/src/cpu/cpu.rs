//! The first instruction set of the processor: one method per implemented opcode,
//! each executing its instruction against the registers and the memory it is given.

use vstd::prelude::*;

use crate::bits::{lemma_byte_bits, lemma_byte_shl, lemma_or_disjoint};
use crate::cpu::alu::Alu;
use crate::cpu::registers::{CpuRegisters, WordRegister};
use crate::cpu::semantics::{CpuView, pushed, top_of_stack};
use crate::memory::Memory;

verus! {

/// Sign-extending and reinterpreting casts in arithmetic terms.
proof fn lemma_signed_casts()
    by (bit_vector)
    ensures
        forall|x: i8| #![trigger (x as u16)] (x as u16) as int == if x < 0 { x as int + 65536 } else { x as int },
        forall|x: u16| #![trigger (x as i16)] (x as i16) as int == if x >= 0x8000 { x as int - 65536 } else { x as int },
        forall|x: i16| #![trigger (x as u16)] (x as u16) as int == if x < 0 { x as int + 65536 } else { x as int },
{
}

/// The Game Boy processor, executing one instruction per step.
pub struct CPU {
    pub registers: CpuRegisters,
    alu: Alu,
    available_cycles: i32,

    pc_to_increment: i8,
    last_instruction_ccycles: i8,
    debug: bool,
    ime: bool,
}

impl View for CPU {
    type V = CpuView;

    closed spec fn view(&self) -> CpuView {
        CpuView {
            registers: self.registers,
            available_cycles: self.available_cycles,
            pc_to_increment: self.pc_to_increment,
            last_instruction_ccycles: self.last_instruction_ccycles,
            ime: self.ime,
            debug: self.debug,
        }
    }
}

impl CPU {
    /// Clock cycles available to the processor in one frame.
    pub const AVAILABLE_CCYCLES_PER_FRAME: i32 = 70221;

    /// A processor at power-up, with the whole frame's cycles available and no
    /// instruction executed yet.
    pub fn new(debug: bool, bootstrap: bool) -> (cpu: CPU)
        ensures
            cpu@ == (CpuView {
                registers: if bootstrap {
                    CpuRegisters { pc: 0x0001, ..CpuRegisters::spec_default() }
                } else {
                    CpuRegisters::spec_default()
                },
                available_cycles: 70221,
                pc_to_increment: -1i8,
                last_instruction_ccycles: -1i8,
                ime: false,
                debug,
            }),
    {
        CPU {
            registers: CpuRegisters::new(bootstrap),
            alu: Alu {},
            available_cycles: CPU::AVAILABLE_CCYCLES_PER_FRAME,
            pc_to_increment: -1,
            last_instruction_ccycles: -1,
            debug,
            ime: false,
        }
    }

    /// Makes the whole frame's cycles available again.
    pub fn reset_available_ccycles(&mut self)
        ensures
            final(self)@ == (CpuView { available_cycles: 70221, ..old(self)@ }),
    {
        self.available_cycles = CPU::AVAILABLE_CCYCLES_PER_FRAME;
    }

    /// Whether cycles are left in the current frame.
    pub fn has_available_ccycles(&self) -> (r: bool)
        ensures
            r == (self@.available_cycles > 0),
    {
        self.available_cycles > 0
    }

    /// The clock cycles the last instruction took.
    pub fn get_last_instruction_ccycles(&self) -> (r: u8)
        requires
            self@.last_instruction_ccycles >= 0,
        ensures
            r == self@.last_instruction_ccycles,
    {
        self.last_instruction_ccycles as u8
    }

    /// Whether executed instructions are traced.
    pub fn is_debug(&self) -> (r: bool)
        ensures
            r == self@.debug,
    {
        self.debug
    }

    /// Whether interrupts are enabled.
    pub fn are_interrupts_enabled(&self) -> (r: bool)
        ensures
            r == self@.ime,
    {
        self.ime
    }

    /// The address space a step works on: at address 0x100, a mapped bootstrap ROM gives
    /// way to the bytes it hid.
    pub open spec fn memory_for_step(self, memory: Memory) -> Seq<u8> {
        if self@.registers.pc == 0x100 { memory.unmapped() } else { memory@ }
    }

    /// Executes the instruction at the program counter, then moves the program counter
    /// on by what the instruction asks and takes its cycles from those left in the frame.
    pub fn step(&mut self, memory: &mut Memory)
        requires
            old(memory).wf(),
            old(self)@.step_allowed(old(self).memory_for_step(*old(memory))),
        ensures
            (final(self)@, final(memory)@) == old(self)@.step(old(self).memory_for_step(*old(memory))),
            final(memory).hidden_bytes() == (if old(self)@.registers.pc == 0x100 {
                None
            } else {
                old(memory).hidden_bytes()
            }),
            final(memory).wf(),
    {
        if self.registers.pc == 0x100 && memory.has_bootstrap_rom() {
            memory.erase_bootstrap_rom();
        }

        let hidden = memory.detach_bootstrap();
        self.run_instruction(memory);
        memory.attach_bootstrap(hidden);
    }

    /// Executes the instruction at the program counter, moves the program counter on and
    /// takes the cycles from those left in the frame.
    fn run_instruction(&mut self, memory: &mut Memory)
        requires
            old(memory).wf(),
            old(self)@.step_allowed(old(memory)@),
        ensures
            (final(self)@, final(memory)@) == old(self)@.step(old(memory)@),
            final(memory).wf(),
    {
        self.pc_to_increment = -1;
        self.last_instruction_ccycles = -1;

        self.execute(memory);

        self.available_cycles = self.available_cycles - self.last_instruction_ccycles as i32;

        self.registers.pc = self.registers.pc + self.pc_to_increment as u16;
    }

    /// Executes the instruction at the program counter.
    #[verifier::rlimit(50)]
    fn execute(&mut self, memory: &mut Memory)
        requires
            old(memory).wf(),
            old(self)@.execute_allowed(old(memory)@),
        ensures
            (final(self)@, final(memory)@) == old(self)@.execute(old(memory)@),
            final(memory).wf(),
    {
        let instruction: u8 = memory.read_8(self.registers.pc);

        match instruction {

            0x00 => self.nop(),
            0x01 => self.ld_bc_nn(&*memory),
            0x02 => self.ld_mbc_a(memory),
            0x03 => self.inc_bc(),
            0x04 => self.inc_b(),
            0x05 => self.dec_b(),
            0x06 => self.ld_b_n(&*memory),
            0x0B => self.dec_bc(),
            0x0C => self.inc_c(),
            0x0D => self.dec_c(),
            0x0E => self.ld_c_n(&*memory),
            0x11 => self.ld_de_nn(&*memory),
            0x12 => self.ld_mde_a(memory),
            0x13 => self.inc_de(),
            0x14 => self.inc_d(),
            0x15 => self.dec_d(),
            0x16 => self.ld_d_n(&*memory),
            0x17 => self.rla(),
            0x18 => self.jr_n(&*memory),
            0x19 => self.add_hl_de(),
            0x1A => self.ld_a_mde(&*memory),
            0x1C => self.inc_e(),
            0x1D => self.dec_e(),
            0x1E => self.ld_e_n(&*memory),
            0x1F => self.rra(),
            0x20 => self.jr_nz_n(&*memory),
            0x21 => self.ld_hl_nn(&*memory),
            0x22 => self.ldi_mhl_a(memory),
            0x23 => self.inc_hl(),
            0x24 => self.inc_h(),
            0x25 => self.dec_h(),
            0x26 => self.ld_h_n(&*memory),
            0x28 => self.jr_z_n(&*memory),
            0x29 => self.add_hl_hl(),
            0x2A => self.ldi_a_mhl(&*memory),
            0x2C => self.inc_l(),
            0x2D => self.dec_l(),
            0x2E => self.ld_l_n(&*memory),
            0x2F => self.cpl(),
            0x30 => self.jr_nc_n(&*memory),
            0x31 => self.ld_sp_nn(&*memory),
            0x32 => self.ldd_mhl_a(memory),
            0x34 => self.inc_mhl(memory),
            0x35 => self.dec_mhl(memory),
            0x36 => self.ld_mhl_n(memory),
            0x37 => self.scf(),
            0x38 => self.jr_c_n(&*memory),
            0x3C => self.inc_a(),
            0x3D => self.dec_a(),
            0x3E => self.ld_a_n(&*memory),
            0x3F => self.ccf(),
            0x46 => self.ld_b_mhl(&*memory),
            0x47 => self.ld_b_a(),
            0x49 => self.ld_c_c(),
            0x4E => self.ld_c_mhl(&*memory),
            0x4F => self.ld_c_a(),
            0x56 => self.ld_d_mhl(&*memory),
            0x57 => self.ld_d_a(),
            0x5E => self.ld_e_mhl(&*memory),
            0x5F => self.ld_e_a(),
            0x60 => self.ld_h_b(),
            0x66 => self.ld_h_mhl(&*memory),
            0x67 => self.ld_h_a(),
            0x6E => self.ld_l_mhl(&*memory),
            0x6F => self.ld_l_a(),
            0x70 => self.ld_mhl_b(memory),
            0x71 => self.ld_mhl_c(memory),
            0x72 => self.ld_mhl_d(memory),
            0x77 => self.ld_mhl_a(memory),
            0x78 => self.ld_a_b(),
            0x79 => self.ld_a_c(),
            0x7A => self.ld_a_d(),
            0x7B => self.ld_a_e(),
            0x7C => self.ld_a_h(),
            0x7D => self.ld_a_l(),
            0x7E => self.ld_a_mhl(&*memory),
            0x86 => self.add_a_mhl(&*memory),
            0x87 => self.add_a_a(),
            0x89 => self.adc_a_c(),
            0x90 => self.sub_b(),
            0xA1 => self.and_c(),
            0xA7 => self.and_a(),
            0xA9 => self.xor_c(),
            0xAE => self.xor_mhl(&*memory),
            0xAF => self.xor_a(),
            0xB0 => self.or_b(),
            0xB1 => self.or_c(),
            0xB6 => self.or_mhl(&*memory),
            0xB7 => self.or_a(),
            0xBE => self.cp_mhl(&*memory),
            0xC0 => self.ret_nz(memory),
            0xC1 => self.pop_bc(memory),
            0xC3 => self.jp_nn(&*memory),
            0xC4 => self.call_nz_nn(memory),
            0xC5 => self.push_bc(memory),
            0xC6 => self.add_a_n(&*memory),
            0xC8 => self.ret_z(memory),
            0xC9 => self.ret(memory),
            0xCA => self.jp_z_nn(&*memory),
            0xCB => self.prefix_cb(&*memory),
            0xCD => self.call(memory),
            0xCE => self.adc_a_n(&*memory),
            0xD0 => self.ret_nc(memory),
            0xD1 => self.pop_de(memory),
            0xD5 => self.push_de(memory),
            0xD6 => self.sub_n(&*memory),
            0xD9 => self.reti(memory),
            0xDF => self.rst_18(memory),
            0xE0 => self.ldh_n_a(memory),
            0xE1 => self.pop_hl(memory),
            0xE2 => self.ld_mc_a(memory),
            0xE5 => self.push_hl(memory),
            0xE6 => self.and_n(&*memory),
            0xE9 => self.jp_mhl(),
            0xEA => self.ld_nn_a(memory),
            0xEE => self.xor_n(&*memory),
            0xEF => self.rst_28(memory),
            0xF0 => self.ldh_a_n(memory),
            0xF1 => self.pop_af(memory),
            0xF3 => self.di(),
            0xF5 => self.push_af(memory),
            0xF6 => self.or_n(&*memory),
            0xFA => self.ld_a_nn(memory),
            0xFB => self.ei(),
            0xFE => self.cp_n(&*memory),
            0xFF => self.rst_38(memory),
            _ => {},
        }
    }


    /// Does nothing.
    pub fn nop(&mut self)
        ensures
            final(self)@ == old(self)@.nop(),
    {
        self.pc_to_increment = 1;
        self.last_instruction_ccycles = 4;
    }

    /// Decreases register A.
    pub fn dec_a(&mut self)
        ensures
            final(self)@ == old(self)@.dec_a(),
    {
        let value: u8 = self.registers.a;
        let value: u8 = self.alu.dec_n(&mut self.registers, value);
        self.registers.a = value;

        self.pc_to_increment = 1;
        self.last_instruction_ccycles = 4;
    }

    /// Decreases register B.
    pub fn dec_b(&mut self)
        ensures
            final(self)@ == old(self)@.dec_b(),
    {
        let value: u8 = self.registers.b;
        let value: u8 = self.alu.dec_n(&mut self.registers, value);
        self.registers.b = value;

        self.pc_to_increment = 1;
        self.last_instruction_ccycles = 4;
    }

    /// Decreases register C.
    pub fn dec_c(&mut self)
        ensures
            final(self)@ == old(self)@.dec_c(),
    {
        let value: u8 = self.registers.c;
        let value: u8 = self.alu.dec_n(&mut self.registers, value);
        self.registers.c = value;

        self.pc_to_increment = 1;
        self.last_instruction_ccycles = 4;
    }

    /// Decreases register D.
    pub fn dec_d(&mut self)
        ensures
            final(self)@ == old(self)@.dec_d(),
    {
        let value: u8 = self.registers.d;
        let value: u8 = self.alu.dec_n(&mut self.registers, value);
        self.registers.d = value;

        self.pc_to_increment = 1;
        self.last_instruction_ccycles = 4;
    }

    /// Decreases register E.
    pub fn dec_e(&mut self)
        ensures
            final(self)@ == old(self)@.dec_e(),
    {
        let value: u8 = self.registers.e;
        let value: u8 = self.alu.dec_n(&mut self.registers, value);
        self.registers.e = value;

        self.pc_to_increment = 1;
        self.last_instruction_ccycles = 4;
    }

    /// Decreases register H.
    pub fn dec_h(&mut self)
        ensures
            final(self)@ == old(self)@.dec_h(),
    {
        let value: u8 = self.registers.h;
        let value: u8 = self.alu.dec_n(&mut self.registers, value);
        self.registers.h = value;

        self.pc_to_increment = 1;
        self.last_instruction_ccycles = 4;
    }

    /// Decreases register L.
    pub fn dec_l(&mut self)
        ensures
            final(self)@ == old(self)@.dec_l(),
    {
        let value: u8 = self.registers.l;
        let value: u8 = self.alu.dec_n(&mut self.registers, value);
        self.registers.l = value;

        self.pc_to_increment = 1;
        self.last_instruction_ccycles = 4;
    }

    /// Decreases the byte at the address in HL.
    pub fn dec_mhl(&mut self, memory: &mut Memory)
        requires
            old(memory).wf(),
        ensures
            (final(self)@, final(memory)@) == old(self)@.dec_mhl(old(memory)@),
            final(memory).wf(),
    {
        let position: u16 = self.registers.read_word(&WordRegister::HL);
        let value: u8 = memory.read_8(position);
        let value: u8 = self.alu.dec_n(&mut self.registers, value);
        memory.write_8(position, value);

        self.pc_to_increment = 1;
        self.last_instruction_ccycles = 12;
    }

    /// Decreases register pair BC, modulo 65536; the flags are not changed.
    pub fn dec_bc(&mut self)
        ensures
            final(self)@ == old(self)@.dec_bc(),
    {
        let value: u16 = self.registers.read_word(&WordRegister::BC);
        let value: u16 = self.alu.dec_nn(value);
        self.registers.write_word(&WordRegister::BC, value);

        self.pc_to_increment = 1;
        self.last_instruction_ccycles = 8;
    }

    /// Increases register pair BC, modulo 65536; the flags are not changed.
    pub fn inc_bc(&mut self)
        ensures
            final(self)@ == old(self)@.inc_bc(),
    {
        let value: u16 = self.registers.read_word(&WordRegister::BC);
        let value: u16 = self.alu.inc_nn(value);
        self.registers.write_word(&WordRegister::BC, value);

        self.pc_to_increment = 1;
        self.last_instruction_ccycles = 8;
    }

    /// Increases register pair DE, modulo 65536; the flags are not changed.
    pub fn inc_de(&mut self)
        ensures
            final(self)@ == old(self)@.inc_de(),
    {
        let value: u16 = self.registers.read_word(&WordRegister::DE);
        let value: u16 = self.alu.inc_nn(value);
        self.registers.write_word(&WordRegister::DE, value);

        self.pc_to_increment = 1;
        self.last_instruction_ccycles = 8;
    }

    /// Increases register pair HL, modulo 65536; the flags are not changed.
    pub fn inc_hl(&mut self)
        ensures
            final(self)@ == old(self)@.inc_hl(),
    {
        let value: u16 = self.registers.read_word(&WordRegister::HL);
        let value: u16 = self.alu.inc_nn(value);
        self.registers.write_word(&WordRegister::HL, value);

        self.pc_to_increment = 1;
        self.last_instruction_ccycles = 8;
    }

    /// Increases register A.
    pub fn inc_a(&mut self)
        ensures
            final(self)@ == old(self)@.inc_a(),
    {
        let value: u8 = self.registers.a;
        let value: u8 = self.alu.inc_n(&mut self.registers, value);
        self.registers.a = value;

        self.pc_to_increment = 1;
        self.last_instruction_ccycles = 4;
    }

    /// Increases register D.
    pub fn inc_d(&mut self)
        ensures
            final(self)@ == old(self)@.inc_d(),
    {
        let value: u8 = self.registers.d;
        let value: u8 = self.alu.inc_n(&mut self.registers, value);
        self.registers.d = value;

        self.pc_to_increment = 1;
        self.last_instruction_ccycles = 4;
    }

    /// Increases register E.
    pub fn inc_e(&mut self)
        ensures
            final(self)@ == old(self)@.inc_e(),
    {
        let value: u8 = self.registers.e;
        let value: u8 = self.alu.inc_n(&mut self.registers, value);
        self.registers.e = value;

        self.pc_to_increment = 1;
        self.last_instruction_ccycles = 4;
    }

    /// Increases register B.
    pub fn inc_b(&mut self)
        ensures
            final(self)@ == old(self)@.inc_b(),
    {
        let value: u8 = self.registers.b;
        let value: u8 = self.alu.inc_n(&mut self.registers, value);
        self.registers.b = value;

        self.pc_to_increment = 1;
        self.last_instruction_ccycles = 4;
    }

    /// Increases register C.
    pub fn inc_c(&mut self)
        ensures
            final(self)@ == old(self)@.inc_c(),
    {
        let value: u8 = self.registers.c;
        let value: u8 = self.alu.inc_n(&mut self.registers, value);
        self.registers.c = value;

        self.pc_to_increment = 1;
        self.last_instruction_ccycles = 4;
    }

    /// Increases register H.
    pub fn inc_h(&mut self)
        ensures
            final(self)@ == old(self)@.inc_h(),
    {
        let value: u8 = self.registers.h;
        let value: u8 = self.alu.inc_n(&mut self.registers, value);
        self.registers.h = value;

        self.pc_to_increment = 1;
        self.last_instruction_ccycles = 4;
    }

    /// Increases register L.
    pub fn inc_l(&mut self)
        ensures
            final(self)@ == old(self)@.inc_l(),
    {
        let value: u8 = self.registers.l;
        let value: u8 = self.alu.inc_n(&mut self.registers, value);
        self.registers.l = value;

        self.pc_to_increment = 1;
        self.last_instruction_ccycles = 4;
    }

    /// Increases the byte at the address in HL.
    pub fn inc_mhl(&mut self, memory: &mut Memory)
        requires
            old(memory).wf(),
        ensures
            (final(self)@, final(memory)@) == old(self)@.inc_mhl(old(memory)@),
            final(memory).wf(),
    {
        let position: u16 = self.registers.read_word(&WordRegister::HL);
        let value: u8 = memory.read_8(position);
        let value: u8 = self.alu.inc_n(&mut self.registers, value);
        memory.write_8(position, value);

        self.pc_to_increment = 1;
        self.last_instruction_ccycles = 12;
    }

    /// Adds register C and the carry flag to A.
    pub fn adc_a_c(&mut self)
        ensures
            final(self)@ == old(self)@.adc_a_c(),
    {
        let operand: u8 = self.registers.c;
        let carry: bool = self.registers.is_flag_c();
        let value1: u8 = self.registers.a;
        let value2: u8 = operand;

        let result: u8 = self.alu.add_n(&mut self.registers, value1, value2, carry);
        self.registers.a = result;

        self.pc_to_increment = 1;
        self.last_instruction_ccycles = 4;
    }

    /// Adds the byte after the opcode and the carry flag to A.
    pub fn adc_a_n(&mut self, memory: &Memory)
        requires
            memory.wf(),
            old(self)@.adc_a_n_allowed(memory@),
        ensures
            final(self)@ == old(self)@.adc_a_n(memory@),
    {
        let operand: u8 = memory.read_8(self.registers.pc + 1);
        let carry: bool = self.registers.is_flag_c();
        let value1: u8 = self.registers.a;
        let value2: u8 = operand;

        let result: u8 = self.alu.add_n(&mut self.registers, value1, value2, carry);
        self.registers.a = result;

        self.pc_to_increment = 2;
        self.last_instruction_ccycles = 8;
    }

    /// Adds A to A.
    pub fn add_a_a(&mut self)
        ensures
            final(self)@ == old(self)@.add_a_a(),
    {
        let operand: u8 = self.registers.a;
        let value1: u8 = self.registers.a;
        let value2: u8 = operand;

        let result: u8 = self.alu.add_n(&mut self.registers, value1, value2, false);
        self.registers.a = result;

        self.pc_to_increment = 1;
        self.last_instruction_ccycles = 4;
    }

    /// Adds the byte after the opcode to A.
    pub fn add_a_n(&mut self, memory: &Memory)
        requires
            memory.wf(),
            old(self)@.add_a_n_allowed(memory@),
        ensures
            final(self)@ == old(self)@.add_a_n(memory@),
    {
        let operand: u8 = memory.read_8(self.registers.pc + 1);
        let value1: u8 = operand;
        let value2: u8 = self.registers.a;

        let result: u8 = self.alu.add_n(&mut self.registers, value1, value2, false);
        self.registers.a = result;

        self.pc_to_increment = 2;
        self.last_instruction_ccycles = 8;
    }

    /// Adds the byte at the address in HL to A.
    pub fn add_a_mhl(&mut self, memory: &Memory)
        requires
            memory.wf(),
        ensures
            final(self)@ == old(self)@.add_a_mhl(memory@),
    {
        let operand: u8 = memory.read_8(self.registers.read_word(&WordRegister::HL));
        let value1: u8 = operand;
        let value2: u8 = self.registers.a;

        let result: u8 = self.alu.add_n(&mut self.registers, value1, value2, false);
        self.registers.a = result;

        self.pc_to_increment = 1;
        self.last_instruction_ccycles = 8;
    }

    /// Adds register pair DE to HL; Z is not changed.
    pub fn add_hl_de(&mut self)
        ensures
            final(self)@ == old(self)@.add_hl_de(),
    {
        let value1: u16 = self.registers.read_word(&WordRegister::HL);
        let value2: u16 = self.registers.read_word(&WordRegister::DE);

        let result: u16 = self.alu.add_nn(&mut self.registers, value1, value2);
        self.registers.write_word(&WordRegister::HL, result);

        self.pc_to_increment = 1;
        self.last_instruction_ccycles = 8;
    }

    /// Adds register pair HL to HL; Z is not changed.
    pub fn add_hl_hl(&mut self)
        ensures
            final(self)@ == old(self)@.add_hl_hl(),
    {
        let value1: u16 = self.registers.read_word(&WordRegister::HL);
        let value2: u16 = self.registers.read_word(&WordRegister::HL);

        let result: u16 = self.alu.add_nn(&mut self.registers, value1, value2);
        self.registers.write_word(&WordRegister::HL, result);

        self.pc_to_increment = 1;
        self.last_instruction_ccycles = 8;
    }

    /// Subtracts the byte after the opcode from A.
    pub fn sub_n(&mut self, memory: &Memory)
        requires
            memory.wf(),
            old(self)@.sub_n_allowed(memory@),
        ensures
            final(self)@ == old(self)@.sub_n(memory@),
    {
        let operand: u8 = memory.read_8(self.registers.pc + 1);
        let value1: u8 = self.registers.a;
        let value2: u8 = operand;

        let result: u8 = self.alu.sub_n(&mut self.registers, value1, value2, false);
        self.registers.a = result;

        self.pc_to_increment = 2;
        self.last_instruction_ccycles = 8;
    }

    /// Subtracts register B from A.
    pub fn sub_b(&mut self)
        ensures
            final(self)@ == old(self)@.sub_b(),
    {
        let operand: u8 = self.registers.b;
        let value1: u8 = self.registers.a;
        let value2: u8 = operand;

        let result: u8 = self.alu.sub_n(&mut self.registers, value1, value2, false);
        self.registers.a = result;

        self.pc_to_increment = 1;
        self.last_instruction_ccycles = 4;
    }

    /// Rotates A right through the carry flag: bit 0 goes to the carry, the carry to bit 7; the other flags are not changed.
    pub fn rra(&mut self)
        ensures
            final(self)@ == old(self)@.rra(),
    {
        proof {
            lemma_byte_bits();
            lemma_or_disjoint();
        }
        let carry: bool = self.registers.is_flag_c();

        let new_carry: bool = self.registers.a & 0x01u8 == 1;
        let mut new_a: u8 = self.registers.a >> 1u8;

        self.registers.set_flag_c(new_carry);

        if carry {
            new_a = new_a | 0x80u8;
        } else {
            new_a = new_a & 0x7Fu8;
        }

        self.registers.a = new_a;

        self.pc_to_increment = 1;
        self.last_instruction_ccycles = 4;
    }

    /// XORs A with A into A: sets Z if the result is 0, clears N, H and C.
    pub fn xor_a(&mut self)
        ensures
            final(self)@ == old(self)@.xor_a(),
    {
        let value: u8 = self.registers.a;
        self.registers.a = value ^ self.registers.a;

        let zero: bool = self.registers.a == 0;
        self.registers.set_flag_z(zero);

        self.registers.set_flag_c(false);
        self.registers.set_flag_h(false);
        self.registers.set_flag_n(false);

        self.pc_to_increment = 1;
        self.last_instruction_ccycles = 4;
    }

    /// XORs C with A into A: sets Z if the result is 0, clears N, H and C.
    pub fn xor_c(&mut self)
        ensures
            final(self)@ == old(self)@.xor_c(),
    {
        let value: u8 = self.registers.c;
        self.registers.a = value ^ self.registers.a;

        let zero: bool = self.registers.a == 0;
        self.registers.set_flag_z(zero);

        self.registers.set_flag_c(false);
        self.registers.set_flag_h(false);
        self.registers.set_flag_n(false);

        self.pc_to_increment = 1;
        self.last_instruction_ccycles = 4;
    }

    /// XORs the byte after the opcode with A into A: sets Z if the result is 0, clears N, H and C.
    pub fn xor_n(&mut self, memory: &Memory)
        requires
            memory.wf(),
            old(self)@.xor_n_allowed(memory@),
        ensures
            final(self)@ == old(self)@.xor_n(memory@),
    {
        let value: u8 = memory.read_8(self.registers.pc + 1);
        self.registers.a = value ^ self.registers.a;

        let zero: bool = self.registers.a == 0;
        self.registers.set_flag_z(zero);

        self.registers.set_flag_c(false);
        self.registers.set_flag_h(false);
        self.registers.set_flag_n(false);

        self.pc_to_increment = 2;
        self.last_instruction_ccycles = 8;
    }

    /// XORs the byte at the address in HL with A into A: sets Z if the result is 0, clears N, H and C.
    pub fn xor_mhl(&mut self, memory: &Memory)
        requires
            memory.wf(),
        ensures
            final(self)@ == old(self)@.xor_mhl(memory@),
    {
        let value: u8 = memory.read_8(self.registers.read_word(&WordRegister::HL));
        self.registers.a = value ^ self.registers.a;

        let zero: bool = self.registers.a == 0;
        self.registers.set_flag_z(zero);

        self.registers.set_flag_c(false);
        self.registers.set_flag_h(false);
        self.registers.set_flag_n(false);

        self.pc_to_increment = 1;
        self.last_instruction_ccycles = 8;
    }

    /// ORs A with A into A.
    pub fn or_a(&mut self)
        ensures
            final(self)@ == old(self)@.or_a(),
    {
        let value1: u8 = self.registers.a;
        let value2: u8 = self.registers.a;

        let result: u8 = self.alu.or_n(&mut self.registers, value1, value2);
        self.registers.a = result;

        self.pc_to_increment = 1;
        self.last_instruction_ccycles = 4;
    }

    /// ORs B with A into A.
    pub fn or_b(&mut self)
        ensures
            final(self)@ == old(self)@.or_b(),
    {
        let value1: u8 = self.registers.b;
        let value2: u8 = self.registers.a;

        let result: u8 = self.alu.or_n(&mut self.registers, value1, value2);
        self.registers.a = result;

        self.pc_to_increment = 1;
        self.last_instruction_ccycles = 4;
    }

    /// ORs C with A into A.
    pub fn or_c(&mut self)
        ensures
            final(self)@ == old(self)@.or_c(),
    {
        let value1: u8 = self.registers.c;
        let value2: u8 = self.registers.a;

        let result: u8 = self.alu.or_n(&mut self.registers, value1, value2);
        self.registers.a = result;

        self.pc_to_increment = 1;
        self.last_instruction_ccycles = 4;
    }

    /// ORs the byte at the address in HL with A into A.
    pub fn or_mhl(&mut self, memory: &Memory)
        requires
            memory.wf(),
        ensures
            final(self)@ == old(self)@.or_mhl(memory@),
    {
        let value1: u8 = memory.read_8(self.registers.read_word(&WordRegister::HL));
        let value2: u8 = self.registers.a;

        let result: u8 = self.alu.or_n(&mut self.registers, value1, value2);
        self.registers.a = result;

        self.pc_to_increment = 1;
        self.last_instruction_ccycles = 8;
    }

    /// ORs the byte after the opcode with A into A.
    pub fn or_n(&mut self, memory: &Memory)
        requires
            memory.wf(),
            old(self)@.or_n_allowed(memory@),
        ensures
            final(self)@ == old(self)@.or_n(memory@),
    {
        let value1: u8 = memory.read_8(self.registers.pc + 1);
        let value2: u8 = self.registers.a;

        let result: u8 = self.alu.or_n(&mut self.registers, value1, value2);
        self.registers.a = result;

        self.pc_to_increment = 2;
        self.last_instruction_ccycles = 8;
    }

    /// ANDs A with A into A.
    pub fn and_a(&mut self)
        ensures
            final(self)@ == old(self)@.and_a(),
    {
        let value1: u8 = self.registers.a;
        let value2: u8 = self.registers.a;

        let result: u8 = self.alu.and_n(&mut self.registers, value1, value2);
        self.registers.a = result;

        self.pc_to_increment = 1;
        self.last_instruction_ccycles = 4;
    }

    /// ANDs C with A into A.
    pub fn and_c(&mut self)
        ensures
            final(self)@ == old(self)@.and_c(),
    {
        let value1: u8 = self.registers.c;
        let value2: u8 = self.registers.a;

        let result: u8 = self.alu.and_n(&mut self.registers, value1, value2);
        self.registers.a = result;

        self.pc_to_increment = 1;
        self.last_instruction_ccycles = 4;
    }

    /// ANDs the byte after the opcode with A into A.
    pub fn and_n(&mut self, memory: &Memory)
        requires
            memory.wf(),
            old(self)@.and_n_allowed(memory@),
        ensures
            final(self)@ == old(self)@.and_n(memory@),
    {
        let value1: u8 = memory.read_8(self.registers.pc + 1);
        let value2: u8 = self.registers.a;

        let result: u8 = self.alu.and_n(&mut self.registers, value1, value2);
        self.registers.a = result;

        self.pc_to_increment = 2;
        self.last_instruction_ccycles = 8;
    }

    /// Complements A; sets N and H.
    pub fn cpl(&mut self)
        ensures
            final(self)@ == old(self)@.cpl(),
    {
        self.registers.set_flag_n(true);
        self.registers.set_flag_h(true);

        self.registers.a = !self.registers.a;

        self.pc_to_increment = 1;
        self.last_instruction_ccycles = 4;
    }

    /// Sets the carry flag and clears N and H.
    pub fn scf(&mut self)
        ensures
            final(self)@ == old(self)@.scf(),
    {
        self.registers.set_flag_n(false);
        self.registers.set_flag_h(false);
        self.registers.set_flag_c(true);

        self.pc_to_increment = 1;
        self.last_instruction_ccycles = 4;
    }

    /// Complements the carry flag.
    pub fn ccf(&mut self)
        ensures
            final(self)@ == old(self)@.ccf(),
    {
        let carry: bool = self.registers.is_flag_c();
        self.registers.set_flag_c(!carry);

        self.pc_to_increment = 1;
        self.last_instruction_ccycles = 4;
    }

    /// Compares A with the byte after the opcode.
    pub fn cp_n(&mut self, memory: &Memory)
        requires
            memory.wf(),
            old(self)@.cp_n_allowed(memory@),
        ensures
            final(self)@ == old(self)@.cp_n(memory@),
    {
        let n: u8 = memory.read_8(self.registers.pc + 1);

        self.alu.cp_n(&mut self.registers, n);

        self.pc_to_increment = 2;
        self.last_instruction_ccycles = 8;
    }

    /// Compares A with the byte at the address in HL.
    pub fn cp_mhl(&mut self, memory: &Memory)
        requires
            memory.wf(),
        ensures
            final(self)@ == old(self)@.cp_mhl(memory@),
    {
        let n: u8 = memory.read_8(self.registers.read_word(&WordRegister::HL));

        self.alu.cp_n(&mut self.registers, n);

        self.pc_to_increment = 1;
        self.last_instruction_ccycles = 8;
    }

    /// Loads the byte after the opcode into register B.
    pub fn ld_b_n(&mut self, memory: &Memory)
        requires
            memory.wf(),
            old(self)@.ld_b_n_allowed(memory@),
        ensures
            final(self)@ == old(self)@.ld_b_n(memory@),
    {
        self.registers.b = memory.read_8(self.registers.pc + 1);

        self.pc_to_increment = 2;
        self.last_instruction_ccycles = 8;
    }

    /// Loads the byte after the opcode into register C.
    pub fn ld_c_n(&mut self, memory: &Memory)
        requires
            memory.wf(),
            old(self)@.ld_c_n_allowed(memory@),
        ensures
            final(self)@ == old(self)@.ld_c_n(memory@),
    {
        self.registers.c = memory.read_8(self.registers.pc + 1);

        self.pc_to_increment = 2;
        self.last_instruction_ccycles = 8;
    }

    /// Loads the byte after the opcode into register D.
    pub fn ld_d_n(&mut self, memory: &Memory)
        requires
            memory.wf(),
            old(self)@.ld_d_n_allowed(memory@),
        ensures
            final(self)@ == old(self)@.ld_d_n(memory@),
    {
        self.registers.d = memory.read_8(self.registers.pc + 1);

        self.pc_to_increment = 2;
        self.last_instruction_ccycles = 8;
    }

    /// Loads the byte after the opcode into register H.
    pub fn ld_h_n(&mut self, memory: &Memory)
        requires
            memory.wf(),
            old(self)@.ld_h_n_allowed(memory@),
        ensures
            final(self)@ == old(self)@.ld_h_n(memory@),
    {
        self.registers.h = memory.read_8(self.registers.pc + 1);

        self.pc_to_increment = 2;
        self.last_instruction_ccycles = 8;
    }

    /// Loads register C into register C.
    pub fn ld_c_c(&mut self)
        ensures
            final(self)@ == old(self)@.ld_c_c(),
    {
        self.registers.c = self.registers.c;

        self.pc_to_increment = 1;
        self.last_instruction_ccycles = 4;
    }

    /// Loads register B into register H.
    pub fn ld_h_b(&mut self)
        ensures
            final(self)@ == old(self)@.ld_h_b(),
    {
        self.registers.h = self.registers.b;

        self.pc_to_increment = 1;
        self.last_instruction_ccycles = 4;
    }

    /// Loads register A into register H.
    pub fn ld_h_a(&mut self)
        ensures
            final(self)@ == old(self)@.ld_h_a(),
    {
        self.registers.h = self.registers.a;

        self.pc_to_increment = 1;
        self.last_instruction_ccycles = 4;
    }

    /// Loads register A into register L.
    pub fn ld_l_a(&mut self)
        ensures
            final(self)@ == old(self)@.ld_l_a(),
    {
        self.registers.l = self.registers.a;

        self.pc_to_increment = 1;
        self.last_instruction_ccycles = 4;
    }

    /// Loads the byte after the opcode into register E.
    pub fn ld_e_n(&mut self, memory: &Memory)
        requires
            memory.wf(),
            old(self)@.ld_e_n_allowed(memory@),
        ensures
            final(self)@ == old(self)@.ld_e_n(memory@),
    {
        self.registers.e = memory.read_8(self.registers.pc + 1);

        self.pc_to_increment = 2;
        self.last_instruction_ccycles = 8;
    }

    /// Loads the word after the opcode into HL: L from its first byte, H from its second.
    pub fn ld_hl_nn(&mut self, memory: &Memory)
        requires
            memory.wf(),
            old(self)@.ld_hl_nn_allowed(memory@),
        ensures
            final(self)@ == old(self)@.ld_hl_nn(memory@),
    {
        self.registers.l = memory.read_8(self.registers.pc + 1);
        self.registers.h = memory.read_8(self.registers.pc + 2);

        self.pc_to_increment = 3;
        self.last_instruction_ccycles = 12;
    }

    /// Loads the word after the opcode into SP.
    pub fn ld_sp_nn(&mut self, memory: &Memory)
        requires
            memory.wf(),
            old(self)@.ld_sp_nn_allowed(memory@),
        ensures
            final(self)@ == old(self)@.ld_sp_nn(memory@),
    {
        self.registers.sp = memory.read_16(self.registers.pc + 1);

        self.pc_to_increment = 3;
        self.last_instruction_ccycles = 12;
    }

    /// Loads the byte after the opcode into register A.
    pub fn ld_a_n(&mut self, memory: &Memory)
        requires
            memory.wf(),
            old(self)@.ld_a_n_allowed(memory@),
        ensures
            final(self)@ == old(self)@.ld_a_n(memory@),
    {
        self.registers.a = memory.read_8(self.registers.pc + 1);

        self.pc_to_increment = 2;
        self.last_instruction_ccycles = 8;
    }

    /// Loads the byte after the opcode into register L.
    pub fn ld_l_n(&mut self, memory: &Memory)
        requires
            memory.wf(),
            old(self)@.ld_l_n_allowed(memory@),
        ensures
            final(self)@ == old(self)@.ld_l_n(memory@),
    {
        self.registers.l = memory.read_8(self.registers.pc + 1);

        self.pc_to_increment = 2;
        self.last_instruction_ccycles = 8;
    }

    /// Loads the byte at the address in HL into register B.
    pub fn ld_b_mhl(&mut self, memory: &Memory)
        requires
            memory.wf(),
        ensures
            final(self)@ == old(self)@.ld_b_mhl(memory@),
    {
        self.registers.b = memory.read_8(self.registers.read_word(&WordRegister::HL));

        self.pc_to_increment = 1;
        self.last_instruction_ccycles = 8;
    }

    /// Loads the byte at the address in HL into register C.
    pub fn ld_c_mhl(&mut self, memory: &Memory)
        requires
            memory.wf(),
        ensures
            final(self)@ == old(self)@.ld_c_mhl(memory@),
    {
        self.registers.c = memory.read_8(self.registers.read_word(&WordRegister::HL));

        self.pc_to_increment = 1;
        self.last_instruction_ccycles = 8;
    }

    /// Loads the byte at the address in HL into register D.
    pub fn ld_d_mhl(&mut self, memory: &Memory)
        requires
            memory.wf(),
        ensures
            final(self)@ == old(self)@.ld_d_mhl(memory@),
    {
        self.registers.d = memory.read_8(self.registers.read_word(&WordRegister::HL));

        self.pc_to_increment = 1;
        self.last_instruction_ccycles = 8;
    }

    /// Loads the byte at the address in HL into register L.
    pub fn ld_l_mhl(&mut self, memory: &Memory)
        requires
            memory.wf(),
        ensures
            final(self)@ == old(self)@.ld_l_mhl(memory@),
    {
        self.registers.l = memory.read_8(self.registers.read_word(&WordRegister::HL));

        self.pc_to_increment = 1;
        self.last_instruction_ccycles = 8;
    }

    /// Loads the byte at the address in HL into register H.
    pub fn ld_h_mhl(&mut self, memory: &Memory)
        requires
            memory.wf(),
        ensures
            final(self)@ == old(self)@.ld_h_mhl(memory@),
    {
        self.registers.h = memory.read_8(self.registers.read_word(&WordRegister::HL));

        self.pc_to_increment = 1;
        self.last_instruction_ccycles = 8;
    }

    /// Loads the byte at the address in DE into register A.
    pub fn ld_a_mde(&mut self, memory: &Memory)
        requires
            memory.wf(),
        ensures
            final(self)@ == old(self)@.ld_a_mde(memory@),
    {
        self.registers.a = memory.read_8(self.registers.read_word(&WordRegister::DE));

        self.pc_to_increment = 1;
        self.last_instruction_ccycles = 8;
    }

    /// Loads the byte at the address in HL into register A.
    pub fn ld_a_mhl(&mut self, memory: &Memory)
        requires
            memory.wf(),
        ensures
            final(self)@ == old(self)@.ld_a_mhl(memory@),
    {
        self.registers.a = memory.read_8(self.registers.read_word(&WordRegister::HL));

        self.pc_to_increment = 1;
        self.last_instruction_ccycles = 8;
    }

    /// Loads register B into register A.
    pub fn ld_a_b(&mut self)
        ensures
            final(self)@ == old(self)@.ld_a_b(),
    {
        self.registers.a = self.registers.b;

        self.pc_to_increment = 1;
        self.last_instruction_ccycles = 4;
    }

    /// Loads register C into register A.
    pub fn ld_a_c(&mut self)
        ensures
            final(self)@ == old(self)@.ld_a_c(),
    {
        self.registers.a = self.registers.c;

        self.pc_to_increment = 1;
        self.last_instruction_ccycles = 4;
    }

    /// Loads register D into register A.
    pub fn ld_a_d(&mut self)
        ensures
            final(self)@ == old(self)@.ld_a_d(),
    {
        self.registers.a = self.registers.d;

        self.pc_to_increment = 1;
        self.last_instruction_ccycles = 4;
    }

    /// Loads register E into register A.
    pub fn ld_a_e(&mut self)
        ensures
            final(self)@ == old(self)@.ld_a_e(),
    {
        self.registers.a = self.registers.e;

        self.pc_to_increment = 1;
        self.last_instruction_ccycles = 4;
    }

    /// Loads register H into register A.
    pub fn ld_a_h(&mut self)
        ensures
            final(self)@ == old(self)@.ld_a_h(),
    {
        self.registers.a = self.registers.h;

        self.pc_to_increment = 1;
        self.last_instruction_ccycles = 4;
    }

    /// Loads register L into register A.
    pub fn ld_a_l(&mut self)
        ensures
            final(self)@ == old(self)@.ld_a_l(),
    {
        self.registers.a = self.registers.l;

        self.pc_to_increment = 1;
        self.last_instruction_ccycles = 4;
    }

    /// Loads register A into register B.
    pub fn ld_b_a(&mut self)
        ensures
            final(self)@ == old(self)@.ld_b_a(),
    {
        self.registers.b = self.registers.a;

        self.pc_to_increment = 1;
        self.last_instruction_ccycles = 4;
    }

    /// Loads register A into register C.
    pub fn ld_c_a(&mut self)
        ensures
            final(self)@ == old(self)@.ld_c_a(),
    {
        self.registers.c = self.registers.a;

        self.pc_to_increment = 1;
        self.last_instruction_ccycles = 4;
    }

    /// Loads register A into register D.
    pub fn ld_d_a(&mut self)
        ensures
            final(self)@ == old(self)@.ld_d_a(),
    {
        self.registers.d = self.registers.a;

        self.pc_to_increment = 1;
        self.last_instruction_ccycles = 4;
    }

    /// Loads register A into register E.
    pub fn ld_e_a(&mut self)
        ensures
            final(self)@ == old(self)@.ld_e_a(),
    {
        self.registers.e = self.registers.a;

        self.pc_to_increment = 1;
        self.last_instruction_ccycles = 4;
    }

    /// Loads the byte at the address in HL into register E.
    pub fn ld_e_mhl(&mut self, memory: &Memory)
        requires
            memory.wf(),
        ensures
            final(self)@ == old(self)@.ld_e_mhl(memory@),
    {
        self.registers.e = memory.read_8(self.registers.read_word(&WordRegister::HL));

        self.pc_to_increment = 1;
        self.last_instruction_ccycles = 8;
    }

    /// Writes A to the address 0xFF00 plus the byte after the opcode.
    pub fn ldh_n_a(&mut self, memory: &mut Memory)
        requires
            old(memory).wf(),
            old(self)@.ldh_n_a_allowed(old(memory)@),
        ensures
            (final(self)@, final(memory)@) == old(self)@.ldh_n_a(old(memory)@),
            final(memory).wf(),
    {
        let to_sum: u16 = memory.read_8(self.registers.pc + 1) as u16;

        let mem_addr: u16 = 0xFF00 + to_sum;

        memory.write_8(mem_addr, self.registers.a);

        self.pc_to_increment = 2;
        self.last_instruction_ccycles = 12;
    }

    /// Writes A to the address 0xFF00 plus C.
    pub fn ld_mc_a(&mut self, memory: &mut Memory)
        requires
            old(memory).wf(),
        ensures
            (final(self)@, final(memory)@) == old(self)@.ld_mc_a(old(memory)@),
            final(memory).wf(),
    {
        let mem_addr: u16 = 0xFF00 + self.registers.c as u16;
        memory.write_8(mem_addr, self.registers.a);

        self.pc_to_increment = 1;
        self.last_instruction_ccycles = 8;
    }

    /// Loads into A the byte at the address 0xFF00 plus the byte after the opcode.
    pub fn ldh_a_n(&mut self, memory: &mut Memory)
        requires
            old(memory).wf(),
            old(self)@.ldh_a_n_allowed(old(memory)@),
        ensures
            (final(self)@, final(memory)@) == old(self)@.ldh_a_n(old(memory)@),
            final(memory).wf(),
    {
        let to_sum: u16 = memory.read_8(self.registers.pc + 1) as u16;

        let mem_addr: u16 = 0xFF00 + to_sum;
        self.registers.a = memory.read_8(mem_addr);

        self.pc_to_increment = 2;
        self.last_instruction_ccycles = 12;
    }

    /// Writes A to the address given by the word after the opcode.
    pub fn ld_nn_a(&mut self, memory: &mut Memory)
        requires
            old(memory).wf(),
            old(self)@.ld_nn_a_allowed(old(memory)@),
        ensures
            (final(self)@, final(memory)@) == old(self)@.ld_nn_a(old(memory)@),
            final(memory).wf(),
    {
        let mem_addr: u16 = memory.read_16(self.registers.pc + 1);

        memory.write_8(mem_addr, self.registers.a);

        self.pc_to_increment = 3;
        self.last_instruction_ccycles = 16;
    }

    /// Loads into A the byte at the address given by the word after the opcode.
    pub fn ld_a_nn(&mut self, memory: &mut Memory)
        requires
            old(memory).wf(),
            old(self)@.ld_a_nn_allowed(old(memory)@),
        ensures
            (final(self)@, final(memory)@) == old(self)@.ld_a_nn(old(memory)@),
            final(memory).wf(),
    {
        let mem_addr: u16 = memory.read_16(self.registers.pc + 1);

        self.registers.a = memory.read_8(mem_addr);

        self.pc_to_increment = 3;
        self.last_instruction_ccycles = 16;
    }

    /// Writes A to the address in HL and decreases HL.
    pub fn ldd_mhl_a(&mut self, memory: &mut Memory)
        requires
            old(memory).wf(),
        ensures
            (final(self)@, final(memory)@) == old(self)@.ldd_mhl_a(old(memory)@),
            final(memory).wf(),
    {
        let position: u16 = self.registers.read_word(&WordRegister::HL);
        memory.write_8(position, self.registers.a);

        let value: u16 = self.alu.dec_nn(position);
        self.registers.write_word(&WordRegister::HL, value);

        self.pc_to_increment = 1;
        self.last_instruction_ccycles = 4;
    }

    /// Writes A to the address in HL and increases HL.
    pub fn ldi_mhl_a(&mut self, memory: &mut Memory)
        requires
            old(memory).wf(),
        ensures
            (final(self)@, final(memory)@) == old(self)@.ldi_mhl_a(old(memory)@),
            final(memory).wf(),
    {
        let position: u16 = self.registers.read_word(&WordRegister::HL);
        memory.write_8(position, self.registers.a);

        let value: u16 = self.alu.inc_nn(position);
        self.registers.write_word(&WordRegister::HL, value);

        self.pc_to_increment = 1;
        self.last_instruction_ccycles = 4;
    }

    /// Writes register A to the address in BC.
    pub fn ld_mbc_a(&mut self, memory: &mut Memory)
        requires
            old(memory).wf(),
        ensures
            (final(self)@, final(memory)@) == old(self)@.ld_mbc_a(old(memory)@),
            final(memory).wf(),
    {
        let position: u16 = self.registers.read_word(&WordRegister::BC);
        memory.write_8(position, self.registers.a);

        self.pc_to_increment = 1;
        self.last_instruction_ccycles = 8;
    }

    /// Writes register A to the address in DE.
    pub fn ld_mde_a(&mut self, memory: &mut Memory)
        requires
            old(memory).wf(),
        ensures
            (final(self)@, final(memory)@) == old(self)@.ld_mde_a(old(memory)@),
            final(memory).wf(),
    {
        let position: u16 = self.registers.read_word(&WordRegister::DE);
        memory.write_8(position, self.registers.a);

        self.pc_to_increment = 1;
        self.last_instruction_ccycles = 8;
    }

    /// Writes register A to the address in HL.
    pub fn ld_mhl_a(&mut self, memory: &mut Memory)
        requires
            old(memory).wf(),
        ensures
            (final(self)@, final(memory)@) == old(self)@.ld_mhl_a(old(memory)@),
            final(memory).wf(),
    {
        let position: u16 = self.registers.read_word(&WordRegister::HL);
        memory.write_8(position, self.registers.a);

        self.pc_to_increment = 1;
        self.last_instruction_ccycles = 8;
    }

    /// Writes register B to the address in HL.
    pub fn ld_mhl_b(&mut self, memory: &mut Memory)
        requires
            old(memory).wf(),
        ensures
            (final(self)@, final(memory)@) == old(self)@.ld_mhl_b(old(memory)@),
            final(memory).wf(),
    {
        let position: u16 = self.registers.read_word(&WordRegister::HL);
        memory.write_8(position, self.registers.b);

        self.pc_to_increment = 1;
        self.last_instruction_ccycles = 8;
    }

    /// Writes register C to the address in HL.
    pub fn ld_mhl_c(&mut self, memory: &mut Memory)
        requires
            old(memory).wf(),
        ensures
            (final(self)@, final(memory)@) == old(self)@.ld_mhl_c(old(memory)@),
            final(memory).wf(),
    {
        let position: u16 = self.registers.read_word(&WordRegister::HL);
        memory.write_8(position, self.registers.c);

        self.pc_to_increment = 1;
        self.last_instruction_ccycles = 8;
    }

    /// Writes register D to the address in HL.
    pub fn ld_mhl_d(&mut self, memory: &mut Memory)
        requires
            old(memory).wf(),
        ensures
            (final(self)@, final(memory)@) == old(self)@.ld_mhl_d(old(memory)@),
            final(memory).wf(),
    {
        let position: u16 = self.registers.read_word(&WordRegister::HL);
        memory.write_8(position, self.registers.d);

        self.pc_to_increment = 1;
        self.last_instruction_ccycles = 8;
    }

    /// Writes the byte after the opcode to the address in HL.
    pub fn ld_mhl_n(&mut self, memory: &mut Memory)
        requires
            old(memory).wf(),
            old(self)@.ld_mhl_n_allowed(old(memory)@),
        ensures
            (final(self)@, final(memory)@) == old(self)@.ld_mhl_n(old(memory)@),
            final(memory).wf(),
    {
        let value: u8 = memory.read_8(self.registers.pc + 1);

        let position: u16 = self.registers.read_word(&WordRegister::HL);
        memory.write_8(position, value);

        self.pc_to_increment = 2;
        self.last_instruction_ccycles = 12;
    }

    /// Loads into A the byte at the address in HL and increases HL.
    pub fn ldi_a_mhl(&mut self, memory: &Memory)
        requires
            memory.wf(),
        ensures
            final(self)@ == old(self)@.ldi_a_mhl(memory@),
    {
        let mut new_value_hl: u16 = self.registers.read_word(&WordRegister::HL);
        let value: u8 = memory.read_8(new_value_hl);
        self.registers.a = value;

        new_value_hl = self.alu.inc_nn(new_value_hl);

        self.registers.write_word(&WordRegister::HL, new_value_hl);

        self.pc_to_increment = 1;
        self.last_instruction_ccycles = 8;
    }

    /// Loads the word after the opcode into BC.
    pub fn ld_bc_nn(&mut self, memory: &Memory)
        requires
            memory.wf(),
            old(self)@.ld_bc_nn_allowed(memory@),
        ensures
            final(self)@ == old(self)@.ld_bc_nn(memory@),
    {
        let value: u16 = memory.read_16(self.registers.pc + 1);
        self.registers.write_word(&WordRegister::BC, value);

        self.pc_to_increment = 3;
        self.last_instruction_ccycles = 12;
    }

    /// Loads the word after the opcode into DE.
    pub fn ld_de_nn(&mut self, memory: &Memory)
        requires
            memory.wf(),
            old(self)@.ld_de_nn_allowed(memory@),
        ensures
            final(self)@ == old(self)@.ld_de_nn(memory@),
    {
        let value: u16 = memory.read_16(self.registers.pc + 1);
        self.registers.write_word(&WordRegister::DE, value);

        self.pc_to_increment = 3;
        self.last_instruction_ccycles = 12;
    }

    /// Jumps by the signed byte after the opcode, counted from the next instruction.
    pub fn jr_n(&mut self, memory: &Memory)
        requires
            memory.wf(),
            old(self)@.jr_n_allowed(memory@),
        ensures
            final(self)@ == old(self)@.jr_n(memory@),
    {
        proof { lemma_signed_casts(); }
        let to_sum: i8 = memory.read_8_signed(self.registers.pc + 1) + 2;

        self.registers.pc = self.registers.pc.wrapping_add(to_sum as u16);

        self.pc_to_increment = 0;
        self.last_instruction_ccycles = 12;
    }

    /// Jumps by the signed byte after the opcode, counted from the next instruction, if Z is not set; otherwise goes on to the next instruction.
    pub fn jr_nz_n(&mut self, memory: &Memory)
        requires
            memory.wf(),
            old(self)@.jr_nz_n_allowed(memory@),
        ensures
            final(self)@ == old(self)@.jr_nz_n(memory@),
    {
        proof { lemma_signed_casts(); }
        let possible_value: i8 = memory.read_8_signed(self.registers.pc + 1);

        self.registers.pc = self.registers.pc + 2;

        if !self.registers.is_flag_z() {
            self.registers.pc = (self.registers.pc as i16 + possible_value as i16) as u16;
            self.last_instruction_ccycles = 12;
        } else {
            self.last_instruction_ccycles = 8;
        }

        self.pc_to_increment = 0;
    }

    /// Jumps by the signed byte after the opcode, counted from the next instruction, if Z is set; otherwise goes on to the next instruction.
    pub fn jr_z_n(&mut self, memory: &Memory)
        requires
            memory.wf(),
            old(self)@.jr_z_n_allowed(memory@),
        ensures
            final(self)@ == old(self)@.jr_z_n(memory@),
    {
        proof { lemma_signed_casts(); }
        let possible_value: i8 = memory.read_8_signed(self.registers.pc + 1);

        self.registers.pc = self.registers.pc + 2;

        if self.registers.is_flag_z() {
            self.registers.pc = (self.registers.pc as i16 + possible_value as i16) as u16;
            self.last_instruction_ccycles = 12;
        } else {
            self.last_instruction_ccycles = 8;
        }

        self.pc_to_increment = 0;
    }

    /// Jumps by the signed byte after the opcode, counted from the next instruction, if C is set; otherwise goes on to the next instruction.
    pub fn jr_c_n(&mut self, memory: &Memory)
        requires
            memory.wf(),
            old(self)@.jr_c_n_allowed(memory@),
        ensures
            final(self)@ == old(self)@.jr_c_n(memory@),
    {
        proof { lemma_signed_casts(); }
        let possible_value: i8 = memory.read_8_signed(self.registers.pc + 1);

        self.registers.pc = self.registers.pc + 2;

        if self.registers.is_flag_c() {
            self.registers.pc = (self.registers.pc as i16 + possible_value as i16) as u16;
            self.last_instruction_ccycles = 12;
        } else {
            self.last_instruction_ccycles = 8;
        }

        self.pc_to_increment = 0;
    }

    /// Jumps by the signed byte after the opcode, counted from the next instruction, if C is not set; otherwise goes on to the next instruction.
    pub fn jr_nc_n(&mut self, memory: &Memory)
        requires
            memory.wf(),
            old(self)@.jr_nc_n_allowed(memory@),
        ensures
            final(self)@ == old(self)@.jr_nc_n(memory@),
    {
        proof { lemma_signed_casts(); }
        let possible_value: i8 = memory.read_8_signed(self.registers.pc + 1);

        self.registers.pc = self.registers.pc + 2;

        if !self.registers.is_flag_c() {
            self.registers.pc = (self.registers.pc as i16 + possible_value as i16) as u16;
            self.last_instruction_ccycles = 12;
        } else {
            self.last_instruction_ccycles = 8;
        }

        self.pc_to_increment = 0;
    }

    /// Jumps to the address given by the word after the opcode.
    pub fn jp_nn(&mut self, memory: &Memory)
        requires
            memory.wf(),
            old(self)@.jp_nn_allowed(memory@),
        ensures
            final(self)@ == old(self)@.jp_nn(memory@),
    {
        self.registers.pc = memory.read_16(self.registers.pc + 1);

        self.pc_to_increment = 0;
        self.last_instruction_ccycles = 16;
    }

    /// Jumps to the address in HL.
    pub fn jp_mhl(&mut self)
        ensures
            final(self)@ == old(self)@.jp_mhl(),
    {
        self.registers.pc = self.registers.read_word(&WordRegister::HL);

        self.pc_to_increment = 0;
        self.last_instruction_ccycles = 4;
    }

    /// Jumps to the address given by the word after the opcode if Z is set; otherwise goes on to the next instruction.
    pub fn jp_z_nn(&mut self, memory: &Memory)
        requires
            memory.wf(),
            old(self)@.jp_z_nn_allowed(memory@),
        ensures
            final(self)@ == old(self)@.jp_z_nn(memory@),
    {
        let possible_value: u16 = memory.read_16(self.registers.pc + 1);

        self.registers.pc = self.registers.pc + 3;

        if self.registers.is_flag_z() {
            self.registers.pc = possible_value;
            self.last_instruction_ccycles = 16;
        } else {
            self.last_instruction_ccycles = 12;
        }

        self.pc_to_increment = 0;
    }

    /// Pushes the address of the next instruction and jumps to the address given by the word after the opcode, read once the push is done.
    pub fn call(&mut self, memory: &mut Memory)
        requires
            old(memory).wf(),
            old(self)@.call_allowed(old(memory)@),
        ensures
            (final(self)@, final(memory)@) == old(self)@.call(old(memory)@),
            final(memory).wf(),
    {
        let next_pc: u16 = self.registers.pc + 3;
        self.push_dd(memory, next_pc);

        self.registers.pc = memory.read_16(self.registers.pc + 1);

        self.pc_to_increment = 0;
        self.last_instruction_ccycles = 24;
    }

    /// If Z is not set, pushes the address of the next instruction and jumps to the address given by the word after the opcode; otherwise goes on to the next instruction.
    pub fn call_nz_nn(&mut self, memory: &mut Memory)
        requires
            old(memory).wf(),
            old(self)@.call_nz_nn_allowed(old(memory)@),
        ensures
            (final(self)@, final(memory)@) == old(self)@.call_nz_nn(old(memory)@),
            final(memory).wf(),
    {
        if self.registers.is_flag_z() {
            self.pc_to_increment = 3;
            self.last_instruction_ccycles = 12;

            return;
        }

        let next_pc: u16 = self.registers.pc + 3;
        self.push_dd(memory, next_pc);

        self.registers.pc = memory.read_16(self.registers.pc + 1);

        self.pc_to_increment = 0;
        self.last_instruction_ccycles = 24;
    }

    /// Pops the return address off the stack and jumps to it.
    pub fn ret(&mut self, memory: &mut Memory)
        requires
            old(memory).wf(),
            old(self)@.ret_allowed(old(memory)@),
        ensures
            (final(self)@, final(memory)@) == old(self)@.ret(old(memory)@),
            final(memory).wf(),
    {
        self.registers.pc = self.pop_dd(memory);

        self.pc_to_increment = 0;
        self.last_instruction_ccycles = 16;
    }

    /// Pops the return address off the stack, jumps to it and enables interrupts.
    pub fn reti(&mut self, memory: &mut Memory)
        requires
            old(memory).wf(),
            old(self)@.reti_allowed(old(memory)@),
        ensures
            (final(self)@, final(memory)@) == old(self)@.reti(old(memory)@),
            final(memory).wf(),
    {
        self.registers.pc = self.pop_dd(memory);

        self.ime = true;

        self.pc_to_increment = 0;
        self.last_instruction_ccycles = 16;
    }

    /// Returns if Z is not set; otherwise goes on to the next instruction.
    pub fn ret_nz(&mut self, memory: &mut Memory)
        requires
            old(memory).wf(),
            old(self)@.ret_nz_allowed(old(memory)@),
        ensures
            (final(self)@, final(memory)@) == old(self)@.ret_nz(old(memory)@),
            final(memory).wf(),
    {
        if !self.registers.is_flag_z() {
            self.registers.pc = self.pop_dd(memory);
            self.last_instruction_ccycles = 20;
        } else {
            self.registers.pc = self.registers.pc + 1;
            self.last_instruction_ccycles = 8;
        }

        self.pc_to_increment = 0;
    }

    /// Returns if Z is set; otherwise goes on to the next instruction.
    pub fn ret_z(&mut self, memory: &mut Memory)
        requires
            old(memory).wf(),
            old(self)@.ret_z_allowed(old(memory)@),
        ensures
            (final(self)@, final(memory)@) == old(self)@.ret_z(old(memory)@),
            final(memory).wf(),
    {
        if self.registers.is_flag_z() {
            self.registers.pc = self.pop_dd(memory);
            self.last_instruction_ccycles = 20;
        } else {
            self.registers.pc = self.registers.pc + 1;
            self.last_instruction_ccycles = 8;
        }

        self.pc_to_increment = 0;
    }

    /// Returns if C is not set; otherwise goes on to the next instruction.
    pub fn ret_nc(&mut self, memory: &mut Memory)
        requires
            old(memory).wf(),
            old(self)@.ret_nc_allowed(old(memory)@),
        ensures
            (final(self)@, final(memory)@) == old(self)@.ret_nc(old(memory)@),
            final(memory).wf(),
    {
        if !self.registers.is_flag_c() {
            self.registers.pc = self.pop_dd(memory);
            self.last_instruction_ccycles = 20;
        } else {
            self.registers.pc = self.registers.pc + 1;
            self.last_instruction_ccycles = 8;
        }

        self.pc_to_increment = 0;
    }

    /// Pushes the address of the next instruction and jumps to 0x18.
    pub fn rst_18(&mut self, memory: &mut Memory)
        requires
            old(memory).wf(),
            old(self)@.rst_18_allowed(old(memory)@),
        ensures
            (final(self)@, final(memory)@) == old(self)@.rst_18(old(memory)@),
            final(memory).wf(),
    {
        self.rst_d(memory, 0x18);
    }

    /// Pushes the address of the next instruction and jumps to 0x38.
    pub fn rst_38(&mut self, memory: &mut Memory)
        requires
            old(memory).wf(),
            old(self)@.rst_38_allowed(old(memory)@),
        ensures
            (final(self)@, final(memory)@) == old(self)@.rst_38(old(memory)@),
            final(memory).wf(),
    {
        self.rst_d(memory, 0x38);
    }

    /// Pushes the address of the next instruction and jumps to 0x28.
    fn rst_28(&mut self, memory: &mut Memory)
        requires
            old(memory).wf(),
            old(self)@.rst_28_allowed(old(memory)@),
        ensures
            (final(self)@, final(memory)@) == old(self)@.rst_28(old(memory)@),
            final(memory).wf(),
    {
        self.rst_d(memory, 0x28);
    }

    /// Pushes HL on the stack.
    pub fn push_hl(&mut self, memory: &mut Memory)
        requires
            old(memory).wf(),
            old(self)@.push_hl_allowed(old(memory)@),
        ensures
            (final(self)@, final(memory)@) == old(self)@.push_hl(old(memory)@),
            final(memory).wf(),
    {
        let reg: u16 = self.registers.read_word(&WordRegister::HL);
        self.push_dd(memory, reg);

        self.pc_to_increment = 1;
        self.last_instruction_ccycles = 16;
    }

    /// Pushes BC on the stack.
    pub fn push_bc(&mut self, memory: &mut Memory)
        requires
            old(memory).wf(),
            old(self)@.push_bc_allowed(old(memory)@),
        ensures
            (final(self)@, final(memory)@) == old(self)@.push_bc(old(memory)@),
            final(memory).wf(),
    {
        let reg: u16 = self.registers.read_word(&WordRegister::BC);
        self.push_dd(memory, reg);

        self.pc_to_increment = 1;
        self.last_instruction_ccycles = 16;
    }

    /// Pushes AF on the stack.
    pub fn push_af(&mut self, memory: &mut Memory)
        requires
            old(memory).wf(),
            old(self)@.push_af_allowed(old(memory)@),
        ensures
            (final(self)@, final(memory)@) == old(self)@.push_af(old(memory)@),
            final(memory).wf(),
    {
        let reg: u16 = self.registers.read_word(&WordRegister::AF);
        self.push_dd(memory, reg);

        self.pc_to_increment = 1;
        self.last_instruction_ccycles = 16;
    }

    /// Pushes DE on the stack.
    pub fn push_de(&mut self, memory: &mut Memory)
        requires
            old(memory).wf(),
            old(self)@.push_de_allowed(old(memory)@),
        ensures
            (final(self)@, final(memory)@) == old(self)@.push_de(old(memory)@),
            final(memory).wf(),
    {
        let reg: u16 = self.registers.read_word(&WordRegister::DE);
        self.push_dd(memory, reg);

        self.pc_to_increment = 1;
        self.last_instruction_ccycles = 16;
    }

    /// Pops the word on top of the stack into AF (only the high four bits of F are kept).
    pub fn pop_af(&mut self, memory: &mut Memory)
        requires
            old(memory).wf(),
            old(self)@.pop_af_allowed(old(memory)@),
        ensures
            (final(self)@, final(memory)@) == old(self)@.pop_af(old(memory)@),
            final(memory).wf(),
    {
        let popped: u16 = self.pop_dd(memory);
        self.registers.write_word(&WordRegister::AF, popped);

        self.pc_to_increment = 1;
        self.last_instruction_ccycles = 12;
    }

    /// Pops the word on top of the stack into BC.
    pub fn pop_bc(&mut self, memory: &mut Memory)
        requires
            old(memory).wf(),
            old(self)@.pop_bc_allowed(old(memory)@),
        ensures
            (final(self)@, final(memory)@) == old(self)@.pop_bc(old(memory)@),
            final(memory).wf(),
    {
        let popped: u16 = self.pop_dd(memory);
        self.registers.write_word(&WordRegister::BC, popped);

        self.pc_to_increment = 1;
        self.last_instruction_ccycles = 12;
    }

    /// Pops the word on top of the stack into DE.
    pub fn pop_de(&mut self, memory: &mut Memory)
        requires
            old(memory).wf(),
            old(self)@.pop_de_allowed(old(memory)@),
        ensures
            (final(self)@, final(memory)@) == old(self)@.pop_de(old(memory)@),
            final(memory).wf(),
    {
        let popped: u16 = self.pop_dd(memory);
        self.registers.write_word(&WordRegister::DE, popped);

        self.pc_to_increment = 1;
        self.last_instruction_ccycles = 12;
    }

    /// Pops the word on top of the stack into HL.
    pub fn pop_hl(&mut self, memory: &mut Memory)
        requires
            old(memory).wf(),
            old(self)@.pop_hl_allowed(old(memory)@),
        ensures
            (final(self)@, final(memory)@) == old(self)@.pop_hl(old(memory)@),
            final(memory).wf(),
    {
        let popped: u16 = self.pop_dd(memory);
        self.registers.write_word(&WordRegister::HL, popped);

        self.pc_to_increment = 1;
        self.last_instruction_ccycles = 12;
    }

    /// Rotates register C right through the carry flag; sets Z if the result is 0 and clears N and H.
    pub fn rr_c(&mut self)
        ensures
            final(self)@ == old(self)@.rr_c(),
    {
        proof {
            lemma_byte_bits();
            lemma_or_disjoint();
        }
        let carry: bool = self.registers.c & 0x01u8 == 1;
        let msf: u8 = if self.registers.is_flag_c() { 0x80 } else { 0 };

        self.registers.c = msf | ((self.registers.c >> 1u8) & 0x7Fu8);

        let zero: bool = self.registers.c == 0;
        self.registers.set_flag_z(zero);
        self.registers.set_flag_c(carry);
        self.registers.set_flag_h(false);
        self.registers.set_flag_n(false);

        self.pc_to_increment = 2;
        self.last_instruction_ccycles = 8;
    }

    /// Rotates register C left through the carry flag; sets Z if the result is 0 and clears N and H.
    pub fn rl_c(&mut self)
        ensures
            final(self)@ == old(self)@.rl_c(),
    {
        proof {
            lemma_byte_bits();
            lemma_byte_shl();
            lemma_or_disjoint();
        }
        let new_carry: bool = self.registers.c & 0x80u8 == 0x80u8;
        let carry_bit: u8 = if self.registers.is_flag_c() { 1 } else { 0 };

        self.registers.c = (self.registers.c << 1u8) | (0x01u8 & carry_bit);

        let zero: bool = self.registers.c == 0;
        self.registers.set_flag_z(zero);
        self.registers.set_flag_c(new_carry);
        self.registers.set_flag_h(false);
        self.registers.set_flag_n(false);

        self.pc_to_increment = 2;
        self.last_instruction_ccycles = 8;
    }

    /// Rotates A left through the carry flag; sets Z if the result is 0 and clears N and H.
    pub fn rla(&mut self)
        ensures
            final(self)@ == old(self)@.rla(),
    {
        proof {
            lemma_byte_bits();
            lemma_byte_shl();
            lemma_or_disjoint();
        }
        let new_carry: bool = self.registers.a & 0x80u8 == 0x80u8;
        let carry_bit: u8 = if self.registers.is_flag_c() { 1 } else { 0 };

        self.registers.a = (self.registers.a << 1u8) | (0x01u8 & carry_bit);

        let zero: bool = self.registers.a == 0;
        self.registers.set_flag_z(zero);
        self.registers.set_flag_c(new_carry);
        self.registers.set_flag_h(false);
        self.registers.set_flag_n(false);

        self.pc_to_increment = 1;
        self.last_instruction_ccycles = 4;
    }

    /// Rotates register D right through the carry flag; sets Z if the result is 0 and clears N and H.
    pub fn rr_d(&mut self)
        ensures
            final(self)@ == old(self)@.rr_d(),
    {
        proof {
            lemma_byte_bits();
            lemma_or_disjoint();
        }
        let carry: bool = self.registers.d & 0x01u8 == 1;
        let msf: u8 = if self.registers.is_flag_c() { 0x80 } else { 0 };

        self.registers.d = msf | ((self.registers.d >> 1u8) & 0x7Fu8);

        let zero: bool = self.registers.d == 0;
        self.registers.set_flag_z(zero);
        self.registers.set_flag_c(carry);
        self.registers.set_flag_h(false);
        self.registers.set_flag_n(false);

        self.pc_to_increment = 2;
        self.last_instruction_ccycles = 8;
    }

    /// Shifts register A right, keeping its bit 7 and moving bit 0 to the carry; sets Z if the result is 0 and clears N and H.
    pub fn srl_a(&mut self)
        ensures
            final(self)@ == old(self)@.srl_a(),
    {
        proof {
            lemma_byte_bits();
            lemma_or_disjoint();
        }
        let carry: bool = self.registers.a & 0x01u8 == 1;
        let msf: u8 = self.registers.a & 0x80u8;

        self.registers.a = msf | ((self.registers.a >> 1u8) & 0x7Fu8);

        let zero: bool = self.registers.a == 0;

        self.registers.set_flag_z(zero);
        self.registers.set_flag_c(carry);
        self.registers.set_flag_h(false);
        self.registers.set_flag_n(false);

        self.pc_to_increment = 2;
        self.last_instruction_ccycles = 8;
    }

    /// Shifts register B right, keeping its bit 7 and moving bit 0 to the carry; sets Z if the result is 0 and clears N and H.
    pub fn srl_b(&mut self)
        ensures
            final(self)@ == old(self)@.srl_b(),
    {
        proof {
            lemma_byte_bits();
            lemma_or_disjoint();
        }
        let carry: bool = self.registers.b & 0x01u8 == 1;
        let msf: u8 = self.registers.b & 0x80u8;

        self.registers.b = msf | ((self.registers.b >> 1u8) & 0x7Fu8);

        let zero: bool = self.registers.b == 0;

        self.registers.set_flag_z(zero);
        self.registers.set_flag_c(carry);
        self.registers.set_flag_h(false);
        self.registers.set_flag_n(false);

        self.pc_to_increment = 2;
        self.last_instruction_ccycles = 8;
    }

    /// Tests bit 7 of H: sets Z if it is 0, clears N, sets H.
    pub fn bit_7_h(&mut self)
        ensures
            final(self)@ == old(self)@.bit_7_h(),
    {
        proof { lemma_byte_bits(); }
        let zero: bool = self.registers.h & 0x80u8 != 0x80u8;

        self.registers.set_flag_z(zero);
        self.registers.set_flag_n(false);
        self.registers.set_flag_h(true);

        self.pc_to_increment = 2;
        self.last_instruction_ccycles = 8;
    }

    /// Swaps the nibbles of A.
    fn swap_a(&mut self)
        ensures
            final(self)@ == old(self)@.swap_a(),
    {
        let old_value: u8 = self.registers.a;
        self.registers.a = self.alu.swap_n(&mut self.registers, old_value);

        self.pc_to_increment = 2;
        self.last_instruction_ccycles = 8;
    }

    /// Clears bit 0 of A.
    fn res_0_a(&mut self)
        ensures
            final(self)@ == old(self)@.res_0_a(),
    {
        let value: u8 = self.registers.a & 0xFEu8;
        self.registers.a = value;

        self.pc_to_increment = 2;
        self.last_instruction_ccycles = 8;
    }

    /// Disables interrupts.
    fn di(&mut self)
        ensures
            final(self)@ == old(self)@.di(),
    {
        self.ime = false;

        self.pc_to_increment = 1;
        self.last_instruction_ccycles = 4;
    }

    /// Enables interrupts.
    fn ei(&mut self)
        ensures
            final(self)@ == old(self)@.ei(),
    {
        self.ime = true;

        self.pc_to_increment = 1;
        self.last_instruction_ccycles = 4;
    }

    /// Executes the instruction whose opcode follows a 0xCB prefix.
    pub fn prefix_cb(&mut self, memory: &Memory)
        requires
            memory.wf(),
            old(self)@.prefix_cb_allowed(memory@),
        ensures
            final(self)@ == old(self)@.prefix_cb(memory@),
    {
        let op: u8 = memory.read_8(self.registers.pc + 1);

        match op {

            0x11 => self.rl_c(),
            0x19 => self.rr_c(),
            0x1A => self.rr_d(),
            0x37 => self.swap_a(),
            0x3F => self.srl_a(),
            0x7C => self.bit_7_h(),
            0x87 => self.res_0_a(),
            0x38 => self.srl_b(),
            _ => {},
        }
    }

    // --- INTERNAL --------------------------------------------------------------------------------

    /// Pushes `value` on the stack: its low byte at SP - 2, its high byte at SP - 1.
    fn push_dd(&mut self, memory: &mut Memory, value: u16)
        requires
            old(memory).wf(),
            old(self)@.registers.sp >= 2,
        ensures
            final(memory)@ == pushed(old(memory)@, old(self)@.registers.sp, value),
            final(memory).wf(),
            final(self)@ == (CpuView {
                registers: CpuRegisters { sp: (old(self)@.registers.sp - 2) as u16, ..old(self)@.registers },
                ..old(self)@
            }),
    {
        memory.write_16(self.registers.sp - 2, value);
        self.registers.sp = self.registers.sp - 2;
    }

    /// Pops the word on top of the stack.
    fn pop_dd(&mut self, memory: &Memory) -> (value: u16)
        requires
            memory.wf(),
            old(self)@.registers.sp < 0xFFFE,
        ensures
            value == top_of_stack(memory@, old(self)@.registers.sp),
            final(self)@ == (CpuView {
                registers: CpuRegisters { sp: (old(self)@.registers.sp + 2) as u16, ..old(self)@.registers },
                ..old(self)@
            }),
    {
        let value: u16 = memory.read_16(self.registers.sp);
        self.registers.sp = self.registers.sp + 2;

        value
    }

    /// Pushes the address of the next instruction and jumps to `value`.
    fn rst_d(&mut self, memory: &mut Memory, value: u8)
        requires
            old(memory).wf(),
            old(self)@.registers.sp >= 2,
            old(self)@.registers.pc < 0xFFFF,
        ensures
            final(memory)@ == pushed(old(memory)@, old(self)@.registers.sp, (old(self)@.registers.pc + 1) as u16),
            final(memory).wf(),
            final(self)@ == old(self)@.executed(
                CpuRegisters { sp: (old(self)@.registers.sp - 2) as u16, pc: value as u16, ..old(self)@.registers },
                0,
                16,
            ),
    {
        self.push_dd(memory, self.registers.pc + 1);

        self.registers.pc = value as u16;

        self.pc_to_increment = 0;
        self.last_instruction_ccycles = 16;
    }

    /// Disables interrupts, pushes the program counter and jumps to `new_address`.
    fn interrupt_dd(&mut self, memory: &mut Memory, new_address: u16)
        requires
            old(memory).wf(),
            old(self)@.registers.sp >= 2,
        ensures
            final(memory)@ == pushed(old(memory)@, old(self)@.registers.sp, old(self)@.registers.pc),
            final(memory).wf(),
            final(self)@ == (CpuView {
                registers: CpuRegisters { sp: (old(self)@.registers.sp - 2) as u16, pc: new_address, ..old(self)@.registers },
                ime: false,
                ..old(self)@
            }),
    {
        self.ime = false;
        self.push_dd(memory, self.registers.pc);
        self.registers.pc = new_address;
    }

    // --- INTERRUPTS ----------------------------------------------------------------------------------

    /// Serves the vertical blank interrupt: disables interrupts, pushes the program
    /// counter and jumps to 0x40.
    pub fn vblank_interrupt(&mut self, memory: &mut Memory)
        requires
            old(memory).wf(),
            old(self)@.registers.sp >= 2,
        ensures
            final(memory)@ == pushed(old(memory)@, old(self)@.registers.sp, old(self)@.registers.pc),
            final(memory).wf(),
            final(self)@ == (CpuView {
                registers: CpuRegisters { sp: (old(self)@.registers.sp - 2) as u16, pc: 0x40, ..old(self)@.registers },
                ime: false,
                ..old(self)@
            }),
    {
        self.interrupt_dd(memory, 0x40)
    }
}

} // verus!
