use rustiegb::cpu::alu::Alu;
use rustiegb::cpu::cpu::CPU;
use rustiegb::cpu::disassemble::{disassemble, disassemble_cb};
use rustiegb::cpu::registers::{ByteRegister, CpuRegisters, WordRegister};
use rustiegb::cpu::Cpu;
use rustiegb::memory::Memory;

/// A processor at 0x0100 with the given program there.
fn with_program(program: &[u8]) -> (Cpu, Memory) {
    let cpu = Cpu::new(false);
    let mut memory = Memory::new();
    for (i, byte) in program.iter().enumerate() {
        memory.write_8(0x0100 + i as u16, *byte);
    }
    (cpu, memory)
}

#[test]
fn inc_rr_wraps_and_keeps_flags() {
    // INC BC, INC DE, INC HL, INC SP
    for (opcode, register) in [
        (0x03u8, WordRegister::BC),
        (0x13, WordRegister::DE),
        (0x23, WordRegister::HL),
        (0x33, WordRegister::SP),
    ] {
        for (a, expected) in [(0x0000u16, 0x0001u16), (0xFFFF, 0x0000)] {
            let (mut cpu, mut memory) = with_program(&[opcode]);
            cpu.registers.write_word(&register, a);
            let old_f = cpu.registers.read_byte(&ByteRegister::F);

            let cycles = cpu.step(&mut memory);

            assert_eq!(cpu.registers.read_word(&register), expected);
            assert_eq!(old_f, cpu.registers.read_byte(&ByteRegister::F));
            assert_eq!(cycles, 8);
            assert_eq!(cpu.registers.pc, 0x0101);
        }
    }
}

#[test]
fn dec_rr_wraps_and_keeps_flags() {
    // DEC BC, DEC DE, DEC HL, DEC SP
    for (opcode, register) in [
        (0x0Bu8, WordRegister::BC),
        (0x1B, WordRegister::DE),
        (0x2B, WordRegister::HL),
        (0x3B, WordRegister::SP),
    ] {
        for (a, expected) in [(0x0001u16, 0x0000u16), (0x0000, 0xFFFF)] {
            let (mut cpu, mut memory) = with_program(&[opcode]);
            cpu.registers.write_word(&register, a);
            let old_f = cpu.registers.read_byte(&ByteRegister::F);

            cpu.step(&mut memory);

            assert_eq!(cpu.registers.read_word(&register), expected);
            assert_eq!(old_f, cpu.registers.read_byte(&ByteRegister::F));
        }
    }
}

#[test]
fn add_hl_rr_sets_half_carry_and_carry() {
    let cases = [
        (0xFFFFu16, 0x0001u16, 0x0000u16, false, false, true, true),
        (0x0000, 0x0001, 0x0001, true, false, false, false),
        (0x0FFF, 0x0001, 0x1000, true, false, true, false),
        (0x1000, 0x0001, 0x1001, true, false, false, false),
    ];
    // ADD HL,BC / ADD HL,DE / ADD HL,SP
    for (opcode, register) in [
        (0x09u8, WordRegister::BC),
        (0x19, WordRegister::DE),
        (0x39, WordRegister::SP),
    ] {
        for (a, b, expected, previous_z, expected_n, expected_h, expected_c) in cases {
            let (mut cpu, mut memory) = with_program(&[opcode]);
            cpu.registers.write_word(&WordRegister::HL, a);
            cpu.registers.write_word(&register, b);
            cpu.registers.set_flag_z(previous_z);

            cpu.step(&mut memory);

            assert_eq!(cpu.registers.read_word(&WordRegister::HL), expected);
            assert_eq!(previous_z, cpu.registers.is_flag_z());
            assert_eq!(expected_n, cpu.registers.is_flag_n());
            assert_eq!(expected_h, cpu.registers.is_flag_h());
            assert_eq!(expected_c, cpu.registers.is_flag_c());
        }
    }
}

#[test]
fn push_then_pop_restores_the_pair() {
    // PUSH BC; LD BC,0x0000; POP BC
    let (mut cpu, mut memory) = with_program(&[0xC5, 0x01, 0x00, 0x00, 0xC1]);
    cpu.registers.write_word(&WordRegister::BC, 0xBEEF);
    let sp = cpu.registers.sp;
    cpu.step(&mut memory);
    assert_eq!(cpu.registers.sp, sp - 2);
    assert_eq!(memory.read_16(sp - 2), 0xBEEF);
    cpu.step(&mut memory);
    assert_eq!(cpu.registers.read_word(&WordRegister::BC), 0);
    cpu.step(&mut memory);
    assert_eq!(cpu.registers.read_word(&WordRegister::BC), 0xBEEF);
    assert_eq!(cpu.registers.sp, sp);
}

#[test]
fn pop_af_drops_the_low_nibble_of_f() {
    // POP AF
    let (mut cpu, mut memory) = with_program(&[0xF1]);
    cpu.registers.sp = 0xC000;
    memory.write_16(0xC000, 0x12FF);
    cpu.step(&mut memory);
    assert_eq!(cpu.registers.read_word(&WordRegister::AF), 0x12F0);
}

#[test]
fn call_then_ret_returns_after_the_call() {
    let (mut cpu, mut memory) = with_program(&[0xCD, 0x00, 0x20]);
    // RET at 0x2000
    memory.write_8(0x2000, 0xC9);
    let sp = cpu.registers.sp;
    assert_eq!(cpu.step(&mut memory), 24);
    assert_eq!(cpu.registers.pc, 0x2000);
    assert_eq!(cpu.step(&mut memory), 16);
    assert_eq!(cpu.registers.pc, 0x0103);
    assert_eq!(cpu.registers.sp, sp);
}

#[test]
fn conditional_call_not_taken_skips() {
    // CALL NZ,0x2000 with Z set
    let (mut cpu, mut memory) = with_program(&[0xC4, 0x00, 0x20]);
    cpu.registers.set_flag_z(true);
    assert_eq!(cpu.step(&mut memory), 12);
    assert_eq!(cpu.registers.pc, 0x0103);
}

#[test]
fn rst_pushes_the_next_address() {
    // RST 0x38 then RET at 0x38
    let (mut cpu, mut memory) = with_program(&[0xFF]);
    memory.write_8(0x0038, 0xC9);
    cpu.step(&mut memory);
    assert_eq!(cpu.registers.pc, 0x0038);
    cpu.step(&mut memory);
    assert_eq!(cpu.registers.pc, 0x0101);
}

#[test]
fn relative_jumps_forward_and_back() {
    // JR +3
    let (mut cpu, mut memory) = with_program(&[0x18, 0x03]);
    cpu.step(&mut memory);
    assert_eq!(cpu.registers.pc, 0x0105);

    // JR NZ,-2 with Z clear loops onto itself
    let (mut cpu, mut memory) = with_program(&[0x20, 0xFE]);
    cpu.registers.set_flag_z(false);
    assert_eq!(cpu.step(&mut memory), 12);
    assert_eq!(cpu.registers.pc, 0x0100);

    // JR Z,-2 with Z clear goes on
    let (mut cpu, mut memory) = with_program(&[0x28, 0xFE]);
    cpu.registers.set_flag_z(false);
    assert_eq!(cpu.step(&mut memory), 8);
    assert_eq!(cpu.registers.pc, 0x0102);
}

#[test]
fn halt_waits_until_an_interrupt() {
    // HALT with interrupts disabled skips one byte
    let (mut cpu, mut memory) = with_program(&[0x76]);
    cpu.step(&mut memory);
    assert!(cpu.halted);
    assert_eq!(cpu.registers.pc, 0x0102);
    let registers = cpu.registers;
    assert_eq!(cpu.step(&mut memory), 4);
    assert_eq!(cpu.registers.pc, registers.pc);
    cpu.vblank_interrupt(&mut memory);
    assert!(!cpu.halted);
    assert_eq!(cpu.registers.pc, 0x0102);
}

#[test]
fn vblank_interrupt_enters_the_handler_and_reti_resumes() {
    // EI
    let (mut cpu, mut memory) = with_program(&[0xFB]);
    memory.write_8(0xFF0F, 0x1F);
    memory.write_8(0x0040, 0xD9);
    cpu.step(&mut memory);
    assert!(cpu.ime);
    cpu.vblank_interrupt(&mut memory);
    assert!(!cpu.ime);
    assert_eq!(cpu.registers.pc, 0x0040);
    assert_eq!(memory.read_8(0xFF0F), 0x1E);
    cpu.step(&mut memory);
    assert!(cpu.ime);
    assert_eq!(cpu.registers.pc, 0x0101);
}

#[test]
fn lcd_stat_interrupt_needs_the_display_on() {
    let (mut cpu, mut memory) = with_program(&[0xFB]);
    memory.write_8(0xFF0F, 0x02);
    cpu.step(&mut memory);
    cpu.lcd_stat_interrupt(&mut memory);
    assert_eq!(cpu.registers.pc, 0x0101);
    assert_eq!(memory.read_8(0xFF0F), 0x00);
    memory.write_8(0xFF40, 0x80);
    cpu.lcd_stat_interrupt(&mut memory);
    assert_eq!(cpu.registers.pc, 0x0048);
}

#[test]
fn timer_and_joypad_interrupts_jump_to_their_vectors() {
    let (mut cpu, mut memory) = with_program(&[0xFB]);
    cpu.step(&mut memory);
    cpu.timer_overflow_interrupt(&mut memory);
    assert_eq!(cpu.registers.pc, 0x0050);
    cpu.ime = true;
    cpu.p10_p13_transition_interrupt(&mut memory);
    assert_eq!(cpu.registers.pc, 0x0060);
}

#[test]
fn daa_adjusts_after_addition() {
    // LD A,0x15; ADD A,0x27; DAA
    let (mut cpu, mut memory) = with_program(&[0x3E, 0x15, 0xC6, 0x27, 0x27]);
    cpu.step(&mut memory);
    cpu.step(&mut memory);
    assert_eq!(cpu.registers.a, 0x3C);
    cpu.step(&mut memory);
    assert_eq!(cpu.registers.a, 0x42);
    assert!(!cpu.registers.is_flag_c());
}

#[test]
fn daa_adjusts_after_subtraction() {
    // LD A,0x42; SUB 0x15; DAA
    let (mut cpu, mut memory) = with_program(&[0x3E, 0x42, 0xD6, 0x15, 0x27]);
    cpu.step(&mut memory);
    cpu.step(&mut memory);
    assert_eq!(cpu.registers.a, 0x2D);
    cpu.step(&mut memory);
    assert_eq!(cpu.registers.a, 0x27);
}

#[test]
fn prefixed_instructions_work_on_registers_and_memory() {
    // SWAP A; BIT 5,H; SET 3,(HL); RES 0,B; SRL C
    let (mut cpu, mut memory) = with_program(&[0xCB, 0x37, 0xCB, 0x6C, 0xCB, 0xDE, 0xCB, 0x80, 0xCB, 0x39]);
    cpu.registers.a = 0xA5;
    cpu.registers.write_word(&WordRegister::HL, 0xC000);
    cpu.registers.b = 0xFF;
    cpu.registers.c = 0x03;
    assert_eq!(cpu.step(&mut memory), 8);
    assert_eq!(cpu.registers.a, 0x5A);
    cpu.step(&mut memory);
    assert!(cpu.registers.is_flag_z());
    assert!(cpu.registers.is_flag_h());
    assert_eq!(cpu.step(&mut memory), 16);
    assert_eq!(memory.read_8(0xC000), 0x08);
    cpu.step(&mut memory);
    assert_eq!(cpu.registers.b, 0xFE);
    cpu.step(&mut memory);
    assert_eq!(cpu.registers.c, 0x01);
    assert!(cpu.registers.is_flag_c());
    assert_eq!(cpu.registers.pc, 0x010A);
}

#[test]
fn rotations_through_carry() {
    // SCF; RRA; RLA
    let (mut cpu, mut memory) = with_program(&[0x37, 0x1F, 0x17]);
    cpu.registers.a = 0x01;
    cpu.step(&mut memory);
    cpu.step(&mut memory);
    assert_eq!(cpu.registers.a, 0x80);
    assert!(cpu.registers.is_flag_c());
    cpu.step(&mut memory);
    assert_eq!(cpu.registers.a, 0x01);
    assert!(cpu.registers.is_flag_c());
}

#[test]
fn loads_through_high_memory() {
    // LDH (0x80),A; LD A,0; LDH A,(0x80)
    let (mut cpu, mut memory) = with_program(&[0xE0, 0x80, 0x3E, 0x00, 0xF0, 0x80]);
    cpu.registers.a = 0x99;
    cpu.step(&mut memory);
    assert_eq!(memory.read_8(0xFF80), 0x99);
    cpu.step(&mut memory);
    cpu.step(&mut memory);
    assert_eq!(cpu.registers.a, 0x99);
}

#[test]
fn reset_moves_to_the_program_start() {
    let mut cpu = Cpu::new(true);
    assert_eq!(cpu.registers.pc, 0x0001);
    cpu.reset();
    assert_eq!(cpu.registers.pc, 0x0100);
}

#[test]
fn first_instruction_set_push_pop_and_xor() {
    let mut cpu = CPU::new(false, false);
    let mut memory = Memory::new();
    cpu.registers.write_word(&WordRegister::BC, 0x1234);
    cpu.push_bc(&mut memory);
    cpu.registers.write_word(&WordRegister::BC, 0);
    cpu.pop_bc(&mut memory);
    assert_eq!(cpu.registers.read_word(&WordRegister::BC), 0x1234);
    cpu.registers.a = 0x55;
    cpu.xor_a();
    assert_eq!(cpu.registers.a, 0);
    assert!(cpu.registers.is_flag_z());
}

#[test]
fn first_instruction_set_steps_through_memory() {
    let mut cpu = CPU::new(false, false);
    let mut memory = Memory::new();
    // LD BC,0x1234; INC BC
    memory.write_8(0x0100, 0x01);
    memory.write_8(0x0101, 0x34);
    memory.write_8(0x0102, 0x12);
    memory.write_8(0x0103, 0x03);
    cpu.step(&mut memory);
    cpu.step(&mut memory);
    assert_eq!(cpu.registers.read_word(&WordRegister::BC), 0x1235);
    assert_eq!(cpu.registers.pc, 0x0104);
    assert_eq!(cpu.get_last_instruction_ccycles(), 8);
}

#[test]
fn alu_add_and_sub_set_flags() {
    let alu = Alu {};
    let mut registers = CpuRegisters::new(false);
    assert_eq!(alu.add_n(&mut registers, 0x0F, 0x01, false), 0x10);
    assert!(registers.is_flag_h());
    assert!(!registers.is_flag_c());
    assert_eq!(alu.add_n(&mut registers, 0xFF, 0x01, false), 0x00);
    assert!(registers.is_flag_z());
    assert!(registers.is_flag_c());
    assert_eq!(alu.sub_n(&mut registers, 0x10, 0x01, false), 0x0F);
    assert!(registers.is_flag_n());
    assert!(registers.is_flag_h());
    assert_eq!(alu.sub_n(&mut registers, 0x00, 0x00, true), 0xFF);
    assert!(registers.is_flag_c());
}

#[test]
fn alu_swap_twice_and_word_steps() {
    let alu = Alu {};
    let mut registers = CpuRegisters::new(false);
    let once = alu.swap_n(&mut registers, 0x1F);
    assert_eq!(once, 0xF1);
    assert_eq!(alu.swap_n(&mut registers, once), 0x1F);
    assert_eq!(alu.dec_nn(alu.inc_nn(0xFFFF)), 0xFFFF);
    assert_eq!(alu.add_nn_signed(&mut registers, 0x00FF, -1), 0x00FE);
}

#[test]
fn registers_af_reads_without_low_nibble() {
    let mut registers = CpuRegisters::new(false);
    registers.write_word(&WordRegister::AF, 0xABCD);
    assert_eq!(registers.read_word(&WordRegister::AF), 0xABC0);
    registers.write_byte(&ByteRegister::F, 0xFF);
    assert_eq!(registers.read_byte(&ByteRegister::F), 0xF0);
    assert!(registers.is_flag_z() && registers.is_flag_n() && registers.is_flag_h() && registers.is_flag_c());
}

#[test]
fn memory_words_are_little_endian_and_wrap() {
    let mut memory = Memory::new();
    memory.write_16(0xC000, 0x1234);
    assert_eq!(memory.read_8(0xC000), 0x34);
    assert_eq!(memory.read_8(0xC001), 0x12);
    assert_eq!(memory.read_16(0xC000), 0x1234);
    memory.write_16(0xFFFF, 0xABCD);
    assert_eq!(memory.read_8(0x0000), 0xAB);
    assert_eq!(memory.read_16(0xFFFF), 0xABCD);
    memory.write_8(0x10, 0xFF);
    assert_eq!(memory.read_8_signed(0x10), -1);
}

#[test]
fn disassembles_immediate_operands_in_hex() {
    let mut memory = Memory::new();
    let program = [0x01u8, 0x34, 0x12, 0xE0, 0x44, 0x08, 0xCD, 0xAB];
    for (i, byte) in program.iter().enumerate() {
        memory.write_8(0x0100 + i as u16, *byte);
    }
    assert_eq!(disassemble(0x0100, &memory), "LD BC,$1234");
    assert_eq!(disassemble(0x0103, &memory), "LDH ($FF44),A");
    assert_eq!(disassemble(0x0105, &memory), "LD ($ABCD),SP");
}

#[test]
fn disassembles_register_forms_and_unknown_opcodes() {
    let mut memory = Memory::new();
    let program = [0x41u8, 0x76, 0x86, 0xD3, 0xCB, 0x7C];
    for (i, byte) in program.iter().enumerate() {
        memory.write_8(0x0200 + i as u16, *byte);
    }
    assert_eq!(disassemble(0x0200, &memory), "LD B,C");
    assert_eq!(disassemble(0x0201, &memory), "HALT");
    assert_eq!(disassemble(0x0202, &memory), "ADD A,(HL)");
    assert_eq!(disassemble(0x0203, &memory), "??? $D3");
    assert_eq!(disassemble(0x0204, &memory), "BIT 7,H");
    assert_eq!(disassemble_cb(0x37), "SWAP A");
    assert_eq!(disassemble_cb(0x86), "RES 0,(HL)");
    assert_eq!(disassemble_cb(0xFF), "SET 7,A");
}
