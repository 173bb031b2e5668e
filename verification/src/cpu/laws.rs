//! Properties of the processor that span several instructions: what one instruction
//! undoes of another, and what a step leaves unchanged.

use vstd::prelude::*;

use crate::cpu::instructions::{above, below, stacked, word_dec, word_inc};
use crate::cpu::processor::Cpu;
use crate::cpu::registers::{ByteRegister, CpuRegisters, WordRegister};
use crate::cpu::semantics::{CpuView, top_of_stack};
use crate::math::{lemma_word_bytes_roundtrip, word_of};
use crate::cpu::disassemble::disassembled;
use crate::memory::MEMORY_SIZE;
use crate::text::{hex_byte, hex_word};

verus! {

/// The word pushed on a stack is the word on top of it afterwards.
pub proof fn lemma_stacked_top(memory: Seq<u8>, sp: u16, value: u16)
    requires
        memory.len() == MEMORY_SIZE,
    ensures
        top_of_stack(stacked(memory, sp, value), below(sp)) == value,
        above(below(sp)) == sp,
{
}

/// Setting F to the byte its flags read as keeps the flags.
pub proof fn lemma_flags_roundtrip(r: CpuRegisters)
    ensures
        r.with_f(r.f()) == r,
{
}

/// Writing a word register with the value it reads as changes nothing.
pub proof fn lemma_word_rewrite(r: CpuRegisters, rr: WordRegister)
    ensures
        r.with_word(rr, r.word(rr)) == r,
{
    lemma_word_bytes_roundtrip(r.a, r.f(), 0);
    lemma_word_bytes_roundtrip(r.b, r.c, 0);
    lemma_word_bytes_roundtrip(r.d, r.e, 0);
    lemma_word_bytes_roundtrip(r.h, r.l, 0);
    lemma_flags_roundtrip(r);
}

/// Pushing a word register and popping it again restores every register, the stack
/// pointer included.
pub proof fn law_push_pop_restores(cpu: Cpu, memory: Seq<u8>, rr: WordRegister)
    requires
        memory.len() == MEMORY_SIZE,
    ensures
        ({
            let (pushed, pushed_memory) = cpu.push_rr_spec(memory, rr);
            pushed.pop_rr_spec(pushed_memory, rr).registers == cpu.registers
        }),
{
    let r = cpu.registers;
    lemma_stacked_top(memory, r.sp, r.word(rr));
    lemma_word_rewrite(r, rr);
}

/// A call followed by a return comes back to the instruction after the call, with the
/// stack pointer where it was.
pub proof fn law_call_then_ret_returns(cpu: Cpu, memory: Seq<u8>)
    requires
        memory.len() == MEMORY_SIZE,
        cpu.pc_fits(3),
    ensures
        ({
            let (called, called_memory) = cpu.call_spec(memory);
            let returned = called.ret_spec(called_memory);
            &&& returned.registers.pc == cpu.registers.pc + 3
            &&& returned.registers.sp == cpu.registers.sp
            &&& returned.registers == CpuRegisters { pc: (cpu.registers.pc + 3) as u16, ..cpu.registers }
        }),
{
    lemma_stacked_top(memory, cpu.registers.sp, (cpu.registers.pc + 3) as u16);
}

/// A restart followed by a return comes back to the instruction after the restart.
pub proof fn law_rst_then_ret_returns(cpu: Cpu, memory: Seq<u8>, target: u8)
    requires
        memory.len() == MEMORY_SIZE,
        cpu.pc_fits(1),
    ensures
        ({
            let (restarted, restarted_memory) = cpu.rst_spec(memory, target);
            let returned = restarted.ret_spec(restarted_memory);
            &&& restarted.registers.pc == target as u16
            &&& returned.registers == CpuRegisters { pc: (cpu.registers.pc + 1) as u16, ..cpu.registers }
        }),
{
    lemma_stacked_top(memory, cpu.registers.sp, (cpu.registers.pc + 1) as u16);
}

/// Entering an interrupt handler and returning from it with RETI resumes the
/// interrupted program where it was, with interrupts enabled again.
pub proof fn law_interrupt_then_reti_resumes(cpu: Cpu, memory: Seq<u8>, address: u16)
    requires
        memory.len() == MEMORY_SIZE,
    ensures
        ({
            let (entered, entered_memory) = cpu.interrupt_spec(memory, address);
            let resumed = entered.reti_spec(entered_memory);
            &&& !entered.ime
            &&& entered.registers.pc == address
            &&& resumed.ime
            &&& resumed.registers == cpu.registers
        }),
{
    lemma_stacked_top(memory, cpu.registers.sp, cpu.registers.pc);
}

/// While halted, a step takes 4 cycles and changes neither memory nor any register.
pub proof fn law_halted_step_waits(cpu: Cpu, memory: Seq<u8>)
    requires
        cpu.halted,
    ensures
        ({
            let (after, after_memory) = cpu.step_spec(memory);
            &&& after_memory == memory
            &&& after.registers == cpu.registers
            &&& after.last_instruction_ccycles == 4
            &&& after.halted
        }),
{
}

/// Increasing a word register and then decreasing it gives it back, with the flags
/// unchanged, for every register pair an increment instruction names (BC, DE, HL, SP).
pub proof fn law_inc_dec_rr_inverse(cpu: Cpu, rr: WordRegister)
    requires
        rr != WordRegister::AF,
    ensures
        cpu.inc_rr_spec(rr).dec_rr_spec(rr).registers == cpu.registers,
        cpu.dec_rr_spec(rr).inc_rr_spec(rr).registers == cpu.registers,
{
    let r = cpu.registers;
    let v = r.word(rr);
    crate::cpu::alu::lemma_inc_dec_nn_inverse(v);
    let up = r.with_word(rr, word_inc(v));
    let down = r.with_word(rr, word_dec(v));
    crate::cpu::registers::lemma_word_write_read(r, rr, word_inc(v));
    crate::cpu::registers::lemma_word_write_read(r, rr, word_dec(v));
    lemma_word_rewrite(r, rr);
    lemma_word_bytes_roundtrip(r.b, r.c, word_dec(word_inc(v)));
    lemma_word_bytes_roundtrip(r.d, r.e, word_dec(word_inc(v)));
    lemma_word_bytes_roundtrip(r.h, r.l, word_dec(word_inc(v)));
    assert(up.with_word(rr, word_dec(up.word(rr))) == r.with_word(rr, v));
    assert(down.with_word(rr, word_inc(down.word(rr))) == r.with_word(rr, v));
}

/// Adding a word register to HL keeps the zero flag, clears N, and sets H and C on a
/// carry out of bit 11 and bit 15.
pub proof fn law_add_hl_rr_flags(cpu: Cpu, rr: WordRegister)
    requires
        rr != WordRegister::HL,
        rr != WordRegister::AF,
    ensures
        ({
            let after = cpu.add_hl_rr_spec(rr).registers;
            let (hl, other) = (cpu.hl() as int, cpu.registers.word(rr) as int);
            &&& after.word(WordRegister::HL) == (hl + other) % 65536
            &&& after.flag_z == cpu.registers.flag_z
            &&& !after.flag_n
            &&& after.flag_h == (hl % 4096 + other % 4096 >= 4096)
            &&& after.flag_c == (hl + other >= 65536)
            &&& after.word(rr) == cpu.registers.word(rr)
        }),
{
    let r = cpu.registers;
    let result = ((cpu.hl() as int + r.word(rr) as int) % 65536) as u16;
    crate::cpu::registers::lemma_word_write_read(
        crate::cpu::alu::add_nn_spec(r, cpu.hl(), r.word(rr)).1,
        WordRegister::HL,
        result,
    );
}

/// For the first instruction set: pushing a register pair and popping it again
/// restores every register, for each of the pairs BC, DE, HL and AF.
pub proof fn law_cpu_push_pop_restores(cpu: CpuView, memory: Seq<u8>)
    requires
        memory.len() == MEMORY_SIZE,
        2 <= cpu.registers.sp,
    ensures
        ({
            let (pushed_bc, m_bc) = cpu.push_bc(memory);
            pushed_bc.pop_bc(m_bc).0.registers == cpu.registers
        }),
        ({
            let (pushed_de, m_de) = cpu.push_de(memory);
            pushed_de.pop_de(m_de).0.registers == cpu.registers
        }),
        ({
            let (pushed_hl, m_hl) = cpu.push_hl(memory);
            pushed_hl.pop_hl(m_hl).0.registers == cpu.registers
        }),
        ({
            let (pushed_af, m_af) = cpu.push_af(memory);
            pushed_af.pop_af(m_af).0.registers == cpu.registers
        }),
{
    let r = cpu.registers;
    assert(below(r.sp) == r.sp - 2);
    lemma_stacked_top(memory, r.sp, r.word(WordRegister::BC));
    lemma_stacked_top(memory, r.sp, r.word(WordRegister::DE));
    lemma_stacked_top(memory, r.sp, r.word(WordRegister::HL));
    lemma_stacked_top(memory, r.sp, r.word(WordRegister::AF));
    lemma_word_rewrite(r, WordRegister::BC);
    lemma_word_rewrite(r, WordRegister::DE);
    lemma_word_rewrite(r, WordRegister::HL);
    lemma_word_rewrite(r, WordRegister::AF);
}

/// For the first instruction set: a call followed by a return comes back to the
/// instruction after the call, with the stack pointer where it was.
pub proof fn law_cpu_call_then_ret_returns(cpu: CpuView, memory: Seq<u8>)
    requires
        memory.len() == MEMORY_SIZE,
        2 <= cpu.registers.sp,
        cpu.registers.pc + 3 <= 0xFFFF,
    ensures
        ({
            let (called, called_memory) = cpu.call(memory);
            called.ret(called_memory).0.registers == CpuRegisters {
                pc: (cpu.registers.pc + 3) as u16,
                ..cpu.registers
            }
        }),
{
    assert(below(cpu.registers.sp) == cpu.registers.sp - 2);
    lemma_stacked_top(memory, cpu.registers.sp, (cpu.registers.pc + 3) as u16);
}

} // verus!

verus! {

/// Whether a byte holds two binary-coded decimal digits.
pub open spec fn is_bcd(x: u8) -> bool {
    x % 16 <= 9 && x / 16 <= 9
}

/// The number (0 to 99) two binary-coded decimal digits stand for.
pub open spec fn bcd_value(x: u8) -> int {
    (x / 16) * 10 + x % 16
}

/// The binary-coded decimal byte of a number from 0 to 99.
pub open spec fn bcd_byte(v: int) -> u8 {
    ((v / 10) * 16 + v % 10) as u8
}

/// Decimal adjustment after an addition of two BCD bytes gives the BCD digits of their
/// decimal sum modulo 100, with the carry set exactly when the sum reaches 100.
proof fn lemma_daa_add(x: u8, y: u8)
    by (bit_vector)
    requires
        is_bcd(x),
        is_bcd(y),
    ensures
        ({
            let s = bcd_value(x) + bcd_value(y);
            let v = ((x as int + y as int) % 256) as u8;
            let h = x as int % 16 + y as int % 16 >= 16;
            let c = x as int + y as int >= 256;
            &&& crate::cpu::instructions::daa_spec(v, false, h, c).0 == bcd_byte(s % 100)
            &&& crate::cpu::instructions::daa_spec(v, false, h, c).1 == (s >= 100)
        }),
{
}

/// After `ADD A,n` of two BCD bytes, `DAA` leaves in A the BCD digits of the decimal sum
/// modulo 100 and sets the carry exactly when the sum reaches 100 (and Z when A is 0).
pub proof fn law_daa_after_add_gives_decimal_sum(cpu: Cpu, memory: Seq<u8>)
    requires
        is_bcd(cpu.registers.a),
        is_bcd(cpu.imm8(memory)),
    ensures
        ({
            let s = bcd_value(cpu.registers.a) + bcd_value(cpu.imm8(memory));
            let after = cpu.add_a_n_spec(memory).daa_result();
            &&& after.registers.a == bcd_byte(s % 100)
            &&& after.registers.flag_c == (s >= 100)
            &&& after.registers.flag_z == (s % 100 == 0)
        }),
{
    lemma_daa_add(cpu.imm8(memory), cpu.registers.a);
}

} // verus!

verus! {

/// Decimal adjustment after a subtraction of two BCD bytes gives the BCD digits of their
/// decimal difference modulo 100, with the carry set exactly when it borrows.
proof fn lemma_daa_sub(x: u8, y: u8)
    by (bit_vector)
    requires
        is_bcd(x),
        is_bcd(y),
    ensures
        ({
            let d = bcd_value(x) - bcd_value(y) + 100;
            let v = ((x as int - y as int + 512) % 256) as u8;
            let h = (x as int % 16) < y as int % 16;
            let c = (x as int) < y as int;
            &&& crate::cpu::instructions::daa_spec(v, true, h, c).0 == bcd_byte(d % 100)
            &&& crate::cpu::instructions::daa_spec(v, true, h, c).1 == (bcd_value(x) < bcd_value(y))
        }),
{
}

/// After `SUB n` of two BCD bytes, `DAA` leaves in A the BCD digits of the decimal
/// difference modulo 100 and sets the carry exactly when the subtrahend is larger.
pub proof fn law_daa_after_sub_gives_decimal_difference(cpu: Cpu, memory: Seq<u8>)
    requires
        is_bcd(cpu.registers.a),
        is_bcd(cpu.imm8(memory)),
    ensures
        ({
            let x = bcd_value(cpu.registers.a);
            let y = bcd_value(cpu.imm8(memory));
            let after = cpu.sub_n_spec(memory).daa_result();
            &&& after.registers.a == bcd_byte((x - y + 100) % 100)
            &&& after.registers.flag_c == (x < y)
        }),
{
    lemma_daa_sub(cpu.registers.a, cpu.imm8(memory));
}

} // verus!

verus! {

/// The flag condition of a conditional jump, call or return.
#[derive(PartialEq, Eq, Structural, Clone, Copy, Debug)]
pub enum JumpCondition {
    NotZero,
    Zero,
    NotCarry,
    Carry,
}

/// The name a condition has in instruction text.
pub open spec fn condition_name(cond: JumpCondition) -> Seq<char> {
    match cond {
        JumpCondition::NotZero => "NZ"@,
        JumpCondition::Zero => "Z"@,
        JumpCondition::NotCarry => "NC"@,
        JumpCondition::Carry => "C"@,
    }
}

/// Whether a condition holds of the flags.
pub open spec fn condition_holds(cond: JumpCondition, r: CpuRegisters) -> bool {
    match cond {
        JumpCondition::NotZero => !r.flag_z,
        JumpCondition::Zero => r.flag_z,
        JumpCondition::NotCarry => !r.flag_c,
        JumpCondition::Carry => r.flag_c,
    }
}

/// The text of a conditional `JP` names the condition the processor tests: the jump to
/// the address after the opcode is taken exactly when that condition holds.
pub proof fn law_conditional_jp_text_names_tested_condition(cpu: Cpu, memory: Seq<u8>)
    requires
        memory.len() == MEMORY_SIZE,
        !cpu.halted,
        cpu.registers.pc <= 0xFFFC,
        ({
            let op = memory[cpu.registers.pc as int];
            op == 0xC2 || op == 0xCA || op == 0xD2 || op == 0xDA
        }),
    ensures
        exists|cond: JumpCondition| #![trigger condition_name(cond)]
            {
                let pc = cpu.registers.pc as int;
                let nn = memory[pc + 2] as int * 256 + memory[pc + 1] as int;
                &&& disassembled(memory[pc], memory[pc + 1], memory[pc + 2])
                    == "JP "@ + condition_name(cond) + ",$"@ + hex_word(nn as u16)
                &&& cpu.step_spec(memory).0.registers.pc == (if condition_holds(cond, cpu.registers) { nn } else { pc + 3 })
            },
{
    reveal_strlit("JP NZ,$");
    reveal_strlit("JP Z,$");
    reveal_strlit("JP NC,$");
    reveal_strlit("JP C,$");
    reveal_strlit("JP ");
    reveal_strlit("NZ");
    reveal_strlit("Z");
    reveal_strlit("NC");
    reveal_strlit("C");
    reveal_strlit(",$");
    let op = memory[cpu.registers.pc as int];
    let cond = if op == 0xC2 {
        JumpCondition::NotZero
    } else if op == 0xCA {
        JumpCondition::Zero
    } else if op == 0xD2 {
        JumpCondition::NotCarry
    } else {
        JumpCondition::Carry
    };
    assert("JP "@ + condition_name(cond) + ",$"@ =~= (if op == 0xC2 {
        "JP NZ,$"@
    } else if op == 0xCA {
        "JP Z,$"@
    } else if op == 0xD2 {
        "JP NC,$"@
    } else {
        "JP C,$"@
    }));
    assert(condition_name(cond) == condition_name(cond));
}

} // verus!

verus! {

/// The text of a conditional `JR` names the condition the processor tests: the jump by
/// the signed byte after the opcode, from the next instruction, is taken exactly when
/// that condition holds.
pub proof fn law_conditional_jr_text_names_tested_condition(cpu: Cpu, memory: Seq<u8>)
    requires
        memory.len() == MEMORY_SIZE,
        !cpu.halted,
        cpu.registers.pc <= 0xFFFC,
        ({
            let op = memory[cpu.registers.pc as int];
            op == 0x20 || op == 0x28 || op == 0x30 || op == 0x38
        }),
    ensures
        exists|cond: JumpCondition| #![trigger condition_name(cond)]
            {
                let pc = cpu.registers.pc as int;
                let e = memory[pc + 1];
                let offset: int = if e < 128 { e as int } else { e as int - 256 };
                &&& disassembled(memory[pc], e, memory[pc + 2]) == "JR "@ + condition_name(cond) + ",$"@ + hex_byte(e)
                &&& cpu.step_spec(memory).0.registers.pc == (if condition_holds(cond, cpu.registers) {
                    (pc + 2 + offset + 0x10000) % 0x10000
                } else {
                    pc + 2
                })
            },
{
    reveal_strlit("JR NZ,$");
    reveal_strlit("JR Z,$");
    reveal_strlit("JR NC,$");
    reveal_strlit("JR C,$");
    reveal_strlit("JR ");
    reveal_strlit("NZ");
    reveal_strlit("Z");
    reveal_strlit("NC");
    reveal_strlit("C");
    reveal_strlit(",$");
    let op = memory[cpu.registers.pc as int];
    let e = memory[cpu.registers.pc + 1];
    assert((e as i8) as int == (if e < 128 { e as int } else { e as int - 256 })) by (bit_vector);
    let cond = if op == 0x20 {
        JumpCondition::NotZero
    } else if op == 0x28 {
        JumpCondition::Zero
    } else if op == 0x30 {
        JumpCondition::NotCarry
    } else {
        JumpCondition::Carry
    };
    assert("JR "@ + condition_name(cond) + ",$"@ =~= (if op == 0x20 {
        "JR NZ,$"@
    } else if op == 0x28 {
        "JR Z,$"@
    } else if op == 0x30 {
        "JR NC,$"@
    } else {
        "JR C,$"@
    }));
    assert(condition_name(cond) == condition_name(cond));
}

/// The word after the opcode is not changed by a push that stays clear of it.
proof fn lemma_push_keeps_operand(memory: Seq<u8>, pc: u16, sp: u16, value: u16)
    requires
        memory.len() == MEMORY_SIZE,
        pc <= 0xFFFC,
        sp >= pc + 5 || (2 <= sp <= pc),
    ensures
        crate::cpu::semantics::immediate_word(crate::cpu::instructions::stacked(memory, sp, value), pc)
            == (memory[pc + 2] as int * 256 + memory[pc + 1] as int) as u16,
{
    let m = crate::cpu::instructions::stacked(memory, sp, value);
    assert(crate::cpu::instructions::below(sp) == sp - 2);
    assert(m[pc + 1] == memory[pc + 1]);
    assert(m[pc + 2] == memory[pc + 2]);
}

/// The text of a conditional `CALL` names the condition the processor tests: the call of
/// the address after the opcode is taken exactly when that condition holds (with the
/// stack clear of the instruction's bytes).
#[verifier::rlimit(50)]
pub proof fn law_conditional_call_text_names_tested_condition(cpu: Cpu, memory: Seq<u8>)
    requires
        memory.len() == MEMORY_SIZE,
        !cpu.halted,
        cpu.registers.pc <= 0xFFFC,
        cpu.registers.sp >= cpu.registers.pc + 5 || (2 <= cpu.registers.sp <= cpu.registers.pc),
        ({
            let op = memory[cpu.registers.pc as int];
            op == 0xC4 || op == 0xCC || op == 0xD4 || op == 0xDC
        }),
    ensures
        exists|cond: JumpCondition| #![trigger condition_name(cond)]
            {
                let pc = cpu.registers.pc as int;
                let nn = memory[pc + 2] as int * 256 + memory[pc + 1] as int;
                &&& disassembled(memory[pc], memory[pc + 1], memory[pc + 2])
                    == "CALL "@ + condition_name(cond) + ",$"@ + hex_word(nn as u16)
                &&& cpu.step_spec(memory).0.registers.pc == (if condition_holds(cond, cpu.registers) { nn } else { pc + 3 })
            },
{
    lemma_push_keeps_operand(memory, cpu.registers.pc, cpu.registers.sp, (cpu.registers.pc + 3) as u16);
    reveal_strlit("CALL NZ,$");
    reveal_strlit("CALL Z,$");
    reveal_strlit("CALL NC,$");
    reveal_strlit("CALL C,$");
    reveal_strlit("CALL ");
    reveal_strlit("NZ");
    reveal_strlit("Z");
    reveal_strlit("NC");
    reveal_strlit("C");
    reveal_strlit(",$");
    let op = memory[cpu.registers.pc as int];
    let cond = if op == 0xC4 {
        JumpCondition::NotZero
    } else if op == 0xCC {
        JumpCondition::Zero
    } else if op == 0xD4 {
        JumpCondition::NotCarry
    } else {
        JumpCondition::Carry
    };
    assert("CALL "@ + condition_name(cond) + ",$"@ =~= (if op == 0xC4 {
        "CALL NZ,$"@
    } else if op == 0xCC {
        "CALL Z,$"@
    } else if op == 0xD4 {
        "CALL NC,$"@
    } else {
        "CALL C,$"@
    }));
    assert(condition_name(cond) == condition_name(cond));
}

/// The text of a conditional `RET` names the condition the processor tests: the return
/// to the address on top of the stack is taken exactly when that condition holds.
pub proof fn law_conditional_ret_text_names_tested_condition(cpu: Cpu, memory: Seq<u8>)
    requires
        memory.len() == MEMORY_SIZE,
        !cpu.halted,
        cpu.registers.pc <= 0xFFFC,
        cpu.registers.sp < 0xFFFF,
        ({
            let op = memory[cpu.registers.pc as int];
            op == 0xC0 || op == 0xC8 || op == 0xD0 || op == 0xD8
        }),
    ensures
        exists|cond: JumpCondition| #![trigger condition_name(cond)]
            {
                let pc = cpu.registers.pc as int;
                let sp = cpu.registers.sp as int;
                &&& disassembled(memory[pc], memory[pc + 1], memory[pc + 2]) == "RET "@ + condition_name(cond)
                &&& cpu.step_spec(memory).0.registers.pc == (if condition_holds(cond, cpu.registers) {
                    memory[sp + 1] as int * 256 + memory[sp] as int
                } else {
                    pc + 1
                })
            },
{
    reveal_strlit("RET NZ");
    reveal_strlit("RET Z");
    reveal_strlit("RET NC");
    reveal_strlit("RET C");
    reveal_strlit("RET ");
    reveal_strlit("NZ");
    reveal_strlit("Z");
    reveal_strlit("NC");
    reveal_strlit("C");
    let op = memory[cpu.registers.pc as int];
    let cond = if op == 0xC0 {
        JumpCondition::NotZero
    } else if op == 0xC8 {
        JumpCondition::Zero
    } else if op == 0xD0 {
        JumpCondition::NotCarry
    } else {
        JumpCondition::Carry
    };
    assert("RET "@ + condition_name(cond) =~= (if op == 0xC0 {
        "RET NZ"@
    } else if op == 0xC8 {
        "RET Z"@
    } else if op == 0xD0 {
        "RET NC"@
    } else {
        "RET C"@
    }));
    assert(condition_name(cond) == condition_name(cond));
}

} // verus!

verus! {

/// `ADD A,n` computes A plus n: the new A plus 256 for the carry is exactly the sum, the
/// half carry tells whether the low nibbles overflowed, Z whether A is 0.
pub proof fn law_add_is_byte_addition(cpu: Cpu, memory: Seq<u8>)
    ensures
        ({
            let a = cpu.registers.a as int;
            let n = cpu.imm8(memory) as int;
            let added = cpu.add_a_n_spec(memory).registers;
            &&& added.a as int + (if added.flag_c { 256int } else { 0int }) == a + n
            &&& added.flag_h == (a % 16 + n % 16 >= 16)
            &&& added.flag_z == (added.a == 0)
            &&& !added.flag_n
        }),
{
    let a = cpu.registers.a as int;
    let n = cpu.imm8(memory) as int;
    if a + n >= 256 {
        assert((a + n) % 256 == a + n - 256);
    } else {
        assert((a + n) % 256 == a + n);
    }
}

/// `SUB n` computes A minus n: the new A minus 256 for the borrow (the carry) is exactly
/// the difference, the half carry tells whether the low nibble borrowed, Z whether A is 0.
pub proof fn law_sub_is_byte_subtraction(cpu: Cpu, memory: Seq<u8>)
    ensures
        ({
            let a = cpu.registers.a as int;
            let n = cpu.imm8(memory) as int;
            let subtracted = cpu.sub_n_spec(memory).registers;
            &&& subtracted.a as int - (if subtracted.flag_c { 256int } else { 0int }) == a - n
            &&& subtracted.flag_h == (a % 16 < n % 16)
            &&& subtracted.flag_z == (subtracted.a == 0)
            &&& subtracted.flag_n
        }),
{
    let a = cpu.registers.a as int;
    let n = cpu.imm8(memory) as int;
    if a < n {
        assert((a - n + 512) % 256 == a - n + 256);
    } else {
        assert((a - n + 512) % 256 == a - n);
    }
}

/// Subtracting what `ADD A,n` added gives A back.
pub proof fn law_sub_undoes_add(cpu: Cpu, memory: Seq<u8>)
    ensures
        cpu.add_a_n_spec(memory).sub_n_spec(memory).registers.a == cpu.registers.a,
{
    law_add_is_byte_addition(cpu, memory);
    let c1 = cpu.add_a_n_spec(memory);
    assert(c1.imm8(memory) == cpu.imm8(memory));
    law_sub_is_byte_subtraction(c1, memory);
}

/// Rotating A left and then right (through the carry or not) gives A back; the bit that
/// leaves goes to the carry.
pub proof fn law_rotations_undo_each_other(cpu: Cpu)
    ensures
        cpu.rlca_spec().rrc_r_spec(crate::cpu::registers::ByteRegister::A, false).registers.a == cpu.registers.a,
        cpu.rlca_spec().registers.flag_c == (cpu.registers.a >= 128),
        cpu.rla_spec().rra_spec().registers.a == cpu.registers.a,
        cpu.rla_spec().rra_spec().registers.flag_c == cpu.registers.flag_c,
        cpu.rra_spec().registers.flag_c == (cpu.registers.a % 2 == 1),
{
}

} // verus!

verus! {

/// The name of a byte register in instruction text.
pub open spec fn byte_register_name(r: ByteRegister) -> Seq<char> {
    match r {
        ByteRegister::A => "A"@,
        ByteRegister::B => "B"@,
        ByteRegister::C => "C"@,
        ByteRegister::D => "D"@,
        ByteRegister::E => "E"@,
        ByteRegister::F => "F"@,
        ByteRegister::H => "H"@,
        ByteRegister::L => "L"@,
    }
}

/// Whether the instruction at the program counter reads "LD dst,src" and copies `src`
/// into `dst`.
pub open spec fn ld_text_and_effect(cpu: Cpu, memory: Seq<u8>, dst: ByteRegister, src: ByteRegister) -> bool {
    let pc = cpu.registers.pc as int;
    &&& disassembled(memory[pc], memory[pc + 1], memory[pc + 2])
        == "LD "@ + byte_register_name(dst) + ","@ + byte_register_name(src)
    &&& cpu.execute_spec(memory).0.registers.byte(dst) == cpu.registers.byte(src)
}

/// The text of a register-to-register `LD` names the registers the processor copies:
/// the first named register receives the second.
#[verifier::rlimit(60)]
pub proof fn law_ld_text_names_copied_registers(cpu: Cpu, memory: Seq<u8>)
    requires
        memory.len() == MEMORY_SIZE,
        cpu.registers.pc <= 0xFFFC,
        ({
            let op = memory[cpu.registers.pc as int];
            op == 0x40 || op == 0x41 || op == 0x42 || op == 0x43 || op == 0x44 || op == 0x45 || op == 0x47 || op == 0x48 || op == 0x49 || op == 0x4A || op == 0x4B || op == 0x4C || op == 0x4D || op == 0x4F || op == 0x50 || op == 0x51 || op == 0x52 || op == 0x53 || op == 0x54 || op == 0x55 || op == 0x57 || op == 0x58 || op == 0x59 || op == 0x5A || op == 0x5B || op == 0x5C || op == 0x5D || op == 0x5F || op == 0x60 || op == 0x61 || op == 0x62 || op == 0x63 || op == 0x64 || op == 0x65 || op == 0x67 || op == 0x68 || op == 0x69 || op == 0x6A || op == 0x6B || op == 0x6C || op == 0x6D || op == 0x6F || op == 0x78 || op == 0x79 || op == 0x7A || op == 0x7B || op == 0x7C || op == 0x7D || op == 0x7F
        }),
    ensures
        exists|dst: ByteRegister, src: ByteRegister| #[trigger] ld_text_and_effect(cpu, memory, dst, src),
{
    let op = memory[cpu.registers.pc as int];
    if op == 0x40 {
        assert(ld_text_and_effect(cpu, memory, ByteRegister::B, ByteRegister::B));
    } else if op == 0x41 {
        assert(ld_text_and_effect(cpu, memory, ByteRegister::B, ByteRegister::C));
    } else if op == 0x42 {
        assert(ld_text_and_effect(cpu, memory, ByteRegister::B, ByteRegister::D));
    } else if op == 0x43 {
        assert(ld_text_and_effect(cpu, memory, ByteRegister::B, ByteRegister::E));
    } else if op == 0x44 {
        assert(ld_text_and_effect(cpu, memory, ByteRegister::B, ByteRegister::H));
    } else if op == 0x45 {
        assert(ld_text_and_effect(cpu, memory, ByteRegister::B, ByteRegister::L));
    } else if op == 0x47 {
        assert(ld_text_and_effect(cpu, memory, ByteRegister::B, ByteRegister::A));
    } else if op == 0x48 {
        assert(ld_text_and_effect(cpu, memory, ByteRegister::C, ByteRegister::B));
    } else if op == 0x49 {
        assert(ld_text_and_effect(cpu, memory, ByteRegister::C, ByteRegister::C));
    } else if op == 0x4A {
        assert(ld_text_and_effect(cpu, memory, ByteRegister::C, ByteRegister::D));
    } else if op == 0x4B {
        assert(ld_text_and_effect(cpu, memory, ByteRegister::C, ByteRegister::E));
    } else if op == 0x4C {
        assert(ld_text_and_effect(cpu, memory, ByteRegister::C, ByteRegister::H));
    } else if op == 0x4D {
        assert(ld_text_and_effect(cpu, memory, ByteRegister::C, ByteRegister::L));
    } else if op == 0x4F {
        assert(ld_text_and_effect(cpu, memory, ByteRegister::C, ByteRegister::A));
    } else if op == 0x50 {
        assert(ld_text_and_effect(cpu, memory, ByteRegister::D, ByteRegister::B));
    } else if op == 0x51 {
        assert(ld_text_and_effect(cpu, memory, ByteRegister::D, ByteRegister::C));
    } else if op == 0x52 {
        assert(ld_text_and_effect(cpu, memory, ByteRegister::D, ByteRegister::D));
    } else if op == 0x53 {
        assert(ld_text_and_effect(cpu, memory, ByteRegister::D, ByteRegister::E));
    } else if op == 0x54 {
        assert(ld_text_and_effect(cpu, memory, ByteRegister::D, ByteRegister::H));
    } else if op == 0x55 {
        assert(ld_text_and_effect(cpu, memory, ByteRegister::D, ByteRegister::L));
    } else if op == 0x57 {
        assert(ld_text_and_effect(cpu, memory, ByteRegister::D, ByteRegister::A));
    } else if op == 0x58 {
        assert(ld_text_and_effect(cpu, memory, ByteRegister::E, ByteRegister::B));
    } else if op == 0x59 {
        assert(ld_text_and_effect(cpu, memory, ByteRegister::E, ByteRegister::C));
    } else if op == 0x5A {
        assert(ld_text_and_effect(cpu, memory, ByteRegister::E, ByteRegister::D));
    } else if op == 0x5B {
        assert(ld_text_and_effect(cpu, memory, ByteRegister::E, ByteRegister::E));
    } else if op == 0x5C {
        assert(ld_text_and_effect(cpu, memory, ByteRegister::E, ByteRegister::H));
    } else if op == 0x5D {
        assert(ld_text_and_effect(cpu, memory, ByteRegister::E, ByteRegister::L));
    } else if op == 0x5F {
        assert(ld_text_and_effect(cpu, memory, ByteRegister::E, ByteRegister::A));
    } else if op == 0x60 {
        assert(ld_text_and_effect(cpu, memory, ByteRegister::H, ByteRegister::B));
    } else if op == 0x61 {
        assert(ld_text_and_effect(cpu, memory, ByteRegister::H, ByteRegister::C));
    } else if op == 0x62 {
        assert(ld_text_and_effect(cpu, memory, ByteRegister::H, ByteRegister::D));
    } else if op == 0x63 {
        assert(ld_text_and_effect(cpu, memory, ByteRegister::H, ByteRegister::E));
    } else if op == 0x64 {
        assert(ld_text_and_effect(cpu, memory, ByteRegister::H, ByteRegister::H));
    } else if op == 0x65 {
        assert(ld_text_and_effect(cpu, memory, ByteRegister::H, ByteRegister::L));
    } else if op == 0x67 {
        assert(ld_text_and_effect(cpu, memory, ByteRegister::H, ByteRegister::A));
    } else if op == 0x68 {
        assert(ld_text_and_effect(cpu, memory, ByteRegister::L, ByteRegister::B));
    } else if op == 0x69 {
        assert(ld_text_and_effect(cpu, memory, ByteRegister::L, ByteRegister::C));
    } else if op == 0x6A {
        assert(ld_text_and_effect(cpu, memory, ByteRegister::L, ByteRegister::D));
    } else if op == 0x6B {
        assert(ld_text_and_effect(cpu, memory, ByteRegister::L, ByteRegister::E));
    } else if op == 0x6C {
        assert(ld_text_and_effect(cpu, memory, ByteRegister::L, ByteRegister::H));
    } else if op == 0x6D {
        assert(ld_text_and_effect(cpu, memory, ByteRegister::L, ByteRegister::L));
    } else if op == 0x6F {
        assert(ld_text_and_effect(cpu, memory, ByteRegister::L, ByteRegister::A));
    } else if op == 0x78 {
        assert(ld_text_and_effect(cpu, memory, ByteRegister::A, ByteRegister::B));
    } else if op == 0x79 {
        assert(ld_text_and_effect(cpu, memory, ByteRegister::A, ByteRegister::C));
    } else if op == 0x7A {
        assert(ld_text_and_effect(cpu, memory, ByteRegister::A, ByteRegister::D));
    } else if op == 0x7B {
        assert(ld_text_and_effect(cpu, memory, ByteRegister::A, ByteRegister::E));
    } else if op == 0x7C {
        assert(ld_text_and_effect(cpu, memory, ByteRegister::A, ByteRegister::H));
    } else if op == 0x7D {
        assert(ld_text_and_effect(cpu, memory, ByteRegister::A, ByteRegister::L));
    } else if op == 0x7F {
        assert(ld_text_and_effect(cpu, memory, ByteRegister::A, ByteRegister::A));
    }
}

/// The text of `RST` shows the address the processor calls: the program counter moves to
/// the restart address the opcode's bits 3 to 5 select, and the text is "RST $" and that
/// address in hexadecimal.
pub proof fn law_rst_text_names_target(cpu: Cpu, memory: Seq<u8>)
    requires
        memory.len() == MEMORY_SIZE,
        !cpu.halted,
        cpu.registers.pc <= 0xFFFC,
        ({
            let op = memory[cpu.registers.pc as int];
            op == 0xC7 || op == 0xCF || op == 0xD7 || op == 0xDF || op == 0xE7 || op == 0xEF || op == 0xF7 || op == 0xFF
        }),
    ensures
        ({
            let pc = cpu.registers.pc as int;
            let op = memory[pc];
            let target = cpu.step_spec(memory).0.registers.pc;
            &&& target == op - 0xC7
            &&& disassembled(op, memory[pc + 1], memory[pc + 2]) == "RST $"@ + hex_byte(target as u8)
        }),
{
    reveal_strlit("RST $00");
    reveal_strlit("RST $08");
    reveal_strlit("RST $10");
    reveal_strlit("RST $18");
    reveal_strlit("RST $20");
    reveal_strlit("RST $28");
    reveal_strlit("RST $30");
    reveal_strlit("RST $38");
    reveal_strlit("RST $");
}

} // verus!

verus! {

/// Whether the conditional `JR` at the program counter reads "JR cond,$e" and, run by
/// `CPU`, jumps by the signed byte `e` from the next instruction exactly when `cond`
/// holds.
pub open spec fn view_jr_matches(cpu: CpuView, memory: Seq<u8>, cond: JumpCondition) -> bool {
    let pc = cpu.registers.pc as int;
    let e = memory[pc + 1];
    let offset: int = if e < 128 { e as int } else { e as int - 256 };
    &&& disassembled(memory[pc], e, memory[pc + 2]) == "JR "@ + condition_name(cond) + ",$"@ + hex_byte(e)
    &&& cpu.step(memory).0.registers.pc == (if condition_holds(cond, cpu.registers) {
        (pc + 2 + offset + 0x10000) % 0x10000
    } else {
        pc + 2
    })
}

/// The text of a conditional `JR` names the condition `CPU` tests.
pub proof fn law_cpu_conditional_jr_text_names_tested_condition(cpu: CpuView, memory: Seq<u8>)
    requires
        memory.len() == MEMORY_SIZE,
        cpu.registers.pc <= 0xFFFC,
        ({
            let op = memory[cpu.registers.pc as int];
            op == 0x20 || op == 0x28 || op == 0x30 || op == 0x38
        }),
    ensures
        exists|cond: JumpCondition| #[trigger] view_jr_matches(cpu, memory, cond),
{
    reveal_strlit("JR NZ,$");
    reveal_strlit("JR Z,$");
    reveal_strlit("JR NC,$");
    reveal_strlit("JR C,$");
    reveal_strlit("JR ");
    reveal_strlit("NZ");
    reveal_strlit("Z");
    reveal_strlit("NC");
    reveal_strlit("C");
    reveal_strlit(",$");
    let op = memory[cpu.registers.pc as int];
    let e = memory[cpu.registers.pc + 1];
    assert((e as i8) as int == (if e < 128 { e as int } else { e as int - 256 })) by (bit_vector);
    if op == 0x20 {
        assert("JR "@ + condition_name(JumpCondition::NotZero) + ",$"@ =~= "JR NZ,$"@);
        assert(view_jr_matches(cpu, memory, JumpCondition::NotZero));
    } else if op == 0x28 {
        assert("JR "@ + condition_name(JumpCondition::Zero) + ",$"@ =~= "JR Z,$"@);
        assert(view_jr_matches(cpu, memory, JumpCondition::Zero));
    } else if op == 0x30 {
        assert("JR "@ + condition_name(JumpCondition::NotCarry) + ",$"@ =~= "JR NC,$"@);
        assert(view_jr_matches(cpu, memory, JumpCondition::NotCarry));
    } else {
        assert("JR "@ + condition_name(JumpCondition::Carry) + ",$"@ =~= "JR C,$"@);
        assert(view_jr_matches(cpu, memory, JumpCondition::Carry));
    }
}



/// The text of `JP Z,nn` names the condition `CPU` tests: the jump to the word after the
/// opcode happens exactly when Z is set.
#[verifier::rlimit(100)]
#[verifier::spinoff_prover]
pub proof fn law_cpu_jp_z_text_names_tested_condition(cpu: CpuView, memory: Seq<u8>)
    requires
        memory.len() == MEMORY_SIZE,
        cpu.registers.pc <= 0xFFFC,
        memory[cpu.registers.pc as int] == 0xCA,
    ensures
        ({
            let pc = cpu.registers.pc as int;
            let nn = memory[pc + 2] as int * 256 + memory[pc + 1] as int;
            &&& disassembled(0xCA, memory[pc + 1], memory[pc + 2])
                == "JP "@ + condition_name(JumpCondition::Zero) + ",$"@ + hex_word(nn as u16)
            &&& cpu.step(memory).0.registers.pc == (if cpu.registers.flag_z { nn } else { pc + 3 })
        }),
{
    reveal_strlit("JP Z,$");
    reveal_strlit("JP ");
    reveal_strlit("Z");
    reveal_strlit(",$");
    assert("JP "@ + condition_name(JumpCondition::Zero) + ",$"@ =~= "JP Z,$"@);
    lemma_view_step_jp_z(cpu, memory);
}


} // verus!

verus! {

/// `CPU` runs opcode 0xCA as `JP Z,nn`.
#[verifier::rlimit(100)]
#[verifier::spinoff_prover]
proof fn lemma_view_execute_ca(s: CpuView, memory: Seq<u8>)
    requires
        memory[s.registers.pc as int] == 0xCA,
    ensures
        s.execute(memory) == (s.jp_z_nn(memory), memory),
{
}



/// Where `CPU` goes after `JP Z,nn`.
#[verifier::rlimit(100)]
#[verifier::spinoff_prover]
proof fn lemma_view_step_jp_z(cpu: CpuView, memory: Seq<u8>)
    requires
        memory.len() == MEMORY_SIZE,
        cpu.registers.pc <= 0xFFFC,
        memory[cpu.registers.pc as int] == 0xCA,
    ensures
        cpu.step(memory).0.registers.pc == (if cpu.registers.flag_z {
            memory[cpu.registers.pc + 2] as int * 256 + memory[cpu.registers.pc + 1] as int
        } else {
            cpu.registers.pc + 3
        }),
{
    lemma_view_execute_ca(cpu.started(), memory);
}



} // verus!

verus! {

/// An arithmetic or logic operation on A with an immediate byte.
#[derive(PartialEq, Eq, Structural, Clone, Copy, Debug)]
pub enum AluOperation {
    Add,
    Adc,
    Sub,
    Sbc,
    And,
    Xor,
    Or,
    Cp,
}

/// The text an operation with an immediate byte starts with.
pub open spec fn alu_mnemonic(operation: AluOperation) -> Seq<char> {
    match operation {
        AluOperation::Add => "ADD A,$"@,
        AluOperation::Adc => "ADC A,$"@,
        AluOperation::Sub => "SUB $"@,
        AluOperation::Sbc => "SBC A,$"@,
        AluOperation::And => "AND $"@,
        AluOperation::Xor => "XOR $"@,
        AluOperation::Or => "OR $"@,
        AluOperation::Cp => "CP $"@,
    }
}

/// What an operation leaves in A: the sum or difference modulo 256 (with the carry for
/// ADC and SBC), the bitwise and, exclusive or or or, or A itself for a comparison.
pub open spec fn alu_value(operation: AluOperation, a: u8, n: u8, carry: bool) -> int {
    let c: int = if carry { 1 } else { 0 };
    match operation {
        AluOperation::Add => (a + n) % 256,
        AluOperation::Adc => (a + n + c) % 256,
        AluOperation::Sub => (a - n + 256) % 256,
        AluOperation::Sbc => (a - n - c + 512) % 256,
        AluOperation::And => (a & n) as int,
        AluOperation::Xor => (a ^ n) as int,
        AluOperation::Or => (a | n) as int,
        AluOperation::Cp => a as int,
    }
}

/// Whether the instruction at the program counter reads as `operation` on its immediate
/// byte and does that to A (a comparison setting Z and the carry as a subtraction would).
pub open spec fn alu_text_and_effect(cpu: Cpu, memory: Seq<u8>, operation: AluOperation) -> bool {
    let pc = cpu.registers.pc as int;
    let a = cpu.registers.a;
    let n = memory[pc + 1];
    let after = cpu.execute_spec(memory).0.registers;
    &&& disassembled(memory[pc], n, memory[pc + 2]) == alu_mnemonic(operation) + hex_byte(n)
    &&& after.a == alu_value(operation, a, n, cpu.registers.flag_c)
    &&& operation == AluOperation::Cp ==> after.flag_z == (a == n) && after.flag_c == (a < n)
}

/// The text of an operation on A with an immediate byte names what the processor does
/// with A and that byte.
#[verifier::rlimit(100)]
#[verifier::spinoff_prover]
pub proof fn law_alu_text_names_operation(cpu: Cpu, memory: Seq<u8>)
    requires
        memory.len() == MEMORY_SIZE,
        cpu.registers.pc <= 0xFFFC,
        ({
            let op = memory[cpu.registers.pc as int];
            op == 0xC6 || op == 0xCE || op == 0xD6 || op == 0xDE || op == 0xE6 || op == 0xEE || op == 0xF6 || op == 0xFE
        }),
    ensures
        exists|operation: AluOperation| #[trigger] alu_text_and_effect(cpu, memory, operation),
{
    let op = memory[cpu.registers.pc as int];
    let a = cpu.registers.a;
    let n = memory[cpu.registers.pc + 1];
    assert(a & n == n & a && a ^ n == n ^ a && a | n == n | a) by (bit_vector);
    if op == 0xC6 {
        assert(alu_text_and_effect(cpu, memory, AluOperation::Add));
    } else if op == 0xCE {
        assert(alu_text_and_effect(cpu, memory, AluOperation::Adc));
    } else if op == 0xD6 {
        assert(alu_text_and_effect(cpu, memory, AluOperation::Sub));
    } else if op == 0xDE {
        assert(alu_text_and_effect(cpu, memory, AluOperation::Sbc));
    } else if op == 0xE6 {
        assert(alu_text_and_effect(cpu, memory, AluOperation::And));
    } else if op == 0xEE {
        assert(alu_text_and_effect(cpu, memory, AluOperation::Xor));
    } else if op == 0xF6 {
        assert(alu_text_and_effect(cpu, memory, AluOperation::Or));
    } else {
        assert(alu_text_and_effect(cpu, memory, AluOperation::Cp));
    }
}

} // verus!
