//! The text of an instruction: its mnemonic and operands, as a debugger shows it.

use vstd::prelude::*;
use vstd::string::StringExecFns;

use crate::memory::Memory;
use crate::text::{
    decimal_char, decimal_digit, ending_with_byte, ending_with_word, hex_byte, hex_word, push_char,
    text, with_byte, with_word,
};

verus! {

/// The name of the register a three-bit code selects; 6 is the byte at the address in HL.
pub open spec fn register_name(code: u8) -> Seq<char> {
    if code == 0 {
        "B"@
    } else if code == 1 {
        "C"@
    } else if code == 2 {
        "D"@
    } else if code == 3 {
        "E"@
    } else if code == 4 {
        "H"@
    } else if code == 5 {
        "L"@
    } else if code == 6 {
        "(HL)"@
    } else if code == 7 {
        "A"@
    } else {
        "?"@
    }
}

/// The mnemonic of a 0xCB-prefixed operation on a register, by the opcode's top five
/// bits below 8.
pub open spec fn cb_mnemonic(group: int) -> Seq<char> {
    if group == 0 {
        "RLC "@
    } else if group == 1 {
        "RRC "@
    } else if group == 2 {
        "RL "@
    } else if group == 3 {
        "RR "@
    } else if group == 4 {
        "SLA "@
    } else if group == 5 {
        "SRA "@
    } else if group == 6 {
        "SWAP "@
    } else {
        "SRL "@
    }
}

/// The text of the 0xCB-prefixed instruction with opcode `op`: a rotation or shift of a
/// register, or a bit test, clear or set with the bit number in decimal.
pub open spec fn disassembled_cb(op: u8) -> Seq<char> {
    let reg = register_name(op % 8);
    if op < 0x40 {
        cb_mnemonic(op as int / 8) + reg
    } else if op < 0x80 {
        "BIT "@ + seq![decimal_char((op - 0x40) / 8)] + ","@ + reg
    } else if op < 0xC0 {
        "RES "@ + seq![decimal_char((op - 0x80) / 8)] + ","@ + reg
    } else {
        "SET "@ + seq![decimal_char((op - 0xC0) / 8)] + ","@ + reg
    }
}

/// The text of the instruction with opcode `op`, whose next two bytes are `b1` and `b2`;
/// `$` and hexadecimal digits show immediate operands.
pub open spec fn disassembled(op: u8, b1: u8, b2: u8) -> Seq<char> {
    let nn = (b2 as int * 256 + b1 as int) as u16;
    if op < 0x40 {
        disassembled_00_3f(op, b1, nn)
    } else if op < 0x80 {
        disassembled_40_7f(op, b1, nn)
    } else if op < 0xC0 {
        disassembled_80_bf(op, b1, nn)
    } else {
        disassembled_c0_ff(op, b1, nn)
    }
}

/// The text of an instruction whose opcode is in 0x00 to 0x3F.
pub open spec fn disassembled_00_3f(op: u8, b1: u8, nn: u16) -> Seq<char> {
    if op == 0x00 {
        "NOP"@
    } else if op == 0x01 {
        "LD BC,$"@ + hex_word(nn)
    } else if op == 0x02 {
        "LD (BC),A"@
    } else if op == 0x03 {
        "INC BC"@
    } else if op == 0x04 {
        "INC B"@
    } else if op == 0x05 {
        "DEC B"@
    } else if op == 0x06 {
        "LD B,$"@ + hex_byte(b1)
    } else if op == 0x07 {
        "RLCA"@
    } else if op == 0x08 {
        "LD ($"@ + hex_word(nn) + "),SP"@
    } else if op == 0x09 {
        "ADD HL,BC"@
    } else if op == 0x0A {
        "LD A,(BC)"@
    } else if op == 0x0B {
        "DEC BC"@
    } else if op == 0x0C {
        "INC C"@
    } else if op == 0x0D {
        "DEC C"@
    } else if op == 0x0E {
        "LD C,$"@ + hex_byte(b1)
    } else if op == 0x0F {
        "RRCA"@
    } else if op == 0x10 {
        "STOP"@
    } else if op == 0x11 {
        "LD DE,$"@ + hex_word(nn)
    } else if op == 0x12 {
        "LD (DE),A"@
    } else if op == 0x13 {
        "INC DE"@
    } else if op == 0x14 {
        "INC D"@
    } else if op == 0x15 {
        "DEC D"@
    } else if op == 0x16 {
        "LD D,$"@ + hex_byte(b1)
    } else if op == 0x17 {
        "RLA"@
    } else if op == 0x18 {
        "JR $"@ + hex_byte(b1)
    } else if op == 0x19 {
        "ADD HL,DE"@
    } else if op == 0x1A {
        "LD A,(DE)"@
    } else if op == 0x1B {
        "DEC DE"@
    } else if op == 0x1C {
        "INC E"@
    } else if op == 0x1D {
        "DEC E"@
    } else if op == 0x1E {
        "LD E,$"@ + hex_byte(b1)
    } else if op == 0x1F {
        "RRA"@
    } else if op == 0x20 {
        "JR NZ,$"@ + hex_byte(b1)
    } else if op == 0x21 {
        "LD HL,$"@ + hex_word(nn)
    } else if op == 0x22 {
        "LD (HL+),A"@
    } else if op == 0x23 {
        "INC HL"@
    } else if op == 0x24 {
        "INC H"@
    } else if op == 0x25 {
        "DEC H"@
    } else if op == 0x26 {
        "LD H,$"@ + hex_byte(b1)
    } else if op == 0x27 {
        "DAA"@
    } else if op == 0x28 {
        "JR Z,$"@ + hex_byte(b1)
    } else if op == 0x29 {
        "ADD HL,HL"@
    } else if op == 0x2A {
        "LD A,(HL+)"@
    } else if op == 0x2B {
        "DEC HL"@
    } else if op == 0x2C {
        "INC L"@
    } else if op == 0x2D {
        "DEC L"@
    } else if op == 0x2E {
        "LD L,$"@ + hex_byte(b1)
    } else if op == 0x2F {
        "CPL"@
    } else if op == 0x30 {
        "JR NC,$"@ + hex_byte(b1)
    } else if op == 0x31 {
        "LD SP,$"@ + hex_word(nn)
    } else if op == 0x32 {
        "LD (HL-),A"@
    } else if op == 0x33 {
        "INC SP"@
    } else if op == 0x34 {
        "INC (HL)"@
    } else if op == 0x35 {
        "DEC (HL)"@
    } else if op == 0x36 {
        "LD (HL),$"@ + hex_byte(b1)
    } else if op == 0x37 {
        "SCF"@
    } else if op == 0x38 {
        "JR C,$"@ + hex_byte(b1)
    } else if op == 0x39 {
        "ADD HL,SP"@
    } else if op == 0x3A {
        "LD A,(HL-)"@
    } else if op == 0x3B {
        "DEC SP"@
    } else if op == 0x3C {
        "INC A"@
    } else if op == 0x3D {
        "DEC A"@
    } else if op == 0x3E {
        "LD A,$"@ + hex_byte(b1)
    } else {
        "CCF"@
    }
}

/// The text of an instruction whose opcode is in 0x40 to 0x7F.
pub open spec fn disassembled_40_7f(op: u8, b1: u8, nn: u16) -> Seq<char> {
    if op == 0x40 {
        "LD "@ + register_name((op / 8) % 8) + ","@ + register_name(op % 8)
    } else if op == 0x41 {
        "LD "@ + register_name((op / 8) % 8) + ","@ + register_name(op % 8)
    } else if op == 0x42 {
        "LD "@ + register_name((op / 8) % 8) + ","@ + register_name(op % 8)
    } else if op == 0x43 {
        "LD "@ + register_name((op / 8) % 8) + ","@ + register_name(op % 8)
    } else if op == 0x44 {
        "LD "@ + register_name((op / 8) % 8) + ","@ + register_name(op % 8)
    } else if op == 0x45 {
        "LD "@ + register_name((op / 8) % 8) + ","@ + register_name(op % 8)
    } else if op == 0x46 {
        "LD "@ + register_name((op / 8) % 8) + ","@ + register_name(op % 8)
    } else if op == 0x47 {
        "LD "@ + register_name((op / 8) % 8) + ","@ + register_name(op % 8)
    } else if op == 0x48 {
        "LD "@ + register_name((op / 8) % 8) + ","@ + register_name(op % 8)
    } else if op == 0x49 {
        "LD "@ + register_name((op / 8) % 8) + ","@ + register_name(op % 8)
    } else if op == 0x4A {
        "LD "@ + register_name((op / 8) % 8) + ","@ + register_name(op % 8)
    } else if op == 0x4B {
        "LD "@ + register_name((op / 8) % 8) + ","@ + register_name(op % 8)
    } else if op == 0x4C {
        "LD "@ + register_name((op / 8) % 8) + ","@ + register_name(op % 8)
    } else if op == 0x4D {
        "LD "@ + register_name((op / 8) % 8) + ","@ + register_name(op % 8)
    } else if op == 0x4E {
        "LD "@ + register_name((op / 8) % 8) + ","@ + register_name(op % 8)
    } else if op == 0x4F {
        "LD "@ + register_name((op / 8) % 8) + ","@ + register_name(op % 8)
    } else if op == 0x50 {
        "LD "@ + register_name((op / 8) % 8) + ","@ + register_name(op % 8)
    } else if op == 0x51 {
        "LD "@ + register_name((op / 8) % 8) + ","@ + register_name(op % 8)
    } else if op == 0x52 {
        "LD "@ + register_name((op / 8) % 8) + ","@ + register_name(op % 8)
    } else if op == 0x53 {
        "LD "@ + register_name((op / 8) % 8) + ","@ + register_name(op % 8)
    } else if op == 0x54 {
        "LD "@ + register_name((op / 8) % 8) + ","@ + register_name(op % 8)
    } else if op == 0x55 {
        "LD "@ + register_name((op / 8) % 8) + ","@ + register_name(op % 8)
    } else if op == 0x56 {
        "LD "@ + register_name((op / 8) % 8) + ","@ + register_name(op % 8)
    } else if op == 0x57 {
        "LD "@ + register_name((op / 8) % 8) + ","@ + register_name(op % 8)
    } else if op == 0x58 {
        "LD "@ + register_name((op / 8) % 8) + ","@ + register_name(op % 8)
    } else if op == 0x59 {
        "LD "@ + register_name((op / 8) % 8) + ","@ + register_name(op % 8)
    } else if op == 0x5A {
        "LD "@ + register_name((op / 8) % 8) + ","@ + register_name(op % 8)
    } else if op == 0x5B {
        "LD "@ + register_name((op / 8) % 8) + ","@ + register_name(op % 8)
    } else if op == 0x5C {
        "LD "@ + register_name((op / 8) % 8) + ","@ + register_name(op % 8)
    } else if op == 0x5D {
        "LD "@ + register_name((op / 8) % 8) + ","@ + register_name(op % 8)
    } else if op == 0x5E {
        "LD "@ + register_name((op / 8) % 8) + ","@ + register_name(op % 8)
    } else if op == 0x5F {
        "LD "@ + register_name((op / 8) % 8) + ","@ + register_name(op % 8)
    } else if op == 0x60 {
        "LD "@ + register_name((op / 8) % 8) + ","@ + register_name(op % 8)
    } else if op == 0x61 {
        "LD "@ + register_name((op / 8) % 8) + ","@ + register_name(op % 8)
    } else if op == 0x62 {
        "LD "@ + register_name((op / 8) % 8) + ","@ + register_name(op % 8)
    } else if op == 0x63 {
        "LD "@ + register_name((op / 8) % 8) + ","@ + register_name(op % 8)
    } else if op == 0x64 {
        "LD "@ + register_name((op / 8) % 8) + ","@ + register_name(op % 8)
    } else if op == 0x65 {
        "LD "@ + register_name((op / 8) % 8) + ","@ + register_name(op % 8)
    } else if op == 0x66 {
        "LD "@ + register_name((op / 8) % 8) + ","@ + register_name(op % 8)
    } else if op == 0x67 {
        "LD "@ + register_name((op / 8) % 8) + ","@ + register_name(op % 8)
    } else if op == 0x68 {
        "LD "@ + register_name((op / 8) % 8) + ","@ + register_name(op % 8)
    } else if op == 0x69 {
        "LD "@ + register_name((op / 8) % 8) + ","@ + register_name(op % 8)
    } else if op == 0x6A {
        "LD "@ + register_name((op / 8) % 8) + ","@ + register_name(op % 8)
    } else if op == 0x6B {
        "LD "@ + register_name((op / 8) % 8) + ","@ + register_name(op % 8)
    } else if op == 0x6C {
        "LD "@ + register_name((op / 8) % 8) + ","@ + register_name(op % 8)
    } else if op == 0x6D {
        "LD "@ + register_name((op / 8) % 8) + ","@ + register_name(op % 8)
    } else if op == 0x6E {
        "LD "@ + register_name((op / 8) % 8) + ","@ + register_name(op % 8)
    } else if op == 0x6F {
        "LD "@ + register_name((op / 8) % 8) + ","@ + register_name(op % 8)
    } else if op == 0x70 {
        "LD "@ + register_name((op / 8) % 8) + ","@ + register_name(op % 8)
    } else if op == 0x71 {
        "LD "@ + register_name((op / 8) % 8) + ","@ + register_name(op % 8)
    } else if op == 0x72 {
        "LD "@ + register_name((op / 8) % 8) + ","@ + register_name(op % 8)
    } else if op == 0x73 {
        "LD "@ + register_name((op / 8) % 8) + ","@ + register_name(op % 8)
    } else if op == 0x74 {
        "LD "@ + register_name((op / 8) % 8) + ","@ + register_name(op % 8)
    } else if op == 0x75 {
        "LD "@ + register_name((op / 8) % 8) + ","@ + register_name(op % 8)
    } else if op == 0x76 {
        "HALT"@
    } else if op == 0x77 {
        "LD "@ + register_name((op / 8) % 8) + ","@ + register_name(op % 8)
    } else if op == 0x78 {
        "LD "@ + register_name((op / 8) % 8) + ","@ + register_name(op % 8)
    } else if op == 0x79 {
        "LD "@ + register_name((op / 8) % 8) + ","@ + register_name(op % 8)
    } else if op == 0x7A {
        "LD "@ + register_name((op / 8) % 8) + ","@ + register_name(op % 8)
    } else if op == 0x7B {
        "LD "@ + register_name((op / 8) % 8) + ","@ + register_name(op % 8)
    } else if op == 0x7C {
        "LD "@ + register_name((op / 8) % 8) + ","@ + register_name(op % 8)
    } else if op == 0x7D {
        "LD "@ + register_name((op / 8) % 8) + ","@ + register_name(op % 8)
    } else if op == 0x7E {
        "LD "@ + register_name((op / 8) % 8) + ","@ + register_name(op % 8)
    } else {
        "LD "@ + register_name((op / 8) % 8) + ","@ + register_name(op % 8)
    }
}

/// The text of an instruction whose opcode is in 0x80 to 0xBF.
pub open spec fn disassembled_80_bf(op: u8, b1: u8, nn: u16) -> Seq<char> {
    if op == 0x80 {
        "ADD A,"@ + register_name(op % 8)
    } else if op == 0x81 {
        "ADD A,"@ + register_name(op % 8)
    } else if op == 0x82 {
        "ADD A,"@ + register_name(op % 8)
    } else if op == 0x83 {
        "ADD A,"@ + register_name(op % 8)
    } else if op == 0x84 {
        "ADD A,"@ + register_name(op % 8)
    } else if op == 0x85 {
        "ADD A,"@ + register_name(op % 8)
    } else if op == 0x86 {
        "ADD A,"@ + register_name(op % 8)
    } else if op == 0x87 {
        "ADD A,"@ + register_name(op % 8)
    } else if op == 0x88 {
        "ADC A,"@ + register_name(op % 8)
    } else if op == 0x89 {
        "ADC A,"@ + register_name(op % 8)
    } else if op == 0x8A {
        "ADC A,"@ + register_name(op % 8)
    } else if op == 0x8B {
        "ADC A,"@ + register_name(op % 8)
    } else if op == 0x8C {
        "ADC A,"@ + register_name(op % 8)
    } else if op == 0x8D {
        "ADC A,"@ + register_name(op % 8)
    } else if op == 0x8E {
        "ADC A,"@ + register_name(op % 8)
    } else if op == 0x8F {
        "ADC A,"@ + register_name(op % 8)
    } else if op == 0x90 {
        "SUB "@ + register_name(op % 8)
    } else if op == 0x91 {
        "SUB "@ + register_name(op % 8)
    } else if op == 0x92 {
        "SUB "@ + register_name(op % 8)
    } else if op == 0x93 {
        "SUB "@ + register_name(op % 8)
    } else if op == 0x94 {
        "SUB "@ + register_name(op % 8)
    } else if op == 0x95 {
        "SUB "@ + register_name(op % 8)
    } else if op == 0x96 {
        "SUB "@ + register_name(op % 8)
    } else if op == 0x97 {
        "SUB "@ + register_name(op % 8)
    } else if op == 0x98 {
        "SBC A,"@ + register_name(op % 8)
    } else if op == 0x99 {
        "SBC A,"@ + register_name(op % 8)
    } else if op == 0x9A {
        "SBC A,"@ + register_name(op % 8)
    } else if op == 0x9B {
        "SBC A,"@ + register_name(op % 8)
    } else if op == 0x9C {
        "SBC A,"@ + register_name(op % 8)
    } else if op == 0x9D {
        "SBC A,"@ + register_name(op % 8)
    } else if op == 0x9E {
        "SBC A,"@ + register_name(op % 8)
    } else if op == 0x9F {
        "SBC A,"@ + register_name(op % 8)
    } else if op == 0xA0 {
        "AND "@ + register_name(op % 8)
    } else if op == 0xA1 {
        "AND "@ + register_name(op % 8)
    } else if op == 0xA2 {
        "AND "@ + register_name(op % 8)
    } else if op == 0xA3 {
        "AND "@ + register_name(op % 8)
    } else if op == 0xA4 {
        "AND "@ + register_name(op % 8)
    } else if op == 0xA5 {
        "AND "@ + register_name(op % 8)
    } else if op == 0xA6 {
        "AND "@ + register_name(op % 8)
    } else if op == 0xA7 {
        "AND "@ + register_name(op % 8)
    } else if op == 0xA8 {
        "XOR "@ + register_name(op % 8)
    } else if op == 0xA9 {
        "XOR "@ + register_name(op % 8)
    } else if op == 0xAA {
        "XOR "@ + register_name(op % 8)
    } else if op == 0xAB {
        "XOR "@ + register_name(op % 8)
    } else if op == 0xAC {
        "XOR "@ + register_name(op % 8)
    } else if op == 0xAD {
        "XOR "@ + register_name(op % 8)
    } else if op == 0xAE {
        "XOR "@ + register_name(op % 8)
    } else if op == 0xAF {
        "XOR "@ + register_name(op % 8)
    } else if op == 0xB0 {
        "OR "@ + register_name(op % 8)
    } else if op == 0xB1 {
        "OR "@ + register_name(op % 8)
    } else if op == 0xB2 {
        "OR "@ + register_name(op % 8)
    } else if op == 0xB3 {
        "OR "@ + register_name(op % 8)
    } else if op == 0xB4 {
        "OR "@ + register_name(op % 8)
    } else if op == 0xB5 {
        "OR "@ + register_name(op % 8)
    } else if op == 0xB6 {
        "OR "@ + register_name(op % 8)
    } else if op == 0xB7 {
        "OR "@ + register_name(op % 8)
    } else if op == 0xB8 {
        "CP "@ + register_name(op % 8)
    } else if op == 0xB9 {
        "CP "@ + register_name(op % 8)
    } else if op == 0xBA {
        "CP "@ + register_name(op % 8)
    } else if op == 0xBB {
        "CP "@ + register_name(op % 8)
    } else if op == 0xBC {
        "CP "@ + register_name(op % 8)
    } else if op == 0xBD {
        "CP "@ + register_name(op % 8)
    } else if op == 0xBE {
        "CP "@ + register_name(op % 8)
    } else {
        "CP "@ + register_name(op % 8)
    }
}

/// The text of an instruction whose opcode is in 0xC0 to 0xFF.
pub open spec fn disassembled_c0_ff(op: u8, b1: u8, nn: u16) -> Seq<char> {
    if op == 0xC0 {
        "RET NZ"@
    } else if op == 0xC1 {
        "POP BC"@
    } else if op == 0xC2 {
        "JP NZ,$"@ + hex_word(nn)
    } else if op == 0xC3 {
        "JP $"@ + hex_word(nn)
    } else if op == 0xC4 {
        "CALL NZ,$"@ + hex_word(nn)
    } else if op == 0xC5 {
        "PUSH BC"@
    } else if op == 0xC6 {
        "ADD A,$"@ + hex_byte(b1)
    } else if op == 0xC7 {
        "RST $00"@
    } else if op == 0xC8 {
        "RET Z"@
    } else if op == 0xC9 {
        "RET"@
    } else if op == 0xCA {
        "JP Z,$"@ + hex_word(nn)
    } else if op == 0xCB {
        disassembled_cb(b1)
    } else if op == 0xCC {
        "CALL Z,$"@ + hex_word(nn)
    } else if op == 0xCD {
        "CALL $"@ + hex_word(nn)
    } else if op == 0xCE {
        "ADC A,$"@ + hex_byte(b1)
    } else if op == 0xCF {
        "RST $08"@
    } else if op == 0xD0 {
        "RET NC"@
    } else if op == 0xD1 {
        "POP DE"@
    } else if op == 0xD2 {
        "JP NC,$"@ + hex_word(nn)
    } else if op == 0xD3 {
        "??? $"@ + hex_byte(op)
    } else if op == 0xD4 {
        "CALL NC,$"@ + hex_word(nn)
    } else if op == 0xD5 {
        "PUSH DE"@
    } else if op == 0xD6 {
        "SUB $"@ + hex_byte(b1)
    } else if op == 0xD7 {
        "RST $10"@
    } else if op == 0xD8 {
        "RET C"@
    } else if op == 0xD9 {
        "RETI"@
    } else if op == 0xDA {
        "JP C,$"@ + hex_word(nn)
    } else if op == 0xDB {
        "??? $"@ + hex_byte(op)
    } else if op == 0xDC {
        "CALL C,$"@ + hex_word(nn)
    } else if op == 0xDD {
        "??? $"@ + hex_byte(op)
    } else if op == 0xDE {
        "SBC A,$"@ + hex_byte(b1)
    } else if op == 0xDF {
        "RST $18"@
    } else if op == 0xE0 {
        "LDH ($FF"@ + hex_byte(b1) + "),A"@
    } else if op == 0xE1 {
        "POP HL"@
    } else if op == 0xE2 {
        "LD ($FF00+C),A"@
    } else if op == 0xE3 {
        "??? $"@ + hex_byte(op)
    } else if op == 0xE4 {
        "??? $"@ + hex_byte(op)
    } else if op == 0xE5 {
        "PUSH HL"@
    } else if op == 0xE6 {
        "AND $"@ + hex_byte(b1)
    } else if op == 0xE7 {
        "RST $20"@
    } else if op == 0xE8 {
        "ADD SP,$"@ + hex_byte(b1)
    } else if op == 0xE9 {
        "JP (HL)"@
    } else if op == 0xEA {
        "LD ($"@ + hex_word(nn) + "),A"@
    } else if op == 0xEB {
        "??? $"@ + hex_byte(op)
    } else if op == 0xEC {
        "??? $"@ + hex_byte(op)
    } else if op == 0xED {
        "??? $"@ + hex_byte(op)
    } else if op == 0xEE {
        "XOR $"@ + hex_byte(b1)
    } else if op == 0xEF {
        "RST $28"@
    } else if op == 0xF0 {
        "LDH A,($FF"@ + hex_byte(b1) + ")"@
    } else if op == 0xF1 {
        "POP AF"@
    } else if op == 0xF2 {
        "LD A,($FF00+C)"@
    } else if op == 0xF3 {
        "DI"@
    } else if op == 0xF4 {
        "??? $"@ + hex_byte(op)
    } else if op == 0xF5 {
        "PUSH AF"@
    } else if op == 0xF6 {
        "OR $"@ + hex_byte(b1)
    } else if op == 0xF7 {
        "RST $30"@
    } else if op == 0xF8 {
        "LD HL,SP+$"@ + hex_byte(b1)
    } else if op == 0xF9 {
        "LD SP,HL"@
    } else if op == 0xFA {
        "LD A,($"@ + hex_word(nn) + ")"@
    } else if op == 0xFB {
        "EI"@
    } else if op == 0xFC {
        "??? $"@ + hex_byte(op)
    } else if op == 0xFD {
        "??? $"@ + hex_byte(op)
    } else if op == 0xFE {
        "CP $"@ + hex_byte(b1)
    } else {
        "RST $38"@
    }
}

/// The text of the instruction at `pc`.
pub fn disassemble(pc: u16, memory: &Memory) -> (r: String)
    requires
        memory.wf(),
    ensures
        r@ == disassembled(
            memory@[pc as int],
            memory@[crate::memory::next_address(pc)],
            memory@[crate::memory::next_address((crate::memory::next_address(pc)) as u16)],
        ),
{
    let op: u8 = memory.read_8(pc);
    let b1: u8 = memory.read_8(pc.wrapping_add(1));
    let b2: u8 = memory.read_8(pc.wrapping_add(2));
    let nn: u16 = crate::math::two_bytes_to_word(b2, b1);

    if op < 0x40 {
        disassemble_00_3f(op, b1, nn)
    } else if op < 0x80 {
        disassemble_40_7f(op, b1, nn)
    } else if op < 0xC0 {
        disassemble_80_bf(op, b1, nn)
    } else {
        disassemble_c0_ff(op, b1, nn)
    }
}

/// The name of the register a three-bit code selects.
fn reg_name(r: u8) -> (name: &'static str)
    ensures
        name@ == register_name(r),
{
    match r {
        0 => "B",
        1 => "C",
        2 => "D",
        3 => "E",
        4 => "H",
        5 => "L",
        6 => "(HL)",
        7 => "A",
        _ => "?",
    }
}

/// `prefix` then the register the low three bits of `op` select.
fn with_register(prefix: &str, op: u8) -> (r: String)
    ensures
        r@ == prefix@ + register_name(op % 8),
{
    proof { crate::bits::lemma_sweep_bits(); }
    let mut s: String = text(prefix);
    s.append(reg_name(op & 0x7u8));
    s
}

/// A load between the registers that bits 3 to 5 and bits 0 to 2 of `op` select.
fn load_text(op: u8) -> (r: String)
    ensures
        r@ == "LD "@ + register_name((op / 8) % 8) + ","@ + register_name(op % 8),
{
    proof { crate::bits::lemma_sweep_bits(); }
    let mut s: String = text("LD ");
    s.append(reg_name((op >> 3u8) & 0x7u8));
    s.append(",");
    s.append(reg_name(op & 0x7u8));
    assert((op >> 3u8) & 0x7u8 == (op / 8) % 8) by (bit_vector);
    s
}

/// A bit instruction: `mnemonic`, the bit number, a comma and the register.
fn bit_text(mnemonic: &str, bit: u8, reg: &str) -> (r: String)
    requires
        bit < 8,
    ensures
        r@ == mnemonic@ + seq![decimal_char(bit as int)] + ","@ + reg@,
{
    let mut s: String = text(mnemonic);
    push_char(&mut s, decimal_digit(bit));
    s.append(",");
    s.append(reg);
    s
}

/// The text of the 0xCB-prefixed instruction with opcode `op`.
pub fn disassemble_cb(op: u8) -> (r: String)
    ensures
        r@ == disassembled_cb(op),
{
    proof { crate::bits::lemma_sweep_bits(); }
    let reg: &str = reg_name(op & 0x7u8);
    let mut s: String = match op {
        0x00..=0x07 => text("RLC "),
        0x08..=0x0F => text("RRC "),
        0x10..=0x17 => text("RL "),
        0x18..=0x1F => text("RR "),
        0x20..=0x27 => text("SLA "),
        0x28..=0x2F => text("SRA "),
        0x30..=0x37 => text("SWAP "),
        0x38..=0x3F => text("SRL "),
        0x40..=0x7F => return bit_text("BIT ", (op - 0x40) / 8, reg),
        0x80..=0xBF => return bit_text("RES ", (op - 0x80) / 8, reg),
        _ => return bit_text("SET ", (op - 0xC0) / 8, reg),
    };
    s.append(reg);
    s
}

/// The text of an instruction whose opcode is in 0x00 to 0x3F.
#[verifier::rlimit(100)]
fn disassemble_00_3f(op: u8, b1: u8, nn: u16) -> (r: String)
    requires
        0x00 <= op <= 0x3F,
    ensures
        r@ == disassembled_00_3f(op, b1, nn),
{
    match op {
        0x00 => text("NOP"),
        0x01 => ending_with_word("LD BC,$", nn),
        0x02 => text("LD (BC),A"),
        0x03 => text("INC BC"),
        0x04 => text("INC B"),
        0x05 => text("DEC B"),
        0x06 => ending_with_byte("LD B,$", b1),
        0x07 => text("RLCA"),
        0x08 => with_word("LD ($", nn, "),SP"),
        0x09 => text("ADD HL,BC"),
        0x0A => text("LD A,(BC)"),
        0x0B => text("DEC BC"),
        0x0C => text("INC C"),
        0x0D => text("DEC C"),
        0x0E => ending_with_byte("LD C,$", b1),
        0x0F => text("RRCA"),
        0x10 => text("STOP"),
        0x11 => ending_with_word("LD DE,$", nn),
        0x12 => text("LD (DE),A"),
        0x13 => text("INC DE"),
        0x14 => text("INC D"),
        0x15 => text("DEC D"),
        0x16 => ending_with_byte("LD D,$", b1),
        0x17 => text("RLA"),
        0x18 => ending_with_byte("JR $", b1),
        0x19 => text("ADD HL,DE"),
        0x1A => text("LD A,(DE)"),
        0x1B => text("DEC DE"),
        0x1C => text("INC E"),
        0x1D => text("DEC E"),
        0x1E => ending_with_byte("LD E,$", b1),
        0x1F => text("RRA"),
        0x20 => ending_with_byte("JR NZ,$", b1),
        0x21 => ending_with_word("LD HL,$", nn),
        0x22 => text("LD (HL+),A"),
        0x23 => text("INC HL"),
        0x24 => text("INC H"),
        0x25 => text("DEC H"),
        0x26 => ending_with_byte("LD H,$", b1),
        0x27 => text("DAA"),
        0x28 => ending_with_byte("JR Z,$", b1),
        0x29 => text("ADD HL,HL"),
        0x2A => text("LD A,(HL+)"),
        0x2B => text("DEC HL"),
        0x2C => text("INC L"),
        0x2D => text("DEC L"),
        0x2E => ending_with_byte("LD L,$", b1),
        0x2F => text("CPL"),
        0x30 => ending_with_byte("JR NC,$", b1),
        0x31 => ending_with_word("LD SP,$", nn),
        0x32 => text("LD (HL-),A"),
        0x33 => text("INC SP"),
        0x34 => text("INC (HL)"),
        0x35 => text("DEC (HL)"),
        0x36 => ending_with_byte("LD (HL),$", b1),
        0x37 => text("SCF"),
        0x38 => ending_with_byte("JR C,$", b1),
        0x39 => text("ADD HL,SP"),
        0x3A => text("LD A,(HL-)"),
        0x3B => text("DEC SP"),
        0x3C => text("INC A"),
        0x3D => text("DEC A"),
        0x3E => ending_with_byte("LD A,$", b1),
        _ => text("CCF"),
    }
}

/// The text of an instruction whose opcode is in 0x40 to 0x7F.
#[verifier::rlimit(100)]
fn disassemble_40_7f(op: u8, b1: u8, nn: u16) -> (r: String)
    requires
        0x40 <= op <= 0x7F,
    ensures
        r@ == disassembled_40_7f(op, b1, nn),
{
    match op {
        0x40 => load_text(op),
        0x41 => load_text(op),
        0x42 => load_text(op),
        0x43 => load_text(op),
        0x44 => load_text(op),
        0x45 => load_text(op),
        0x46 => load_text(op),
        0x47 => load_text(op),
        0x48 => load_text(op),
        0x49 => load_text(op),
        0x4A => load_text(op),
        0x4B => load_text(op),
        0x4C => load_text(op),
        0x4D => load_text(op),
        0x4E => load_text(op),
        0x4F => load_text(op),
        0x50 => load_text(op),
        0x51 => load_text(op),
        0x52 => load_text(op),
        0x53 => load_text(op),
        0x54 => load_text(op),
        0x55 => load_text(op),
        0x56 => load_text(op),
        0x57 => load_text(op),
        0x58 => load_text(op),
        0x59 => load_text(op),
        0x5A => load_text(op),
        0x5B => load_text(op),
        0x5C => load_text(op),
        0x5D => load_text(op),
        0x5E => load_text(op),
        0x5F => load_text(op),
        0x60 => load_text(op),
        0x61 => load_text(op),
        0x62 => load_text(op),
        0x63 => load_text(op),
        0x64 => load_text(op),
        0x65 => load_text(op),
        0x66 => load_text(op),
        0x67 => load_text(op),
        0x68 => load_text(op),
        0x69 => load_text(op),
        0x6A => load_text(op),
        0x6B => load_text(op),
        0x6C => load_text(op),
        0x6D => load_text(op),
        0x6E => load_text(op),
        0x6F => load_text(op),
        0x70 => load_text(op),
        0x71 => load_text(op),
        0x72 => load_text(op),
        0x73 => load_text(op),
        0x74 => load_text(op),
        0x75 => load_text(op),
        0x76 => text("HALT"),
        0x77 => load_text(op),
        0x78 => load_text(op),
        0x79 => load_text(op),
        0x7A => load_text(op),
        0x7B => load_text(op),
        0x7C => load_text(op),
        0x7D => load_text(op),
        0x7E => load_text(op),
        _ => load_text(op),
    }
}

/// The text of an instruction whose opcode is in 0x80 to 0xBF.
#[verifier::rlimit(100)]
fn disassemble_80_bf(op: u8, b1: u8, nn: u16) -> (r: String)
    requires
        0x80 <= op <= 0xBF,
    ensures
        r@ == disassembled_80_bf(op, b1, nn),
{
    match op {
        0x80 => with_register("ADD A,", op),
        0x81 => with_register("ADD A,", op),
        0x82 => with_register("ADD A,", op),
        0x83 => with_register("ADD A,", op),
        0x84 => with_register("ADD A,", op),
        0x85 => with_register("ADD A,", op),
        0x86 => with_register("ADD A,", op),
        0x87 => with_register("ADD A,", op),
        0x88 => with_register("ADC A,", op),
        0x89 => with_register("ADC A,", op),
        0x8A => with_register("ADC A,", op),
        0x8B => with_register("ADC A,", op),
        0x8C => with_register("ADC A,", op),
        0x8D => with_register("ADC A,", op),
        0x8E => with_register("ADC A,", op),
        0x8F => with_register("ADC A,", op),
        0x90 => with_register("SUB ", op),
        0x91 => with_register("SUB ", op),
        0x92 => with_register("SUB ", op),
        0x93 => with_register("SUB ", op),
        0x94 => with_register("SUB ", op),
        0x95 => with_register("SUB ", op),
        0x96 => with_register("SUB ", op),
        0x97 => with_register("SUB ", op),
        0x98 => with_register("SBC A,", op),
        0x99 => with_register("SBC A,", op),
        0x9A => with_register("SBC A,", op),
        0x9B => with_register("SBC A,", op),
        0x9C => with_register("SBC A,", op),
        0x9D => with_register("SBC A,", op),
        0x9E => with_register("SBC A,", op),
        0x9F => with_register("SBC A,", op),
        0xA0 => with_register("AND ", op),
        0xA1 => with_register("AND ", op),
        0xA2 => with_register("AND ", op),
        0xA3 => with_register("AND ", op),
        0xA4 => with_register("AND ", op),
        0xA5 => with_register("AND ", op),
        0xA6 => with_register("AND ", op),
        0xA7 => with_register("AND ", op),
        0xA8 => with_register("XOR ", op),
        0xA9 => with_register("XOR ", op),
        0xAA => with_register("XOR ", op),
        0xAB => with_register("XOR ", op),
        0xAC => with_register("XOR ", op),
        0xAD => with_register("XOR ", op),
        0xAE => with_register("XOR ", op),
        0xAF => with_register("XOR ", op),
        0xB0 => with_register("OR ", op),
        0xB1 => with_register("OR ", op),
        0xB2 => with_register("OR ", op),
        0xB3 => with_register("OR ", op),
        0xB4 => with_register("OR ", op),
        0xB5 => with_register("OR ", op),
        0xB6 => with_register("OR ", op),
        0xB7 => with_register("OR ", op),
        0xB8 => with_register("CP ", op),
        0xB9 => with_register("CP ", op),
        0xBA => with_register("CP ", op),
        0xBB => with_register("CP ", op),
        0xBC => with_register("CP ", op),
        0xBD => with_register("CP ", op),
        0xBE => with_register("CP ", op),
        _ => with_register("CP ", op),
    }
}

/// The text of an instruction whose opcode is in 0xC0 to 0xFF.
#[verifier::rlimit(100)]
fn disassemble_c0_ff(op: u8, b1: u8, nn: u16) -> (r: String)
    requires
        0xC0 <= op <= 0xFF,
    ensures
        r@ == disassembled_c0_ff(op, b1, nn),
{
    match op {
        0xC0 => text("RET NZ"),
        0xC1 => text("POP BC"),
        0xC2 => ending_with_word("JP NZ,$", nn),
        0xC3 => ending_with_word("JP $", nn),
        0xC4 => ending_with_word("CALL NZ,$", nn),
        0xC5 => text("PUSH BC"),
        0xC6 => ending_with_byte("ADD A,$", b1),
        0xC7 => text("RST $00"),
        0xC8 => text("RET Z"),
        0xC9 => text("RET"),
        0xCA => ending_with_word("JP Z,$", nn),
        0xCB => disassemble_cb(b1),
        0xCC => ending_with_word("CALL Z,$", nn),
        0xCD => ending_with_word("CALL $", nn),
        0xCE => ending_with_byte("ADC A,$", b1),
        0xCF => text("RST $08"),
        0xD0 => text("RET NC"),
        0xD1 => text("POP DE"),
        0xD2 => ending_with_word("JP NC,$", nn),
        0xD3 => ending_with_byte("??? $", op),
        0xD4 => ending_with_word("CALL NC,$", nn),
        0xD5 => text("PUSH DE"),
        0xD6 => ending_with_byte("SUB $", b1),
        0xD7 => text("RST $10"),
        0xD8 => text("RET C"),
        0xD9 => text("RETI"),
        0xDA => ending_with_word("JP C,$", nn),
        0xDB => ending_with_byte("??? $", op),
        0xDC => ending_with_word("CALL C,$", nn),
        0xDD => ending_with_byte("??? $", op),
        0xDE => ending_with_byte("SBC A,$", b1),
        0xDF => text("RST $18"),
        0xE0 => with_byte("LDH ($FF", b1, "),A"),
        0xE1 => text("POP HL"),
        0xE2 => text("LD ($FF00+C),A"),
        0xE3 => ending_with_byte("??? $", op),
        0xE4 => ending_with_byte("??? $", op),
        0xE5 => text("PUSH HL"),
        0xE6 => ending_with_byte("AND $", b1),
        0xE7 => text("RST $20"),
        0xE8 => ending_with_byte("ADD SP,$", b1),
        0xE9 => text("JP (HL)"),
        0xEA => with_word("LD ($", nn, "),A"),
        0xEB => ending_with_byte("??? $", op),
        0xEC => ending_with_byte("??? $", op),
        0xED => ending_with_byte("??? $", op),
        0xEE => ending_with_byte("XOR $", b1),
        0xEF => text("RST $28"),
        0xF0 => with_byte("LDH A,($FF", b1, ")"),
        0xF1 => text("POP AF"),
        0xF2 => text("LD A,($FF00+C)"),
        0xF3 => text("DI"),
        0xF4 => ending_with_byte("??? $", op),
        0xF5 => text("PUSH AF"),
        0xF6 => ending_with_byte("OR $", b1),
        0xF7 => text("RST $30"),
        0xF8 => ending_with_byte("LD HL,SP+$", b1),
        0xF9 => text("LD SP,HL"),
        0xFA => with_word("LD A,($", nn, ")"),
        0xFB => text("EI"),
        0xFC => ending_with_byte("??? $", op),
        0xFD => ending_with_byte("??? $", op),
        0xFE => ending_with_byte("CP $", b1),
        _ => text("RST $38"),
    }
}

} // verus!
