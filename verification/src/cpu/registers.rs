//! The processor's register file: eight byte registers, of which F holds the flags,
//! and the stack pointer and program counter.

use vstd::prelude::*;

use crate::math::{two_bytes_to_word, word_to_two_bytes, word_of, high_byte, low_byte, lemma_word_bits};
use crate::bits::lemma_byte_bits;

verus! {

/// A byte register.
#[derive(Copy, Clone, Debug, PartialEq, Eq, Structural)]
pub enum ByteRegister {
    A,
    B,
    C,
    D,
    E,
    F,
    H,
    L,
}

/// A word register: a pair of byte registers, or the stack pointer or program counter.
#[derive(Copy, Clone, Debug, PartialEq, Eq, Structural)]
pub enum WordRegister {
    AF,
    BC,
    DE,
    HL,
    PC,
    SP,
}

/// The register file. The flag register F is kept as its four flags: zero (bit 7),
/// subtract (bit 6), half carry (bit 5) and carry (bit 4); its low four bits always read 0.
#[derive(Copy, Clone, Debug)]
pub struct CpuRegisters {
    pub a: u8,
    pub b: u8,
    pub c: u8,
    pub d: u8,
    pub e: u8,
    pub h: u8,
    pub l: u8,
    pub flag_z: bool,
    pub flag_n: bool,
    pub flag_h: bool,
    pub flag_c: bool,
    pub sp: u16,
    pub pc: u16,
}

/// The byte that register F reads as, given its four flags.
pub open spec fn flags_byte(z: bool, n: bool, h: bool, c: bool) -> u8 {
    ((if z { 128int } else { 0int }) + (if n { 64int } else { 0int }) + (if h { 32int } else { 0int })
        + (if c { 16int } else { 0int })) as u8
}

impl CpuRegisters {
    /// The value of register F.
    pub open spec fn f(self) -> u8 {
        flags_byte(self.flag_z, self.flag_n, self.flag_h, self.flag_c)
    }

    /// The value of a byte register.
    pub open spec fn byte(self, register: ByteRegister) -> u8 {
        match register {
            ByteRegister::A => self.a,
            ByteRegister::B => self.b,
            ByteRegister::C => self.c,
            ByteRegister::D => self.d,
            ByteRegister::E => self.e,
            ByteRegister::F => self.f(),
            ByteRegister::H => self.h,
            ByteRegister::L => self.l,
        }
    }

    /// The value of a word register.
    pub open spec fn word(self, register: WordRegister) -> u16 {
        match register {
            WordRegister::AF => word_of(self.a, self.f()),
            WordRegister::BC => word_of(self.b, self.c),
            WordRegister::DE => word_of(self.d, self.e),
            WordRegister::HL => word_of(self.h, self.l),
            WordRegister::PC => self.pc,
            WordRegister::SP => self.sp,
        }
    }

    /// These registers with F set to `value`: only its high four bits are kept.
    pub open spec fn with_f(self, value: u8) -> Self {
        CpuRegisters {
            flag_z: (value as int / 128) % 2 == 1,
            flag_n: (value as int / 64) % 2 == 1,
            flag_h: (value as int / 32) % 2 == 1,
            flag_c: (value as int / 16) % 2 == 1,
            ..self
        }
    }

    /// These registers with the four flags replaced.
    pub open spec fn with_flags(self, z: bool, n: bool, h: bool, c: bool) -> Self {
        CpuRegisters { flag_z: z, flag_n: n, flag_h: h, flag_c: c, ..self }
    }

    /// These registers with a byte register set to `value`.
    pub open spec fn with_byte(self, register: ByteRegister, value: u8) -> Self {
        match register {
            ByteRegister::A => CpuRegisters { a: value, ..self },
            ByteRegister::B => CpuRegisters { b: value, ..self },
            ByteRegister::C => CpuRegisters { c: value, ..self },
            ByteRegister::D => CpuRegisters { d: value, ..self },
            ByteRegister::E => CpuRegisters { e: value, ..self },
            ByteRegister::F => self.with_f(value),
            ByteRegister::H => CpuRegisters { h: value, ..self },
            ByteRegister::L => CpuRegisters { l: value, ..self },
        }
    }

    /// These registers with a word register set to `value`.
    pub open spec fn with_word(self, register: WordRegister, value: u16) -> Self {
        match register {
            WordRegister::AF => CpuRegisters { a: high_byte(value), ..self }.with_f(low_byte(value)),
            WordRegister::BC => CpuRegisters { b: high_byte(value), c: low_byte(value), ..self },
            WordRegister::DE => CpuRegisters { d: high_byte(value), e: low_byte(value), ..self },
            WordRegister::HL => CpuRegisters { h: high_byte(value), l: low_byte(value), ..self },
            WordRegister::PC => CpuRegisters { pc: value, ..self },
            WordRegister::SP => CpuRegisters { sp: value, ..self },
        }
    }

    /// The registers after power-up without the bootstrap ROM.
    pub open spec fn spec_default() -> Self {
        CpuRegisters {
            a: 0x01,
            b: 0x00,
            c: 0x13,
            d: 0x00,
            e: 0xd8,
            h: 0x01,
            l: 0x4d,
            flag_z: true,
            flag_n: false,
            flag_h: true,
            flag_c: true,
            sp: 0xFFFE,
            pc: 0x0100,
        }
    }

    /// The registers at power-up: with the bootstrap ROM, execution starts at 0x0001.
    pub fn new(bootstrap: bool) -> (r: Self)
        ensures
            r == (if bootstrap {
                CpuRegisters { pc: 0x0001, ..Self::spec_default() }
            } else {
                Self::spec_default()
            }),
    {
        let mut cpu_registers = Self::default();

        if bootstrap {
            cpu_registers.pc = 0x0001;
        }

        cpu_registers
    }

    fn read_f(&self) -> (r: u8)
        ensures
            r == self.f(),
    {
        let mut value: u8 = 0;
        if self.flag_z {
            value = value + 0x80;
        }
        if self.flag_n {
            value = value + 0x40;
        }
        if self.flag_h {
            value = value + 0x20;
        }
        if self.flag_c {
            value = value + 0x10;
        }
        value
    }

    fn write_f(&mut self, value: u8)
        ensures
            *final(self) == old(self).with_f(value),
    {
        proof { lemma_byte_bits(); }
        self.flag_z = value & 0x80u8 == 0x80u8;
        self.flag_n = value & 0x40u8 == 0x40u8;
        self.flag_h = value & 0x20u8 == 0x20u8;
        self.flag_c = value & 0x10u8 == 0x10u8;
    }

    /// Reads a byte register.
    pub fn read_byte(&self, register: &ByteRegister) -> (r: u8)
        ensures
            r == self.byte(*register),
    {
        match register {
            ByteRegister::A => self.a,
            ByteRegister::B => self.b,
            ByteRegister::C => self.c,
            ByteRegister::D => self.d,
            ByteRegister::E => self.e,
            ByteRegister::F => self.read_f(),
            ByteRegister::H => self.h,
            ByteRegister::L => self.l,
        }
    }

    /// Reads a word register; a pair reads as its first register in the high byte.
    pub fn read_word(&self, register: &WordRegister) -> (r: u16)
        ensures
            r == self.word(*register),
    {
        match register {
            WordRegister::AF => two_bytes_to_word(self.a, self.read_f()),
            WordRegister::BC => two_bytes_to_word(self.b, self.c),
            WordRegister::DE => two_bytes_to_word(self.d, self.e),
            WordRegister::HL => two_bytes_to_word(self.h, self.l),
            WordRegister::PC => self.pc,
            WordRegister::SP => self.sp,
        }
    }

    /// Writes a byte register; writing F keeps only its high four bits.
    pub fn write_byte(&mut self, register: &ByteRegister, value: u8)
        ensures
            *final(self) == old(self).with_byte(*register, value),
    {
        match register {
            ByteRegister::A => self.a = value,
            ByteRegister::B => self.b = value,
            ByteRegister::C => self.c = value,
            ByteRegister::D => self.d = value,
            ByteRegister::E => self.e = value,
            ByteRegister::F => self.write_f(value),
            ByteRegister::H => self.h = value,
            ByteRegister::L => self.l = value,
        }
    }

    /// Writes a word register; writing AF keeps only the high four bits of F.
    pub fn write_word(&mut self, register: &WordRegister, value: u16)
        ensures
            *final(self) == old(self).with_word(*register, value),
    {
        let parts: (u8, u8) = word_to_two_bytes(value);

        match register {
            WordRegister::AF => {
                self.a = parts.0;
                self.write_f(parts.1);
            },
            WordRegister::BC => {
                self.b = parts.0;
                self.c = parts.1;
            },
            WordRegister::DE => {
                self.d = parts.0;
                self.e = parts.1;
            },
            WordRegister::HL => {
                self.h = parts.0;
                self.l = parts.1;
            },
            WordRegister::PC => self.pc = value,
            WordRegister::SP => self.sp = value,
        }
    }

    /// Sets or clears the zero flag.
    pub fn set_flag_z(&mut self, value: bool)
        ensures
            *final(self) == (CpuRegisters { flag_z: value, ..*old(self) }),
    {
        self.flag_z = value;
    }

    /// Sets or clears the subtract flag.
    pub fn set_flag_n(&mut self, value: bool)
        ensures
            *final(self) == (CpuRegisters { flag_n: value, ..*old(self) }),
    {
        self.flag_n = value;
    }

    /// Sets or clears the half carry flag.
    pub fn set_flag_h(&mut self, value: bool)
        ensures
            *final(self) == (CpuRegisters { flag_h: value, ..*old(self) }),
    {
        self.flag_h = value;
    }

    /// Sets or clears the carry flag.
    pub fn set_flag_c(&mut self, value: bool)
        ensures
            *final(self) == (CpuRegisters { flag_c: value, ..*old(self) }),
    {
        self.flag_c = value;
    }

    /// Whether the zero flag (bit 7 of F) is set.
    pub fn is_flag_z(&self) -> (r: bool)
        ensures
            r == self.flag_z,
            r == ((self.f() as int / 128) % 2 == 1),
    {
        self.flag_z
    }

    /// Whether the subtract flag (bit 6 of F) is set.
    pub fn is_flag_n(&self) -> (r: bool)
        ensures
            r == self.flag_n,
            r == ((self.f() as int / 64) % 2 == 1),
    {
        self.flag_n
    }

    /// Whether the half carry flag (bit 5 of F) is set.
    pub fn is_flag_h(&self) -> (r: bool)
        ensures
            r == self.flag_h,
            r == ((self.f() as int / 32) % 2 == 1),
    {
        self.flag_h
    }

    /// Whether the carry flag (bit 4 of F) is set.
    pub fn is_flag_c(&self) -> (r: bool)
        ensures
            r == self.flag_c,
            r == ((self.f() as int / 16) % 2 == 1),
    {
        self.flag_c
    }
}

impl Default for CpuRegisters {
    fn default() -> (r: Self)
        ensures
            r == Self::spec_default(),
    {
        Self {
            a: 0x01,
            b: 0x0,
            c: 0x13,
            d: 0x0,
            e: 0xd8,
            h: 0x01,
            l: 0x4d,
            flag_z: true,
            flag_n: false,
            flag_h: true,
            flag_c: true,
            pc: 0x0100,
            sp: 0xFFFE,
        }
    }
}

/// Reading a byte register gives back what was last written to it, except that F
/// keeps only its high four bits; the other registers are not changed by the write.
pub proof fn lemma_byte_write_read(r: CpuRegisters, written: ByteRegister, value: u8, other: ByteRegister)
    ensures
        r.with_byte(written, value).byte(written) == (if written == ByteRegister::F {
            (value as int - value as int % 16) as u8
        } else {
            value
        }),
        other != written ==> r.with_byte(written, value).byte(other) == r.byte(other),
{
}

/// Reading a word register gives back what was last written to it, except that the
/// low four bits of AF read as 0; the registers outside the written pair are not changed.
pub proof fn lemma_word_write_read(r: CpuRegisters, written: WordRegister, value: u16)
    ensures
        r.with_word(written, value).word(written) == (if written == WordRegister::AF {
            (value as int - value as int % 16) as u16
        } else {
            value
        }),
{
    let high = high_byte(value);
    let low = low_byte(value);
    assert(value as int == high as int * 256 + low as int);
    match written {
        WordRegister::AF => {
            let after = r.with_word(written, value);
            assert(after.f() as int == low as int - low as int % 16);
            assert(value as int % 16 == low as int % 16);
        },
        _ => {},
    }
}

} // verus!
