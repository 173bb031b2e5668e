//! The Sharp LR35902 processor: its registers, its arithmetic unit and its instructions.

pub mod alu;
pub mod cpu;
pub mod disassemble;
pub mod instructions;
pub mod laws;
pub mod processor;
pub mod registers;
pub mod semantics;

pub use processor::Cpu;
