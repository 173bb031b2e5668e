//! A Game Boy emulator core: CPU registers, arithmetic unit and instruction set,
//! cartridge memory banking, audio registers and channels, display colours and runtime
//! settings.

use vstd::prelude::*;

pub mod audio;
pub mod bits;
pub mod bus;
pub mod cartridge;
pub mod configuration;
pub mod cpu;
pub mod debug;
pub mod gpu;
pub mod math;
pub mod memory;
pub mod text;

verus! {

/// An 8-bit value as handled by the Game Boy.
pub type Byte = u8;

/// A 16-bit value as handled by the Game Boy.
pub type Word = u16;

} // verus!
