//! NR12, NR22 and NR42, the volume and envelope of channels 1, 2 and 4: a value whose top five bits are 0 switches the DAC off
//!
//! ```text
//! 7 - RW - Initial volume
//! 6 - RW - Initial volume
//! 5 - RW - Initial volume
//! 4 - RW - Initial volume
//! 3 - RW - Envelope dir
//! 2 - RW - Sweep pace
//! 1 - RW - Sweep pace
//! 0 - RW - Sweep pace
//! ```

use vstd::prelude::*;

use crate::audio::registers::{AudioRegister, WriteEffect};

verus! {

/// NR12.
pub struct NRX2 {
    pub value: u8,
}

impl NRX2 {
    /// NR12 at power-up.
    pub fn new_nr12() -> (r: Self)
        ensures
            r.value == 0xF3,
    {
        Self { value: 0xF3 }
    }

    /// NR22 at power-up.
    pub fn new_nr22() -> (r: Self)
        ensures
            r.value == 0x00,
    {
        Self { value: 0x00 }
    }

    /// NR42 at power-up.
    pub fn new_nr42() -> (r: Self)
        ensures
            r.value == 0x00,
    {
        Self { value: 0x00 }
    }
}

impl AudioRegister for NRX2 {
    open spec fn read_mask_spec() -> u8 {
        0
    }

    open spec fn write_mask_spec() -> u8 {
        0
    }

    fn read_mask() -> (m: u8) {
        0
    }

    fn write_mask() -> (m: u8) {
        0
    }

    open spec fn value_spec(&self) -> u8 {
        self.value
    }

    open spec fn set_spec(&self, value: u8) -> (Self, WriteEffect) {
        (NRX2 { value }, if value < 8 { WriteEffect::DacDisabled } else { WriteEffect::NoEffect })
    }

    fn set_value(&mut self, value: u8) -> (effect: WriteEffect) {
        proof { crate::bits::lemma_length_bits(); }
        self.value = value;

        if value & 0b1111_1000u8 == 0 {
            return WriteEffect::DacDisabled;
        }

        WriteEffect::NoEffect
    }

    fn value(&self) -> (v: u8) {
        self.value
    }
}

} // verus!
