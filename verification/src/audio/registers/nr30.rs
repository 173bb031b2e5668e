//! NR30, the DAC switch of channel 3
//!
//! ```text
//! 7 - RW - DAC On/Off
//! 6
//! 5
//! 4
//! 3
//! 2
//! 1
//! 0
//! ```

use vstd::prelude::*;

use crate::audio::registers::{AudioRegister, WriteEffect};

verus! {

/// NR30.
pub struct NR30 {
    pub value: u8,
}

impl AudioRegister for NR30 {
    open spec fn read_mask_spec() -> u8 {
        0b0111_1111
    }

    open spec fn write_mask_spec() -> u8 {
        0b0111_1111
    }

    fn read_mask() -> (m: u8) {
        0b0111_1111
    }

    fn write_mask() -> (m: u8) {
        0b0111_1111
    }

    open spec fn value_spec(&self) -> u8 {
        self.value
    }

    open spec fn set_spec(&self, value: u8) -> (Self, WriteEffect) {
        (NR30 { value }, if value >= 128 { WriteEffect::DacEnabled } else { WriteEffect::DacDisabled })
    }

    fn set_value(&mut self, value: u8) -> (effect: WriteEffect) {
        self.value = value;

        if !self.is_dac_enabled() {
            return WriteEffect::DacDisabled;
        }

        WriteEffect::DacEnabled
    }

    fn value(&self) -> (v: u8) {
        self.value
    }
}

impl Default for NR30 {
    fn default() -> (r: Self)
        ensures
            r.value == 0x7F,
    {
        Self { value: 0x7F }
    }
}

impl NR30 {
    /// Whether the DAC is on (bit 7).
    pub fn is_dac_enabled(&self) -> (r: bool)
        ensures
            r == (self.value >= 128),
    {
        proof { crate::bits::lemma_byte_bits(); }
        self.value & 0x80u8 == 0x80u8
    }
}

} // verus!
