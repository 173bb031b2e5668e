//! NR14, NR24 and NR34, the high period bits and control: writing bit 7 triggers the channel
//!
//! ```text
//! 7 - W - Trigger
//! 6 - RW - Length enable
//! 5
//! 4
//! 3
//! 2 - W - Period
//! 1 - W - Period
//! 0 - W - Period
//! ```

use vstd::prelude::*;

use crate::audio::registers::{AudioRegister, WriteEffect};

verus! {

/// NR14.
pub struct NRX4 {
    pub value: u8,
}

impl AudioRegister for NRX4 {
    open spec fn read_mask_spec() -> u8 {
        0b1011_1111
    }

    open spec fn write_mask_spec() -> u8 {
        0b0011_1000
    }

    fn read_mask() -> (m: u8) {
        0b1011_1111
    }

    fn write_mask() -> (m: u8) {
        0b0011_1000
    }

    open spec fn value_spec(&self) -> u8 {
        self.value
    }

    open spec fn set_spec(&self, value: u8) -> (Self, WriteEffect) {
        (NRX4 { value }, if value >= 128 { WriteEffect::Triggered } else { WriteEffect::NoEffect })
    }

    fn set_value(&mut self, value: u8) -> (effect: WriteEffect) {
        proof { crate::bits::lemma_byte_bits(); }
        self.value = value;

        if self.value & 0x80u8 == 0x80u8 {
            return WriteEffect::Triggered;
        }

        WriteEffect::NoEffect
    }

    fn value(&self) -> (v: u8) {
        self.value
    }
}

impl Default for NRX4 {
    fn default() -> (r: Self)
        ensures
            r.value == 0xBF,
    {
        Self { value: 0xBF }
    }
}

} // verus!
