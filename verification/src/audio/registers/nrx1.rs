//! NR11 and NR21, the length timer and duty cycle of channels 1 and 2
//!
//! ```text
//! 7 - RW - Wave duty
//! 6 - RW - Wave duty
//! 5 - W - Initial length timer
//! 4 - W - Initial length timer
//! 3 - W - Initial length timer
//! 2 - W - Initial length timer
//! 1 - W - Initial length timer
//! 0 - W - Initial length timer
//! ```

use vstd::prelude::*;

use crate::audio::registers::{AudioRegister, WriteEffect, InitialLengthRegister};

verus! {

/// NR11 and NR21.
pub struct NRX1 {
    pub value: u8,
}

impl NRX1 {
    /// NR11 at power-up.
    pub fn new_nr11() -> (r: Self)
        ensures
            r.value == 0xBF,
    {
        Self { value: 0xBF }
    }

    /// NR21 at power-up.
    pub fn new_nr21() -> (r: Self)
        ensures
            r.value == 0x3F,
    {
        Self { value: 0x3F }
    }
}

impl AudioRegister for NRX1 {
    open spec fn read_mask_spec() -> u8 {
        0b0011_1111
    }

    open spec fn write_mask_spec() -> u8 {
        0
    }

    fn read_mask() -> (m: u8) {
        0b0011_1111
    }

    fn write_mask() -> (m: u8) {
        0
    }

    open spec fn value_spec(&self) -> u8 {
        self.value
    }

    open spec fn set_spec(&self, value: u8) -> (Self, WriteEffect) {
        (NRX1 { value }, WriteEffect::NoEffect)
    }

    fn set_value(&mut self, value: u8) -> (effect: WriteEffect) {
        self.value = value;

        WriteEffect::NoEffect
    }

    fn value(&self) -> (v: u8) {
        self.value
    }
}

impl InitialLengthRegister for NRX1 {
    open spec fn initial_length_spec(&self) -> u16 {
        (self.value as int % 64) as u16
    }

    fn get_initial_length(&self) -> (r: u16) {
        proof { crate::bits::lemma_length_bits(); }
        (self.value & 0b0011_1111u8) as u16
    }
}

} // verus!
