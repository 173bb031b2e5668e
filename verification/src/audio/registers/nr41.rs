//! NR41, the length timer of channel 4: write only
//!
//! ```text
//! 7
//! 6
//! 5 - W - Initial length timer
//! 4 - W - Initial length timer
//! 3 - W - Initial length timer
//! 2 - W - Initial length timer
//! 1 - W - Initial length timer
//! 0 - W - Initial length timer
//! ```

use vstd::prelude::*;

use crate::audio::registers::{AudioRegister, WriteEffect, InitialLengthRegister};

verus! {

/// NR41.
pub struct NR41 {
    pub value: u8,
}

impl AudioRegister for NR41 {
    open spec fn read_mask_spec() -> u8 {
        0xFF
    }

    open spec fn write_mask_spec() -> u8 {
        0b1100_0000
    }

    fn read_mask() -> (m: u8) {
        0xFF
    }

    fn write_mask() -> (m: u8) {
        0b1100_0000
    }

    open spec fn value_spec(&self) -> u8 {
        self.value
    }

    open spec fn set_spec(&self, value: u8) -> (Self, WriteEffect) {
        (NR41 { value }, WriteEffect::NoEffect)
    }

    fn set_value(&mut self, value: u8) -> (effect: WriteEffect) {
        self.value = value;

        WriteEffect::NoEffect
    }

    fn value(&self) -> (v: u8) {
        self.value
    }
}

impl Default for NR41 {
    fn default() -> (r: Self)
        ensures
            r.value == 0xFF,
    {
        Self { value: 0xFF }
    }
}

impl InitialLengthRegister for NR41 {
    open spec fn initial_length_spec(&self) -> u16 {
        (self.value as int % 64) as u16
    }

    fn get_initial_length(&self) -> (r: u16) {
        proof { crate::bits::lemma_length_bits(); }
        (self.value & 0b0011_1111u8) as u16
    }
}

} // verus!
