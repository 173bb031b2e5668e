//! NR31, the length timer of channel 3: write only, it reads as 0xFF

use vstd::prelude::*;

use crate::audio::registers::{AudioRegister, WriteEffect, InitialLengthRegister};

verus! {

/// NR31.
pub struct NR31 {
    pub value: u8,
}

impl AudioRegister for NR31 {
    open spec fn read_mask_spec() -> u8 {
        0xFF
    }

    open spec fn write_mask_spec() -> u8 {
        0
    }

    fn read_mask() -> (m: u8) {
        0xFF
    }

    fn write_mask() -> (m: u8) {
        0
    }

    open spec fn value_spec(&self) -> u8 {
        self.value
    }

    open spec fn set_spec(&self, value: u8) -> (Self, WriteEffect) {
        (NR31 { value }, WriteEffect::NoEffect)
    }

    fn set_value(&mut self, value: u8) -> (effect: WriteEffect) {
        self.value = value;

        WriteEffect::NoEffect
    }

    fn value(&self) -> (v: u8) {
        self.value
    }
}

impl Default for NR31 {
    fn default() -> (r: Self)
        ensures
            r.value == 0xFF,
    {
        Self { value: 0xFF }
    }
}

impl InitialLengthRegister for NR31 {
    open spec fn initial_length_spec(&self) -> u16 {
        self.value as u16
    }

    fn get_initial_length(&self) -> (r: u16) {
        self.value as u16
    }
}

} // verus!
