//! NR13, NR23 and NR33, the low byte of the period: write only, they read as 0xFF

use vstd::prelude::*;

use crate::audio::registers::{AudioRegister, WriteEffect};

verus! {

/// NR13.
pub struct NRX3 {
    pub value: u8,
}

impl AudioRegister for NRX3 {
    open spec fn read_mask_spec() -> u8 {
        0xFF
    }

    open spec fn write_mask_spec() -> u8 {
        0
    }

    fn read_mask() -> (m: u8) {
        0xFF
    }

    fn write_mask() -> (m: u8) {
        0
    }

    open spec fn value_spec(&self) -> u8 {
        self.value
    }

    open spec fn set_spec(&self, value: u8) -> (Self, WriteEffect) {
        (NRX3 { value }, WriteEffect::NoEffect)
    }

    fn set_value(&mut self, value: u8) -> (effect: WriteEffect) {
        self.value = value;

        WriteEffect::NoEffect
    }

    fn value(&self) -> (v: u8) {
        self.value
    }
}

impl Default for NRX3 {
    fn default() -> (r: Self)
        ensures
            r.value == 0xFF,
    {
        Self { value: 0xFF }
    }
}

} // verus!
