//! The unused register at the start of channels 2 and 4: it always reads 0xFF.

use vstd::prelude::*;

use crate::audio::registers::{AudioRegister, WriteEffect};

verus! {

/// An unused register slot.
pub struct NoRegister {
    pub value: u8,
}

impl AudioRegister for NoRegister {
    open spec fn read_mask_spec() -> u8 {
        0xFF
    }

    open spec fn write_mask_spec() -> u8 {
        0
    }

    fn read_mask() -> (m: u8) {
        0xFF
    }

    fn write_mask() -> (m: u8) {
        0
    }

    open spec fn value_spec(&self) -> u8 {
        self.value
    }

    open spec fn set_spec(&self, value: u8) -> (Self, WriteEffect) {
        (NoRegister { value }, WriteEffect::NoEffect)
    }

    fn set_value(&mut self, value: u8) -> (effect: WriteEffect) {
        self.value = value;

        WriteEffect::NoEffect
    }

    fn value(&self) -> (v: u8) {
        self.value
    }
}

impl Default for NoRegister {
    fn default() -> (r: Self)
        ensures
            r.value_spec() == 0xFF,
    {
        Self { value: 0xFF }
    }
}

} // verus!
