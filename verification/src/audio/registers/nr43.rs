//! NR43, the frequency and randomness of channel 4
//!
//! ```text
//! 7 - RW - Clock shift
//! 6 - RW - Clock shift
//! 5 - RW - Clock shift
//! 4 - RW - Clock shift
//! 3 - RW - LFSR width
//! 2 - RW - Clock divider
//! 1 - RW - Clock divider
//! 0 - RW - Clock divider
//! ```

use vstd::prelude::*;

use crate::audio::registers::{AudioRegister, WriteEffect};

verus! {

/// NR43.
pub struct NR43 {
    pub value: u8,
}

impl AudioRegister for NR43 {
    open spec fn read_mask_spec() -> u8 {
        0
    }

    open spec fn write_mask_spec() -> u8 {
        0
    }

    fn read_mask() -> (m: u8) {
        0
    }

    fn write_mask() -> (m: u8) {
        0
    }

    open spec fn value_spec(&self) -> u8 {
        self.value
    }

    open spec fn set_spec(&self, value: u8) -> (Self, WriteEffect) {
        (NR43 { value }, WriteEffect::NoEffect)
    }

    fn set_value(&mut self, value: u8) -> (effect: WriteEffect) {
        self.value = value;

        WriteEffect::NoEffect
    }

    fn value(&self) -> (v: u8) {
        self.value
    }
}

impl Default for NR43 {
    fn default() -> (r: Self)
        ensures
            r.value == 0,
    {
        Self { value: 0 }
    }
}

} // verus!
