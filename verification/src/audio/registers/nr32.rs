//! NR32, the output level of channel 3
//!
//! ```text
//! 7
//! 6 - RW - Output level
//! 5 - RW - Output level
//! 4
//! 3
//! 2
//! 1
//! 0
//! ```

use vstd::prelude::*;

use crate::audio::registers::{AudioRegister, WriteEffect};

verus! {

/// NR32.
pub struct NR32 {
    pub value: u8,
}

impl AudioRegister for NR32 {
    open spec fn read_mask_spec() -> u8 {
        0b1001_1111
    }

    open spec fn write_mask_spec() -> u8 {
        0b1001_1111
    }

    fn read_mask() -> (m: u8) {
        0b1001_1111
    }

    fn write_mask() -> (m: u8) {
        0b1001_1111
    }

    open spec fn value_spec(&self) -> u8 {
        self.value
    }

    open spec fn set_spec(&self, value: u8) -> (Self, WriteEffect) {
        (NR32 { value }, WriteEffect::NoEffect)
    }

    fn set_value(&mut self, value: u8) -> (effect: WriteEffect) {
        self.value = value;

        WriteEffect::NoEffect
    }

    fn value(&self) -> (v: u8) {
        self.value
    }
}

impl Default for NR32 {
    fn default() -> (r: Self)
        ensures
            r.value == 0x9F,
    {
        Self { value: 0x9F }
    }
}

} // verus!
