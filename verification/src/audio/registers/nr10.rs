//! NR10, the sweep register of channel 1.
//!
//! ```text
//! 7
//! 6 - RW - Pace
//! 5 - RW - Pace
//! 4 - RW - Pace
//! 3 - RW - Direction
//! 2 - RW - Individual step
//! 1 - RW - Individual step
//! 0 - RW - Individual step
//! ```

use vstd::prelude::*;

use crate::audio::registers::{AudioRegister, WriteEffect};

verus! {

/// Whether the sweep adds to or subtracts from the frequency.
#[derive(PartialEq, Eq, Structural, Debug, Clone, Copy)]
pub enum SweepDirection {
    Add,
    Sub,
}

/// The direction bit 3 of a sweep register byte selects.
pub open spec fn direction_of(value: u8) -> SweepDirection {
    if (value as int / 8) % 2 == 0 { SweepDirection::Add } else { SweepDirection::Sub }
}

/// The sweep register.
pub struct NR10 {
    pub value: u8,
}

impl NR10 {
    /// The pace, bits 4 to 6.
    pub fn read_pace(&self) -> (r: u8)
        ensures
            r as int == (self.value_spec() as int / 16) % 8,
    {
        proof { crate::bits::lemma_byte_bits(); crate::bits::lemma_sweep_bits(); }
        (self.value >> 4u8) & 0b111u8
    }

    /// The direction, bit 3.
    pub fn read_direction(&self) -> (r: SweepDirection)
        ensures
            r == direction_of(self.value_spec()),
    {
        proof { crate::bits::lemma_sweep_bits(); }
        let value: u8 = (self.value & 0b0000_1000u8) >> 3u8;

        if value == 0 {
            SweepDirection::Add
        } else {
            SweepDirection::Sub
        }
    }

    /// The individual step, bits 0 to 2.
    pub fn read_step(&self) -> (r: u8)
        ensures
            r as int == self.value_spec() as int % 8,
    {
        proof { crate::bits::lemma_sweep_bits(); }
        self.value & 0b0000_0111u8
    }
}

impl AudioRegister for NR10 {
    open spec fn read_mask_spec() -> u8 {
        0b1000_0000
    }

    open spec fn write_mask_spec() -> u8 {
        0b1000_0000
    }

    fn read_mask() -> (m: u8) {
        0b1000_0000
    }

    fn write_mask() -> (m: u8) {
        0b1000_0000
    }

    open spec fn value_spec(&self) -> u8 {
        self.value
    }

    /// Stores the value; a change of direction from subtraction to addition is reported.
    open spec fn set_spec(&self, value: u8) -> (Self, WriteEffect) {
        (NR10 { value }, if direction_of(self.value) == SweepDirection::Sub && direction_of(value)
            == SweepDirection::Add {
            WriteEffect::SweepDirectionFromSubToAdd
        } else {
            WriteEffect::NoEffect
        })
    }

    fn set_value(&mut self, value: u8) -> (effect: WriteEffect) {
        let old_direction: SweepDirection = self.read_direction();

        self.value = value;
        let new_direction: SweepDirection = self.read_direction();

        if old_direction == SweepDirection::Sub && new_direction == SweepDirection::Add {
            return WriteEffect::SweepDirectionFromSubToAdd;
        }

        WriteEffect::NoEffect
    }

    fn value(&self) -> (v: u8) {
        self.value
    }
}

impl Default for NR10 {
    fn default() -> (r: Self)
        ensures
            r.value_spec() == 0x80,
    {
        Self { value: 0x80 }
    }
}

} // verus!
