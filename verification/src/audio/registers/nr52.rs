//! NR52, the audio master control: the power switch and the read-only flags telling
//! which channels are on.
//!
//! ```text
//! 7 - RW - Audio on/off
//! 6 - N/A
//! 5 - N/A
//! 4 - N/A
//! 3 - RO - CH4 on?
//! 2 - RO - CH3 on?
//! 1 - RO - CH2 on?
//! 0 - RO - CH1 on?
//! ```

use vstd::prelude::*;

use crate::audio::registers::{AudioRegister, WriteEffect};

verus! {

/// The audio master control register.
#[derive(Clone, Copy)]
pub struct NR52 {
    pub value: u8,
}

/// The flag bit of a channel (1 to 4) in NR52.
pub open spec fn channel_bit(channel: u8) -> u8 {
    if channel == 1 { 1 } else if channel == 2 { 2 } else if channel == 3 { 4 } else { 8 }
}

/// The value NR52 stores when `value` is written over `current`: the channel flags
/// are kept, bit 7 comes from the write and bits 4 to 6 are set; when bit 7 ends up clear,
/// the channel flags are cleared too.
pub open spec fn nr52_stored(current: u8, value: u8) -> u8 {
    if value >= 128 {
        (current as int % 16 + 128 + 0x70) as u8
    } else {
        0x70
    }
}

impl NR52 {
    /// Whether the audio unit is on (bit 7).
    pub fn is_on(&self) -> (r: bool)
        ensures
            r == (self.value >= 128),
    {
        proof { crate::bits::lemma_byte_bits(); }
        self.value & 0b1000_0000u8 == 0b1000_0000u8
    }

    /// Marks a channel (1 to 4) as on.
    pub fn set_ro_channel_flag_active(&mut self, channel: u8)
        requires
            1 <= channel <= 4,
        ensures
            final(self).value == old(self).value | channel_bit(channel),
    {
        self.value = self.value | (1u8 << (channel - 1));
        proof { lemma_channel_bits(channel); }
    }

    /// Marks a channel (1 to 4) as off.
    pub fn set_ro_channel_flag_inactive(&mut self, channel: u8)
        requires
            1 <= channel <= 4,
        ensures
            final(self).value == old(self).value & !channel_bit(channel),
    {
        self.value = self.value & !(1u8 << (channel - 1));
        proof { lemma_channel_bits(channel); }
    }
}

/// The shifted one a channel's flag is set with.
proof fn lemma_channel_bits(channel: u8)
    requires
        1 <= channel <= 4,
    ensures
        1u8 << ((channel - 1) as u8) == channel_bit(channel),
{
    assert(1u8 << 0u8 == 1u8 && 1u8 << 1u8 == 2u8 && 1u8 << 2u8 == 4u8 && 1u8 << 3u8 == 8u8) by (bit_vector);
}

impl AudioRegister for NR52 {
    open spec fn read_mask_spec() -> u8 {
        0b0111_0000
    }

    open spec fn write_mask_spec() -> u8 {
        0
    }

    fn read_mask() -> (m: u8) {
        0b0111_0000
    }

    fn write_mask() -> (m: u8) {
        0
    }

    open spec fn value_spec(&self) -> u8 {
        self.value
    }

    open spec fn set_spec(&self, value: u8) -> (Self, WriteEffect) {
        (NR52 { value: nr52_stored(self.value, value) }, if value < 128 {
            WriteEffect::AudioOff
        } else if self.value < 128 {
            WriteEffect::AudioOn
        } else {
            WriteEffect::NoEffect
        })
    }

    fn set_value(&mut self, value: u8) -> (effect: WriteEffect) {
        proof {
            crate::bits::lemma_byte_bits();
            crate::bits::lemma_nr52_bits();
        }
        let was_on: bool = self.is_on();
        self.value = (self.value & 0b0000_1111u8) | (value & 0b1000_0000u8) | 0b0111_0000u8;

        if !self.is_on() {
            self.value = self.value & 0b0111_0000u8;
        }

        if !crate::math::is_bit_set(&value, 7) {
            return WriteEffect::AudioOff;
        }

        if !was_on {
            return WriteEffect::AudioOn;
        }

        WriteEffect::NoEffect
    }

    fn value(&self) -> (v: u8) {
        self.value
    }
}

impl Default for NR52 {
    fn default() -> (r: Self)
        ensures
            r.value == 0xF1,
    {
        Self {
            value: 0b11110001,  // 0xF1
        }
    }
}

} // verus!
