//! How loud the wave channel plays its samples.

use vstd::prelude::*;

verus! {

/// The wave channel's output level: silent, or the samples at full, half or quarter volume.
#[derive(PartialEq, Eq, Structural, Clone, Copy, Debug)]
pub enum WaveOutputLevel {
    Mute,
    Vol100Percent,
    Vol50Percent,
    Vol25Percent,
}

impl WaveOutputLevel {
    /// The level bits 5 and 6 of NR32 select.
    pub open spec fn from_register(register: u8) -> Self {
        let code = (register / 32) % 4;
        if code == 0 {
            WaveOutputLevel::Mute
        } else if code == 1 {
            WaveOutputLevel::Vol100Percent
        } else if code == 2 {
            WaveOutputLevel::Vol50Percent
        } else {
            WaveOutputLevel::Vol25Percent
        }
    }
}

impl Default for WaveOutputLevel {
    fn default() -> (r: Self)
        ensures
            r == WaveOutputLevel::Vol100Percent,
    {
        WaveOutputLevel::Vol100Percent
    }
}

impl From<u8> for WaveOutputLevel {
    fn from(register: u8) -> (r: Self) {
        let masked: u8 = register & 0b1100000u8;
        assert(masked == 0 || masked == 0x20 || masked == 0x40 || masked == 0x60) by (bit_vector)
            requires
                masked == register & 0b1100000u8,
        ;
        assert(masked as int == ((register as int / 32) % 4) * 32) by (bit_vector)
            requires
                masked == register & 0b1100000u8,
        ;
        match masked {
            0b0000000 => WaveOutputLevel::Mute,
            0b0100000 => WaveOutputLevel::Vol100Percent,
            0b1000000 => WaveOutputLevel::Vol50Percent,
            _ => WaveOutputLevel::Vol25Percent,
        }
    }
}

impl vstd::std_specs::convert::FromSpecImpl<u8> for WaveOutputLevel {
    open spec fn obeys_from_spec() -> bool {
        true
    }

    open spec fn from_spec(register: u8) -> Self {
        WaveOutputLevel::from_register(register)
    }
}

} // verus!
