//! The size of a cartridge's ROM, as byte 0x148 of its header gives it.

use vstd::prelude::*;

verus! {

/// The size of a cartridge's ROM.
#[derive(PartialEq, Eq, Structural, Debug, Clone, Copy)]
pub enum RomSize {
    Kb32,
    Kb64,
    Kb128,
    Kb256,
    Kb512,
    Mb1,
    Mb2,
    Mb4,
    Mb8,
    Mb1d1,
    Mb1d2,
    Mb1d5,
}

/// The ROM size a header byte names, if it names one.
pub open spec fn rom_size_of(value: u8) -> Option<RomSize> {
    match value {
        0x00 => Some(RomSize::Kb32),
        0x01 => Some(RomSize::Kb64),
        0x02 => Some(RomSize::Kb128),
        0x03 => Some(RomSize::Kb256),
        0x04 => Some(RomSize::Kb512),
        0x05 => Some(RomSize::Mb1),
        0x06 => Some(RomSize::Mb2),
        0x07 => Some(RomSize::Mb4),
        0x08 => Some(RomSize::Mb8),
        0x52 => Some(RomSize::Mb1d1),
        0x53 => Some(RomSize::Mb1d2),
        0x54 => Some(RomSize::Mb1d5),
        _ => None,
    }
}

impl RomSize {
    /// The ROM size a header byte names; the byte must name one.
    pub fn from(value: u8) -> (r: Self)
        requires
            rom_size_of(value).is_some(),
        ensures
            Some(r) == rom_size_of(value),
    {
        match value {
            0x00 => Self::Kb32,
            0x01 => Self::Kb64,
            0x02 => Self::Kb128,
            0x03 => Self::Kb256,
            0x04 => Self::Kb512,
            0x05 => Self::Mb1,
            0x06 => Self::Mb2,
            0x07 => Self::Mb4,
            0x08 => Self::Mb8,
            0x52 => Self::Mb1d1,
            0x53 => Self::Mb1d2,
            _ => Self::Mb1d5,
        }
    }
}

} // verus!
