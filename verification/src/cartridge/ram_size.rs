//! The size of a cartridge's RAM, as byte 0x149 of its header gives it.

use vstd::prelude::*;

verus! {

/// The size of a cartridge's RAM; `Kb0` is a cartridge without RAM.
#[derive(PartialEq, Eq, Structural, Debug, Clone, Copy)]
pub enum RamSize {
    Kb0,
    Kb2,
    Kb8,
    Kb32,
    Kb128,
    Kb64,
}

/// The RAM size a header byte names, if it names one.
pub open spec fn ram_size_of(value: u8) -> Option<RamSize> {
    match value {
        0x00 => Some(RamSize::Kb0),
        0x01 => Some(RamSize::Kb2),
        0x02 => Some(RamSize::Kb8),
        0x03 => Some(RamSize::Kb32),
        0x04 => Some(RamSize::Kb128),
        0x05 => Some(RamSize::Kb64),
        _ => None,
    }
}

impl RamSize {
    /// The RAM size in KiB.
    pub open spec fn kib(self) -> nat {
        match self {
            RamSize::Kb0 => 0,
            RamSize::Kb2 => 2,
            RamSize::Kb8 => 8,
            RamSize::Kb32 => 32,
            RamSize::Kb128 => 128,
            RamSize::Kb64 => 64,
        }
    }

    /// The RAM size a header byte names; the byte must name one.
    pub fn from(value: u8) -> (r: Self)
        requires
            ram_size_of(value).is_some(),
        ensures
            Some(r) == ram_size_of(value),
    {
        match value {
            0x00 => Self::Kb0,
            0x01 => Self::Kb2,
            0x02 => Self::Kb8,
            0x03 => Self::Kb32,
            0x04 => Self::Kb128,
            _ => Self::Kb64,
        }
    }

    /// The RAM size in bytes.
    pub fn in_bytes(&self) -> (r: usize)
        ensures
            r == self.kib() * 1024,
    {
        let mul: usize = match self {
            Self::Kb0 => 0,
            Self::Kb2 => 2,
            Self::Kb8 => 8,
            Self::Kb32 => 32,
            Self::Kb128 => 128,
            Self::Kb64 => 64,
        };

        mul * 1024
    }
}

} // verus!
