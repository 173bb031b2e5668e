//! The kind of memory bank controller a cartridge carries, as byte 0x147 of its header names it.

use vstd::prelude::*;

verus! {

/// A cartridge's memory bank controller and the extras it has.
#[derive(PartialEq, Eq, Structural, Debug, Clone, Copy)]
pub enum CartridgeType {
    /// ROM + RAM + battery.
    Rom(bool, bool),
    /// MBC1 + RAM + battery.
    Mbc1(bool, bool),
    /// MBC2 + battery.
    Mbc2(bool),
    /// MMM01 + RAM + battery.
    Mmm01(bool, bool),
    /// MBC3 + timer + RAM + battery.
    Mbc3(bool, bool, bool),
    /// MBC5 + rumble + RAM + battery.
    Mbc5(bool, bool, bool),
    Mbc6,
    /// MBC7 + sensor + rumble + RAM + battery.
    Mbc7,
    PocketCamera,
    BandaiTama5,
    HuC3,
    HuC1,
}

/// The cartridge type a header byte names, if it names one.
pub open spec fn cartridge_type_of(value: u8) -> Option<CartridgeType> {
    match value {
        0x00 => Some(CartridgeType::Rom(false, false)),
        0x01 => Some(CartridgeType::Mbc1(false, false)),
        0x02 => Some(CartridgeType::Mbc1(true, false)),
        0x03 => Some(CartridgeType::Mbc1(true, true)),
        0x05 => Some(CartridgeType::Mbc2(false)),
        0x06 => Some(CartridgeType::Mbc2(true)),
        0x08 => Some(CartridgeType::Rom(true, false)),
        0x09 => Some(CartridgeType::Rom(true, true)),
        0x0b => Some(CartridgeType::Mmm01(false, false)),
        0x0c => Some(CartridgeType::Mmm01(true, false)),
        0x0d => Some(CartridgeType::Mmm01(true, true)),
        0x0f => Some(CartridgeType::Mbc3(true, false, true)),
        0x10 => Some(CartridgeType::Mbc3(true, true, true)),
        0x11 => Some(CartridgeType::Mbc3(false, false, false)),
        0x12 => Some(CartridgeType::Mbc3(false, true, false)),
        0x13 => Some(CartridgeType::Mbc3(false, true, true)),
        0x19 => Some(CartridgeType::Mbc5(false, false, false)),
        0x1A => Some(CartridgeType::Mbc5(false, true, false)),
        0x1B => Some(CartridgeType::Mbc5(false, true, true)),
        0x1C => Some(CartridgeType::Mbc5(true, false, false)),
        0x1D => Some(CartridgeType::Mbc5(true, true, false)),
        0x1E => Some(CartridgeType::Mbc5(true, true, true)),
        0x20 => Some(CartridgeType::Mbc6),
        0x22 => Some(CartridgeType::Mbc7),
        0xFC => Some(CartridgeType::PocketCamera),
        0xFD => Some(CartridgeType::BandaiTama5),
        0xFE => Some(CartridgeType::HuC3),
        0xFF => Some(CartridgeType::HuC1),
        _ => None,
    }
}

impl CartridgeType {
    /// The cartridge type a header byte names; the byte must name one.
    pub fn from(value: u8) -> (t: Self)
        requires
            cartridge_type_of(value).is_some(),
        ensures
            Some(t) == cartridge_type_of(value),
    {
        match value {
            0x00 => Self::Rom(false, false),

            0x01 => Self::Mbc1(false, false),
            0x02 => Self::Mbc1(true, false),
            0x03 => Self::Mbc1(true, true),

            0x05 => Self::Mbc2(false),
            0x06 => Self::Mbc2(true),

            0x08 => Self::Rom(true, false),
            0x09 => Self::Rom(true, true),

            0x0b => Self::Mmm01(false, false),
            0x0c => Self::Mmm01(true, false),
            0x0d => Self::Mmm01(true, true),

            0x0f => Self::Mbc3(true, false, true),
            0x10 => Self::Mbc3(true, true, true),
            0x11 => Self::Mbc3(false, false, false),
            0x12 => Self::Mbc3(false, true, false),
            0x13 => Self::Mbc3(false, true, true),

            0x19 => Self::Mbc5(false, false, false),
            0x1A => Self::Mbc5(false, true, false),
            0x1B => Self::Mbc5(false, true, true),
            0x1C => Self::Mbc5(true, false, false),
            0x1D => Self::Mbc5(true, true, false),
            0x1E => Self::Mbc5(true, true, true),

            0x20 => Self::Mbc6,
            0x22 => Self::Mbc7,
            0xFC => Self::PocketCamera,
            0xFD => Self::BandaiTama5,
            0xFE => Self::HuC3,
            _ => Self::HuC1,
        }
    }
}

} // verus!
