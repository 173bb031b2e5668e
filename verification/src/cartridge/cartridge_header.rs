//! The cartridge header: the title, the controller type and the ROM and RAM sizes,
//! read from bytes 0x134 to 0x149 of the ROM.

use vstd::prelude::*;

use crate::cartridge::cartridge_type::{CartridgeType, cartridge_type_of};
use crate::cartridge::ram_size::{RamSize, ram_size_of};
use crate::cartridge::rom_size::{RomSize, rom_size_of};
use crate::text::push_char;

verus! {

/// The end of `data[start..end]` once the 0 bytes at its end are dropped.
pub open spec fn end_without_nul(data: Seq<u8>, start: int, end: int) -> int
    decreases end - start,
{
    if end > start && data[end - 1] == 0 {
        end_without_nul(data, start, end - 1)
    } else {
        end
    }
}

/// The title a ROM's header holds: bytes 0x134 to 0x142, each read as the character
/// with that code, without the 0 bytes at the end.
pub open spec fn header_title(data: Seq<u8>) -> Seq<char> {
    data.subrange(0x134, end_without_nul(data, 0x134, 0x143)).map_values(|b: u8| b as char)
}

/// Whether the header bytes of a ROM name a known type, ROM size and RAM size.
pub open spec fn header_is_valid(data: Seq<u8>) -> bool {
    &&& data.len() >= 0x14A
    &&& cartridge_type_of(data[0x147]).is_some()
    &&& rom_size_of(data[0x148]).is_some()
    &&& ram_size_of(data[0x149]).is_some()
}

/// Whether a ROM image is long enough to hold a header and its type, ROM size and RAM
/// size bytes name known values.
pub fn header_is_supported(data: &[u8]) -> (r: bool)
    ensures
        r == header_is_valid(data@),
{
    if data.len() < 0x14A {
        return false;
    }
    let cartridge_type: u8 = data[0x147];
    let rom_size: u8 = data[0x148];
    let ram_size: u8 = data[0x149];
    let known_type: bool = cartridge_type <= 0x03 || cartridge_type == 0x05 || cartridge_type == 0x06
        || cartridge_type == 0x08 || cartridge_type == 0x09 || (0x0b <= cartridge_type && cartridge_type <= 0x0d)
        || (0x0f <= cartridge_type && cartridge_type <= 0x13) || (0x19 <= cartridge_type && cartridge_type <= 0x1E)
        || cartridge_type == 0x20 || cartridge_type == 0x22 || cartridge_type >= 0xFC;
    let known_rom_size: bool = rom_size <= 0x08 || (0x52 <= rom_size && rom_size <= 0x54);
    let known_ram_size: bool = ram_size <= 0x05;
    known_type && known_rom_size && known_ram_size
}

/// The parsed cartridge header.
#[derive(Debug)]
pub struct CartridgeHeader {
    pub title: String,
    pub cartridge_type: CartridgeType,
    pub rom_size: RomSize,
    pub ram_size: RamSize,
}

impl CartridgeHeader {
    /// A header from its title and its type, ROM size and RAM size bytes, which must
    /// name known values.
    pub fn new(title: String, cartridge_type: u8, rom_size: u8, ram_size: u8) -> (h: Self)
        requires
            cartridge_type_of(cartridge_type).is_some(),
            rom_size_of(rom_size).is_some(),
            ram_size_of(ram_size).is_some(),
        ensures
            h.title@ == title@,
            Some(h.cartridge_type) == cartridge_type_of(cartridge_type),
            Some(h.rom_size) == rom_size_of(rom_size),
            Some(h.ram_size) == ram_size_of(ram_size),
    {
        Self {
            title,
            cartridge_type: CartridgeType::from(cartridge_type),
            rom_size: RomSize::from(rom_size),
            ram_size: RamSize::from(ram_size),
        }
    }

    /// The header a ROM image holds.
    pub fn new_from_data(data: &[u8]) -> (h: Self)
        requires
            header_is_valid(data@),
        ensures
            h.title@ == header_title(data@),
            Some(h.cartridge_type) == cartridge_type_of(data@[0x147]),
            Some(h.rom_size) == rom_size_of(data@[0x148]),
            Some(h.ram_size) == ram_size_of(data@[0x149]),
    {
        let mut end: usize = 0x143;
        while end > 0x134 && data[end - 1] == 0
            invariant
                0x134 <= end <= 0x143,
                data@.len() >= 0x14A,
                end_without_nul(data@, 0x134, end as int) == end_without_nul(data@, 0x134, 0x143),
            decreases end,
        {
            end = end - 1;
        }

        let mut title: String = String::new();
        let mut i: usize = 0x134;
        while i < end
            invariant
                0x134 <= i <= end <= 0x143,
                data@.len() >= 0x14A,
                end == end_without_nul(data@, 0x134, 0x143),
                title@ == data@.subrange(0x134, i as int).map_values(|b: u8| b as char),
            decreases end - i,
        {
            push_char(&mut title, data[i] as char);
            assert(data@.subrange(0x134, i + 1).map_values(|b: u8| b as char)
                =~= data@.subrange(0x134, i as int).map_values(|b: u8| b as char).push(data@[i as int] as char));
            i = i + 1;
        }

        Self::new(title, data[0x147], data[0x148], data[0x149])
    }
}

impl Default for CartridgeHeader {
    fn default() -> (h: Self)
        ensures
            h.title@ == "EMPTY TITLE"@,
            h.cartridge_type == CartridgeType::Rom(false, false),
            h.rom_size == RomSize::Kb32,
            h.ram_size == RamSize::Kb0,
    {
        Self::new("EMPTY TITLE".to_string(), 0, 0, 0)
    }
}

} // verus!
