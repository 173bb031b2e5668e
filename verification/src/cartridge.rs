//! Game Boy cartridges: their header and the memory bank controllers that map their
//! ROM and RAM into the address space.

pub mod cartridge_type;
pub mod ram_size;
pub mod rom_size;
pub mod cartridge_header;
pub mod cartridge_memory_sector;

use vstd::prelude::*;

use crate::cartridge::cartridge_header::{CartridgeHeader, header_is_valid};
use crate::cartridge::cartridge_memory_sector::{
    CartridgeMemorySector, ReadCartridgeMemory, WriteCartridgeMemory,
};
use crate::cartridge::cartridge_type::CartridgeType;
use crate::bits::{lemma_bank_bits, lemma_byte_bits, lemma_word_masks};
use crate::memory::{ReadMemory, WriteMemory};

verus! {

/// What a cartridge's reads and writes depend on.
pub struct CartridgeView {
    pub cartridge_type: CartridgeType,
    pub rom: Seq<u8>,
    pub ram: Seq<u8>,
    pub selected_rom_bank: u16,
    pub ram_enabled: bool,
    pub selected_ram_bank: u8,
    pub ram_banking_mode: bool,
}

/// A cartridge: its ROM image, its header and the state of its memory bank controller.
pub struct Cartridge {
    pub data: CartridgeMemorySector,
    pub header: CartridgeHeader,
    pub selected_rom_bank: u16,
    pub ram_enabled: bool,
    pub selected_ram_bank: u8,
    pub ram: CartridgeMemorySector,
    pub ram_banking_mode: bool,
}

impl View for Cartridge {
    type V = CartridgeView;

    open spec fn view(&self) -> CartridgeView {
        CartridgeView {
            cartridge_type: self.header.cartridge_type,
            rom: self.data@,
            ram: self.ram@,
            selected_rom_bank: self.selected_rom_bank,
            ram_enabled: self.ram_enabled,
            selected_ram_bank: self.selected_ram_bank,
            ram_banking_mode: self.ram_banking_mode,
        }
    }
}

impl CartridgeView {
    /// Whether the controller is one whose RAM is mapped at 0xA000 to 0xBFFF.
    pub open spec fn has_ram_controller(self) -> bool {
        self.cartridge_type is Mbc1 || self.cartridge_type is Mbc3 || self.cartridge_type is Mbc5
    }

    /// The ROM offset that a read below 0x8000 maps to: the first bank below 0x4000,
    /// the selected bank from 0x4000.
    pub open spec fn rom_offset(self, position: u16) -> int {
        if position < 0x4000 {
            position as int
        } else {
            position as int - 0x4000 + 0x4000 * self.selected_rom_bank as int
        }
    }

    /// The RAM offset that an access from 0xA000 maps to in the selected RAM bank.
    pub open spec fn ram_offset(self, position: u16) -> int {
        position as int - 0xA000 + 0x2000 * self.selected_ram_bank as int
    }

    /// Whether a read at `position` is served.
    pub open spec fn can_read(self, position: u16) -> bool {
        if position < 0x8000 {
            self.rom_offset(position) < self.rom.len()
        } else if self.cartridge_type == CartridgeType::Rom(false, false) {
            position < self.rom.len()
        } else if self.has_ram_controller() && 0xA000 <= position < 0xC000 {
            self.ram_enabled ==> self.ram_offset(position) < self.ram.len()
        } else {
            false
        }
    }

    /// The byte a read at `position` gives: ROM below 0x8000, the RAM of the selected
    /// bank from 0xA000 if it is enabled, 0xFF if it is not.
    pub open spec fn read(self, position: u16) -> u8 {
        if position < 0x8000 {
            self.rom[self.rom_offset(position)]
        } else if self.cartridge_type == CartridgeType::Rom(false, false) {
            self.rom[position as int]
        } else if !self.ram_enabled {
            0xFF
        } else {
            self.ram[self.ram_offset(position)]
        }
    }

    /// Whether writing RAM at `position` stays within it, when RAM is enabled.
    pub open spec fn ram_write_fits(self, position: u16) -> bool {
        self.ram_enabled ==> self.ram_offset(position) < self.ram.len()
    }

    /// Whether a write of `value` at `position` is served.
    pub open spec fn can_write(self, position: u16, value: u8) -> bool {
        match self.cartridge_type {
            CartridgeType::Rom(false, false) => true,
            CartridgeType::Mbc1(_, _) => position < 0x8000 || (0xA000 <= position < 0xC000
                && self.ram_write_fits(position)),
            CartridgeType::Mbc3(timer, _, _) => {
                ||| position < 0x4000
                ||| (0x4000 <= position < 0x6000 && value <= 7)
                ||| (0x6000 <= position < 0x8000 && !timer)
                ||| (0xA000 <= position < 0xC000 && self.ram_write_fits(position))
            },
            CartridgeType::Mbc5(_, _, _) => position < 0xA000 || (position < 0xC000
                && self.ram_write_fits(position)),
            _ => false,
        }
    }

    /// Whether RAM ends up enabled after writing `value` below 0x2000: the cartridge
    /// must have RAM, the value must have bits 1 and 3 set and the RAM must not be empty.
    pub open spec fn ram_enable_after(self, value: u8, ram: bool) -> bool {
        ram && value & 0x0A == 0x0A && self.ram.len() > 0
    }

    /// This state with `value` written to the RAM at `position` if RAM is enabled.
    pub open spec fn ram_written(self, position: u16, value: u8) -> Self {
        if self.ram_enabled {
            CartridgeView { ram: self.ram.update(self.ram_offset(position), value), ..self }
        } else {
            self
        }
    }

    /// The state after writing `value` at `position`.
    pub open spec fn write(self, position: u16, value: u8) -> Self {
        match self.cartridge_type {
            CartridgeType::Mbc1(ram, _) => {
                if position < 0x2000 {
                    CartridgeView { ram_enabled: self.ram_enable_after(value, ram), ..self }
                } else if position < 0x4000 {
                    let bank = value as int % 32;
                    CartridgeView {
                        selected_rom_bank: (if bank == 0 { 1 } else { bank }) as u16,
                        ..self
                    }
                } else if position < 0x6000 {
                    if !self.ram_banking_mode {
                        CartridgeView {
                            selected_rom_bank: ((value as int % 4) * 32 + self.selected_rom_bank as int % 32) as u16,
                            ..self
                        }
                    } else {
                        CartridgeView { selected_ram_bank: (value as int % 4) as u8, ..self }
                    }
                } else if position < 0x8000 {
                    CartridgeView { ram_banking_mode: value as int % 2 == 1, ..self }
                } else {
                    self.ram_written(position, value)
                }
            },
            CartridgeType::Mbc3(_, ram, _) => {
                if position < 0x2000 {
                    CartridgeView { ram_enabled: self.ram_enable_after(value, ram), ..self }
                } else if position < 0x4000 {
                    CartridgeView {
                        selected_rom_bank: (if value != 0 { value as int % 128 } else { 1 }) as u16,
                        ..self
                    }
                } else if position < 0x6000 {
                    CartridgeView { selected_ram_bank: value, ..self }
                } else if position < 0x8000 {
                    self
                } else {
                    self.ram_written(position, value)
                }
            },
            CartridgeType::Mbc5(_, ram, _) => {
                if position < 0x2000 {
                    CartridgeView { ram_enabled: self.ram_enable_after(value, ram), ..self }
                } else if position < 0x3000 {
                    CartridgeView { selected_rom_bank: value as u16, ..self }
                } else if position < 0x4000 {
                    CartridgeView {
                        selected_rom_bank: self.selected_rom_bank | (((value as int % 2) * 256) as u16),
                        ..self
                    }
                } else if position < 0x6000 {
                    CartridgeView { selected_ram_bank: (value as int % 16) as u8, ..self }
                } else if position < 0xA000 {
                    self
                } else {
                    self.ram_written(position, value)
                }
            },
            _ => self,
        }
    }
}

impl Cartridge {
    /// A cartridge for a ROM image whose header names a known type and sizes: the
    /// first switchable ROM bank selected, RAM of the size the header gives, disabled.
    pub fn new_from_rom(data: Vec<u8>) -> (c: Self)
        requires
            header_is_valid(data@),
        ensures
            c@ == (CartridgeView {
                cartridge_type: c.header.cartridge_type,
                rom: data@,
                ram: Seq::new(c.header.ram_size.kib() * 1024, |i: int| 0u8),
                selected_rom_bank: 1,
                ram_enabled: false,
                selected_ram_bank: 0,
                ram_banking_mode: false,
            }),
            c.header.title@ == crate::cartridge::cartridge_header::header_title(data@),
            Some(c.header.cartridge_type) == crate::cartridge::cartridge_type::cartridge_type_of(data@[0x147]),
            Some(c.header.rom_size) == crate::cartridge::rom_size::rom_size_of(data@[0x148]),
            Some(c.header.ram_size) == crate::cartridge::ram_size::ram_size_of(data@[0x149]),
    {
        let header: CartridgeHeader = CartridgeHeader::new_from_data(data.as_slice());

        let ram_size_in_bytes: usize = header.ram_size.in_bytes();

        Self {
            data: CartridgeMemorySector::new_from_data(data),
            header,
            selected_rom_bank: 1,
            ram_enabled: false,
            selected_ram_bank: 0,
            ram: CartridgeMemorySector::of_size(ram_size_in_bytes),
            ram_banking_mode: false,
        }
    }

    /// Handles a write below 0x2000, which enables or disables RAM, and tells whether
    /// the write was one; other writes leave the cartridge as it is.
    pub fn determine_ram_enable(&mut self, position: u16, value: u8, ram: bool) -> (handled: bool)
        ensures
            handled == (position < 0x2000),
            final(self)@ == if handled {
                CartridgeView { ram_enabled: old(self)@.ram_enable_after(value, ram), ..old(self)@ }
            } else {
                old(self)@
            },
            final(self).header == old(self).header,
    {
        if position < 0x2000 {
            self.ram_enabled = ram && (value & 0x0A == 0x0A) && self.ram.size() > 0;
            return true;
        }

        false
    }

    fn write_ram(&mut self, position: u16, value: u8)
        requires
            0xA000 <= position < 0xC000,
            old(self)@.ram_write_fits(position),
        ensures
            final(self)@ == old(self)@.ram_written(position, value),
            final(self).header == old(self).header,
    {
        if self.ram_enabled {
            self.ram.write_byte(
                position as usize - 0xA000 + 0x2000 * self.selected_ram_bank as usize,
                value,
            );
        }
    }
}

impl Default for Cartridge {
    fn default() -> (c: Self)
        ensures
            c@ == (CartridgeView {
                cartridge_type: CartridgeType::Rom(false, false),
                rom: Seq::empty(),
                ram: Seq::empty(),
                selected_rom_bank: 1,
                ram_enabled: false,
                selected_ram_bank: 1,
                ram_banking_mode: false,
            }),
    {
        let c: Cartridge = Self {
            data: CartridgeMemorySector::of_size(0),
            header: CartridgeHeader::default(),
            selected_rom_bank: 1,
            ram_enabled: false,
            selected_ram_bank: 1,
            ram: CartridgeMemorySector::of_size(0),
            ram_banking_mode: false,
        };
        assert(c.data@ =~= Seq::empty());
        assert(c.ram@ =~= Seq::empty());
        c
    }
}

impl ReadMemory for Cartridge {
    open spec fn can_read(&self, position: u16) -> bool {
        self@.can_read(position)
    }

    open spec fn read_spec(&self, position: u16) -> u8 {
        self@.read(position)
    }

    fn read_byte(&self, position: u16) -> (r: u8) {
        if position < 0x4000 {
            return self.data.read_byte(position as usize);
        }

        if 0x4000 <= position && position < 0x8000 {
            return self.data.read_byte(
                position as usize - 0x4000 + 0x4000 * self.selected_rom_bank as usize,
            );
        }

        match self.header.cartridge_type {
            CartridgeType::Rom(false, false) => self.data.read_byte(position as usize),
            _ => {
                if !self.ram_enabled {
                    return 0xFF;
                }

                self.ram.read_byte(
                    position as usize - 0xA000 + 0x2000 * self.selected_ram_bank as usize,
                )
            },
        }
    }
}

impl WriteMemory for Cartridge {
    open spec fn can_write(&self, position: u16, value: u8) -> bool {
        self@.can_write(position, value)
    }

    open spec fn is_write_of(&self, before: &Self, position: u16, value: u8) -> bool {
        self@ == before@.write(position, value) && self.header == before.header
    }

    fn write_byte(&mut self, position: u16, value: u8) {
        proof {
            lemma_byte_bits();
            lemma_word_masks();
            lemma_bank_bits();
        }
        match self.header.cartridge_type {
            CartridgeType::Mbc1(ram, _) => {
                if self.determine_ram_enable(position, value, ram) {
                    return;
                }

                // Select ROM Bank Number
                if position < 0x4000 {
                    let new_value: u16 = value as u16 & 0b11111;

                    self.selected_rom_bank = if new_value % 0x20 == 0 {
                        new_value + 1
                    } else {
                        new_value
                    };

                    return;
                }

                if position < 0x6000 {
                    let new_value: u8 = value & 0b11;

                    if !self.ram_banking_mode {
                        self.selected_rom_bank = (new_value as u16) << 5u16 | (self.selected_rom_bank & 0b11111);
                    } else {
                        self.selected_ram_bank = new_value;
                    }

                    return;
                }

                if position < 0x8000 {
                    self.ram_banking_mode = value & 0b1 == 0b1;
                    return;
                }

                self.write_ram(position, value);
            },
            CartridgeType::Mbc3(timer, ram, _) => {
                if self.determine_ram_enable(position, value, ram) {
                    return;
                }

                // Select ROM Bank Number
                if position < 0x4000 {
                    self.selected_rom_bank = if value != 0 {
                        value as u16 & 0b1111111
                    } else {
                        1
                    };

                    return;
                }

                if position < 0x6000 {
                    self.selected_ram_bank = value;
                    return;
                }

                if position < 0x8000 {
                    return;
                }

                self.write_ram(position, value);
            },
            CartridgeType::Mbc5(_, ram, _) => {
                if self.determine_ram_enable(position, value, ram) {
                    return;
                }

                // Select ROM Bank Number - Low
                if position < 0x3000 {
                    self.selected_rom_bank = value as u16 & 0xFF;

                    return;
                }

                // Select ROM Bank Number - High
                if position < 0x4000 {
                    self.selected_rom_bank = self.selected_rom_bank | (((value & 0x1) as u16) << 8u16);

                    return;
                }

                // Select RAM Bank Number
                if position < 0x6000 {
                    self.selected_ram_bank = value & 0xF;
                    return;
                }

                if position < 0xA000 {
                    // Ignore
                    return;
                }

                self.write_ram(position, value);
            },
            _ => {},
        }
    }
}

/// With RAM enabled, a byte written to cartridge RAM reads back unchanged.
pub proof fn lemma_ram_write_read(cartridge: CartridgeView, position: u16, value: u8)
    requires
        cartridge.has_ram_controller(),
        cartridge.ram_enabled,
        0xA000 <= position < 0xC000,
        cartridge.can_write(position, value),
    ensures
        cartridge.write(position, value).can_read(position),
        cartridge.write(position, value).read(position) == value,
{
}

/// On an MBC1 cartridge, selecting a ROM bank through 0x2000 to 0x3FFF never selects
/// bank 0 in the low five bits: 0 selects bank 1 instead.
pub proof fn law_mbc1_never_selects_bank_zero(cartridge: CartridgeView, position: u16, value: u8)
    requires
        cartridge.cartridge_type is Mbc1,
        0x2000 <= position < 0x4000,
    ensures
        cartridge.write(position, value).selected_rom_bank % 32 != 0,
        cartridge.write(position, value).selected_rom_bank == (if value % 32 == 0 { 1 } else { value % 32 }),
{
}

/// While RAM is disabled, writes to cartridge RAM change nothing and reads give 0xFF.
pub proof fn law_disabled_ram_ignores_writes(cartridge: CartridgeView, position: u16, value: u8)
    requires
        cartridge.has_ram_controller(),
        !cartridge.ram_enabled,
        0xA000 <= position < 0xC000,
    ensures
        cartridge.write(position, value) == cartridge,
        cartridge.read(position) == 0xFF,
{
}

/// Reads below 0x4000 give the first ROM bank; reads from 0x4000 to 0x7FFF give the
/// selected bank, 16 KiB per bank.
pub proof fn law_rom_reads_follow_selected_bank(cartridge: CartridgeView, k: u16)
    requires
        k < 0x4000,
    ensures
        cartridge.read(k) == cartridge.rom[k as int],
        cartridge.read((0x4000 + k) as u16) == cartridge.rom[0x4000 * cartridge.selected_rom_bank + k],
{
}

/// On an MBC3 cartridge, writing `value` from 1 to 127 at 0x2000 to 0x3FFF selects ROM
/// bank `value` (0 selects bank 1), and reads from 0x4000 then come from that bank.
pub proof fn law_mbc3_selects_written_rom_bank(cartridge: CartridgeView, position: u16, value: u8, k: u16)
    requires
        cartridge.cartridge_type is Mbc3,
        0x2000 <= position < 0x4000,
        value <= 127,
        k < 0x4000,
    ensures
        ({
            let bank: int = if value == 0 { 1 } else { value as int };
            let after = cartridge.write(position, value);
            &&& after.selected_rom_bank == bank
            &&& after.read((0x4000 + k) as u16) == cartridge.rom[0x4000 * bank + k]
        }),
{
}

/// On an MBC5 cartridge, writing `value` at 0x2000 to 0x2FFF selects ROM bank `value`,
/// and writing at 0x3000 to 0x3FFF adds its bit 0 as bank bit 8; reads from 0x4000 then
/// come from that bank.
pub proof fn law_mbc5_selects_written_rom_bank(cartridge: CartridgeView, position: u16, value: u8, k: u16)
    requires
        cartridge.cartridge_type is Mbc5,
        0x2000 <= position < 0x3000,
        k < 0x4000,
    ensures
        ({
            let after = cartridge.write(position, value);
            &&& after.selected_rom_bank == value
            &&& after.read((0x4000 + k) as u16) == cartridge.rom[0x4000 * value + k]
            &&& after.write(0x3000, 1).selected_rom_bank == value as int + 256
        }),
{
    let after = cartridge.write(position, value);
    assert((value as u16) | 256u16 == value as int + 256) by (bit_vector);
}

/// On an MBC1 cartridge in ROM banking mode, the bank is made of two writes: bits 0 to 4
/// from a write at 0x2000 to 0x3FFF (0 counting as 1) and bits 5 and 6 from a write at
/// 0x4000 to 0x5FFF; reads from 0x4000 then come from that bank. In RAM banking mode the
/// second write selects the RAM bank instead and leaves the ROM bank.
pub proof fn law_mbc1_two_part_rom_bank(cartridge: CartridgeView, low: u8, high: u8, k: u16)
    requires
        cartridge.cartridge_type is Mbc1,
        k < 0x4000,
    ensures
        ({
            let low_bank: int = if low % 32 == 0 { 1 } else { low as int % 32 };
            let after = cartridge.write(0x2000, low).write(0x4000, high);
            &&& !cartridge.ram_banking_mode ==> after.selected_rom_bank == (high as int % 4) * 32 + low_bank
            &&& !cartridge.ram_banking_mode ==> after.read((0x4000 + k) as u16)
                == cartridge.rom[0x4000 * ((high as int % 4) * 32 + low_bank) + k]
            &&& cartridge.ram_banking_mode ==> after.selected_rom_bank == low_bank
            &&& cartridge.ram_banking_mode ==> after.selected_ram_bank == high as int % 4
        }),
{
}

} // verus!
