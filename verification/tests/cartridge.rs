use rustiegb::cartridge::cartridge_header::{header_is_supported, CartridgeHeader};
use rustiegb::cartridge::cartridge_memory_sector::{
    CartridgeMemorySector, ReadCartridgeMemory, WriteCartridgeMemory,
};
use rustiegb::cartridge::cartridge_type::CartridgeType;
use rustiegb::cartridge::ram_size::RamSize;
use rustiegb::cartridge::rom_size::RomSize;
use rustiegb::cartridge::Cartridge;
use rustiegb::memory::{ReadMemory, WriteMemory};

#[test]
fn test_determine_ram_enable_doesnt_act_when_position_gte_2000() {
    let mut cartridge = Cartridge::default();
    let result = cartridge.determine_ram_enable(0x2000, 0, false);

    assert_eq!(result, false);
}

#[test]
fn test_determine_ram_enable_acts_when_position_lt_2000() {
    let mut cartridge = Cartridge::default();
    let result = cartridge.determine_ram_enable(0x1FFF, 0, false);

    assert_eq!(result, true);
}

#[test]
fn test_determine_ram_enable_enables() {
    let mut cartridge = Cartridge::default();
    cartridge.ram = CartridgeMemorySector::of_size(10);

    cartridge.determine_ram_enable(0, 0x0A, true);

    assert_eq!(cartridge.ram_enabled, true);
}

#[test]
fn determine_ram_enable_disables_on_other_value() {
    let mut cartridge = Cartridge::default();

    cartridge.ram = CartridgeMemorySector::of_size(10);
    cartridge.ram_enabled = true;

    cartridge.determine_ram_enable(0, 0x0A, false);

    assert_eq!(cartridge.ram_enabled, false);
}

#[test]
fn determine_ram_enable_disables_on_zero() {
    let mut cartridge = Cartridge::default();

    cartridge.ram = CartridgeMemorySector::of_size(10);
    cartridge.ram_enabled = true;

    cartridge.determine_ram_enable(0, 0x0, true);

    assert_eq!(cartridge.ram_enabled, false);
}

#[test]
fn test_determine_ram_enable_disables_when_ram_length_0() {
    let mut cartridge = Cartridge::default();
    cartridge.ram_enabled = true;

    cartridge.determine_ram_enable(0, 0x0A, true);

    assert_eq!(cartridge.ram_enabled, false);
}

#[test]
fn ram_size_test_from_ok() {
    assert_eq!(RamSize::from(0x00), RamSize::Kb0);
    assert_eq!(RamSize::from(0x01), RamSize::Kb2);
    assert_eq!(RamSize::from(0x02), RamSize::Kb8);
    assert_eq!(RamSize::from(0x03), RamSize::Kb32);
    assert_eq!(RamSize::from(0x04), RamSize::Kb128);
    assert_eq!(RamSize::from(0x05), RamSize::Kb64);
}

#[test]
fn test_in_bytes_ok() {
    assert_eq!(RamSize::Kb0.in_bytes(), 0);
    assert_eq!(RamSize::Kb2.in_bytes(), 2 * 1024);
    assert_eq!(RamSize::Kb8.in_bytes(), 8 * 1024);
    assert_eq!(RamSize::Kb32.in_bytes(), 32 * 1024);
    assert_eq!(RamSize::Kb128.in_bytes(), 128 * 1024);
    assert_eq!(RamSize::Kb64.in_bytes(), 64 * 1024);
}

#[test]
fn rom_size_test_from_ok() {
    assert_eq!(RomSize::from(0x00), RomSize::Kb32);
    assert_eq!(RomSize::from(0x01), RomSize::Kb64);
    assert_eq!(RomSize::from(0x02), RomSize::Kb128);
    assert_eq!(RomSize::from(0x03), RomSize::Kb256);
    assert_eq!(RomSize::from(0x04), RomSize::Kb512);
    assert_eq!(RomSize::from(0x05), RomSize::Mb1);
    assert_eq!(RomSize::from(0x06), RomSize::Mb2);
    assert_eq!(RomSize::from(0x07), RomSize::Mb4);
    assert_eq!(RomSize::from(0x08), RomSize::Mb8);
    assert_eq!(RomSize::from(0x52), RomSize::Mb1d1);
    assert_eq!(RomSize::from(0x53), RomSize::Mb1d2);
    assert_eq!(RomSize::from(0x54), RomSize::Mb1d5);
}

#[test]
fn cartridge_type_test_from_ok() {
    assert_eq!(CartridgeType::from(0x00), CartridgeType::Rom(false, false));
    assert_eq!(CartridgeType::from(0x01), CartridgeType::Mbc1(false, false));
    assert_eq!(CartridgeType::from(0x02), CartridgeType::Mbc1(true, false));
    assert_eq!(CartridgeType::from(0x03), CartridgeType::Mbc1(true, true));
    assert_eq!(CartridgeType::from(0x05), CartridgeType::Mbc2(false));
    assert_eq!(CartridgeType::from(0x06), CartridgeType::Mbc2(true));
    assert_eq!(CartridgeType::from(0x08), CartridgeType::Rom(true, false));
    assert_eq!(CartridgeType::from(0x09), CartridgeType::Rom(true, true));
    assert_eq!(
        CartridgeType::from(0x0b),
        CartridgeType::Mmm01(false, false)
    );
    assert_eq!(CartridgeType::from(0x0c), CartridgeType::Mmm01(true, false));
    assert_eq!(CartridgeType::from(0x0d), CartridgeType::Mmm01(true, true));
    assert_eq!(
        CartridgeType::from(0x0f),
        CartridgeType::Mbc3(true, false, true)
    );
    assert_eq!(
        CartridgeType::from(0x10),
        CartridgeType::Mbc3(true, true, true)
    );
    assert_eq!(
        CartridgeType::from(0x11),
        CartridgeType::Mbc3(false, false, false)
    );
    assert_eq!(
        CartridgeType::from(0x12),
        CartridgeType::Mbc3(false, true, false)
    );
    assert_eq!(
        CartridgeType::from(0x13),
        CartridgeType::Mbc3(false, true, true)
    );
    assert_eq!(
        CartridgeType::from(0x19),
        CartridgeType::Mbc5(false, false, false)
    );
    assert_eq!(
        CartridgeType::from(0x1A),
        CartridgeType::Mbc5(false, true, false)
    );
    assert_eq!(
        CartridgeType::from(0x1B),
        CartridgeType::Mbc5(false, true, true)
    );
    assert_eq!(
        CartridgeType::from(0x1C),
        CartridgeType::Mbc5(true, false, false)
    );
    assert_eq!(
        CartridgeType::from(0x1D),
        CartridgeType::Mbc5(true, true, false)
    );
    assert_eq!(
        CartridgeType::from(0x1E),
        CartridgeType::Mbc5(true, true, true)
    );
    assert_eq!(CartridgeType::from(0x20), CartridgeType::Mbc6);
    assert_eq!(CartridgeType::from(0x22), CartridgeType::Mbc7);
    assert_eq!(CartridgeType::from(0xFC), CartridgeType::PocketCamera);
    assert_eq!(CartridgeType::from(0xFD), CartridgeType::BandaiTama5);
    assert_eq!(CartridgeType::from(0xFE), CartridgeType::HuC3);
    assert_eq!(CartridgeType::from(0xFF), CartridgeType::HuC1);
}

fn rom_image(cartridge_type: u8, rom_size: u8, ram_size: u8, banks: usize) -> Vec<u8> {
    let mut data = vec![0u8; 0x4000 * banks];
    for (i, b) in b"TETRIS".iter().enumerate() {
        data[0x134 + i] = *b;
    }
    data[0x147] = cartridge_type;
    data[0x148] = rom_size;
    data[0x149] = ram_size;
    for bank in 0..banks {
        data[0x4000 * bank + 0x100] = bank as u8;
    }
    data
}

#[test]
fn header_is_parsed_from_rom_data() {
    let data = rom_image(0x03, 0x01, 0x02, 4);
    assert!(header_is_supported(&data));
    let header = CartridgeHeader::new_from_data(&data);
    assert_eq!(header.title, "TETRIS");
    assert_eq!(header.cartridge_type, CartridgeType::Mbc1(true, true));
    assert_eq!(header.rom_size, RomSize::Kb64);
    assert_eq!(header.ram_size, RamSize::Kb8);
}

#[test]
fn header_with_unknown_type_is_not_supported() {
    let data = rom_image(0x50, 0x01, 0x02, 1);
    assert!(!header_is_supported(&data));
    assert!(!header_is_supported(&data[..0x100]));
}

#[test]
fn mbc1_switches_rom_banks() {
    let data = rom_image(0x01, 0x01, 0x00, 4);
    let mut cartridge = Cartridge::new_from_rom(data);
    assert_eq!(cartridge.read_byte(0x4100), 1);
    cartridge.write_byte(0x2000, 3);
    assert_eq!(cartridge.read_byte(0x4100), 3);
    assert_eq!(cartridge.read_byte(0x0100), 0);
}

#[test]
fn mbc1_ram_reads_back_when_enabled() {
    let data = rom_image(0x03, 0x01, 0x02, 4);
    let mut cartridge = Cartridge::new_from_rom(data);
    cartridge.write_byte(0x0000, 0x0A);
    assert!(cartridge.ram_enabled);
    cartridge.write_byte(0xA010, 0x42);
    assert_eq!(cartridge.read_byte(0xA010), 0x42);
}

#[test]
fn memory_sector_reads_back_writes() {
    let mut sector = CartridgeMemorySector::of_size(4);
    assert_eq!(sector.size(), 4);
    sector.write_byte(2, 9);
    assert_eq!(sector.read_byte(2), 9);
    let sector = CartridgeMemorySector::new_from_data(vec![1, 2, 3]);
    assert_eq!(sector.read_byte(1), 2);
}

#[test]
fn mbc1_bank_zero_selects_bank_one() {
    let data = rom_image(0x01, 0x01, 0x00, 4);
    let mut cartridge = Cartridge::new_from_rom(data);
    cartridge.write_byte(0x2000, 0);
    assert_eq!(cartridge.selected_rom_bank, 1);
    cartridge.write_byte(0x3FFF, 0x22);
    assert_eq!(cartridge.selected_rom_bank, 2);
}

#[test]
fn disabled_ram_ignores_writes_and_reads_ff() {
    let data = rom_image(0x03, 0x01, 0x02, 4);
    let mut cartridge = Cartridge::new_from_rom(data);
    assert!(!cartridge.ram_enabled);
    cartridge.write_byte(0xA000, 0x42);
    assert_eq!(cartridge.read_byte(0xA000), 0xFF);
    cartridge.write_byte(0x0000, 0x0A);
    assert_eq!(cartridge.read_byte(0xA000), 0x00);
}
