use rustiegb::cpu::Cpu;
use rustiegb::gpu::color::Color;
use rustiegb::gpu::gpu::GPU;
use rustiegb::gpu::lcd::{Gpu, GpuEvent, OamEntry, StatMode, CANVAS_SIZE};
use rustiegb::memory::Memory;

const LCDC: u16 = 0xFF40;
const STAT: u16 = 0xFF41;
const LY: u16 = 0xFF44;
const BGP: u16 = 0xFF47;
const OBP0: u16 = 0xFF48;

fn light_grey() -> Option<Color> {
    Some(Color { r: 170, g: 170, b: 170 })
}

/// Background tile 0 with a first row of colour 1 pixels, map 0x9800 all tile 0.
fn display_memory(lcdc: u8, mode: u8, ly: u8) -> Memory {
    let mut memory = Memory::new();
    memory.write_8(LCDC, lcdc);
    memory.write_8(STAT, mode);
    memory.write_8(LY, ly);
    memory.write_8(BGP, 0xE4);
    memory.write_8(OBP0, 0xE4);
    memory.write_8(0x8000, 0xFF);
    memory.write_8(0x8001, 0x00);
    memory
}

#[test]
fn new_gpu_has_blank_canvas() {
    let gpu = Gpu::new();
    assert_eq!(gpu.canvas.len(), CANVAS_SIZE);
    assert!(gpu.canvas.iter().all(|p| p.is_none()));
    assert_eq!(gpu.cycles_accumulated, 0);
}

#[test]
fn lcd_transfer_waits_172_cycles_then_draws_the_line() {
    let mut gpu = Gpu::new();
    let mut memory = display_memory(0x91, 3, 0);
    assert_eq!(gpu.step(&mut memory, 100), GpuEvent::Nothing);
    assert_eq!(gpu.cycles_accumulated, 100);
    assert!(gpu.canvas[0].is_none());
    assert_eq!(gpu.step(&mut memory, 72), GpuEvent::ModeChanged(StatMode::HBlank));
    assert_eq!(gpu.cycles_accumulated, 0);
    assert_eq!(memory.read_8(STAT) & 3, 0);
    for x in 0..160 {
        assert_eq!(gpu.canvas[x], light_grey());
    }
    assert!(gpu.canvas[160].is_none());
}

#[test]
fn hblank_moves_to_next_line_and_vblank_at_the_end_of_the_screen() {
    let mut gpu = Gpu::new();
    let mut memory = display_memory(0x91, 0, 10);
    assert_eq!(gpu.step(&mut memory, 204), GpuEvent::ModeChanged(StatMode::SearchOamRam));
    assert_eq!(memory.read_8(LY), 11);
    assert_eq!(memory.read_8(STAT) & 3, 2);

    let mut memory = display_memory(0x91, 0, 143);
    assert_eq!(gpu.step(&mut memory, 204), GpuEvent::ModeChanged(StatMode::VBlank));
    assert_eq!(memory.read_8(LY), 144);
    assert_eq!(memory.read_8(STAT) & 3, 1);
}

#[test]
fn vblank_returns_to_line_zero_after_line_153() {
    let mut gpu = Gpu::new();
    let mut memory = display_memory(0x91, 1, 150);
    assert_eq!(gpu.step(&mut memory, 200), GpuEvent::Nothing);
    assert_eq!(gpu.step(&mut memory, 200), GpuEvent::Nothing);
    assert_eq!(gpu.step(&mut memory, 56), GpuEvent::Nothing);
    assert_eq!(memory.read_8(LY), 151);
    let mut memory = display_memory(0x91, 1, 153);
    gpu.cycles_accumulated = 400;
    assert_eq!(gpu.step(&mut memory, 60), GpuEvent::ModeChanged(StatMode::SearchOamRam));
    assert_eq!(memory.read_8(LY), 0);
    assert_eq!(memory.read_8(STAT) & 3, 2);
}

#[test]
fn lcd_off_resets_the_line() {
    let mut gpu = Gpu::new();
    let mut memory = display_memory(0x11, 0, 77);
    gpu.cycles_accumulated = 50;
    assert_eq!(gpu.step(&mut memory, 4), GpuEvent::LcdOff);
    assert_eq!(memory.read_8(LY), 0);
    assert_eq!(gpu.cycles_accumulated, 0);
}

#[test]
fn oam_search_picks_sprites_on_the_line_ordered_by_x() {
    let mut gpu = Gpu::new();
    let mut memory = display_memory(0x93, 2, 0);
    // entry 0: x 30; entry 1: x 8; entry 2: off the line; entry 3: x 0 (hidden); entry 4: priority
    let entries = [(16u8, 30u8, 1u8, 0u8), (16, 8, 1, 0), (40, 8, 1, 0), (16, 0, 1, 0), (16, 12, 1, 0x80)];
    for (i, (y, x, tile, flags)) in entries.iter().enumerate() {
        let base = 0xFE00 + 4 * i as u16;
        memory.write_8(base, *y);
        memory.write_8(base + 1, *x);
        memory.write_8(base + 2, *tile);
        memory.write_8(base + 3, *flags);
    }
    assert_eq!(gpu.step(&mut memory, 80), GpuEvent::ModeChanged(StatMode::LcdTransfer));
    assert_eq!(
        gpu.sprites_to_be_drawn_without_priority,
        vec![
            OamEntry { y: 16, x: 8, tile_number: 1, flags: 0 },
            OamEntry { y: 16, x: 30, tile_number: 1, flags: 0 },
        ]
    );
    assert_eq!(gpu.sprites_to_be_drawn_with_priority, vec![OamEntry { y: 16, x: 12, tile_number: 1, flags: 0x80 }]);

    // tile 1, first row: leftmost pixel colour 3, the rest transparent
    memory.write_8(0x8010, 0x80);
    memory.write_8(0x8011, 0x80);
    assert_eq!(gpu.step(&mut memory, 172), GpuEvent::ModeChanged(StatMode::HBlank));
    assert_eq!(gpu.canvas[0], Some(Color { r: 0, g: 0, b: 0 }));
    assert_eq!(gpu.canvas[22], Some(Color { r: 0, g: 0, b: 0 }));
    // the priority sprite's pixel at 4 is under a non-zero background pixel
    assert_eq!(gpu.canvas[4], light_grey());
    assert_eq!(gpu.canvas[1], light_grey());
}

#[test]
fn can_step_refuses_a_line_off_screen() {
    let gpu = Gpu::new();
    let memory = display_memory(0x91, 3, 150);
    assert!(!gpu.can_step(&memory, 200));
    assert!(gpu.can_step(&memory, 10));
    let memory = display_memory(0x91, 3, 143);
    assert!(gpu.can_step(&memory, 200));
}

#[test]
fn bootstrap_rom_maps_and_unmaps() {
    let mut memory = Memory::new();
    memory.write_8(0x0000, 0xAA);
    memory.write_8(0x0001, 0xBB);
    assert!(!memory.has_bootstrap_rom());
    memory.map_bootstrap_rom(&vec![0x31, 0xFE]);
    assert!(memory.has_bootstrap_rom());
    assert_eq!(memory.read_8(0x0000), 0x31);
    assert_eq!(memory.read_8(0x0001), 0xFE);
    memory.erase_bootstrap_rom();
    assert!(!memory.has_bootstrap_rom());
    assert_eq!(memory.read_8(0x0000), 0xAA);
    assert_eq!(memory.read_8(0x0001), 0xBB);
}

#[test]
fn processor_unmaps_bootstrap_rom_at_0x100() {
    let mut memory = Memory::new();
    memory.write_8(0x0000, 0xAA);
    memory.write_8(0x0100, 0x00);
    memory.map_bootstrap_rom(&vec![0x31; 0x200]);
    assert_eq!(memory.read_8(0x00FF), 0x31);
    assert_eq!(memory.read_8(0x0100), 0x00);
    let mut cpu = Cpu::new(false);
    assert_eq!(cpu.registers.pc, 0x100);
    cpu.step(&mut memory);
    assert!(!memory.has_bootstrap_rom());
    assert_eq!(memory.read_8(0x0000), 0xAA);
    assert_eq!(memory.read_8(0x00FF), 0x00);
    assert_eq!(cpu.registers.pc, 0x101);
}

#[test]
fn counted_window_moves_its_line_counter() {
    let mut gpu = GPU::new();
    // display, window, unsigned tiles, background on; window from line 0, column 0
    let mut memory = display_memory(0xB1, 3, 0);
    memory.write_8(0xFF4A, 0);
    memory.write_8(0xFF4B, 7);
    assert!(gpu.can_step(&memory, 172));
    assert_eq!(gpu.step(&mut memory, 172), GpuEvent::ModeChanged(StatMode::HBlank));
    for x in 0..160 {
        assert_eq!(gpu.canvas[x], light_grey());
    }
    assert_eq!(gpu.last_window_rendered_position_y, 1);
    assert_eq!(gpu.last_window_rendered_position_x, 0);

    // vertical blank restarts the window's counters
    let mut memory = display_memory(0xB1, 1, 145);
    assert_eq!(gpu.step(&mut memory, 228), GpuEvent::Nothing);
    assert_eq!(gpu.step(&mut memory, 228), GpuEvent::Nothing);
    assert_eq!(gpu.last_window_rendered_position_y, 0);
    assert_eq!(memory.read_8(LY), 146);
}

#[test]
fn counted_controller_draws_nothing_with_display_off() {
    let mut gpu = GPU::new();
    let mut memory = display_memory(0x11, 3, 0);
    assert_eq!(gpu.step(&mut memory, 200), GpuEvent::ModeChanged(StatMode::HBlank));
    assert!(gpu.canvas.iter().all(|p| p.is_none()));
    assert_eq!(memory.read_8(STAT) & 3, 0);
}

#[test]
fn counted_controller_shows_sprites_under_blank_background() {
    let mut gpu = GPU::new();
    let mut memory = display_memory(0x93, 2, 0);
    // background tile 0, row 0: columns 4 to 7 colour 1, the rest colour 0
    memory.write_8(0x8000, 0x0F);
    // a sprite under the background at x 8, tile 1: leftmost pixel colour 3
    memory.write_8(0xFE00, 16);
    memory.write_8(0xFE01, 8);
    memory.write_8(0xFE02, 1);
    memory.write_8(0xFE03, 0x80);
    memory.write_8(0x8010, 0x80);
    memory.write_8(0x8011, 0x80);
    assert_eq!(gpu.step(&mut memory, 80), GpuEvent::ModeChanged(StatMode::LcdTransfer));
    assert_eq!(gpu.sprites_to_be_drawn_with_priority.len(), 1);
    assert_eq!(gpu.step(&mut memory, 172), GpuEvent::ModeChanged(StatMode::HBlank));
    assert_eq!(gpu.canvas[0], Some(Color { r: 0, g: 0, b: 0 }));
    assert_eq!(gpu.canvas[1], Some(Color { r: 255, g: 255, b: 255 }));
    assert_eq!(gpu.canvas[4], light_grey());
}

#[test]
fn processor_checks_a_step_before_it_runs() {
    let mut memory = Memory::new();
    let mut cpu = Cpu::new(false);
    memory.write_8(0x0100, 0x00);
    assert!(cpu.can_step(&memory));
    memory.write_8(0x0100, 0xD3);
    assert!(!cpu.can_step(&memory));
    // JR with offset 126: offset plus 2 is not a signed byte
    memory.write_8(0x0100, 0x18);
    memory.write_8(0x0101, 126);
    assert!(!cpu.can_step(&memory));
    memory.write_8(0x0101, 5);
    assert!(cpu.can_step(&memory));
    cpu.registers.pc = 0xFFFD;
    memory.write_8(0xFFFD, 0x00);
    assert!(!cpu.can_step(&memory));
    cpu.halted = true;
    assert!(cpu.can_step(&memory));
}
