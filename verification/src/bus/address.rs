//! Named addresses of the Game Boy memory map.

use vstd::prelude::*;

verus! {

/// The named addresses.
pub struct Address {}

impl Address {
    pub const BOOTSTRAP_ROM_START: u16 = 0x0001;
    pub const CARTRIDGE_START: u16 = 0x0100;
    pub const IO_REGISTERS_START: u16 = 0xFF00;
    pub const IO_REGISTERS_END: u16 = 0xFF4B;

    // --- I/O registers ---
    pub const P1_JOYPAD: u16 = 0xFF00;
    pub const SB_SERIAL_TRANSFER_DATA: u16 = 0xFF01;
    pub const SC_SIO_CONTROL: u16 = 0xFF02;
    pub const UNUSED_FF03: u16 = 0xFF03;
    pub const DIV_DIVIDER_REGISTER: u16 = 0xFF04;
    pub const TIMA_TIMER_COUNTER: u16 = 0xFF05;
    pub const TMA_TIMER_MODULO: u16 = 0xFF06;
    pub const TAC_TIMER_CONTROL: u16 = 0xFF07;
    pub const IF_INTERRUPT_FLAG: u16 = 0xFF0F;

    pub const NR10_SOUND_1_SWEEP: u16 = 0xFF10;
    pub const NR11_SOUND_1_WAVE_PATTERN_DUTY: u16 = 0xFF11;
    pub const NR12_SOUND_1_ENVELOPE: u16 = 0xFF12;
    pub const NR13_SOUND_1_FR_LO: u16 = 0xFF13;
    pub const NR14_SOUND_1_FR_HI: u16 = 0xFF14;

    pub const NR20_SOUND_2_UNUSED: u16 = 0xFF15;
    pub const NR21_SOUND_2_WAVE_PATTERN_DUTY: u16 = 0xFF16;
    pub const NR22_SOUND_2_ENVELOPE: u16 = 0xFF17;
    pub const NR23_SOUND_2_FR_LO: u16 = 0xFF18;
    pub const NR24_SOUND_2_FR_HI: u16 = 0xFF19;

    pub const NR30_SOUND_3_ON_OFF: u16 = 0xFF1A;
    pub const NR31_SOUND_3_LENGTH: u16 = 0xFF1B;
    pub const NR32_SOUND_3_OUTPUT_LEVEL: u16 = 0xFF1C;
    pub const NR33_SOUND_3_FR_LO: u16 = 0xFF1D;
    pub const NR34_SOUND_3_FR_HI: u16 = 0xFF1E;

    pub const NR40_SOUND_4_UNUSED: u16 = 0xFF1F;
    pub const NR41_SOUND_4_LENGTH: u16 = 0xFF20;
    pub const NR42_SOUND_4_ENVELOPE: u16 = 0xFF21;
    pub const NR43_SOUND_4_FR_RANDOMNESS: u16 = 0xFF22;
    pub const NR44_SOUND_4_CONTROL: u16 = 0xFF23;

    pub const NR50: u16 = 0xFF24;
    pub const NR51: u16 = 0xFF25;
    pub const NR52_SOUND: u16 = 0xFF26;

    pub const UNUSED_FF27: u16 = 0xFF27;
    pub const UNUSED_FF2F: u16 = 0xFF2F;

    pub const WAVE_PATTERN_START: u16 = 0xFF30;
    pub const WAVE_PATTERN_END: u16 = 0xFF3F;

    pub const LCDC: u16 = 0xFF40;
    pub const STAT: u16 = 0xFF41;
    pub const SCY_SCROLL_Y: u16 = 0xFF42;
    pub const SCX_SCROLL_X: u16 = 0xFF43;
    pub const DMA: u16 = 0xFF46;
    pub const BGP_BG_WIN_PALETTE: u16 = 0xFF47;
    pub const OBP1_OBJ_PALETTE: u16 = 0xFF48;
    pub const OBP2_OBJ_PALETTE: u16 = 0xFF49;
    pub const WY_WINDOW_Y_POSITION: u16 = 0xFF4A;
    pub const WX_WINDOW_X_POSITION: u16 = 0xFF4B;
    pub const IE_INTERRUPT_ENABLE: u16 = 0xFFFF;
}

} // verus!
