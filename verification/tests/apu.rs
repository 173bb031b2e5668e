use rustiegb::audio::apu::Apu;
use rustiegb::bus::address::Address;
use rustiegb::memory::{ReadMemory, WriteMemory};

fn check_basic_audio_registers_are_reset(apu: &mut Apu) {
    let items = vec![
        // NR1X
        (Address::NR10_SOUND_1_SWEEP, 0x80),
        (Address::NR11_SOUND_1_WAVE_PATTERN_DUTY, 0x3F),
        (Address::NR12_SOUND_1_ENVELOPE, 0x00),
        (Address::NR13_SOUND_1_FR_LO, 0xFF),
        (Address::NR14_SOUND_1_FR_HI, 0xBF),
        // NR2X
        (Address::NR20_SOUND_2_UNUSED, 0xFF),
        (Address::NR21_SOUND_2_WAVE_PATTERN_DUTY, 0x3F),
        (Address::NR22_SOUND_2_ENVELOPE, 0x00),
        (Address::NR23_SOUND_2_FR_LO, 0xFF),
        (Address::NR24_SOUND_2_FR_HI, 0xBF),
        // NR3X
        (Address::NR30_SOUND_3_ON_OFF, 0x7F),
        (Address::NR31_SOUND_3_LENGTH, 0xFF),
        (Address::NR32_SOUND_3_OUTPUT_LEVEL, 0x9F),
        (Address::NR33_SOUND_3_FR_LO, 0xFF),
        (Address::NR34_SOUND_3_FR_HI, 0xBF),
        // NR4X
        (Address::NR40_SOUND_4_UNUSED, 0xFF),
        (Address::NR41_SOUND_4_LENGTH, 0xFF),
        (Address::NR42_SOUND_4_ENVELOPE, 0x00),
        (Address::NR43_SOUND_4_FR_RANDOMNESS, 0x00),
        (Address::NR44_SOUND_4_CONTROL, 0xBF),
        // NR5X
        (Address::NR50, 0x00),
        (Address::NR51, 0x00),
        // NR52 Skipped as it is special
    ];

    for item in items {
        assert_eq!(
            apu.read_byte(item.0),
            item.1,
            "Wrong data when writing register {:X}",
            item.0
        );
    }
}

fn get_trigger_address(channel: u8) -> u16 {
    match channel {
        1 => Address::NR14_SOUND_1_FR_HI,
        2 => Address::NR24_SOUND_2_FR_HI,
        3 => Address::NR34_SOUND_3_FR_HI,
        4 => Address::NR44_SOUND_4_CONTROL,
        _ => unreachable!(),
    }
}

fn get_dac_address(channel: u8) -> u16 {
    match channel {
        1 => Address::NR12_SOUND_1_ENVELOPE,
        2 => Address::NR22_SOUND_2_ENVELOPE,
        3 => Address::NR30_SOUND_3_ON_OFF,
        4 => Address::NR42_SOUND_4_ENVELOPE,
        _ => unreachable!(),
    }
}

#[test]
fn test_correct_data_when_writing_audio_registers() {
    let mut apu = Apu::default();

    for position in Address::NR10_SOUND_1_SWEEP..=Address::NR51 {
        apu.write_byte(position, 0xFF);
        apu.write_byte(position, 0);
    }

    check_basic_audio_registers_are_reset(&mut apu);
}

#[test]
fn test_when_sound_is_turned_off_all_audio_registers_are_reset() {
    let mut apu = Apu::default();

    for position in Address::NR10_SOUND_1_SWEEP..=Address::NR51 {
        apu.write_byte(position, 0xFF);
    }

    apu.write_byte(Address::NR52_SOUND, 0);
    apu.write_byte(Address::NR52_SOUND, 0b10000000);

    check_basic_audio_registers_are_reset(&mut apu);
}

#[test]
fn test_when_sound_is_turned_off_audio_registers_ignore_writes() {
    let mut apu = Apu::default();

    for position in Address::NR10_SOUND_1_SWEEP..=Address::NR51 {
        apu.write_byte(position, 0x00);
    }

    apu.write_byte(Address::NR52_SOUND, 0);

    for position in Address::NR10_SOUND_1_SWEEP..=Address::NR51 {
        apu.write_byte(position, 0xFF);
    }

    check_basic_audio_registers_are_reset(&mut apu);
}

#[test]
fn test_when_sound_is_turned_off_wave_pattern_register_is_writable() {
    let mut apu = Apu::default();

    apu.write_byte(Address::NR52_SOUND, 0);

    for position in Address::WAVE_PATTERN_START..=Address::WAVE_PATTERN_END {
        apu.write_byte(position, 0xFF);
        assert_eq!(0xFF, apu.read_byte(position));
    }
}

#[test]
fn test_correct_data_when_writing_wave_registers() {
    let mut apu = Apu::default();

    // WAVE
    for position in Address::WAVE_PATTERN_START..=Address::WAVE_PATTERN_END {
        apu.write_byte(position, 0xFF);
        apu.write_byte(position, 0);

        assert_eq!(
            apu.read_byte(position),
            0,
            "Wrong data when writing register {:X}",
            position
        );
    }
}

#[test]
fn test_when_channel_is_triggered_nr52_channel_flag_is_set() {
    let mut apu = Apu::default();

    for channel in 1..=4 {
        let address = get_trigger_address(channel);

        apu.write_byte(address, 0b1000_0000);

        let flag = (apu.read_byte(Address::NR52_SOUND) >> (channel - 1) & 0b1) == 1;
        assert!(flag, "Channel {} should be active", channel);
    }
}

#[test]
fn test_when_dac_is_turned_off_channel_flag_is_set_off() {
    let mut apu = Apu::default();

    for channel in 1..=4 {
        let trigger_address = get_trigger_address(channel);
        apu.write_byte(trigger_address, 0b1000_0000);

        let dac_address = get_dac_address(channel);

        apu.write_byte(dac_address, 0);

        let flag = (apu.read_byte(Address::NR52_SOUND) >> (channel - 1) & 0b1) == 0;
        assert!(flag, "Channel {} should not be active", channel);
    }
}

#[test]
fn apu_default_reads_power_up_values() {
    let apu = Apu::default();
    assert_eq!(apu.read_byte(Address::NR50), 0x77);
    assert_eq!(apu.read_byte(Address::NR51), 0xF3);
    assert_eq!(apu.read_byte(Address::NR52_SOUND), 0xF1);
    assert_eq!(apu.read_byte(Address::NR10_SOUND_1_SWEEP), 0x80);
    assert_eq!(apu.read_byte(0xFF27), 0xFF);
}

#[test]
fn apu_turning_off_reads_nr52_as_off() {
    let mut apu = Apu::default();
    apu.write_byte(Address::NR52_SOUND, 0);
    assert_eq!(apu.read_byte(Address::NR52_SOUND), 0x70);
    apu.write_byte(Address::NR50, 0x12);
    assert_eq!(apu.read_byte(Address::NR50), 0x00);
}

#[test]
fn apu_turning_on_restarts_frame_sequencer() {
    let mut apu = Apu::default();
    apu.tick();
    apu.tick();
    apu.tick();
    assert_eq!(apu.div_apu, 3);
    apu.write_byte(Address::NR52_SOUND, 0);
    apu.write_byte(Address::NR52_SOUND, 0x80);
    assert_eq!(apu.div_apu, 0);
    assert_eq!(apu.read_byte(Address::NR52_SOUND), 0xF0);
}

#[test]
fn apu_master_registers_read_back_while_on() {
    let mut apu = Apu::default();
    apu.write_byte(Address::NR50, 0x5A);
    apu.write_byte(Address::NR51, 0xA5);
    assert_eq!(apu.read_byte(Address::NR50), 0x5A);
    assert_eq!(apu.read_byte(Address::NR51), 0xA5);
}

#[test]
fn apu_tick_counts_frame_sequencer_modulo_eight() {
    let mut apu = Apu::default();
    for _ in 0..8 {
        apu.tick();
    }
    assert_eq!(apu.div_apu, 0);
    apu.tick();
    assert_eq!(apu.div_apu, 1);
}

#[test]
fn apu_length_timer_turns_channel_two_off() {
    let mut apu = Apu::default();
    apu.write_byte(Address::NR22_SOUND_2_ENVELOPE, 0xF0);
    // Trigger with the length timer enabled.
    apu.write_byte(Address::NR24_SOUND_2_FR_HI, 0b1100_0000);
    assert_eq!(apu.read_byte(Address::NR52_SOUND) & 0b10, 0b10);
    // The length timer ticks on every other frame sequencer step: 63 ticks keep the
    // channel on, the 64th reaches the maximum length and turns it off.
    for _ in 0..126 {
        apu.tick();
    }
    assert_eq!(apu.read_byte(Address::NR52_SOUND) & 0b10, 0b10);
    apu.tick();
    assert_eq!(apu.read_byte(Address::NR52_SOUND) & 0b10, 0);
}
