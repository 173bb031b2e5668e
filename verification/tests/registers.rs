use rustiegb::audio::registers::nr10::NR10;
use rustiegb::audio::registers::nr30::NR30;
use rustiegb::audio::registers::nr31::NR31;
use rustiegb::audio::registers::nr32::NR32;
use rustiegb::audio::registers::nr41::NR41;
use rustiegb::audio::registers::nr43::NR43;
use rustiegb::audio::registers::nr44::NR44;
use rustiegb::audio::registers::nr52::NR52;
use rustiegb::audio::registers::nrx1::NRX1;
use rustiegb::audio::registers::nrx2::NRX2;
use rustiegb::audio::registers::nrx3::NRX3;
use rustiegb::audio::registers::nrx4::NRX4;
use rustiegb::audio::registers::{AudioRegister, WriteEffect};

#[test]
fn nr10_it_can_read_and_write_the_value() {
    let mut fixture = NR10::default();
    fixture.write(0xFF);
    assert_eq!(fixture.read(), 0xFF);

    fixture.write(0x00);
    assert_eq!(fixture.read(), 0x80);
}

#[test]
fn nr30_it_can_read_and_write_the_value() {
    let mut fixture = NR30::default();
    fixture.write(0xFF);
    assert_eq!(fixture.read(), 0xFF);

    fixture.write(0x00);
    assert_eq!(fixture.read(), 0b0111_1111);
}

#[test]
fn nr31_it_can_write_but_not_read() {
    let mut fixture = NR31::default();
    fixture.write(0xFF);
    assert_eq!(fixture.read(), 0xFF);

    fixture.write(0x00);
    assert_eq!(fixture.read(), 0xFF);
}

#[test]
fn nr32_it_can_read_and_write_the_value() {
    let mut fixture = NR32::default();
    fixture.write(0xFF);
    assert_eq!(fixture.read(), 0xFF);

    fixture.write(0x00);
    assert_eq!(fixture.read(), 0b1001_1111);
}

#[test]
fn nr41_it_can_write_but_not_read() {
    let mut fixture = NR41::default();
    fixture.write(0xFF);
    assert_eq!(fixture.read(), 0xFF);

    fixture.write(0x00);
    assert_eq!(fixture.read(), 0xFF);
}

#[test]
fn nr43_it_can_read_and_write_the_value() {
    let mut fixture = NR43::default();
    fixture.write(0xFF);
    assert_eq!(fixture.read(), 0xFF);

    fixture.write(0x00);
    assert_eq!(fixture.read(), 0x00);
}

#[test]
fn it_can_update_only_the_write_flags() {
    let mut fixture = NR52::default();
    fixture.set_ro_channel_flag_inactive(1);

    fixture.write(0xFF);
    assert_eq!(fixture.read(), 0b11110000);

    fixture.write(0x00);
    assert_eq!(fixture.read(), 0b01110000);

    fixture.write(0xFF);
    assert_eq!(fixture.read(), 0b11110000);
}

#[test]
fn it_reports_all_channels_as_inactive_if_turned_off() {
    let mut fixture = NR52::default();
    fixture.set_ro_channel_flag_active(1);
    fixture.set_ro_channel_flag_active(2);
    fixture.set_ro_channel_flag_active(3);
    fixture.set_ro_channel_flag_active(4);

    fixture.write(0xFF);
    assert_eq!(fixture.read(), 0xFF);

    fixture.write(0x00);
    assert_eq!(fixture.read(), 0b01110000);
}

#[test]
fn nrx1_it_can_read_and_write_the_value() {
    let mut fixture = NRX1::new_nr11();
    fixture.write(0xFF);
    assert_eq!(fixture.read(), 0xFF);

    fixture.write(0x00);
    assert_eq!(fixture.read(), 0x3F);
}

#[test]
fn nrx2_it_can_read_and_write_the_value() {
    let mut fixture = NRX2::new_nr12();
    fixture.write(0xFF);
    assert_eq!(fixture.read(), 0xFF);

    fixture.write(0x00);
    assert_eq!(fixture.read(), 0x00);
}

#[test]
fn nrx3_it_can_write_but_not_read() {
    let mut fixture = NRX3::default();
    fixture.write(0xFF);
    assert_eq!(fixture.read(), 0xFF);

    fixture.write(0x00);
    assert_eq!(fixture.read(), 0xFF);
}

#[test]
fn nrx4_it_can_read_and_write_the_value() {
    let mut fixture = NRX4::default();
    fixture.write(0xFF);
    assert_eq!(fixture.read(), 0xFF);

    fixture.write(0x00);
    assert_eq!(fixture.read(), 0b1011_1111);
}

#[test]
fn nr44_reads_only_the_length_enable_bit() {
    let mut fixture = NR44::default();
    assert_eq!(fixture.write(0x80), WriteEffect::Triggered);
    assert_eq!(fixture.read(), 0xBF);
    assert_eq!(fixture.write(0x40), WriteEffect::NoEffect);
    assert_eq!(fixture.read(), 0xFF);
}

#[test]
fn nrx2_reports_dac_disabled_below_eight() {
    let mut fixture = NRX2::new_nr22();
    assert_eq!(fixture.write(0x07), WriteEffect::DacDisabled);
    assert_eq!(fixture.write(0x08), WriteEffect::NoEffect);
}

#[test]
fn nr30_reports_dac_switches() {
    let mut fixture = NR30::default();
    assert_eq!(fixture.write(0x80), WriteEffect::DacEnabled);
    assert_eq!(fixture.write(0x00), WriteEffect::DacDisabled);
}

#[test]
fn nr52_reports_audio_switches() {
    let mut fixture = NR52::default();
    assert_eq!(fixture.write(0x00), WriteEffect::AudioOff);
    assert!(!fixture.is_on());
    assert_eq!(fixture.write(0x80), WriteEffect::AudioOn);
    assert!(fixture.is_on());
    assert_eq!(fixture.write(0x80), WriteEffect::NoEffect);
}

#[test]
fn nr10_fields_read_back() {
    let mut fixture = NR10::default();
    fixture.write(0b0101_1011);
    assert_eq!(fixture.read_pace(), 0b101);
    assert_eq!(fixture.read_step(), 0b011);
}
