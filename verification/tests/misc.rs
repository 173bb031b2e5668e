use rustiegb::configuration::RuntimeConfig;
use rustiegb::gpu::color::Color;
use rustiegb::math::{is_bit_set, two_bytes_to_word, word_to_two_bytes};

#[test]
fn runtime_config_defaults_and_toggles() {
    let mut config = RuntimeConfig::default();
    assert_eq!(config.available_cycles, 70221);
    assert!(config.cpu_has_available_ccycles());
    config.toggle_mute();
    assert!(config.muted);
    config.toggle_debug();
    assert!(config.is_debug());
    config.set_reset(true);
    assert!(config.has_been_reset());
}

#[test]
fn runtime_config_frame_budget_scales_with_speed() {
    let mut config = RuntimeConfig::default();
    config.user_speed_multiplier = 3;
    config.reset_available_ccycles();
    assert_eq!(config.available_cycles, 210663);
    config.available_cycles = 0;
    assert!(!config.cpu_has_available_ccycles());
}

#[test]
fn colors_from_shades_and_palettes() {
    assert_eq!(Color::from(0).to_rgba(), [255, 255, 255, 255]);
    assert_eq!(Color::from(1), Color::light_grey());
    assert_eq!(Color::from(2), Color::dark_grey());
    assert_eq!(Color::from(3), Color::black());
    // Palette 0b11_10_01_00: pixel p gets shade p.
    assert_eq!(Color::from_pixel(3, 0b1110_0100), Color::black());
    assert_eq!(Color::from_pixel(0, 0b1110_0100), Color::white());
    // Palette 0b00_01_10_11 reverses it.
    assert_eq!(Color::from_pixel(3, 0b0001_1011), Color::white());
    assert_eq!(Color::from_pixel(1, 0b0001_1011), Color::dark_grey());
    assert_eq!(Color::new(1, 2, 3).to_rgba(), [1, 2, 3, 255]);
}

#[test]
fn bytes_and_words() {
    assert_eq!(two_bytes_to_word(0x12, 0x34), 0x1234);
    assert_eq!(word_to_two_bytes(0xABCD), (0xAB, 0xCD));
    assert!(is_bit_set(&0b1000_0000, 7));
    assert!(!is_bit_set(&0b1000_0000, 6));
}
