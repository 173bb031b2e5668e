use rustiegb::audio::channel::ChannelEvent;
use rustiegb::audio::pulse::sweep::Sweep;
use rustiegb::audio::pulse::wave_pattern_duty::PulseWavePatternDuty;
use rustiegb::audio::sweep::{Sweep as RegisterSweep, SweepDirection};
use rustiegb::audio::sweep_channel::SweepChannel;
use rustiegb::audio::volume_envelope::{VolumeEnvelopeDescription, VolumeEnvelopeDirection};
use rustiegb::audio::wave::output_level::WaveOutputLevel;
use rustiegb::audio::wave_pattern_ram::WavePatternRam;

#[test]
fn mod_test_from_ok() {
    let sweep = Sweep::from(0b1011010);

    assert_eq!(sweep.time, 0b101);
    assert_eq!(sweep.shifts, 0b010);
    assert_eq!(sweep.direction, SweepDirection::Sub);
    assert_eq!(sweep.timer, 0);
    assert_eq!(sweep.enabled, false);
    assert_eq!(sweep.shadow_frequency, 0);
    assert_eq!(sweep.calculated, false);
}

#[test]
fn test_default_ok() {
    let sweep = Sweep::default();

    assert_eq!(sweep.time, 0);
    assert_eq!(sweep.shifts, 0);
    assert_eq!(sweep.direction, SweepDirection::Add);
    assert_eq!(sweep.timer, 0);
    assert_eq!(sweep.enabled, false);
    assert_eq!(sweep.shadow_frequency, 0);
    assert_eq!(sweep.calculated, false);
}

#[test]
fn pulse_sweep_reload_timer_uses_eight_for_time_zero() {
    let mut sweep = Sweep::default();
    sweep.reload_timer();
    assert_eq!(sweep.timer, 8);

    let mut sweep = Sweep::from(0b0011_0000);
    sweep.reload_timer();
    assert_eq!(sweep.timer, 3);
}

#[test]
fn register_sweep_from_byte() {
    let sweep = RegisterSweep::from(0b0110_1101);
    assert_eq!(sweep.time, 0b110);
    assert_eq!(sweep.shifts, 0b101);
    assert_eq!(sweep.direction, SweepDirection::Sub);
    assert_eq!(sweep.remaining_time, 0b110);
}

#[test]
fn wave_pattern_duty_from_codes() {
    assert_eq!(PulseWavePatternDuty::from(0), PulseWavePatternDuty::Percent125);
    assert_eq!(PulseWavePatternDuty::from(1), PulseWavePatternDuty::Percent25);
    assert_eq!(PulseWavePatternDuty::from(2), PulseWavePatternDuty::Percent50);
    assert_eq!(PulseWavePatternDuty::from(3), PulseWavePatternDuty::Percent75);
    assert_eq!(PulseWavePatternDuty::default(), PulseWavePatternDuty::Percent50);
}

#[test]
fn wave_output_level_from_register() {
    assert_eq!(WaveOutputLevel::from(0b0000_0000), WaveOutputLevel::Mute);
    assert_eq!(WaveOutputLevel::from(0b0010_0000), WaveOutputLevel::Vol100Percent);
    assert_eq!(WaveOutputLevel::from(0b0100_0000), WaveOutputLevel::Vol50Percent);
    assert_eq!(WaveOutputLevel::from(0b1110_0000), WaveOutputLevel::Vol25Percent);
    assert_eq!(WaveOutputLevel::default(), WaveOutputLevel::Vol100Percent);
}

#[test]
fn volume_envelope_from_register() {
    let envelope = VolumeEnvelopeDescription::from(0b1010_1011);
    assert_eq!(envelope.initial_volume, 0b1010);
    assert_eq!(envelope.current_volume, 0b1010);
    assert_eq!(envelope.direction, VolumeEnvelopeDirection::Up);
    assert_eq!(envelope.period, 0b011);
    assert_eq!(envelope.period_timer, 0b011);

    let envelope = VolumeEnvelopeDescription::from(0b0000_0010);
    assert_eq!(envelope.direction, VolumeEnvelopeDirection::Down);
    assert!(envelope.is_disabled());
}

#[test]
fn volume_envelope_steps_up_each_period() {
    let mut envelope = VolumeEnvelopeDescription::new(14, VolumeEnvelopeDirection::Up, 2);
    envelope.step_64();
    assert_eq!(envelope.current_volume, 14);
    assert_eq!(envelope.period_timer, 1);
    envelope.step_64();
    assert_eq!(envelope.current_volume, 15);
    assert_eq!(envelope.period_timer, 2);
    envelope.step_64();
    envelope.step_64();
    assert_eq!(envelope.current_volume, 15);
}

#[test]
fn volume_envelope_steps_down_to_zero() {
    let mut envelope = VolumeEnvelopeDescription::new(1, VolumeEnvelopeDirection::Down, 1);
    envelope.step_64();
    assert_eq!(envelope.current_volume, 0);
    envelope.step_64();
    assert_eq!(envelope.current_volume, 0);
    assert!(!envelope.is_disabled());
}

#[test]
fn volume_envelope_with_period_zero_stays() {
    let mut envelope = VolumeEnvelopeDescription::new(7, VolumeEnvelopeDirection::Up, 0);
    envelope.step_64();
    assert_eq!(envelope.current_volume, 7);
    assert_eq!(VolumeEnvelopeDirection::from(true), VolumeEnvelopeDirection::Up);
    assert_eq!(VolumeEnvelopeDirection::from(false), VolumeEnvelopeDirection::Down);
}

#[test]
fn wave_pattern_ram_reads_back_writes() {
    let mut ram = WavePatternRam::default();
    ram.write_byte(3, 0xAB);
    assert_eq!(ram.read_byte(3), 0xAB);
    assert_eq!(ram.read_byte(4), 0);
}

#[test]
fn sweep_channel_trigger_with_overflowing_sweep_disables() {
    let mut channel = SweepChannel::new();
    // Pace 1, addition, step 1.
    channel.write_byte(0, 0b0001_0001);
    // Frequency 0x7FF: the first addition overflows.
    channel.write_byte(3, 0xFF);
    let (event, _) = channel.write_byte(4, 0b1000_0111);
    assert_eq!(event, ChannelEvent::ChannelDisabled(1));
}

#[test]
fn sweep_channel_trigger_without_overflow_enables() {
    let mut channel = SweepChannel::new();
    channel.write_byte(0, 0b0001_0001);
    channel.write_byte(3, 0x10);
    let (event, _) = channel.write_byte(4, 0b1000_0001);
    assert_eq!(event, ChannelEvent::ChannelEnabled(1));
}
