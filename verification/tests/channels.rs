use rustiegb::audio::frame_sequencer::{
    noise_update, pulse_update, wave_update, AudioRegWritten, ChannelUpdate, FrameClocks, FrameSequencer,
    SequencerEvent,
};
use rustiegb::audio::noise::description::NoiseDescription;
use rustiegb::audio::pulse::description::PulseDescription;
use rustiegb::audio::pulse::sweep::Sweep;
use rustiegb::audio::pulse::wave_pattern_duty::PulseWavePatternDuty;
use rustiegb::audio::registers::control_updatable::ControlRegisterUpdatable;
use rustiegb::audio::registers::envelope_updatable::EnvelopeRegisterUpdatable;
use rustiegb::audio::registers::frequency_updatable::{FrequencyRegisterUpdatable, FrequencyUpdatable};
use rustiegb::audio::registers::length_updatable::{LengthRegisterUpdatable, LengthUpdatable};
use rustiegb::audio::sweep::SweepDirection;
use rustiegb::audio::wave::description::WaveDescription;
use rustiegb::audio::wave::output_level::WaveOutputLevel;

#[test]
fn description_test_stops_when_no_remaining_steps() {
    let mut pd = PulseDescription::default();

    pd.set_length(63);
    pd.refresh_remaining_steps();
    pd.use_length = true;

    assert_eq!(pd.remaining_steps, 1);
    assert_eq!(pd.stop, false);

    pd.step_256();

    assert_eq!(pd.remaining_steps, 0);
    assert_eq!(pd.stop, true);
}

#[test]
fn wave_description_stops_when_no_remaining_steps() {
    let mut wd = WaveDescription::default();
    wd.use_length = true;
    wd.trigger_length_register_update(255);

    assert_eq!(wd.remaining_steps, 1);
    assert_eq!(wd.stop, false);

    wd.step_256();

    assert_eq!(wd.remaining_steps, 0);
    assert_eq!(wd.stop, true);
}

#[test]
fn step_256_without_length_timer_changes_nothing() {
    let mut pd = PulseDescription::default();
    pd.set_remaining_steps(5);
    pd.step_256();
    assert_eq!(pd.remaining_steps, 5);
    assert!(!pd.stop);
}

#[test]
fn pulse_length_register_sets_length_and_duty() {
    let mut pd = PulseDescription::default();
    pd.trigger_length_register_update(0b1100_0101);
    assert_eq!(pd.length, 5);
    assert_eq!(pd.remaining_steps, 59);
    assert_eq!(pd.wave_duty, PulseWavePatternDuty::Percent125);
}

#[test]
fn pulse_frequency_registers_split_the_frequency() {
    let mut pd = PulseDescription::default();
    pd.trigger_frequency_register_update(0xAB);
    assert_eq!(pd.get_frequency(), 0x0AB);
    pd.set_high_part_from_register(0b1111_1101);
    assert_eq!(pd.frequency, 0x5AB);
    pd.trigger_frequency_register_update(0x12);
    assert_eq!(pd.frequency, 0x512);
}

#[test]
fn pulse_control_register_triggers_and_reloads_length() {
    let mut pd = PulseDescription::default();
    pd.trigger_envelope_register_update(0xF3);
    pd.trigger_control_register_update(0b1100_0110, false);
    assert!(pd.set);
    assert!(pd.use_length);
    assert!(!pd.stop);
    assert_eq!(pd.frequency, 0x600);
    assert_eq!(pd.remaining_steps, 64);
    assert_eq!(pd.sample_clock, 0);
}

#[test]
fn pulse_control_register_with_silent_envelope_stops() {
    let mut pd = PulseDescription::default();
    pd.trigger_envelope_register_update(0x00);
    pd.trigger_control_register_update(0b1000_0000, false);
    assert!(pd.stop);
}

#[test]
fn pulse_sample_clock_counts_and_restarts_on_trigger() {
    let mut pd = PulseDescription::default();
    pd.trigger_envelope_register_update(0xF0);
    assert_eq!(pd.next_sample_clock(), 0);
    assert_eq!(pd.next_sample_clock(), 1);
    assert_eq!(pd.sample_clock, 2);
    pd.trigger_control_register_update(0x80, false);
    assert_eq!(pd.sample_clock, 0);
}

#[test]
fn sweep_update_from_register_basic() {
    let mut sweep = Sweep::default();
    sweep.calculated = true;

    sweep.update_from_register(0b1011010, &mut PulseDescription::default());

    assert_eq!(sweep.time, 0b101);
    assert_eq!(sweep.shifts, 0b010);
    assert_eq!(sweep.direction, SweepDirection::Sub);
    assert_eq!(sweep.timer, 0);
    assert_eq!(sweep.enabled, false);
    assert_eq!(sweep.shadow_frequency, 0);
    assert_eq!(sweep.calculated, false);
}

#[test]
fn sweep_update_from_register_stops_channel() {
    let mut sweep = Sweep::default();
    sweep.calculated = true;
    sweep.direction = SweepDirection::Sub;

    let mut description = PulseDescription::default();
    assert!(!description.stop);

    sweep.update_from_register(0b1010010, &mut description);

    assert_eq!(sweep.time, 0b101);
    assert_eq!(sweep.shifts, 0b010);
    assert_eq!(sweep.direction, SweepDirection::Add);
    assert_eq!(sweep.calculated, false);

    assert!(description.stop);
}

#[test]
fn sweep_calculates_and_writes_back_frequency() {
    let mut pd = PulseDescription::default();
    pd.init_sweep();
    pd.frequency = 0x100;
    pd.trigger_envelope_register_update(0xF0);
    // time 1, addition, 1 shift
    pd.reload_sweep(0b0001_0001);
    pd.trigger_control_register_update(0x80 | 0x01, false);
    let sweep = pd.sweep.unwrap();
    assert_eq!(sweep.shadow_frequency, 0x100);
    assert_eq!(sweep.timer, 1);
    assert!(sweep.enabled);
    // the timer runs out: 0x100 + 0x80
    let written = pd.step_128();
    assert_eq!(written, Some(0x180));
    assert_eq!(pd.frequency, 0x180);
    assert_eq!(pd.sweep.unwrap().shadow_frequency, 0x180);
    assert!(!pd.stop);
}

#[test]
fn sweep_overflow_stops_channel() {
    let mut pd = PulseDescription::default();
    pd.init_sweep();
    pd.frequency = 0x7FF;
    pd.trigger_envelope_register_update(0xF0);
    pd.reload_sweep(0b0001_0001);
    // triggering calculates at once: 0x7FF + 0x3FF > 2047
    pd.trigger_control_register_update(0x87, false);
    assert!(pd.stop);
}

#[test]
fn wave_onoff_and_output_level() {
    let mut wd = WaveDescription::new();
    wd.trigger_wave_onoff_register_update(0x80);
    assert!(wd.should_play);
    assert!(!wd.stop);
    wd.trigger_wave_output_level_register_update(0b0100_0000);
    assert_eq!(wd.output_level, WaveOutputLevel::Vol50Percent);
    wd.trigger_control_register_update(0x80, false);
    assert_eq!(wd.remaining_steps, 256);
    assert!(!wd.stop);
    wd.trigger_wave_onoff_register_update(0x00);
    assert!(!wd.should_play);
    assert!(wd.stop);
}

#[test]
fn noise_lfsr_and_poly_counter() {
    let mut nd = NoiseDescription::new();
    nd.trigger_poly_counter_register_update(0b0011_1010);
    assert_eq!(nd.poly_div_ratio, 2);
    assert!(nd.poly_step);
    assert_eq!(nd.poly_shift_clock_freq, 3);
    assert_eq!(nd.frequency_divisor(), 0);
    nd.poly_shift_clock_freq = 1;
    assert_eq!(nd.frequency_divisor(), 64);

    nd.poly_step = false;
    nd.lfsr = 0b01;
    nd.update_lfsr();
    assert_eq!(nd.lfsr, 0b100_0000_0000_0000);
    nd.poly_step = true;
    nd.lfsr = 0b10;
    nd.update_lfsr();
    assert_eq!(nd.lfsr, 0b100_0000_0100_0001);
}

#[test]
fn noise_control_clocks_length_when_next_step_is_not_length() {
    let mut nd = NoiseDescription::new();
    nd.trigger_envelope_register_update(0xF0);
    nd.trigger_length_register_update(60);
    assert_eq!(nd.remaining_steps, 4);
    nd.trigger_control_register_update(0b1100_0000, false);
    assert_eq!(nd.remaining_steps, 3);
    nd.use_length = false;
    nd.trigger_control_register_update(0b1100_0000, true);
    assert_eq!(nd.remaining_steps, 3);
}

#[test]
fn frame_sequencer_steps_and_clocks() {
    let mut fs = FrameSequencer::new();
    assert_eq!(fs.step(0x00, 4), SequencerEvent::Stopped);
    let none = SequencerEvent::Running(FrameClocks { length: false, envelope: false, sweep: false });
    assert_eq!(fs.step(0x80, 200), none);
    assert_eq!(fs.frame_step, 7);
    fs.cycle_count = 8190;
    assert_eq!(fs.step(0x80, 4), SequencerEvent::Running(FrameClocks { length: true, envelope: false, sweep: false }));
    assert_eq!(fs.frame_step, 0);
    assert_eq!(fs.cycle_count, 2);
    assert!(!fs.next_frame_step_is_length());
    fs.frame_step = 1;
    fs.cycle_count = 8192;
    assert_eq!(fs.step(0x80, 1), SequencerEvent::Running(FrameClocks { length: true, envelope: false, sweep: true }));
}

#[test]
fn register_writes_pick_one_update() {
    let all = AudioRegWritten {
        length: true,
        sweep_or_wave_onoff: true,
        envelope_or_wave_out_lvl: true,
        frequency_or_poly_counter: true,
        control: true,
        wave_pattern: true,
    };
    assert!(all.has_change());
    assert_eq!(pulse_update(&all), ChannelUpdate::Length);
    assert_eq!(wave_update(&all), ChannelUpdate::WaveOnOff);
    assert_eq!(noise_update(&all), ChannelUpdate::Length);
    let poly = AudioRegWritten {
        length: false,
        sweep_or_wave_onoff: false,
        envelope_or_wave_out_lvl: false,
        frequency_or_poly_counter: true,
        control: true,
        wave_pattern: false,
    };
    assert_eq!(noise_update(&poly), ChannelUpdate::PolyCounter);
    assert_eq!(pulse_update(&poly), ChannelUpdate::Frequency);
    let none = AudioRegWritten { frequency_or_poly_counter: false, control: false, ..poly };
    assert!(!none.has_change());
    assert_eq!(wave_update(&none), ChannelUpdate::Nothing);
}

#[test]
fn noise_frequency_timer_reloads_on_overflow() {
    let mut nd = NoiseDescription::new();
    nd.trigger_poly_counter_register_update(0b0001_0011);
    nd.reset_frequency_timer();
    // ratio 3: 48, shifted by 1: 96
    assert_eq!(nd.frequency_timer, 96);
    nd.lfsr = 0b01;
    nd.step(50);
    assert_eq!(nd.frequency_timer, 96);
    assert_eq!(nd.lfsr, 0b01);
    nd.frequency_timer = 10;
    nd.step(30);
    assert_eq!(nd.frequency_timer, 76);
    assert_eq!(nd.lfsr, 0b100_0000_0000_0000);
}
