//! The state of the wave channel: its frequency, output level, pattern, length timer
//! and the counter of the samples it has produced.

use vstd::prelude::*;

use crate::audio::registers::channel_stoppable::ChannelStopabble;
use crate::audio::registers::control_updatable::{ControlRegisterUpdatable, ControlUpdatable};
use crate::audio::registers::frequency_updatable::{
    high_part_spec, FrequencyRegisterUpdatable, FrequencyUpdatable,
};
use crate::audio::registers::length_updatable::{LengthRegisterUpdatable, LengthUpdatable};
use crate::audio::wave::output_level::WaveOutputLevel;
use crate::audio::wave_pattern_ram::WavePatternRam;

verus! {

/// The wave channel.
pub struct WaveDescription {
    pub set: bool,
    pub frequency: u16,
    pub output_level: WaveOutputLevel,
    pub wave: WavePatternRam,
    pub use_length: bool,
    pub length: u8,
    pub remaining_steps: u16,
    pub should_play: bool,
    pub sample_clock: u64,
    pub stop: bool,
}

impl WaveDescription {
    /// The channel, stopped.
    pub open spec fn stopped(self) -> Self {
        WaveDescription { stop: true, ..self }
    }

    /// The channel after one of the length timer's 256 Hz clocks: with the length timer
    /// on and steps left, one step is taken, and the channel stops at the last.
    pub open spec fn step_256_spec(self) -> Self {
        if self.use_length && self.remaining_steps > 0 {
            let left = (self.remaining_steps - 1) as u16;
            WaveDescription { remaining_steps: left, stop: if left == 0 { true } else { self.stop }, ..self }
        } else {
            self
        }
    }

    /// A channel with every field at its start value: silent, at frequency 0, full
    /// volume, an empty pattern, no length, not playing.
    pub fn new() -> (r: Self)
        ensures
            !r.set && !r.use_length && !r.should_play && !r.stop,
            r.frequency == 0 && r.length == 0 && r.remaining_steps == 0 && r.sample_clock == 0,
            r.output_level == WaveOutputLevel::Vol100Percent,
            forall|i: int| 0 <= i < 16 ==> r.wave.data@[i] == 0,
    {
        WaveDescription {
            set: false,
            frequency: 0,
            output_level: WaveOutputLevel::default(),
            wave: WavePatternRam::default(),
            use_length: false,
            length: 0,
            remaining_steps: 0,
            should_play: false,
            sample_clock: 0,
            stop: false,
        }
    }

    /// One of the length timer's 256 Hz clocks.
    pub fn step_256(&mut self)
        ensures
            *final(self) == old(self).step_256_spec(),
    {
        if self.use_length && self.remaining_steps > 0 {
            self.remaining_steps = self.remaining_steps - 1;

            if self.remaining_steps == 0 {
                self.stop_channel();
            }
        }
    }

    /// The number of the next sample; the counter moves on by one (wrapping at 2^64).
    pub fn next_sample_clock(&mut self) -> (r: u64)
        ensures
            r == old(self).sample_clock,
            *final(self) == (WaveDescription {
                sample_clock: vstd::wrapping::u64_specs::wrapping_add(old(self).sample_clock, 1),
                ..*old(self)
            }),
    {
        let value: u64 = self.sample_clock;
        self.sample_clock = self.sample_clock.wrapping_add(1);

        value
    }

    /// A write of NR30: bit 7 switches the channel's DAC on; switched off, it stops.
    pub fn trigger_wave_onoff_register_update(&mut self, register: u8)
        ensures
            *final(self) == (if register >= 128 {
                WaveDescription { should_play: true, ..*old(self) }
            } else {
                WaveDescription { should_play: false, stop: true, ..*old(self) }
            }),
    {
        proof { crate::bits::lemma_byte_bits(); }
        self.should_play = register & 0b10000000u8 == 0b10000000u8;

        if !self.should_play {
            self.stop_channel();
        }
    }

    /// A write of NR32: the output level bits 5 and 6 select.
    pub fn trigger_wave_output_level_register_update(&mut self, register: u8)
        ensures
            *final(self) == (WaveDescription { output_level: WaveOutputLevel::from_register(register), ..*old(self) }),
    {
        self.output_level = WaveOutputLevel::from(register);
    }

    /// Replaces the pattern the channel plays.
    pub fn trigger_wave_pattern_update(&mut self, pattern: WavePatternRam)
        ensures
            *final(self) == (WaveDescription { wave: pattern, ..*old(self) }),
    {
        self.wave = pattern;
    }
}

impl Default for WaveDescription {
    fn default() -> (r: Self)
        ensures
            !r.set && !r.use_length && !r.should_play && !r.stop,
            r.frequency == 0 && r.length == 0 && r.remaining_steps == 0 && r.sample_clock == 0,
            r.output_level == WaveOutputLevel::Vol100Percent,
    {
        WaveDescription::new()
    }
}

impl LengthUpdatable for WaveDescription {
    open spec fn maximum_length_spec() -> u16 {
        256
    }

    open spec fn length_from_register_spec(register: u8) -> u8 {
        register
    }

    open spec fn length_spec(&self) -> u8 {
        self.length
    }

    open spec fn remaining_steps_spec(&self) -> u16 {
        self.remaining_steps
    }

    open spec fn with_length_spec(&self, length: u8) -> Self {
        WaveDescription { length, ..*self }
    }

    open spec fn with_remaining_steps_spec(&self, remaining_steps: u16) -> Self {
        WaveDescription { remaining_steps, ..*self }
    }

    fn get_maximum_length() -> (r: u16) {
        256
    }

    fn calculate_length_from_register(register: u8) -> (r: u8) {
        register
    }

    fn set_length(&mut self, length: u8) {
        self.length = length;
    }

    fn get_length(&mut self) -> (r: u8) {
        self.length
    }

    fn set_remaining_steps(&mut self, remaining_steps: u16) {
        self.remaining_steps = remaining_steps;
    }
}

impl LengthRegisterUpdatable for WaveDescription {
    /// The length is the register and the steps left are 256 minus it.
    open spec fn length_register_update_spec(&self, register: u8) -> Self {
        WaveDescription { length: register, remaining_steps: (256 - register) as u16, ..*self }
    }

    fn trigger_length_register_update(&mut self, register: u8) {
        self.update_length_from_register(register);
    }
}

impl ChannelStopabble for WaveDescription {
    open spec fn stopped_spec(&self) -> Self {
        self.stopped()
    }

    fn stop_channel(&mut self) {
        self.stop = true;
    }
}

impl ControlUpdatable for WaveDescription {
}

impl ControlRegisterUpdatable for WaveDescription {
    open spec fn channel_wf(&self) -> bool {
        true
    }

    /// The channel restarts: not stopped, the sample counter at 0, its frequency's bits
    /// 8 to 10 from bits 0 to 2, triggered by bit 7, its length timer on by bit 6; when
    /// triggered, a spent length timer is reloaded with 256 steps; with its DAC off it
    /// stops.
    open spec fn control_register_update_spec(&self, register: u8, next_frame_step_is_length: bool) -> Self {
        let w1 = WaveDescription {
            stop: false,
            sample_clock: 0,
            frequency: high_part_spec(self.frequency, register),
            set: register >= 128,
            use_length: (register as int / 64) % 2 == 1,
            ..*self
        };
        let w2 = if w1.set && w1.remaining_steps == 0 {
            WaveDescription { remaining_steps: 256, ..w1 }
        } else {
            w1
        };
        if !w2.should_play {
            w2.stopped()
        } else {
            w2
        }
    }

    fn trigger_control_register_update(&mut self, register: u8, next_frame_step_is_length: bool) {
        self.stop = false;
        self.sample_clock = 0;

        self.set_high_part_from_register(register);

        self.set = Self::calculate_initial_from_register(register);
        self.use_length = Self::calculate_use_length_from_register(register);

        if self.set && self.remaining_steps == 0 {
            self.set_remaining_steps(Self::get_maximum_length());
        }

        if !self.should_play {
            self.stop_channel();
        }
    }
}

impl FrequencyUpdatable for WaveDescription {
    open spec fn frequency_spec(&self) -> u16 {
        self.frequency
    }

    open spec fn with_frequency_spec(&self, frequency: u16) -> Self {
        WaveDescription { frequency, ..*self }
    }

    fn set_frequency(&mut self, frequency: u16) {
        self.frequency = frequency;
    }

    fn get_frequency(&self) -> (r: u16) {
        self.frequency
    }
}

impl FrequencyRegisterUpdatable for WaveDescription {
}

} // verus!
