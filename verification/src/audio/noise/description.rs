//! The state of the noise channel: its envelope, polynomial counter, shift register,
//! length timer and the counter of the samples it has produced.

use vstd::prelude::*;

use crate::audio::registers::channel_stoppable::ChannelStopabble;
use crate::audio::registers::control_updatable::{ControlRegisterUpdatable, ControlUpdatable};
use crate::audio::registers::envelope_updatable::{EnvelopeRegisterUpdatable, EnvelopeUpdatable};
use crate::audio::registers::length_updatable::{LengthRegisterUpdatable, LengthUpdatable};
use crate::audio::volume_envelope::direction::VolumeEnvelopeDirection;
use crate::audio::volume_envelope::VolumeEnvelopeDescription;

verus! {

/// The noise channel.
#[derive(Debug)]
pub struct NoiseDescription {
    pub set: bool,
    pub volume_envelope: VolumeEnvelopeDescription,
    pub poly_shift_clock_freq: u8,
    pub poly_step: bool,
    pub poly_div_ratio: u8,
    pub stop: bool,
    pub use_length: bool,
    pub length: u8,
    pub remaining_steps: u16,
    pub sample_clock: u64,
    pub lfsr: u16,
    pub frequency_timer: u16,
}

/// The shift register after one step: it moves right by one, bit 14 takes the exclusive
/// or of the two lowest bits, and in 7-bit mode bit 6 takes it too.
pub open spec fn next_lfsr(lfsr: u16, seven_bit: bool) -> u16 {
    let x = (lfsr & 1u16) ^ ((lfsr & 2u16) >> 1u16);
    let shifted = (lfsr >> 1u16) | (x << 14u16);
    if seven_bit {
        (shifted & !(1u16 << 6u16)) | (x << 6u16)
    } else {
        shifted
    }
}

impl NoiseDescription {
    /// The channel, stopped.
    pub open spec fn stopped(self) -> Self {
        NoiseDescription { stop: true, ..self }
    }

    /// The channel after one step of its length timer: one step fewer, and stopped at the last.
    pub open spec fn clock_length_spec(self) -> Self {
        let left = (self.remaining_steps - 1) as u16;
        NoiseDescription { remaining_steps: left, stop: if left == 0 { true } else { self.stop }, ..self }
    }

    /// The channel after one of the length timer's 256 Hz clocks: with the length timer
    /// on and steps left, one step is taken.
    pub open spec fn step_256_spec(self) -> Self {
        if self.use_length && self.remaining_steps > 0 {
            self.clock_length_spec()
        } else {
            self
        }
    }

    /// The divisor of the 524288 Hz clock that paces the shift register: 16 times the
    /// ratio (8 for a ratio of 0), shifted left by the clock shift, within a byte.
    pub open spec fn frequency_divisor_spec(self) -> u8 {
        (if self.poly_div_ratio > 0 { self.poly_div_ratio << 4u8 } else { 8u8 }) << self.poly_shift_clock_freq
    }

    /// The value the frequency timer is reloaded with: 16 times the ratio (8 for a ratio
    /// of 0), shifted left by the clock shift, within 16 bits.
    pub open spec fn frequency_timer_reload(self) -> u16 {
        (if self.poly_div_ratio > 0 { (self.poly_div_ratio as u16) << 4u16 } else { 8u16 }) << (self.poly_shift_clock_freq as u16)
    }

    /// The channel after an instruction of `cycles` cycles: when they exceed the frequency
    /// timer, the timer is reloaded less the excess and the shift register moves on one
    /// step; otherwise nothing changes.
    pub open spec fn step_spec(self, cycles: u8) -> Self {
        if cycles > self.frequency_timer {
            let excess = cycles - self.frequency_timer;
            NoiseDescription {
                frequency_timer: (self.frequency_timer_reload() - excess) as u16,
                lfsr: next_lfsr(self.lfsr, self.poly_step),
                ..self
            }
        } else {
            self
        }
    }

    /// A channel with every field at its start value.
    pub fn new() -> (r: Self)
        ensures
            !r.set && !r.poly_step && !r.stop && !r.use_length,
            r.poly_shift_clock_freq == 0 && r.poly_div_ratio == 0,
            r.length == 0 && r.remaining_steps == 0 && r.sample_clock == 0 && r.lfsr == 0,
            r.frequency_timer == 0,
            r.volume_envelope.initial_volume == 0,
            r.volume_envelope.direction == VolumeEnvelopeDirection::Up,
    {
        NoiseDescription {
            set: false,
            volume_envelope: VolumeEnvelopeDescription::default(),
            poly_shift_clock_freq: 0,
            poly_step: false,
            poly_div_ratio: 0,
            stop: false,
            use_length: false,
            length: 0,
            remaining_steps: 0,
            sample_clock: 0,
            lfsr: 0,
            frequency_timer: 0,
        }
    }

    /// One of the envelope's 64 Hz clocks.
    pub fn step_64(&mut self)
        ensures
            *final(self) == (NoiseDescription {
                volume_envelope: old(self).volume_envelope.step_64_spec(),
                ..*old(self)
            }),
    {
        self.volume_envelope.step_64();
    }

    /// One of the length timer's 256 Hz clocks.
    pub fn step_256(&mut self)
        ensures
            *final(self) == old(self).step_256_spec(),
    {
        if self.use_length && self.remaining_steps > 0 {
            self.clock_length();
        }
    }

    /// Takes one step of the length timer; the channel stops at the last.
    pub fn clock_length(&mut self)
        requires
            old(self).remaining_steps > 0,
        ensures
            *final(self) == old(self).clock_length_spec(),
    {
        self.remaining_steps = self.remaining_steps - 1;

        if self.remaining_steps == 0 {
            self.stop_channel();
        }
    }

    /// The number of the next sample; the counter moves on by one (wrapping at 2^64).
    pub fn next_sample_clock(&mut self) -> (r: u64)
        ensures
            r == old(self).sample_clock,
            *final(self) == (NoiseDescription {
                sample_clock: vstd::wrapping::u64_specs::wrapping_add(old(self).sample_clock, 1),
                ..*old(self)
            }),
    {
        let value: u64 = self.sample_clock;
        self.sample_clock = self.sample_clock.wrapping_add(1);

        value
    }

    /// The divisor of the 524288 Hz clock that paces the shift register.
    pub fn frequency_divisor(&self) -> (r: u8)
        requires
            self.poly_shift_clock_freq < 8,
        ensures
            r == self.frequency_divisor_spec(),
    {
        (if self.poly_div_ratio > 0 { self.poly_div_ratio << 4u8 } else { 8u8 }) << self.poly_shift_clock_freq
    }

    /// Reloads the frequency timer.
    pub fn reset_frequency_timer(&mut self)
        requires
            old(self).poly_shift_clock_freq < 16,
        ensures
            *final(self) == (NoiseDescription { frequency_timer: old(self).frequency_timer_reload(), ..*old(self) }),
    {
        self.frequency_timer = if self.poly_div_ratio > 0 { (self.poly_div_ratio as u16) << 4u16 } else { 8u16 };

        self.frequency_timer = self.frequency_timer << (self.poly_shift_clock_freq as u16);
    }

    /// Counts the cycles of an instruction against the frequency timer; when they exceed
    /// it, the timer is reloaded less the excess and the shift register moves on.
    pub fn step(&mut self, cycles: u8)
        requires
            old(self).poly_shift_clock_freq < 16,
            cycles > old(self).frequency_timer ==> old(self).frequency_timer_reload() >= cycles - old(self).frequency_timer,
        ensures
            *final(self) == old(self).step_spec(cycles),
    {
        if cycles as u16 > self.frequency_timer {
            let excess: u16 = cycles as u16 - self.frequency_timer;
            self.reset_frequency_timer();
            self.frequency_timer = self.frequency_timer - excess;

            self.update_lfsr();
        }
    }

    /// Moves the shift register on by one step.
    pub fn update_lfsr(&mut self)
        ensures
            *final(self) == (NoiseDescription { lfsr: next_lfsr(old(self).lfsr, old(self).poly_step), ..*old(self) }),
    {
        let xor_result: u16 = (self.lfsr & 0b01u16) ^ ((self.lfsr & 0b10u16) >> 1u16);
        self.lfsr = (self.lfsr >> 1u16) | (xor_result << 14u16);

        if self.poly_step {
            self.lfsr = self.lfsr & !(1u16 << 6u16);
            self.lfsr = self.lfsr | (xor_result << 6u16);
        }
    }

    /// A write of NR43: the ratio in bits 0 to 2, 7-bit mode in bit 3, the clock shift in
    /// bits 4 to 7.
    pub fn trigger_poly_counter_register_update(&mut self, register: u8)
        ensures
            *final(self) == (NoiseDescription {
                poly_div_ratio: (register % 8) as u8,
                poly_step: (register / 8) % 2 == 1,
                poly_shift_clock_freq: (register / 16) as u8,
                ..*old(self)
            }),
    {
        proof { crate::bits::lemma_byte_bits(); crate::bits::lemma_sweep_bits(); }
        self.poly_div_ratio = register & 0b111u8;
        self.poly_step = register & 0b1000u8 == 0b1000u8;
        self.poly_shift_clock_freq = register >> 4u8;
    }
}

impl Default for NoiseDescription {
    fn default() -> (r: Self)
        ensures
            !r.set && !r.poly_step && !r.stop && !r.use_length,
            r.length == 0 && r.remaining_steps == 0 && r.sample_clock == 0 && r.lfsr == 0,
    {
        NoiseDescription::new()
    }
}

impl ChannelStopabble for NoiseDescription {
    open spec fn stopped_spec(&self) -> Self {
        self.stopped()
    }

    fn stop_channel(&mut self) {
        self.stop = true;
    }
}

impl LengthUpdatable for NoiseDescription {
    open spec fn maximum_length_spec() -> u16 {
        64
    }

    open spec fn length_from_register_spec(register: u8) -> u8 {
        (register % 64) as u8
    }

    open spec fn length_spec(&self) -> u8 {
        self.length
    }

    open spec fn remaining_steps_spec(&self) -> u16 {
        self.remaining_steps
    }

    open spec fn with_length_spec(&self, length: u8) -> Self {
        NoiseDescription { length, ..*self }
    }

    open spec fn with_remaining_steps_spec(&self, remaining_steps: u16) -> Self {
        NoiseDescription { remaining_steps, ..*self }
    }

    fn get_maximum_length() -> (r: u16) {
        64
    }

    fn calculate_length_from_register(register: u8) -> (r: u8) {
        proof { crate::bits::lemma_length_bits(); }
        register & 0b111111u8
    }

    fn set_length(&mut self, length: u8) {
        self.length = length;
    }

    fn get_length(&mut self) -> (r: u8) {
        self.length
    }

    fn set_remaining_steps(&mut self, remaining_steps: u16) {
        self.remaining_steps = remaining_steps;
    }
}

impl LengthRegisterUpdatable for NoiseDescription {
    /// The length is the register's low six bits and the steps left are 64 minus it.
    open spec fn length_register_update_spec(&self, register: u8) -> Self {
        let length = (register % 64) as u8;
        NoiseDescription { length, remaining_steps: (64 - length) as u16, ..*self }
    }

    fn trigger_length_register_update(&mut self, register: u8) {
        self.update_length_from_register(register);
    }
}

impl EnvelopeUpdatable for NoiseDescription {
    open spec fn envelope_spec(&self) -> VolumeEnvelopeDescription {
        self.volume_envelope
    }

    open spec fn with_envelope_spec(&self, envelope: VolumeEnvelopeDescription) -> Self {
        NoiseDescription { volume_envelope: envelope, ..*self }
    }

    fn set_envelope(&mut self, envelope: VolumeEnvelopeDescription) {
        self.volume_envelope = envelope;
    }
}

impl EnvelopeRegisterUpdatable for NoiseDescription {
}

impl ControlUpdatable for NoiseDescription {
}

impl ControlRegisterUpdatable for NoiseDescription {
    open spec fn channel_wf(&self) -> bool {
        true
    }

    /// The channel restarts: not stopped, triggered by bit 7, its length timer on by
    /// bit 6; when triggered, the sample counter restarts and a spent length timer is
    /// reloaded with 64 steps. When the frame sequencer's next step does not clock the
    /// length timers and the length timer was just switched on (or just reloaded), with
    /// steps left, one step is taken at once. A silent envelope stops the channel.
    open spec fn control_register_update_spec(&self, register: u8, next_frame_step_is_length: bool) -> Self {
        let new_use_length = (register as int / 64) % 2 == 1;
        let n1 = NoiseDescription { stop: false, set: register >= 128, use_length: new_use_length, ..*self };
        let steps_resetted = n1.set && n1.remaining_steps == 0;
        let n2 = if n1.set {
            NoiseDescription {
                sample_clock: 0,
                remaining_steps: if n1.remaining_steps == 0 { 64 } else { n1.remaining_steps },
                ..n1
            }
        } else {
            n1
        };
        let n3 = if !next_frame_step_is_length && (!self.use_length || steps_resetted) && new_use_length
            && n2.remaining_steps > 0 {
            n2.clock_length_spec()
        } else {
            n2
        };
        if n3.volume_envelope.initial_volume == 0 && n3.volume_envelope.direction == VolumeEnvelopeDirection::Down {
            n3.stopped()
        } else {
            n3
        }
    }

    fn trigger_control_register_update(&mut self, register: u8, next_frame_step_is_length: bool) {
        self.stop = false;

        let new_use_length: bool = Self::calculate_use_length_from_register(register);
        let old_use_length: bool = self.use_length;

        self.set = Self::calculate_initial_from_register(register);
        self.use_length = new_use_length;

        let mut steps_resetted: bool = false;

        if self.set {
            self.sample_clock = 0;
            if self.remaining_steps == 0 {
                self.set_remaining_steps(Self::get_maximum_length());
                steps_resetted = true;
            }
        }

        if !next_frame_step_is_length && (!old_use_length || steps_resetted) && new_use_length
            && self.remaining_steps > 0 {
            self.clock_length();
        }

        if self.volume_envelope.is_disabled() {
            self.stop_channel();
        }
    }
}

} // verus!
