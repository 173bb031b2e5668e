//! Channel 1: a square wave channel whose frequency the sweep unit moves up or down.

use vstd::prelude::*;

use crate::audio::channel::{Channel, ChannelEvent};
use crate::audio::registers::nr10::{NR10, SweepDirection, direction_of};
use crate::audio::registers::nrx1::NRX1;
use crate::audio::registers::nrx2::NRX2;
use crate::audio::registers::nrx3::NRX3;
use crate::audio::registers::nrx4::NRX4;
use crate::audio::registers::WriteEffect;
use crate::memory::ReadMemory;

verus! {

/// Two to the power `step`, for the sweep's steps 0 to 7.
pub open spec fn two_to(step: u8) -> int {
    if step == 0 { 1 }
    else if step == 1 { 2 }
    else if step == 2 { 4 }
    else if step == 3 { 8 }
    else if step == 4 { 16 }
    else if step == 5 { 32 }
    else if step == 6 { 64 }
    else { 128 }
}

fn power_of_two(step: u8) -> (r: u32)
    requires
        step < 8,
    ensures
        r == two_to(step),
{
    match step {
        0 => 1,
        1 => 2,
        2 => 4,
        3 => 8,
        4 => 16,
        5 => 32,
        6 => 64,
        _ => 128,
    }
}

/// Whether a frequency is beyond the 11 bits a period holds.
pub open spec fn overflows(frequency: u32) -> bool {
    frequency > 0x7FF
}

/// The channel with its sweep unit.
pub struct SweepChannel {
    pub channel: Channel<NR10, NRX1, NRX2, NRX3, NRX4>,

    pub sweep_enabled: bool,
    pub sweep_ticks_left: u8,
    pub sweep_frequency_shadow_register: u32,
    pub at_least_one_sweep_negate_has_been_calculated_since_last_trigger: bool,
}

/// Whether an event names channel 1, or none.
pub open spec fn names_channel_one(event: ChannelEvent) -> bool {
    match event {
        ChannelEvent::NoEvent => true,
        ChannelEvent::ChannelEnabled(n) => n == 1,
        ChannelEvent::ChannelDisabled(n) => n == 1,
    }
}

impl SweepChannel {
    /// The channel with the sweep unit is channel 1.
    pub open spec fn wf(self) -> bool {
        self.channel.number == 1
    }

    /// The pace NR10 holds.
    pub open spec fn pace(self) -> u8 {
        ((self.channel.nrx0.value as int / 16) % 8) as u8
    }

    /// The step NR10 holds.
    pub open spec fn step(self) -> u8 {
        (self.channel.nrx0.value as int % 8) as u8
    }

    /// The next frequency the sweep computes from the shadow register, modulo 2^32.
    pub open spec fn new_frequency(self) -> u32 {
        let f = self.sweep_frequency_shadow_register as int;
        let delta = f / two_to(self.step());
        (if direction_of(self.channel.nrx0.value) == SweepDirection::Add {
            (f + delta) % 0x1_0000_0000
        } else {
            (f - delta + 0x1_0000_0000) % 0x1_0000_0000
        }) as u32
    }

    /// The channel after computing the next frequency: a subtraction is remembered.
    pub open spec fn after_calculation(self) -> Self {
        if direction_of(self.channel.nrx0.value) == SweepDirection::Sub {
            SweepChannel { at_least_one_sweep_negate_has_been_calculated_since_last_trigger: true, ..self }
        } else {
            self
        }
    }

    /// The sweep timer reloaded from the pace, 8 when the pace is 0.
    pub open spec fn reloaded_ticks(self) -> u8 {
        if self.pace() == 0 { 8 } else { self.pace() }
    }

    /// The channel and the event after one clock of the sweep unit. Nothing happens while
    /// its timer is at 0. Otherwise the timer counts down (and is reloaded when it runs
    /// out); if the sweep is enabled with a non-zero pace, the next frequency is computed
    /// and turns the channel off if it overflows; when the timer ran out and the step is
    /// not 0, it becomes the period and the shadow register, and the frequency after it is
    /// checked for overflow in turn.
    pub open spec fn tick_sweep_spec(self) -> (Self, ChannelEvent) {
        if self.sweep_ticks_left == 0 {
            (self, ChannelEvent::NoEvent)
        } else {
            let exhausted = self.sweep_ticks_left == 1;
            let s1 = SweepChannel {
                sweep_ticks_left: if exhausted { self.reloaded_ticks() } else { (self.sweep_ticks_left - 1) as u8 },
                ..self
            };
            if !s1.sweep_enabled || s1.pace() == 0 {
                (s1, ChannelEvent::NoEvent)
            } else {
                let s2 = s1.after_calculation();
                let f = s1.new_frequency();
                if overflows(f) {
                    (s2, ChannelEvent::ChannelDisabled(self.channel.number))
                } else if !exhausted || s2.step() == 0 {
                    (s2, ChannelEvent::NoEvent)
                } else {
                    let s3 = SweepChannel {
                        sweep_frequency_shadow_register: f,
                        channel: Channel {
                            nrx3: NRX3 { value: (f as int % 256) as u8 },
                            nrx4: NRX4 {
                                value: (s2.channel.nrx4.value as int - s2.channel.nrx4.value as int % 8 + f as int / 256) as u8,
                            },
                            ..s2.channel
                        },
                        ..s2
                    };
                    (s3.after_calculation(), if overflows(s3.new_frequency()) {
                        ChannelEvent::ChannelDisabled(self.channel.number)
                    } else {
                        ChannelEvent::NoEvent
                    })
                }
            }
        }
    }

    /// The channel and the event after a trigger: the shadow register takes the period,
    /// the timer is reloaded, the sweep is enabled if the pace or step is not 0, and with a
    /// non-zero step the next frequency is computed, turning the channel off if it overflows.
    pub open spec fn triggered(self, channel_event: ChannelEvent) -> (Self, ChannelEvent) {
        let s = SweepChannel {
            sweep_frequency_shadow_register: self.channel.frequency_spec(),
            sweep_ticks_left: self.reloaded_ticks(),
            sweep_enabled: self.pace() != 0 || self.step() != 0,
            ..self
        };
        if s.step() != 0 {
            (s.after_calculation(), if overflows(s.new_frequency()) {
                ChannelEvent::ChannelDisabled(self.channel.number)
            } else {
                channel_event
            })
        } else {
            (s, channel_event)
        }
    }

    /// The channel, the event for NR52 and the register's write effect after writing
    /// `value` to register `position`. A trigger runs the sweep's trigger handling; a
    /// change of direction from subtraction to addition after a subtraction was computed
    /// turns the channel off; a write to NR10 forgets past subtractions.
    pub open spec fn write_spec(self, position: u16, value: u8) -> (Self, ChannelEvent, WriteEffect) {
        let (written, channel_event) = self.channel.write_spec(position, value);
        let effect = self.channel.write_effect(position, value);
        let s = SweepChannel { channel: written, ..self };
        let (s2, event) = if effect == WriteEffect::Triggered {
            s.triggered(channel_event)
        } else if effect == WriteEffect::SweepDirectionFromSubToAdd
            && self.at_least_one_sweep_negate_has_been_calculated_since_last_trigger {
            (s, ChannelEvent::ChannelDisabled(self.channel.number))
        } else {
            (s, channel_event)
        };
        (if position == 0 {
            SweepChannel { at_least_one_sweep_negate_has_been_calculated_since_last_trigger: false, ..s2 }
        } else {
            s2
        }, event, effect)
    }

    /// The channel and the event after one tick of the length timer.
    pub open spec fn tick_length_spec(self) -> (Self, ChannelEvent) {
        (SweepChannel { channel: self.channel.tick_length_spec().0, ..self }, self.channel.tick_length_spec().1)
    }

    /// Channel 1 at power-up.
    pub open spec fn new_spec() -> Self {
        SweepChannel {
            channel: Channel {
                number: 1,
                nrx0: NR10 { value: 0x80 },
                nrx1: NRX1 { value: 0xBF },
                nrx2: NRX2 { value: 0xF3 },
                nrx3: NRX3 { value: 0xFF },
                nrx4: NRX4 { value: 0xBF },
                length_counter: 0,
                max_length: 64,
            },
            sweep_enabled: false,
            sweep_ticks_left: 0,
            sweep_frequency_shadow_register: 0,
            at_least_one_sweep_negate_has_been_calculated_since_last_trigger: false,
        }
    }

    /// Channel 1 at power-up.
    pub fn new() -> (c: Self)
        ensures
            c == Self::new_spec(),
            c.wf(),
    {
        Self {
            channel: Channel::new(
                1,
                NR10::default(),
                NRX1::new_nr11(),
                NRX2::new_nr12(),
                NRX3::default(),
                NRX4::default(),
                64,
            ),
            sweep_enabled: false,
            sweep_ticks_left: 0,
            sweep_frequency_shadow_register: 0,
            at_least_one_sweep_negate_has_been_calculated_since_last_trigger: false,
        }
    }

    /// Clocks the sweep unit. Nothing happens while its timer is at 0. Otherwise the timer
    /// counts down (and is reloaded when it runs out); if the sweep is enabled with a
    /// non-zero pace, the next frequency is computed and turns the channel off if it
    /// overflows; when the timer ran out and the step is not 0, it becomes the period and
    /// the shadow register, and the frequency after it is checked for overflow in turn.
    pub fn tick_sweep(&mut self) -> (event: ChannelEvent)
        ensures
            (*final(self), event) == old(self).tick_sweep_spec(),
            old(self).wf() ==> final(self).wf() && names_channel_one(event),
    {
        // Prevents overflows
        if self.sweep_ticks_left == 0 {
            return ChannelEvent::NoEvent;
        };

        let ticks_exhausted: bool = self.decrease_sweep_ticks_left();

        if !self.sweep_enabled || self.channel.get_nrx0().read_pace() == 0 {
            return ChannelEvent::NoEvent;
        }

        let (new_frequency, frequency_will_overflow) = self.calculate_new_frequency();

        if frequency_will_overflow {
            return ChannelEvent::ChannelDisabled(self.channel.get_number());
        }

        if !ticks_exhausted {
            return ChannelEvent::NoEvent;
        }

        if self.channel.get_nrx0().read_step() != 0 {
            self.sweep_frequency_shadow_register = new_frequency;
            self.channel.write_frequency(new_frequency);

            let (_, frequency_will_overflow) = self.calculate_new_frequency();

            if frequency_will_overflow {
                return ChannelEvent::ChannelDisabled(self.channel.get_number());
            }
        }

        ChannelEvent::NoEvent
    }

    /// Counts the sweep timer down; when it runs out it is reloaded and true is returned.
    fn decrease_sweep_ticks_left(&mut self) -> (reset: bool)
        requires
            old(self).sweep_ticks_left > 0,
        ensures
            reset == (old(self).sweep_ticks_left == 1),
            *final(self) == (SweepChannel {
                sweep_ticks_left: if reset { old(self).reloaded_ticks() } else { (old(self).sweep_ticks_left - 1) as u8 },
                ..*old(self)
            }),
    {
        self.sweep_ticks_left = self.sweep_ticks_left - 1;

        if self.sweep_ticks_left == 0 {
            self.reset_sweep_ticks_left();
            return true;
        }

        false
    }

    /// The sweep is enabled when NR10's pace or step is not 0.
    fn refresh_sweep_enabled(&mut self)
        ensures
            *final(self) == (SweepChannel { sweep_enabled: old(self).pace() != 0 || old(self).step() != 0, ..*old(self) }),
    {
        let nr10: &NR10 = self.channel.get_nrx0();
        self.sweep_enabled = nr10.read_pace() != 0 || nr10.read_step() != 0;
    }

    /// Reloads the sweep timer from the pace, 8 when the pace is 0.
    fn reset_sweep_ticks_left(&mut self)
        ensures
            *final(self) == (SweepChannel { sweep_ticks_left: old(self).reloaded_ticks(), ..*old(self) }),
    {
        self.sweep_ticks_left = self.channel.get_nrx0().read_pace();

        if self.sweep_ticks_left == 0 {
            self.sweep_ticks_left = 8;
        }
    }

    /// Computes the next frequency from the shadow register: it moves by the shadow
    /// frequency divided by 2 to the power of the step, up or down as NR10 says. Gives it
    /// and whether it overflows.
    fn calculate_new_frequency(&mut self) -> (r: (u32, bool))
        ensures
            r.0 == old(self).new_frequency(),
            r.1 == overflows(r.0),
            *final(self) == old(self).after_calculation(),
    {
        let nr10: &NR10 = self.channel.get_nrx0();

        let frequency: u32 = self.sweep_frequency_shadow_register;
        let direction: SweepDirection = nr10.read_direction();
        let step: u8 = nr10.read_step();

        let to_add_or_sub: u32 = frequency / power_of_two(step);

        let new_frequency: u32 = match direction {
            SweepDirection::Add => frequency.wrapping_add(to_add_or_sub),
            SweepDirection::Sub => {
                self.at_least_one_sweep_negate_has_been_calculated_since_last_trigger = true;
                frequency.wrapping_sub(to_add_or_sub)
            },
        };

        (new_frequency, Self::frequency_will_overflow(new_frequency))
    }

    /// Whether a frequency is beyond the 11 bits a period holds.
    fn frequency_will_overflow(new_frequency: u32) -> (r: bool)
        ensures
            r == overflows(new_frequency),
    {
        new_frequency > 0x7FF
    }

    /// What a trigger does to the sweep: the shadow register takes the period, the timer
    /// is reloaded, the sweep is enabled if the pace or step is not 0, and with a non-zero
    /// step the next frequency is computed, turning the channel off if it overflows.
    fn process_triggered_write_effect(&mut self, channel_event: ChannelEvent) -> (event: ChannelEvent)
        ensures
            (*final(self), event) == old(self).triggered(channel_event),
    {
        self.sweep_frequency_shadow_register = self.channel.read_frequency();

        self.reset_sweep_ticks_left();
        self.refresh_sweep_enabled();

        if self.channel.get_nrx0().read_step() != 0 {
            let (_, frequency_will_overflow) = self.calculate_new_frequency();

            if frequency_will_overflow {
                return ChannelEvent::ChannelDisabled(self.channel.get_number());
            }
        }

        channel_event
    }

    /// Clears the channel's registers.
    pub fn clear(&mut self)
        ensures
            *final(self) == (SweepChannel { channel: old(self).channel.cleared(), ..*old(self) }),
            old(self).wf() ==> final(self).wf(),
    {
        self.channel.clear();
    }

    /// Writes `value` to register `position` (0 to 4) of the channel, gives the event for
    /// NR52 and what the register write set off. A trigger runs the sweep's trigger
    /// handling; a change of direction from subtraction to addition after a subtraction
    /// was computed turns the channel off; a write to NR10 forgets past subtractions.
    pub fn write_byte(&mut self, position: u16, value: u8) -> (r: (ChannelEvent, WriteEffect))
        requires
            position <= 4,
        ensures
            (*final(self), r.0, r.1) == old(self).write_spec(position, value),
            old(self).wf() ==> final(self).wf() && names_channel_one(r.0),
    {
        proof { lemma_channel_one_effects(self.channel, position, value); }
        let (channel_event, write_effect) = self.channel.write_register(position, value);

        let new_channel_event: ChannelEvent = match write_effect {
            WriteEffect::Triggered => self.process_triggered_write_effect(channel_event),
            WriteEffect::SweepDirectionFromSubToAdd => {
                if self.at_least_one_sweep_negate_has_been_calculated_since_last_trigger {
                    ChannelEvent::ChannelDisabled(self.channel.get_number())
                } else {
                    channel_event
                }
            },
            _ => channel_event,
        };

        if position == 0 {
            self.at_least_one_sweep_negate_has_been_calculated_since_last_trigger = false;
        }

        (new_channel_event, write_effect)
    }

    /// Advances the length timer by one tick.
    pub fn tick_length(&mut self) -> (event: ChannelEvent)
        ensures
            (*final(self), event) == old(self).tick_length_spec(),
            old(self).wf() ==> final(self).wf() && names_channel_one(event),
    {
        self.channel.tick_length()
    }
}

/// The registers of channel 1 never switch the whole audio unit.
proof fn lemma_channel_one_effects(channel: Channel<NR10, NRX1, NRX2, NRX3, NRX4>, position: u16, value: u8)
    requires
        position <= 4,
    ensures
        channel.can_write(position, value),
{
}

impl ReadMemory for SweepChannel {
    open spec fn can_read(&self, position: u16) -> bool {
        position <= 4
    }

    open spec fn read_spec(&self, position: u16) -> u8 {
        self.channel.read_spec(position)
    }

    fn read_byte(&self, position: u16) -> (r: u8) {
        self.channel.read_byte(position)
    }
}

} // verus!
