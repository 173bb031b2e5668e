//! The decisions of the audio unit: the frame sequencer that paces the length timers,
//! envelopes and sweep, and which channel update a register write calls for.

use vstd::prelude::*;

verus! {

/// The cycles between two steps of the frame sequencer (1/512 s).
pub const CYCLES_1_512_SEC: u16 = 8192;

/// Which of the channels' clocks a frame sequencer step drives.
#[derive(PartialEq, Eq, Structural, Clone, Copy, Debug)]
pub struct FrameClocks {
    /// The length timers (256 Hz).
    pub length: bool,
    /// The envelopes (64 Hz).
    pub envelope: bool,
    /// The sweep (128 Hz).
    pub sweep: bool,
}

/// What a step of the audio unit calls for.
#[derive(PartialEq, Eq, Structural, Clone, Copy, Debug)]
pub enum SequencerEvent {
    /// Sound is off (NR52 bit 7): every channel's output stops.
    Stopped,
    /// Sound is on; these clocks are due.
    Running(FrameClocks),
}

/// The frame sequencer: the cycles counted towards its next step, its step (0 to 7) and
/// whether sound was off at the last step of the audio unit.
#[derive(PartialEq, Eq, Structural, Clone, Copy, Debug)]
pub struct FrameSequencer {
    pub cycle_count: u16,
    pub frame_step: u8,
    pub was_stopped: bool,
}

/// The clocks due at frame step `step`: length on even steps, envelope on step 7, sweep
/// on steps 2 and 6.
pub open spec fn clocks_at(step: u8) -> FrameClocks {
    FrameClocks { length: step % 2 == 0, envelope: step == 7, sweep: step == 2 || step == 6 }
}

impl FrameSequencer {
    /// The counter has not passed a sequencer step and the step is below 8.
    pub open spec fn wf(self) -> bool {
        self.cycle_count <= CYCLES_1_512_SEC && self.frame_step < 8
    }

    /// The sequencer and what it calls for after an instruction of `cycles` cycles, NR52
    /// holding `nr52`. With sound off, nothing is clocked. When sound comes back on, the
    /// sequencer restarts at step 7. Each time the counter passes 8192 cycles, the step
    /// moves on (modulo 8) and its clocks are due.
    pub open spec fn step_spec(self, nr52: u8, cycles: u8) -> (FrameSequencer, SequencerEvent) {
        if nr52 < 128 {
            (FrameSequencer { was_stopped: true, ..self }, SequencerEvent::Stopped)
        } else {
            let restarted = if self.was_stopped {
                FrameSequencer { was_stopped: false, frame_step: 7, ..self }
            } else {
                self
            };
            let total = restarted.cycle_count + cycles;
            if total > CYCLES_1_512_SEC {
                let step = ((restarted.frame_step + 1) % 8) as u8;
                (
                    FrameSequencer { cycle_count: (total - CYCLES_1_512_SEC) as u16, frame_step: step, ..restarted },
                    SequencerEvent::Running(clocks_at(step)),
                )
            } else {
                (
                    FrameSequencer { cycle_count: total as u16, ..restarted },
                    SequencerEvent::Running(FrameClocks { length: false, envelope: false, sweep: false }),
                )
            }
        }
    }

    /// A sequencer with sound off, at step 7.
    pub fn new() -> (r: Self)
        ensures
            r == (FrameSequencer { cycle_count: 0, frame_step: 7, was_stopped: true }),
            r.wf(),
    {
        FrameSequencer { cycle_count: 0, frame_step: 7, was_stopped: true }
    }

    /// Counts the cycles of an instruction and says which clocks are due.
    pub fn step(&mut self, nr52: u8, cycles: u8) -> (event: SequencerEvent)
        requires
            old(self).wf(),
        ensures
            (*final(self), event) == old(self).step_spec(nr52, cycles),
            final(self).wf(),
    {
        if nr52 & 0b10000000u8 != 0b10000000u8 {
            assert(nr52 < 128) by (bit_vector)
                requires
                    nr52 & 0b10000000u8 != 0b10000000u8,
            ;
            self.was_stopped = true;
            return SequencerEvent::Stopped;
        }
        assert(nr52 >= 128) by (bit_vector)
            requires
                nr52 & 0b10000000u8 == 0b10000000u8,
        ;

        if self.was_stopped {
            self.was_stopped = false;
            self.frame_step = 7;
        }

        self.clock_frame_sequencer(cycles)
    }

    /// Counts the cycles; past 8192, moves on one step and gives its clocks.
    fn clock_frame_sequencer(&mut self, cycles: u8) -> (event: SequencerEvent)
        requires
            old(self).wf(),
        ensures
            final(self).wf(),
            final(self).was_stopped == old(self).was_stopped,
            ({
                let total = old(self).cycle_count + cycles;
                if total > CYCLES_1_512_SEC {
                    let step = ((old(self).frame_step + 1) % 8) as u8;
                    &&& final(self).cycle_count == total - CYCLES_1_512_SEC
                    &&& final(self).frame_step == step
                    &&& event == SequencerEvent::Running(clocks_at(step))
                } else {
                    &&& final(self).cycle_count == total
                    &&& final(self).frame_step == old(self).frame_step
                    &&& event == SequencerEvent::Running(FrameClocks { length: false, envelope: false, sweep: false })
                }
            }),
    {
        self.cycle_count = self.cycle_count + cycles as u16;

        if self.cycle_count > CYCLES_1_512_SEC {
            self.cycle_count = self.cycle_count - CYCLES_1_512_SEC;
            self.frame_step = (self.frame_step + 1) % 8;

            SequencerEvent::Running(FrameClocks {
                length: self.frame_step % 2 == 0,
                envelope: self.frame_step == 7,
                sweep: self.frame_step == 2 || self.frame_step == 6,
            })
        } else {
            SequencerEvent::Running(FrameClocks { length: false, envelope: false, sweep: false })
        }
    }

    /// Whether the sequencer's next step clocks the length timers: the current step is odd.
    pub fn next_frame_step_is_length(&self) -> (r: bool)
        ensures
            r == (self.frame_step % 2 == 1),
    {
        self.frame_step % 2 == 1
    }
}

/// Which registers of a channel were written since the audio unit last looked.
#[derive(PartialEq, Eq, Structural, Clone, Copy, Debug)]
pub struct AudioRegWritten {
    pub length: bool,
    pub sweep_or_wave_onoff: bool,
    pub envelope_or_wave_out_lvl: bool,
    pub frequency_or_poly_counter: bool,
    pub control: bool,
    pub wave_pattern: bool,
}

impl AudioRegWritten {
    /// Whether any register was written.
    pub fn has_change(&self) -> (r: bool)
        ensures
            r == (self.length || self.sweep_or_wave_onoff || self.envelope_or_wave_out_lvl
                || self.frequency_or_poly_counter || self.control || self.wave_pattern),
    {
        self.length || self.sweep_or_wave_onoff || self.envelope_or_wave_out_lvl || self.frequency_or_poly_counter
            || self.control || self.wave_pattern
    }
}

/// The update a channel takes for a register write; one per step of the audio unit.
#[derive(PartialEq, Eq, Structural, Clone, Copy, Debug)]
pub enum ChannelUpdate {
    Nothing,
    Length,
    Sweep,
    Envelope,
    Frequency,
    Control,
    WaveOnOff,
    WaveOutputLevel,
    WavePattern,
    PolyCounter,
}

/// The update of a pulse channel: the first written of length, sweep, envelope,
/// frequency and control.
pub fn pulse_update(changes: &AudioRegWritten) -> (update: ChannelUpdate)
    ensures
        update == (if changes.length {
            ChannelUpdate::Length
        } else if changes.sweep_or_wave_onoff {
            ChannelUpdate::Sweep
        } else if changes.envelope_or_wave_out_lvl {
            ChannelUpdate::Envelope
        } else if changes.frequency_or_poly_counter {
            ChannelUpdate::Frequency
        } else if changes.control {
            ChannelUpdate::Control
        } else {
            ChannelUpdate::Nothing
        }),
{
    if changes.length {
        ChannelUpdate::Length
    } else if changes.sweep_or_wave_onoff {
        ChannelUpdate::Sweep
    } else if changes.envelope_or_wave_out_lvl {
        ChannelUpdate::Envelope
    } else if changes.frequency_or_poly_counter {
        ChannelUpdate::Frequency
    } else if changes.control {
        ChannelUpdate::Control
    } else {
        ChannelUpdate::Nothing
    }
}

/// The update of the wave channel: the first written of DAC switch, length, output
/// level, frequency, control and pattern.
pub fn wave_update(changes: &AudioRegWritten) -> (update: ChannelUpdate)
    ensures
        update == (if changes.sweep_or_wave_onoff {
            ChannelUpdate::WaveOnOff
        } else if changes.length {
            ChannelUpdate::Length
        } else if changes.envelope_or_wave_out_lvl {
            ChannelUpdate::WaveOutputLevel
        } else if changes.frequency_or_poly_counter {
            ChannelUpdate::Frequency
        } else if changes.control {
            ChannelUpdate::Control
        } else if changes.wave_pattern {
            ChannelUpdate::WavePattern
        } else {
            ChannelUpdate::Nothing
        }),
{
    if changes.sweep_or_wave_onoff {
        ChannelUpdate::WaveOnOff
    } else if changes.length {
        ChannelUpdate::Length
    } else if changes.envelope_or_wave_out_lvl {
        ChannelUpdate::WaveOutputLevel
    } else if changes.frequency_or_poly_counter {
        ChannelUpdate::Frequency
    } else if changes.control {
        ChannelUpdate::Control
    } else if changes.wave_pattern {
        ChannelUpdate::WavePattern
    } else {
        ChannelUpdate::Nothing
    }
}

/// The update of the noise channel: the first written of length, envelope, polynomial
/// counter and control.
pub fn noise_update(changes: &AudioRegWritten) -> (update: ChannelUpdate)
    ensures
        update == (if changes.length {
            ChannelUpdate::Length
        } else if changes.envelope_or_wave_out_lvl {
            ChannelUpdate::Envelope
        } else if changes.frequency_or_poly_counter {
            ChannelUpdate::PolyCounter
        } else if changes.control {
            ChannelUpdate::Control
        } else {
            ChannelUpdate::Nothing
        }),
{
    if changes.length {
        ChannelUpdate::Length
    } else if changes.envelope_or_wave_out_lvl {
        ChannelUpdate::Envelope
    } else if changes.frequency_or_poly_counter {
        ChannelUpdate::PolyCounter
    } else if changes.control {
        ChannelUpdate::Control
    } else {
        ChannelUpdate::Nothing
    }
}

} // verus!
