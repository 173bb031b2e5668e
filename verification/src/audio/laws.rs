//! Properties of the audio unit that span its writes and reads.

use vstd::prelude::*;

use crate::audio::apu::Apu;
use crate::audio::registers::AudioRegister;
use crate::audio::registers::nr52::NR52;

verus! {

/// The bits of the channel register at `position` (0xFF10 to 0xFF23) that always read as 1.
pub open spec fn channel_read_mask(position: u16) -> u8 {
    let r = (position - 0xFF10) % 5;
    if position == 0xFF10 {
        0x80
    } else if position == 0xFF15 || position == 0xFF1F {
        0xFF
    } else if position == 0xFF1A {
        0x7F
    } else if position == 0xFF1B || position == 0xFF20 {
        0xFF
    } else if position == 0xFF1C {
        0x9F
    } else if position == 0xFF22 {
        0
    } else if r == 1 {
        0x3F
    } else if r == 2 {
        0
    } else if r == 3 {
        0xFF
    } else {
        0xBF
    }
}

/// While the unit is on, a channel register reads back the byte written to it, with
/// the bits that always read as 1 set.
pub proof fn law_channel_register_write_then_read(apu: Apu, position: u16, value: u8)
    requires
        apu.wf(),
        apu.nr52.value >= 128,
        0xFF10 <= position <= 0xFF23,
    ensures
        apu.write(position, value).read(position) == value | channel_read_mask(position),
{
    assert((value | 0u8) == value
        && ((value | 0x38u8) | 0xBFu8) == (value | 0xBFu8)
        && ((value | 0x3Fu8) | 0xBFu8) == (value | 0xBFu8)
        && ((value | 0xC0u8) | 0xFFu8) == (value | 0xFFu8)
        && ((value | 0x80u8) | 0x80u8) == (value | 0x80u8)
        && ((value | 0x7Fu8) | 0x7Fu8) == (value | 0x7Fu8)
        && ((value | 0x9Fu8) | 0x9Fu8) == (value | 0x9Fu8)) by (bit_vector);
}

/// While the audio unit is off, writes to the channel registers, NR50 and NR51 are
/// ignored.
pub proof fn law_off_ignores_register_writes(apu: Apu, position: u16, value: u8)
    requires
        apu.nr52.value < 128,
        position != 0xFF26,
        !(0xFF30 <= position <= 0xFF3F),
    ensures
        apu.write(position, value) == apu,
{
}

/// The wave pattern RAM is written whether the unit is on or off: a byte written there
/// reads back, and every other address reads as before.
pub proof fn law_wave_ram_write_then_read(apu: Apu, after: Apu, position: u16, value: u8, other: u16)
    requires
        0xFF30 <= position <= 0xFF3F,
        apu.is_written(after, position, value),
        other != position,
    ensures
        after.read(position) == value,
        after.read(other) == apu.read(other),
{
}

/// Switching the unit off (writing NR52 with bit 7 clear) clears every channel register,
/// NR50 and NR51, and NR52 then reads as off with every channel inactive.
pub proof fn law_turning_off_clears(apu: Apu, value: u8)
    requires
        value < 128,
    ensures
        ({
            let after = apu.write(0xFF26, value);
            &&& after.channel_1.channel == apu.channel_1.channel.cleared()
            &&& after.channel_2 == apu.channel_2.cleared()
            &&& after.channel_3 == apu.channel_3.cleared()
            &&& after.channel_4 == apu.channel_4.cleared()
            &&& after.nr50 == 0
            &&& after.nr51 == 0
            &&& after.read(0xFF26) == 0x70
            &&& after.wave_pattern_ram == apu.wave_pattern_ram
        }),
{
    assert((value | 0u8) == value && (0x70u8 | 0x70u8) == 0x70u8) by (bit_vector);
    assert(NR52::write_mask_spec() == 0);
}

/// Switching the unit on (writing NR52 with bit 7 set while it is off) restarts the
/// frame sequencer and keeps the channel registers.
pub proof fn law_turning_on_restarts_sequencer(apu: Apu, value: u8)
    requires
        value >= 128,
        apu.nr52.value < 128,
    ensures
        ({
            let after = apu.write(0xFF26, value);
            &&& after.nr52.value >= 128
            &&& after.div_apu == 0
            &&& after.channel_1 == apu.channel_1
            &&& after.channel_2 == apu.channel_2
            &&& after.channel_3 == apu.channel_3
            &&& after.channel_4 == apu.channel_4
        }),
{
    assert((value | 0u8) == value) by (bit_vector);
}

/// While the unit is on, NR50 and NR51 read back what was written to them.
pub proof fn law_master_registers_write_then_read(apu: Apu, value: u8)
    requires
        apu.nr52.value >= 128,
    ensures
        apu.write(0xFF24, value).read(0xFF24) == value,
        apu.write(0xFF25, value).read(0xFF25) == value,
{
}

/// While the unit is on, triggering channel 2, 3 or 4 (writing its NRx4 with bit 7 set)
/// marks the channel as on in NR52.
pub proof fn law_trigger_sets_channel_flag(apu: Apu, value: u8)
    requires
        apu.wf(),
        apu.nr52.value >= 128,
        value >= 128,
    ensures
        apu.write(0xFF19, value).nr52.value == apu.nr52.value | 2,
        apu.write(0xFF1E, value).nr52.value == apu.nr52.value | 4,
        apu.write(0xFF23, value).nr52.value == apu.nr52.value | 8,
{
    assert((value | 0x38u8) >= 128 && (value | 0x3Fu8) >= 128) by (bit_vector)
        requires
            value >= 128,
    ;
}

/// While the unit is on, switching a channel's DAC off marks the channel as off in NR52:
/// writing NR12, NR22 or NR42 with its top five bits clear, or NR30 with bit 7 clear.
pub proof fn law_dac_off_clears_channel_flag(apu: Apu, value: u8)
    requires
        apu.wf(),
        apu.nr52.value >= 128,
        value < 8,
    ensures
        apu.write(0xFF12, value).nr52.value == apu.nr52.value & !1u8,
        apu.write(0xFF17, value).nr52.value == apu.nr52.value & !2u8,
        apu.write(0xFF1A, value).nr52.value == apu.nr52.value & !4u8,
        apu.write(0xFF21, value).nr52.value == apu.nr52.value & !8u8,
{
    assert((value | 0u8) == value && (value | 0x7Fu8) < 128) by (bit_vector)
        requires
            value < 8,
    ;
}

} // verus!

verus! {

/// A pulse channel after `n` of the length timer's 256 Hz clocks.
pub open spec fn pulse_after_length_clocks(pulse: crate::audio::pulse::description::PulseDescription, n: nat) -> crate::audio::pulse::description::PulseDescription
    decreases n,
{
    if n == 0 {
        pulse
    } else {
        pulse_after_length_clocks(pulse.step_256_spec(), (n - 1) as nat)
    }
}

/// A pulse channel whose length timer is on stops after exactly as many 256 Hz clocks as
/// it has steps left, and not before.
pub proof fn law_length_timer_stops_pulse(pulse: crate::audio::pulse::description::PulseDescription, n: nat)
    requires
        pulse.use_length,
        pulse.remaining_steps == n,
        n > 0,
    ensures
        pulse_after_length_clocks(pulse, n).stop,
        pulse_after_length_clocks(pulse, n).remaining_steps == 0,
        !pulse.stop ==> !pulse_after_length_clocks(pulse, (n - 1) as nat).stop,
    decreases n,
{
    let next = pulse.step_256_spec();
    assert(pulse_after_length_clocks(pulse, n) == pulse_after_length_clocks(next, (n - 1) as nat));
    if n > 1 {
        law_length_timer_stops_pulse(next, (n - 1) as nat);
        assert(pulse_after_length_clocks(pulse, (n - 1) as nat) == pulse_after_length_clocks(next, (n - 2) as nat));
    } else {
        assert(pulse_after_length_clocks(next, 0) == next);
    }
}

} // verus!

verus! {

/// Shifting a 16-bit value right by 0 to 7 divides it by that power of two.
proof fn lemma_u16_shift_right_divides()
    by (bit_vector)
    ensures
        forall|x: u16, s: u8| #![trigger (x >> s)]
            (s == 0 ==> x >> s == x) && (s == 1 ==> x >> s == x / 2) && (s == 2 ==> x >> s == x / 4)
                && (s == 3 ==> x >> s == x / 8) && (s == 4 ==> x >> s == x / 16) && (s == 5 ==> x >> s == x / 32)
                && (s == 6 ==> x >> s == x / 64) && (s == 7 ==> x >> s == x / 128),
{
}

/// One calculation of the pulse sweep moves the shadow frequency by itself divided by 2
/// to the power of the number of shifts: down in subtraction mode (never above the shadow
/// frequency), up in addition mode (wrapping at 16 bits).
pub proof fn law_sweep_calculation_moves_by_shifted_frequency(sweep: crate::audio::pulse::sweep::Sweep)
    requires
        sweep.wf(),
    ensures
        ({
            let f = sweep.shadow_frequency as int;
            let delta = f / crate::audio::sweep_channel::two_to(sweep.shifts);
            &&& sweep.direction == crate::audio::sweep::SweepDirection::Sub ==> sweep.new_frequency() == f - delta
            &&& sweep.direction == crate::audio::sweep::SweepDirection::Sub ==> sweep.new_frequency() <= f
            &&& sweep.direction == crate::audio::sweep::SweepDirection::Add ==> sweep.new_frequency() == (f + delta) % 0x10000
        }),
{
    lemma_u16_shift_right_divides();
    let x = sweep.shadow_frequency;
    let s = sweep.shifts;
    if s == 0 {
        assert(x >> s == x);
    } else if s == 1 {
        assert(x >> s == x / 2);
    } else if s == 2 {
        assert(x >> s == x / 4);
    } else if s == 3 {
        assert(x >> s == x / 8);
    } else if s == 4 {
        assert(x >> s == x / 16);
    } else if s == 5 {
        assert(x >> s == x / 32);
    } else if s == 6 {
        assert(x >> s == x / 64);
    } else {
        assert(x >> s == x / 128);
    }
}

/// When the sweep timer of a pulse channel runs out with the sweep enabled, a time and
/// shifts, and the next frequency fits in 11 bits, the channel's frequency becomes the
/// shadow frequency moved by itself divided by 2 to the power of the shifts (down when
/// subtracting, up when adding), and that frequency is written back.
pub proof fn law_sweep_step_sets_calculated_frequency(pulse: crate::audio::pulse::description::PulseDescription)
    requires
        pulse.wf(),
        pulse.sweep is Some,
        pulse.sweep->0.timer == 1,
        pulse.sweep->0.enabled,
        pulse.sweep->0.time > 0,
        pulse.sweep->0.shifts > 0,
        pulse.sweep->0.new_frequency() < 2048,
    ensures
        ({
            let s = pulse.sweep->0;
            let f = s.shadow_frequency as int;
            let delta = f / crate::audio::sweep_channel::two_to(s.shifts);
            let expected = if s.direction == crate::audio::sweep::SweepDirection::Sub { f - delta } else { (f + delta) % 0x10000 };
            let (after, written) = pulse.step_128_spec();
            &&& after.frequency == expected
            &&& written == Some(expected as u16)
            &&& after.sweep->0.shadow_frequency == expected
        }),
{
    let s = pulse.sweep->0;
    law_sweep_calculation_moves_by_shifted_frequency(s);
    let s1 = crate::audio::pulse::sweep::Sweep { timer: s.time, ..s };
    assert(s1.new_frequency() == s.new_frequency());
}

} // verus!

verus! {

/// The noise channel's 15-bit shift register moves right by one; the exclusive or of its
/// two lowest bits enters at bit 14, and in 7-bit mode also replaces bit 6.
pub proof fn law_lfsr_step(lfsr: u16)
    by (bit_vector)
    requires
        lfsr < 0x8000,
    ensures
        crate::audio::noise::description::next_lfsr(lfsr, false) % 0x4000u16 == lfsr / 2u16,
        crate::audio::noise::description::next_lfsr(lfsr, false) / 0x4000u16 == (lfsr % 2u16) ^ ((lfsr / 2u16) % 2u16),
        crate::audio::noise::description::next_lfsr(lfsr, true) / 0x4000u16 == (lfsr % 2u16) ^ ((lfsr / 2u16) % 2u16),
        (crate::audio::noise::description::next_lfsr(lfsr, true) / 64u16) % 2u16 == (lfsr % 2u16) ^ ((lfsr / 2u16) % 2u16),
        crate::audio::noise::description::next_lfsr(lfsr, true) % 64u16 == (lfsr / 2u16) % 64u16,
        (crate::audio::noise::description::next_lfsr(lfsr, true) / 128u16) % 128u16 == (lfsr / 256u16) % 128u16,
{
}

/// At the end of an envelope period the volume moves one step in the envelope's
/// direction, up to 15 or down to 0, and the period starts again; before that only the
/// timer counts down; a period of 0 stops the envelope.
pub proof fn law_envelope_period(envelope: crate::audio::volume_envelope::VolumeEnvelopeDescription)
    ensures
        ({
            let after = envelope.step_64_spec();
            let v = envelope.current_volume as int;
            &&& envelope.period == 0 ==> after == envelope
            &&& (envelope.period > 0 && envelope.period_timer == 1) ==> {
                &&& after.period_timer == envelope.period
                &&& envelope.direction == crate::audio::volume_envelope::direction::VolumeEnvelopeDirection::Up
                    ==> after.current_volume == (if v < 15 { v + 1 } else { v })
                &&& envelope.direction == crate::audio::volume_envelope::direction::VolumeEnvelopeDirection::Down
                    ==> after.current_volume == (if v > 0 { v - 1 } else { v })
            }
            &&& (envelope.period > 0 && envelope.period_timer > 1) ==> {
                &&& after.period_timer == envelope.period_timer - 1
                &&& after.current_volume == envelope.current_volume
            }
        }),
{
}

/// The frame sequencer loses no cycles: with sound on, the cycles counted before a step
/// plus those of the instruction equal those counted after, plus 8192 when the sequencer
/// moved on one step (modulo 8). Length timers are clocked on every second step, the sweep
/// twice in eight steps and the envelopes once.
pub proof fn law_frame_sequencer_counts_cycles(
    sequencer: crate::audio::frame_sequencer::FrameSequencer,
    nr52: u8,
    cycles: u8,
)
    requires
        sequencer.wf(),
        nr52 >= 128,
        !sequencer.was_stopped,
    ensures
        ({
            let (after, event) = sequencer.step_spec(nr52, cycles);
            let moved = after.frame_step != sequencer.frame_step;
            &&& after.cycle_count + (if moved { 8192int } else { 0int }) == sequencer.cycle_count + cycles
            &&& moved ==> after.frame_step == (sequencer.frame_step + 1) % 8
            &&& after.wf()
            &&& event matches crate::audio::frame_sequencer::SequencerEvent::Running(clocks) && {
                &&& clocks.length ==> moved && after.frame_step % 2 == 0
                &&& clocks.sweep ==> moved && (after.frame_step == 2 || after.frame_step == 6)
                &&& clocks.envelope ==> moved && after.frame_step == 7
                &&& (moved && after.frame_step % 2 == 0) ==> clocks.length
            }
        }),
{
}

} // verus!
