//! Channels whose control register (NRx4) can be written.

use vstd::prelude::*;

verus! {

/// A channel that takes writes of its control register.
pub trait ControlRegisterUpdatable: ControlUpdatable + Sized {
    /// The channel's fields keep the ranges its registers give them.
    spec fn channel_wf(&self) -> bool;

    /// The channel after a write of `register` to its control register.
    spec fn control_register_update_spec(&self, register: u8, next_frame_step_is_length: bool) -> Self;

    /// Handles a write of the control register; `next_frame_step_is_length` tells whether
    /// the frame sequencer's next step clocks the length timers.
    fn trigger_control_register_update(&mut self, register: u8, next_frame_step_is_length: bool)
        requires
            old(self).channel_wf(),
        ensures
            final(self).channel_wf(),
            *final(self) == old(self).control_register_update_spec(register, next_frame_step_is_length),
    ;
}

/// Decoding of a control register.
pub trait ControlUpdatable {
    /// Whether the control register triggers the channel (bit 7).
    fn calculate_initial_from_register(register: u8) -> (r: bool)
        ensures
            r == (register >= 128),
    {
        proof { crate::bits::lemma_byte_bits(); }
        register & 0b10000000u8 == 0b10000000u8
    }

    /// Whether the control register enables the length timer (bit 6).
    fn calculate_use_length_from_register(register: u8) -> (r: bool)
        ensures
            r == ((register as int / 64) % 2 == 1),
    {
        proof { crate::bits::lemma_byte_bits(); }
        register & 0b0100_0000u8 == 0b0100_0000u8
    }
}

} // verus!
