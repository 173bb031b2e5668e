//! The operations the audio unit runs on any of its channels.

use vstd::prelude::*;

use crate::audio::channel::Channel as DefaultChannel;
use crate::audio::registers::{AudioRegister, InitialLengthRegister, WriteEffect};
use crate::audio::sweep_channel::SweepChannel;
use crate::memory::ReadMemory;

pub use crate::audio::channel::ChannelEvent;

verus! {

/// A sound channel: its registers can be cleared and written, and its length timer
/// clocked.
pub trait Channel: ReadMemory + Sized {
    /// The channel with its registers cleared.
    spec fn cleared_spec(&self) -> Self;

    /// Whether `value` can be written to register `position`.
    spec fn can_write_spec(&self, position: u16, value: u8) -> bool;

    /// The channel, the event for NR52 and what the register write set off, after
    /// writing `value` to register `position`.
    spec fn written_spec(&self, position: u16, value: u8) -> (Self, ChannelEvent, WriteEffect);

    /// The channel and the event for NR52 after one tick of the length timer.
    spec fn ticked_spec(&self) -> (Self, ChannelEvent);

    /// Clears the registers.
    fn clear(&mut self)
        ensures
            *final(self) == old(self).cleared_spec(),
    ;

    /// Writes `value` to register `position` (0 to 4).
    fn write_byte(&mut self, position: u16, value: u8) -> (r: (ChannelEvent, WriteEffect))
        requires
            old(self).can_write_spec(position, value),
        ensures
            (*final(self), r.0, r.1) == old(self).written_spec(position, value),
    ;

    /// Advances the length timer by one tick.
    fn tick_length(&mut self) -> (event: ChannelEvent)
        ensures
            (*final(self), event) == old(self).ticked_spec(),
    ;
}

impl Channel for SweepChannel {
    open spec fn cleared_spec(&self) -> Self {
        SweepChannel { channel: self.channel.cleared(), ..*self }
    }

    open spec fn can_write_spec(&self, position: u16, value: u8) -> bool {
        position <= 4
    }

    open spec fn written_spec(&self, position: u16, value: u8) -> (Self, ChannelEvent, WriteEffect) {
        self.write_spec(position, value)
    }

    open spec fn ticked_spec(&self) -> (Self, ChannelEvent) {
        self.tick_length_spec()
    }

    fn clear(&mut self) {
        SweepChannel::clear(self)
    }

    fn write_byte(&mut self, position: u16, value: u8) -> (r: (ChannelEvent, WriteEffect)) {
        SweepChannel::write_byte(self, position, value)
    }

    fn tick_length(&mut self) -> (event: ChannelEvent) {
        SweepChannel::tick_length(self)
    }
}

impl<
    T: AudioRegister,
    U: AudioRegister + InitialLengthRegister,
    V: AudioRegister,
    X: AudioRegister,
    Y: AudioRegister,
> Channel for DefaultChannel<T, U, V, X, Y> {
    open spec fn cleared_spec(&self) -> Self {
        self.cleared()
    }

    open spec fn can_write_spec(&self, position: u16, value: u8) -> bool {
        self.can_write(position, value)
    }

    open spec fn written_spec(&self, position: u16, value: u8) -> (Self, ChannelEvent, WriteEffect) {
        (self.write_spec(position, value).0, self.write_spec(position, value).1, self.write_effect(position, value))
    }

    open spec fn ticked_spec(&self) -> (Self, ChannelEvent) {
        self.tick_length_spec()
    }

    fn clear(&mut self) {
        DefaultChannel::clear(self)
    }

    fn write_byte(&mut self, position: u16, value: u8) -> (r: (ChannelEvent, WriteEffect)) {
        self.write_register(position, value)
    }

    fn tick_length(&mut self) -> (event: ChannelEvent) {
        DefaultChannel::tick_length(self)
    }
}

} // verus!
