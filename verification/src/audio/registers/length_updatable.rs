//! Channels with a length timer.

use vstd::prelude::*;

verus! {

/// A channel that takes writes of its length register (NRx1).
pub trait LengthRegisterUpdatable: LengthUpdatable {
    /// The channel after a write of `register` to its length register.
    spec fn length_register_update_spec(&self, register: u8) -> Self;

    /// Handles a write of the length register.
    fn trigger_length_register_update(&mut self, register: u8)
        ensures
            *final(self) == old(self).length_register_update_spec(register),
    ;
}

/// A channel with a length and the steps left before it stops.
pub trait LengthUpdatable: Sized {
    /// The longest length.
    spec fn maximum_length_spec() -> u16;

    /// The length a register byte sets.
    spec fn length_from_register_spec(register: u8) -> u8;

    /// The channel's length.
    spec fn length_spec(&self) -> u8;

    /// The steps left before the channel stops.
    spec fn remaining_steps_spec(&self) -> u16;

    /// The channel with its length replaced.
    spec fn with_length_spec(&self, length: u8) -> Self;

    /// The channel with its steps left replaced.
    spec fn with_remaining_steps_spec(&self, remaining_steps: u16) -> Self;

    /// The longest length.
    fn get_maximum_length() -> (r: u16)
        ensures
            r == Self::maximum_length_spec(),
    ;

    /// The length a register byte sets.
    fn calculate_length_from_register(register: u8) -> (r: u8)
        ensures
            r == Self::length_from_register_spec(register),
    ;

    /// Replaces the length; the steps left are kept.
    fn set_length(&mut self, length: u8)
        ensures
            *final(self) == old(self).with_length_spec(length),
            final(self).length_spec() == length,
            final(self).remaining_steps_spec() == old(self).remaining_steps_spec(),
    ;

    /// The length; the channel is kept.
    fn get_length(&mut self) -> (r: u8)
        ensures
            r == old(self).length_spec(),
            *final(self) == *old(self),
    ;

    /// Replaces the steps left; the length is kept.
    fn set_remaining_steps(&mut self, remaining_steps: u16)
        ensures
            *final(self) == old(self).with_remaining_steps_spec(remaining_steps),
            final(self).remaining_steps_spec() == remaining_steps,
            final(self).length_spec() == old(self).length_spec(),
    ;

    /// Sets the steps left to the longest length minus the length.
    fn refresh_remaining_steps(&mut self)
        requires
            old(self).length_spec() <= Self::maximum_length_spec(),
        ensures
            *final(self) == old(self).with_remaining_steps_spec(
                (Self::maximum_length_spec() - old(self).length_spec()) as u16,
            ),
            final(self).remaining_steps_spec() == Self::maximum_length_spec() - old(self).length_spec(),
            final(self).length_spec() == old(self).length_spec(),
    {
        let length: u8 = self.get_length();

        self.set_remaining_steps(Self::get_maximum_length() - length as u16);
    }

    /// Sets the length a register byte gives and the steps left from it.
    fn update_length_from_register(&mut self, register: u8)
        requires
            Self::length_from_register_spec(register) <= Self::maximum_length_spec(),
        ensures
            *final(self) == old(self).with_length_spec(Self::length_from_register_spec(register))
                .with_remaining_steps_spec(
                (Self::maximum_length_spec() - Self::length_from_register_spec(register)) as u16,
            ),
            final(self).length_spec() == Self::length_from_register_spec(register),
            final(self).remaining_steps_spec() == Self::maximum_length_spec() - Self::length_from_register_spec(register),
    {
        let length: u8 = Self::calculate_length_from_register(register);

        self.set_length(length);
        self.refresh_remaining_steps();
    }
}

} // verus!
