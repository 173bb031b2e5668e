//! The audio registers NR10 to NR52: what each keeps of a written byte, how it reads
//! back and what a write sets off.

use vstd::prelude::*;

pub mod channel_stoppable;
pub mod control_updatable;
pub mod envelope_updatable;
pub mod frequency_updatable;
pub mod length_updatable;
pub mod no_register;
pub mod nr10;
pub mod nr30;
pub mod nr31;
pub mod nr32;
pub mod nr41;
pub mod nr43;
pub mod nr44;
pub mod nr52;
pub mod nrx1;
pub mod nrx2;
pub mod nrx3;
pub mod nrx4;

verus! {

/// What a write to an audio register sets off.
#[derive(PartialEq, Eq, Structural, Debug, Clone, Copy)]
pub enum WriteEffect {
    /// Nothing beyond the stored value.
    NoEffect,
    /// The channel is (re)started.
    Triggered,
    /// The channel's DAC was switched off.
    DacDisabled,
    /// The channel's DAC is on.
    DacEnabled,
    /// The whole audio unit was switched off.
    AudioOff,
    /// The whole audio unit was switched on.
    AudioOn,
    /// The sweep direction changed from subtraction to addition.
    SweepDirectionFromSubToAdd,
}

/// An audio register: a stored byte, bits that always read as 1 (the read mask) and bits
/// that are always stored as 1 (the write mask).
pub trait AudioRegister: Sized {
    /// Bits that always read as 1.
    spec fn read_mask_spec() -> u8;

    /// Bits that are always stored as 1.
    spec fn write_mask_spec() -> u8;

    /// Bits that always read as 1.
    fn read_mask() -> (m: u8)
        ensures
            m == Self::read_mask_spec(),
    ;

    /// Bits that are always stored as 1.
    fn write_mask() -> (m: u8)
        ensures
            m == Self::write_mask_spec(),
    ;

    /// The stored byte.
    spec fn value_spec(&self) -> u8;

    /// The register after storing `value`, and what storing it sets off.
    spec fn set_spec(&self, value: u8) -> (Self, WriteEffect);

    /// Stores `value`.
    fn set_value(&mut self, value: u8) -> (effect: WriteEffect)
        ensures
            (*final(self), effect) == old(self).set_spec(value),
    ;

    /// The stored byte.
    fn value(&self) -> (v: u8)
        ensures
            v == self.value_spec(),
    ;

    /// The byte a read gives: the stored byte with the read mask's bits set.
    fn read(&self) -> (r: u8)
        ensures
            r == self.value_spec() | Self::read_mask_spec(),
    {
        self.value() | Self::read_mask()
    }

    /// Writes `value`: it is stored with the write mask's bits set.
    fn write(&mut self, value: u8) -> (effect: WriteEffect)
        ensures
            (*final(self), effect) == old(self).set_spec(value | Self::write_mask_spec()),
    {
        self.set_value(value | Self::write_mask())
    }

    /// Stores 0.
    fn clear(&mut self)
        ensures
            *final(self) == old(self).set_spec(0).0,
    {
        self.set_value(0x0);
    }
}

/// A register that gives the initial length timer of its channel.
pub trait InitialLengthRegister {
    /// The initial length.
    spec fn initial_length_spec(&self) -> u16;

    /// The initial length.
    fn get_initial_length(&self) -> (r: u16)
        ensures
            r == self.initial_length_spec(),
    ;
}

} // verus!
