//! The audio processing unit: its registers, its four channels and the frame sequencer
//! that clocks them.

pub mod registers;
pub mod wave_pattern_ram;
pub mod channel;
pub mod channels;
pub mod sweep_channel;
pub mod apu;
pub mod volume_envelope;
pub mod sweep;
pub mod pulse;
pub mod wave;
pub mod noise;
pub mod frame_sequencer;
pub mod laws;
