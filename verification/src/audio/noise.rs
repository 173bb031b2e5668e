//! The noise channel.

pub mod description;
