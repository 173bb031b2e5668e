//! The wave channel: its state and its output level.

pub mod description;
pub mod output_level;
