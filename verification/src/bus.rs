//! The memory map shared by the components on the bus.

pub mod address;
