//! The picture processing unit: its colours and its LCD controller.

pub mod color;
pub mod gpu;
pub mod lcd;
