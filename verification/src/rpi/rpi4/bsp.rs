//! Board support package of the Raspberry Pi 4.

pub mod drivers;
pub mod global;
pub mod memory_map;
