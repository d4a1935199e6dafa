//! Board support package of the i.MX 8M Nano EVK.

pub mod clocks;
pub mod counter;
pub mod drivers;
pub mod global;
pub mod memory_map;
pub mod mux;
