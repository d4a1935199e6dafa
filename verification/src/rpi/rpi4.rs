//! Raspberry Pi 4 board support.

pub mod arch;
pub mod bsp;
pub mod log;
