//! Raspberry Pi Pico boards.

pub mod rp2040;
