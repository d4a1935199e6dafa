//! Raspberry Pi boards.

pub mod rpi4;
