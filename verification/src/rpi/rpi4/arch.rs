//! Architectural code of the Raspberry Pi 4.

pub mod time;
