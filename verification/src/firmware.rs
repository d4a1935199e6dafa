//! Logic of the firmware images that the bootloaders update.

pub mod nrf9160;
