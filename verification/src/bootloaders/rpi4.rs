//! The Raspberry Pi 4 bootloader.

pub mod boot;
pub mod dtb;
pub mod exception;
pub mod fit;
pub mod kernel;
