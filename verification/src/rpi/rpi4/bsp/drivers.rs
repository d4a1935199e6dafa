//! Device drivers of the Raspberry Pi 4.

pub mod emmc;
