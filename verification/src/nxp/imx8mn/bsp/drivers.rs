//! Device drivers of the i.MX 8M Nano EVK.

pub mod common;
pub mod driver_manager;
pub mod gpio;
pub mod uart0;
pub mod usdhc;
