//! Bootloader logic: image selection, authentication outcomes and boot
//! decisions.

pub mod imx8mn;
pub mod rpi4;
