//! Board support logic of the rustBoot bootloader: flash programming plans,
//! clock and pin-mux register values, SD host controller command handling and
//! boot-image selection.

pub mod sdcard;
pub mod nxp;
pub mod rpi;
pub mod flash;
pub mod nrf;
pub mod pico;
pub mod stm;
pub mod bootloaders;
pub mod firmware;

use vstd::prelude::*;

verus! {

/// Work to do before the firmware is booted; there is none on these boards.
pub fn preboot() {
}

} // verus!
