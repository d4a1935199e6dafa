//! The board's physical memory map.
use vstd::prelude::*;

verus! {

pub const GPIO_OFFSET: usize = 0x0020_0000;
pub const UART_OFFSET: usize = 0x0089_0000;
pub const USDHC1_OFFSET: usize = 0x00B4_0000;

/// The start of the peripheral address space.
pub const START: usize = 0x3000_0000;
pub const GPIO_START: usize = START + GPIO_OFFSET;
pub const UART_START: usize = START + UART_OFFSET;
pub const USDHC1_START: usize = START + USDHC1_OFFSET;
pub const END_INCLUSIVE: usize = 0x30FF_FFFF;

/// GPIO1, the first GPIO block.
pub const GPIO1_START: usize = 0x3020_0000;
/// GPIO2.
pub const GPIO2_START: usize = 0x3021_0000;
/// The IOMUX controller.
pub const IOMUXC_START: usize = 0x3033_0000;
/// The analog PLL block of the clock controller.
pub const CCM_ANALOG: usize = 0x3036_0000;
/// The clock control module.
pub const CCM_START: usize = 0x3038_0000;
/// The control frame of the system counter.
pub const SYSCNT_START: usize = 0x306C_0000;
/// The second uSDHC.
pub const USDHC2_START: usize = 0x30B5_0000;

} // verus!
