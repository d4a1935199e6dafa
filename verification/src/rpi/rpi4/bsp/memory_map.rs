//! The board's physical memory map.
use vstd::prelude::*;

verus! {

pub const END_INCLUSIVE: usize = 0xFFFF_FFFF;
pub const GPIO_OFFSET: usize = 0x0020_0000;
pub const UART_OFFSET: usize = 0x0020_1000;
pub const EMMC_OFFSET: usize = 0x0034_0000;

/// The start of the peripheral address space.
pub const START: usize = 0xFE00_0000;
pub const GPIO_START: usize = START + GPIO_OFFSET;
pub const PL011_UART_START: usize = START + UART_OFFSET;
pub const EMMC_START: usize = START + EMMC_OFFSET;
pub const MMIO_END_INCLUSIVE: usize = 0xFF84_FFFF;

} // verus!
