//! Clocks: the clock control module, its PLLs, and the clocks of the
//! system counter, the UARTs and the uSDHCs.

pub mod analog;
pub mod ccm;
pub mod scntrclk;
pub mod uartclks;
pub mod usdhcclks;
