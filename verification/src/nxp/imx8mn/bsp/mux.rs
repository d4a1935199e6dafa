//! Pin multiplexing: pad settings of the UART2 and uSDHC2 pins.

pub mod iomux;
pub mod iomuxc;
pub mod usdhc2grp;
