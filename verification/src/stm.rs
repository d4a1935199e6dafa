//! STMicroelectronics STM32 boards.

pub mod stm32f334;
pub mod stm32f746;
pub mod stm32h723;
