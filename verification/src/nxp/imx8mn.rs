//! i.MX 8M Nano board support.

pub mod bsp;
pub mod log;
