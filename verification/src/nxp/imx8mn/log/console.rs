//! System console.
use vstd::prelude::*;
use crate::nxp::imx8mn::bsp::drivers::common::RegOp;
use crate::nxp::imx8mn::bsp::drivers::uart0::Uart;
use crate::nxp::imx8mn::bsp::drivers::driver_manager::BSPDriverManager;

verus! {

/// Console write functions.
pub trait Write {
    /// The register operations that write a single character.
    fn write_char(&mut self, c: char) -> Vec<RegOp>;
}

/// Console read functions.
pub trait Read {
    /// Read a single character.
    fn read_char(&self) -> (c: char)
        default_ensures
            c == ' ',
    {
        ' '
    }

    /// Clear RX buffers, if any.
    fn clear_rx(&self);
}

/// Console statistics.
pub trait Statistics {
    /// The number of characters written.
    fn chars_written(&self) -> (n: usize)
        default_ensures
            n == 0,
    {
        0
    }

    /// The number of characters read.
    fn chars_read(&self) -> (n: usize)
        default_ensures
            n == 0,
    {
        0
    }
}

/// The console: the debug UART that the driver manager holds, shared with
/// it, so that what is written through the console is counted once, by the
/// manager's UART.
pub fn console(m: &mut BSPDriverManager) -> (c: &mut Uart)
    requires
        old(m).device_drivers@.len() > 0,
    ensures
        *c == old(m).device_drivers@[0],
        final(m).device_drivers@ == old(m).device_drivers@.update(0, *final(c)),
{
    &mut m.device_drivers[0]
}

} // verus!
