//! BSP driver support.
use vstd::prelude::*;
use super::common::{DriverManager, RegOp};
use super::uart0::Uart;
use crate::nxp::imx8mn::bsp::clocks::analog::{clock_init_ops, CCMAnalog};
use crate::nxp::imx8mn::bsp::counter::{SystemCounter, CNTCR_START, SYS_CNTCR};
use crate::nxp::imx8mn::bsp::memory_map::{CCM_ANALOG, SYSCNT_START, UART_START};

verus! {

/// The device driver manager: the board's drivers in the order they are
/// brought up.
pub struct BSPDriverManager {
    pub device_drivers: Vec<Uart>,
}

/// The driver manager, with the debug UART as its one driver.
pub fn driver_manager() -> (m: BSPDriverManager)
    ensures
        m.device_drivers@.len() == 1,
        m.device_drivers@[0].inner.start() == UART_START,
{
    let mut device_drivers: Vec<Uart> = Vec::new();
    device_drivers.push(Uart::new(UART_START));
    BSPDriverManager { device_drivers }
}

impl DriverManager for BSPDriverManager {
    type Driver = Uart;

    fn all_device_drivers(&self) -> (d: &[Uart])
        ensures
            d@ == self.device_drivers@,
    {
        self.device_drivers.as_slice()
    }
}

/// Turns on the system counter, given its base frequency: the counter
/// frequency for CNTFRQ_EL0 and the write that starts counting.
pub fn start_system_counter(cntfid0: u32) -> (r: (u64, RegOp))
    ensures
        r.0 == cntfid0 as u64,
        r.1 == (RegOp::Write { addr: (SYSCNT_START + SYS_CNTCR) as u32, value: CNTCR_START }),
{
    SystemCounter::new(SYSCNT_START).start_counter(cntfid0)
}

/// Configures the system PLLs and sets the clock gates and root clocks for
/// the GIC, DRAM, NAND, watchdogs and others.
pub fn sys_clocks_init() -> (ops: Vec<RegOp>)
    ensures
        ops@ == clock_init_ops(CCM_ANALOG as u32),
{
    CCMAnalog::new(CCM_ANALOG).clock_init()
}

} // verus!
