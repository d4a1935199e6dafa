//! System counter.
use vstd::prelude::*;
use super::drivers::common::RegOp;

verus! {

/// Offsets of the system counter registers.
pub const SYS_CNTCR: u32 = 0x00;
pub const SYS_CNTFID0: u32 = 0x20;
/// Counter control to start counting: frequency-table entry 0 selected
/// (FCR0, bit 8), halted on debug (HDBG, bit 1), counting (EN, bit 0).
pub const CNTCR_START: u32 = (1 << 8) | (1 << 0) | (1 << 1);

/// The system counter at `mmio_start`.
pub struct SystemCounter {
    pub mmio_start: usize,
}

impl SystemCounter {
    pub fn new(mmio_start_addr: usize) -> (c: Self)
        ensures
            c.mmio_start == mmio_start_addr,
    {
        SystemCounter { mmio_start: mmio_start_addr }
    }

    /// Starts the counter, given the base frequency read from CNTFID0: the
    /// value for the architectural counter frequency register CNTFRQ_EL0
    /// (the base frequency), and the write that starts counting.
    pub fn start_counter(&self, cntfid0: u32) -> (r: (u64, RegOp))
        requires
            self.mmio_start + SYS_CNTFID0 <= u32::MAX,
        ensures
            r.0 == cntfid0 as u64,
            r.1 == (RegOp::Write { addr: (self.mmio_start + SYS_CNTCR) as u32, value: CNTCR_START }),
    {
        (cntfid0 as u64, RegOp::Write { addr: self.mmio_start as u32 + SYS_CNTCR, value: CNTCR_START })
    }
}

} // verus!
