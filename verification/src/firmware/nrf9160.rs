//! The nRF9160 firmware's system reset request.
use vstd::prelude::*;

verus! {

/// SCB AIRCR: VECTKEY position.
pub const SCB_AIRCR_VECTKEY_POS: u32 = 16;
/// SCB AIRCR: PRIGROUP position.
pub const SCB_AIRCR_PRIGROUP_POS: u32 = 8;
/// SCB AIRCR: PRIGROUP mask.
pub const SCB_AIRCR_PRIGROUP_MSK: u32 = 7u32 << SCB_AIRCR_PRIGROUP_POS;
/// SCB AIRCR: SYSRESETREQ position.
pub const SCB_AIRCR_SYSRESETREQ_POS: u32 = 2;
/// SCB AIRCR: SYSRESETREQ mask.
pub const SCB_AIRCR_SYSRESETREQ_MSK: u32 = 1u32 << SCB_AIRCR_SYSRESETREQ_POS;

/// The AIRCR value that requests a system reset, given the current AIRCR:
/// the write key, the current priority grouping, and SYSRESETREQ.
pub fn nvic_systemreset(aircr: u32) -> (v: u32)
    ensures
        v == (0x5FAu32 << 16u32) | (aircr & 0x700u32) | 0x4u32,
{
    assert((7u32 << 8u32) == 0x700u32 && (1u32 << 2u32) == 0x4u32) by (bit_vector);
    (0x5FA << SCB_AIRCR_VECTKEY_POS) | (aircr & SCB_AIRCR_PRIGROUP_MSK) | SCB_AIRCR_SYSRESETREQ_MSK
}

} // verus!
