//! Clock Control Module.
//!
//! The CCM receives clocks from PLLs and oscillators and creates clocks for
//! on-chip peripherals through a set of multiplexers, dividers and gates.
//! A clock is set up through its target interface in two steps: enable or
//! disable its gate, then set its target root clock.
use vstd::prelude::*;
use crate::nxp::imx8mn::bsp::drivers::common::RegOp;

verus! {

/// The SET register of CCGR 0 (the CCM lies at 0x3038_0000); CCGR n lies
/// 0x10 x n further.
pub const CCM_CCGR_N_SET: u32 = 0x3038_0000 + 0x4004;
/// The CLR register of CCGR 0.
pub const CCM_CCGR_N_CLR: u32 = 0x3038_0000 + 0x4008;
/// The SET register of target root 0; root n lies 0x80 x n further.
pub const CCM_TARGET_ROOT_N_SET: u32 = 0x3038_0000 + 0x8004;

/// Enable target root clock.
pub const CLK_ROOT_ON: u32 = 1 << 28;
/// Disable target root clock.
pub const CLK_ROOT_OFF: u32 = 0 << 28;

/// Clock gate setting 0b11: domain clocks needed in every mode.
pub const CCGR_ALWAYS_ON: u32 = 0x3;

/// The source-select field of a target root value.
pub open spec fn root_source_sel(n: u32) -> u32 {
    (n & 0x7) << 24
}

/// Clock source selection for each clock slice.
pub fn clk_root_source_sel(n: u32) -> (r: u32)
    ensures
        r == root_source_sel(n),
{
    ((n) & 0x7) << 24
}

/// Clock Root Selects: the clock root slices.
#[derive(Clone, Copy, PartialEq, Eq, Structural)]
pub enum ClkRootIdx {
    ArmA53ClkRoot,
    ArmM7ClkRoot,
    NandUsdhcBusClkRoot,
    NocClkRoot,
    CoreSelCfg,
    DramAltClkRoot,
    DramApbClkRoot,
    Usdhc1ClkRoot,
    Usdhc2ClkRoot,
    Uart1ClkRoot,
    Uart2ClkRoot,
    Uart3ClkRoot,
    Uart4ClkRoot,
    GicClkRoot,
    WdogClkRoot,
    Usdhc3ClkRoot,
    Sai7ClkRoot,
    ClkRootMax,
}

/// The slice number of a clock root.
pub open spec fn root_number(idx: ClkRootIdx) -> u32 {
    match idx {
        ClkRootIdx::ArmA53ClkRoot => 0,
        ClkRootIdx::ArmM7ClkRoot => 1,
        ClkRootIdx::NandUsdhcBusClkRoot => 18,
        ClkRootIdx::NocClkRoot => 26,
        ClkRootIdx::CoreSelCfg => 49,
        ClkRootIdx::DramAltClkRoot => 64,
        ClkRootIdx::DramApbClkRoot => 65,
        ClkRootIdx::Usdhc1ClkRoot => 88,
        ClkRootIdx::Usdhc2ClkRoot => 89,
        ClkRootIdx::Uart1ClkRoot => 94,
        ClkRootIdx::Uart2ClkRoot => 95,
        ClkRootIdx::Uart3ClkRoot => 96,
        ClkRootIdx::Uart4ClkRoot => 97,
        ClkRootIdx::GicClkRoot => 100,
        ClkRootIdx::WdogClkRoot => 114,
        ClkRootIdx::Usdhc3ClkRoot => 121,
        ClkRootIdx::Sai7ClkRoot => 134,
        ClkRootIdx::ClkRootMax => 135,
    }
}

/// The clock roots whose target register the driver programs.
pub open spec fn root_supported(idx: ClkRootIdx) -> bool {
    match idx {
        ClkRootIdx::ArmA53ClkRoot | ClkRootIdx::NandUsdhcBusClkRoot | ClkRootIdx::NocClkRoot
        | ClkRootIdx::CoreSelCfg | ClkRootIdx::DramAltClkRoot | ClkRootIdx::DramApbClkRoot
        | ClkRootIdx::Usdhc2ClkRoot | ClkRootIdx::Uart1ClkRoot | ClkRootIdx::Uart2ClkRoot
        | ClkRootIdx::Uart3ClkRoot | ClkRootIdx::Uart4ClkRoot | ClkRootIdx::GicClkRoot
        | ClkRootIdx::WdogClkRoot => true,
        _ => false,
    }
}

/// CCGRIdx identifies the clock gate of a module or peripheral.
#[derive(Clone, Copy, PartialEq, Eq, Structural)]
pub enum CCGRIdx {
    CcgrDvfs,
    CcgrCpu,
    CcgrDdr1,
    CcgrSctr,
    CcgrSecDebug,
    CcgrUart1,
    CcgrUart2,
    CcgrUart3,
    CcgrUart4,
    CcgrUsdhc1,
    CcgrUsdhc2,
    CcgrWdog1,
    CcgrWdog2,
    CcgrWdog3,
    CcgrGic,
    CcgrUsdhc3,
    CcgrTempSensor,
}

/// The CCGR number of a clock gate.
pub open spec fn gate_number(idx: CCGRIdx) -> u32 {
    match idx {
        CCGRIdx::CcgrDvfs => 0,
        CCGRIdx::CcgrCpu => 2,
        CCGRIdx::CcgrDdr1 => 5,
        CCGRIdx::CcgrSctr => 57,
        CCGRIdx::CcgrSecDebug => 60,
        CCGRIdx::CcgrUart1 => 73,
        CCGRIdx::CcgrUart2 => 74,
        CCGRIdx::CcgrUart3 => 75,
        CCGRIdx::CcgrUart4 => 76,
        CCGRIdx::CcgrUsdhc1 => 81,
        CCGRIdx::CcgrUsdhc2 => 82,
        CCGRIdx::CcgrWdog1 => 83,
        CCGRIdx::CcgrWdog2 => 84,
        CCGRIdx::CcgrWdog3 => 85,
        CCGRIdx::CcgrGic => 92,
        CCGRIdx::CcgrUsdhc3 => 94,
        CCGRIdx::CcgrTempSensor => 98,
    }
}

/// The clock gates the driver programs.
pub open spec fn gate_supported(idx: CCGRIdx) -> bool {
    match idx {
        CCGRIdx::CcgrDdr1 | CCGRIdx::CcgrUart1 | CCGRIdx::CcgrUart2 | CCGRIdx::CcgrUart3
        | CCGRIdx::CcgrUart4 | CCGRIdx::CcgrSctr | CCGRIdx::CcgrSecDebug
        | CCGRIdx::CcgrUsdhc2 | CCGRIdx::CcgrWdog1 | CCGRIdx::CcgrWdog2 | CCGRIdx::CcgrWdog3
        | CCGRIdx::CcgrGic | CCGRIdx::CcgrTempSensor => true,
        _ => false,
    }
}

/// The write that turns the clock gate `idx` on (domain clocks needed all
/// the time) or off.
pub open spec fn gate_write(idx: CCGRIdx, enabled: bool) -> RegOp {
    RegOp::Write {
        addr: ((if enabled {
            CCM_CCGR_N_SET
        } else {
            CCM_CCGR_N_CLR
        }) + 0x10 * gate_number(idx)) as u32,
        value: CCGR_ALWAYS_ON,
    }
}

/// The write of `val` to the target register of the clock root `idx`.
pub open spec fn target_write(idx: ClkRootIdx, val: u32) -> RegOp {
    RegOp::Write { addr: (CCM_TARGET_ROOT_N_SET + 0x80 * root_number(idx)) as u32, value: val }
}

/// Sets the clock gate `idx`: writing its SET register turns it on, its CLR
/// register turns it off.
pub fn clock_enable(idx: CCGRIdx, enabled: bool) -> (op: RegOp)
    requires
        gate_supported(idx),
    ensures
        op == gate_write(idx, enabled),
{
    let base = if enabled {
        CCM_CCGR_N_SET
    } else {
        CCM_CCGR_N_CLR
    };
    let ccgr = match idx {
        CCGRIdx::CcgrDdr1 => base + (0x10 * 5),
        CCGRIdx::CcgrUart1 => base + (0x10 * 73),
        CCGRIdx::CcgrUart2 => base + (0x10 * 74),
        CCGRIdx::CcgrUart3 => base + (0x10 * 75),
        CCGRIdx::CcgrUart4 => base + (0x10 * 76),
        CCGRIdx::CcgrSctr => base + (0x10 * 57),
        CCGRIdx::CcgrSecDebug => base + (0x10 * 60),
        CCGRIdx::CcgrUsdhc2 => base + (0x10 * 82),
        CCGRIdx::CcgrWdog1 => base + (0x10 * 83),
        CCGRIdx::CcgrWdog2 => base + (0x10 * 84),
        CCGRIdx::CcgrWdog3 => base + (0x10 * 85),
        CCGRIdx::CcgrGic => base + (0x10 * 92),
        _ => base + (0x10 * 98),
    };
    RegOp::Write { addr: ccgr, value: CCGR_ALWAYS_ON }
}

/// Writes `val` to the target register of the clock root `idx`: it sets
/// whether the root is on and which source it selects.
pub fn clock_set_target_val(idx: ClkRootIdx, val: u32) -> (op: RegOp)
    requires
        root_supported(idx),
    ensures
        op == target_write(idx, val),
{
    let target_clk = match idx {
        ClkRootIdx::ArmA53ClkRoot => CCM_TARGET_ROOT_N_SET + (0x80 * 0),
        ClkRootIdx::NandUsdhcBusClkRoot => CCM_TARGET_ROOT_N_SET + (0x80 * 18),
        ClkRootIdx::NocClkRoot => CCM_TARGET_ROOT_N_SET + (0x80 * 26),
        ClkRootIdx::CoreSelCfg => CCM_TARGET_ROOT_N_SET + (0x80 * 49),
        ClkRootIdx::DramAltClkRoot => CCM_TARGET_ROOT_N_SET + (0x80 * 64),
        ClkRootIdx::DramApbClkRoot => CCM_TARGET_ROOT_N_SET + (0x80 * 65),
        ClkRootIdx::Usdhc2ClkRoot => CCM_TARGET_ROOT_N_SET + (0x80 * 89),
        ClkRootIdx::Uart1ClkRoot => CCM_TARGET_ROOT_N_SET + (0x80 * 94),
        ClkRootIdx::Uart2ClkRoot => CCM_TARGET_ROOT_N_SET + (0x80 * 95),
        ClkRootIdx::Uart3ClkRoot => CCM_TARGET_ROOT_N_SET + (0x80 * 96),
        ClkRootIdx::Uart4ClkRoot => CCM_TARGET_ROOT_N_SET + (0x80 * 97),
        ClkRootIdx::GicClkRoot => CCM_TARGET_ROOT_N_SET + (0x80 * 100),
        _ => CCM_TARGET_ROOT_N_SET + (0x80 * 114),
    };
    RegOp::Write { addr: target_clk, value: val }
}

} // verus!
