//! uSDHC clocks: the root clock of uSDHC2 is SYSTEM_PLL1_DIV2 (400 MHz).
use vstd::prelude::*;
use super::ccm::{
    clk_root_source_sel, clock_enable, clock_set_target_val, gate_write, root_source_sel,
    target_write, CCGRIdx, ClkRootIdx, CLK_ROOT_ON,
};
use crate::nxp::imx8mn::bsp::drivers::common::RegOp;

verus! {

/// The uSDHC indices this driver enables: only uSDHC2; indices 1 and 3 name
/// gates the clock module driver does not program.
pub open spec fn usdhc_clk_index_ok(index: u32) -> bool {
    index != 1 && index != 3
}

/// Enables the clock of uSDHC `index` (1 is uSDHC1): gate off, root on from
/// source 1, gate on. Other indices enable nothing.
pub fn enable_usdhc_clk(index: u32) -> (ops: Vec<RegOp>)
    requires
        usdhc_clk_index_ok(index),
    ensures
        index == 2 ==> ops@ == seq![
            gate_write(CCGRIdx::CcgrUsdhc2, false),
            target_write(ClkRootIdx::Usdhc2ClkRoot, CLK_ROOT_ON | root_source_sel(1)),
            gate_write(CCGRIdx::CcgrUsdhc2, true),
        ],
        index != 2 ==> ops@.len() == 0,
{
    let mut ops: Vec<RegOp> = Vec::new();
    if index == 2 {
        ops.push(clock_enable(CCGRIdx::CcgrUsdhc2, false));
        ops.push(clock_set_target_val(ClkRootIdx::Usdhc2ClkRoot, CLK_ROOT_ON | clk_root_source_sel(1)));
        ops.push(clock_enable(CCGRIdx::CcgrUsdhc2, true));
    }
    ops
}

} // verus!
