//! Enable or disable the system counter's clock.
use vstd::prelude::*;
use super::ccm::{clock_enable, gate_write, CCGRIdx};
use crate::nxp::imx8mn::bsp::drivers::common::RegOp;

verus! {

/// Allow the system counter: ungate the SCTR clock gate.
pub fn enable_sctr() -> (op: RegOp)
    ensures
        op == gate_write(CCGRIdx::CcgrSctr, true),
{
    clock_enable(CCGRIdx::CcgrSctr, true)
}

} // verus!
