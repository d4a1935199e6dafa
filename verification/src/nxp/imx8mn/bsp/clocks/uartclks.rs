//! UART clocks. A UART does not carry a clock signal, but the i.MX 8M Nano
//! needs a UART's clock enabled before the peripheral can be used.
use vstd::prelude::*;
use super::ccm::{
    clk_root_source_sel, clock_enable, clock_set_target_val, gate_write, root_source_sel,
    target_write, CCGRIdx, ClkRootIdx, CLK_ROOT_ON,
};
use crate::nxp::imx8mn::bsp::drivers::common::RegOp;

verus! {

/// The clock gate and root of UART `index` (0 is UART1, 3 is UART4).
pub open spec fn uart_clocks(index: u32) -> Option<(CCGRIdx, ClkRootIdx)> {
    if index == 0 {
        Some((CCGRIdx::CcgrUart1, ClkRootIdx::Uart1ClkRoot))
    } else if index == 1 {
        Some((CCGRIdx::CcgrUart2, ClkRootIdx::Uart2ClkRoot))
    } else if index == 2 {
        Some((CCGRIdx::CcgrUart3, ClkRootIdx::Uart3ClkRoot))
    } else if index == 3 {
        Some((CCGRIdx::CcgrUart4, ClkRootIdx::Uart4ClkRoot))
    } else {
        None
    }
}

/// Enables the clock of UART `index` (0 is UART1, 3 is UART4): gate off,
/// root on from the 24 MHz oscillator, gate on. Other indices name no UART
/// and enable nothing.
pub fn enable_uart_clk(index: u32) -> (ops: Vec<RegOp>)
    ensures
        ops@ == (match uart_clocks(index) {
            Some((gate, root)) => seq![
                gate_write(gate, false),
                target_write(root, CLK_ROOT_ON | root_source_sel(0)),
                gate_write(gate, true),
            ],
            None => Seq::<RegOp>::empty(),
        }),
{
    let mut ops: Vec<RegOp> = Vec::new();
    let clocks = if index == 0 {
        Some((CCGRIdx::CcgrUart1, ClkRootIdx::Uart1ClkRoot))
    } else if index == 1 {
        Some((CCGRIdx::CcgrUart2, ClkRootIdx::Uart2ClkRoot))
    } else if index == 2 {
        Some((CCGRIdx::CcgrUart3, ClkRootIdx::Uart3ClkRoot))
    } else if index == 3 {
        Some((CCGRIdx::CcgrUart4, ClkRootIdx::Uart4ClkRoot))
    } else {
        None
    };
    match clocks {
        Some((gate, root)) => {
            ops.push(clock_enable(gate, false));
            ops.push(clock_set_target_val(root, CLK_ROOT_ON | clk_root_source_sel(0)));
            ops.push(clock_enable(gate, true));
            assert(ops@ =~= seq![
                gate_write(gate, false),
                target_write(root, CLK_ROOT_ON | root_source_sel(0)),
                gate_write(gate, true),
            ]);
        },
        None => {},
    }
    ops
}

} // verus!
