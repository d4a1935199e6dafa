//! IOMUX settings of the UART2 pins.
use vstd::prelude::*;
use super::iomuxc::{Dse, Fsel, Hys, MuxMode, Ode, Pe, Pue, Sion};
use crate::nxp::imx8mn::bsp::drivers::common::RegOp;
use crate::nxp::imx8mn::bsp::memory_map::IOMUXC_START;

verus! {

/// Pad Select.
#[derive(Clone, Copy, PartialEq, Eq, Structural)]
pub enum PadSelect {
    Uart2RxdAlt0,
    Uart2TxdAlt0,
    Unimplemented,
}

/// The pad control value of the UART2 pads: drive strength X6, slow slew,
/// no open drain, pull-down selected, no hysteresis, pull resistors off.
/// That is the one setting the driver knows.
pub fn construct_pad_val(dse: Dse, fsel: Fsel, ode: Ode, pue: Pue, hys: Hys, pe: Pe) -> (v: u32)
    requires
        dse == Dse::DseX6 && fsel == Fsel::Slow && ode == Ode::Disabled && pue == Pue::PullDown
            && hys == Hys::Disabled && pe == Pe::Disabled,
    ensures
        v == 7,
{
    7
}

/// The select-input value of a UART2 pad: daisy chain 0 for both the RXD and
/// the TXD pad in mode ALT0.
pub fn construct_pad_sel_val(pad_sel_val: PadSelect) -> (v: u32)
    requires
        pad_sel_val != PadSelect::Unimplemented,
    ensures
        v == 0,
{
    0
}

/// The pin muxing registers of UART2.
pub struct Uart2MuxRegs {
    pub iomuxc_sw_mux_ctl_pad_uart2_rxd: u32,
    pub iomuxc_sw_mux_ctl_pad_uart2_txd: u32,
    pub iomuxc_sw_pad_ctl_pad_uart2_rxd: u32,
    pub iomuxc_sw_pad_ctl_pad_uart2_txd: u32,
    pub iomuxc_uart2_rx_select_input: u32,
}

impl Default for Uart2MuxRegs {
    /// The register addresses of the i.MX 8M Nano IOMUXC memory map.
    fn default() -> (r: Uart2MuxRegs)
        ensures
            r.iomuxc_sw_mux_ctl_pad_uart2_rxd == IOMUXC_START + 0x23c,
            r.iomuxc_sw_mux_ctl_pad_uart2_txd == IOMUXC_START + 0x240,
            r.iomuxc_sw_pad_ctl_pad_uart2_rxd == IOMUXC_START + 0x4a4,
            r.iomuxc_sw_pad_ctl_pad_uart2_txd == IOMUXC_START + 0x4a8,
            r.iomuxc_uart2_rx_select_input == IOMUXC_START + 0x4fc,
    {
        Uart2MuxRegs {
            iomuxc_sw_mux_ctl_pad_uart2_rxd: (IOMUXC_START + 0x23c) as u32,
            iomuxc_sw_mux_ctl_pad_uart2_txd: (IOMUXC_START + 0x240) as u32,
            iomuxc_sw_pad_ctl_pad_uart2_rxd: (IOMUXC_START + 0x4a4) as u32,
            iomuxc_sw_pad_ctl_pad_uart2_txd: (IOMUXC_START + 0x4a8) as u32,
            iomuxc_uart2_rx_select_input: (IOMUXC_START + 0x4fc) as u32,
        }
    }
}

/// The writes that mux the UART2 pads to mode ALT0, set their pad control
/// and select their input.
pub open spec fn uart2_mux_ops(r: Uart2MuxRegs, pad_ctrl_val: u32, input_selector: u32) -> Seq<RegOp> {
    seq![
        RegOp::Write { addr: r.iomuxc_sw_mux_ctl_pad_uart2_rxd, value: 0 },
        RegOp::Write { addr: r.iomuxc_sw_mux_ctl_pad_uart2_txd, value: 0 },
        RegOp::Write { addr: r.iomuxc_sw_pad_ctl_pad_uart2_rxd, value: pad_ctrl_val },
        RegOp::Write { addr: r.iomuxc_sw_pad_ctl_pad_uart2_txd, value: pad_ctrl_val },
        RegOp::Write { addr: r.iomuxc_uart2_rx_select_input, value: input_selector },
    ]
}

/// Muxes the UART2 pads (only mode ALT0 with software input off is known to
/// the driver) and writes their pad control and input selection.
pub fn set_uart2_mux_cfg(
    uart_regs: Uart2MuxRegs,
    mux_val: MuxMode,
    sion_val: Sion,
    pad_ctrl_val: u32,
    input_selector: u32,
) -> (ops: Vec<RegOp>)
    requires
        mux_val == MuxMode::Alt0 && sion_val == Sion::Disabled,
    ensures
        ops@ == uart2_mux_ops(uart_regs, pad_ctrl_val, input_selector),
{
    let mut ops: Vec<RegOp> = Vec::new();
    ops.push(RegOp::Write { addr: uart_regs.iomuxc_sw_mux_ctl_pad_uart2_rxd, value: 0 });
    ops.push(RegOp::Write { addr: uart_regs.iomuxc_sw_mux_ctl_pad_uart2_txd, value: 0 });
    ops.push(RegOp::Write { addr: uart_regs.iomuxc_sw_pad_ctl_pad_uart2_rxd, value: pad_ctrl_val });
    ops.push(RegOp::Write { addr: uart_regs.iomuxc_sw_pad_ctl_pad_uart2_txd, value: pad_ctrl_val });
    ops.push(RegOp::Write { addr: uart_regs.iomuxc_uart2_rx_select_input, value: input_selector });
    assert(ops@ =~= uart2_mux_ops(uart_regs, pad_ctrl_val, input_selector));
    ops
}

/// Sets the mux configuration of the UART2 peripheral.
pub fn uart2_mux_mmio_set() -> (ops: Vec<RegOp>)
    ensures
        ops@ == seq![
            RegOp::Write { addr: (IOMUXC_START + 0x23c) as u32, value: 0 },
            RegOp::Write { addr: (IOMUXC_START + 0x240) as u32, value: 0 },
            RegOp::Write { addr: (IOMUXC_START + 0x4a4) as u32, value: 7 },
            RegOp::Write { addr: (IOMUXC_START + 0x4a8) as u32, value: 7 },
            RegOp::Write { addr: (IOMUXC_START + 0x4fc) as u32, value: 0 },
        ],
{
    let uart_regs = Uart2MuxRegs::default();
    let pad_ctrl_val = construct_pad_val(
        Dse::DseX6,
        Fsel::Slow,
        Ode::Disabled,
        Pue::PullDown,
        Hys::Disabled,
        Pe::Disabled,
    );
    let input_selector = construct_pad_sel_val(PadSelect::Uart2RxdAlt0);
    set_uart2_mux_cfg(uart_regs, MuxMode::Alt0, Sion::Disabled, pad_ctrl_val, input_selector)
}

} // verus!
