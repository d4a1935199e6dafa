//! The i.MX 8M Nano bootloader's early start-up.
use vstd::prelude::*;
use crate::nxp::imx8mn::bsp::clocks::ccm::{gate_write, root_source_sel, target_write, CCGRIdx, ClkRootIdx, CLK_ROOT_ON};
use crate::nxp::imx8mn::bsp::clocks::scntrclk::enable_sctr;
use crate::nxp::imx8mn::bsp::clocks::uartclks::enable_uart_clk;
use crate::nxp::imx8mn::bsp::clocks::usdhcclks::enable_usdhc_clk;
use crate::nxp::imx8mn::bsp::counter::{CNTCR_START, SYS_CNTCR};
use crate::nxp::imx8mn::bsp::drivers::common::{append_ops, RegOp};
use crate::nxp::imx8mn::bsp::drivers::driver_manager::start_system_counter;
use crate::nxp::imx8mn::bsp::memory_map::{IOMUXC_START, SYSCNT_START};
use crate::nxp::imx8mn::bsp::mux::iomux::uart2_mux_mmio_set;
use crate::nxp::imx8mn::bsp::mux::usdhc2grp::{gpio_mux_ops, mux_ops, usdhc2_mux_regs, usdhc2_mux_mmio_set, Usdhc2GpioRegs};

verus! {

/// The register writes of the early start-up, given the system counter's
/// base frequency: ungate the system counter and start it, turn on the
/// clocks of UART2 and uSDHC2, and mux their pins. With them, the value for
/// the counter frequency register CNTFRQ_EL0.
pub fn start_rust(cntfid0: u32) -> (r: (u64, Vec<RegOp>))
    ensures
        r.0 == cntfid0 as u64,
        r.1@ == seq![
            gate_write(CCGRIdx::CcgrSctr, true),
            RegOp::Write { addr: (SYSCNT_START + SYS_CNTCR) as u32, value: CNTCR_START },
            gate_write(CCGRIdx::CcgrUart2, false),
            target_write(ClkRootIdx::Uart2ClkRoot, CLK_ROOT_ON | root_source_sel(0)),
            gate_write(CCGRIdx::CcgrUart2, true),
            gate_write(CCGRIdx::CcgrUsdhc2, false),
            target_write(ClkRootIdx::Usdhc2ClkRoot, CLK_ROOT_ON | root_source_sel(1)),
            gate_write(CCGRIdx::CcgrUsdhc2, true),
            RegOp::Write { addr: (IOMUXC_START + 0x23c) as u32, value: 0 },
            RegOp::Write { addr: (IOMUXC_START + 0x240) as u32, value: 0 },
            RegOp::Write { addr: (IOMUXC_START + 0x4a4) as u32, value: 7 },
            RegOp::Write { addr: (IOMUXC_START + 0x4a8) as u32, value: 7 },
            RegOp::Write { addr: (IOMUXC_START + 0x4fc) as u32, value: 0 },
        ] + gpio_mux_ops(
            Usdhc2GpioRegs {
                iomuxc_sw_mux_ctl_pad_gpio1_io15: (IOMUXC_START + 0x64) as u32,
                iomuxc_sw_pad_ctl_pad_gpio1_io15: (IOMUXC_START + 0x2cc) as u32,
            },
        ) + mux_ops(usdhc2_mux_regs(), 1),
{
    let mut ops: Vec<RegOp> = Vec::new();
    ops.push(enable_sctr());
    let (frq, start) = start_system_counter(cntfid0);
    ops.push(start);
    append_ops(&mut ops, enable_uart_clk(1));
    append_ops(&mut ops, enable_usdhc_clk(2));
    append_ops(&mut ops, uart2_mux_mmio_set());
    append_ops(&mut ops, usdhc2_mux_mmio_set());
    (frq, ops)
}

} // verus!
