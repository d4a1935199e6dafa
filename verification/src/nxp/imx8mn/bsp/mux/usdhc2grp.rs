//! Pin mux settings of uSDHC2.
use vstd::prelude::*;
use super::iomuxc::{Dse, Fsel, Hys, MuxMode, Ode, Pe, Pue, Sion};
use crate::nxp::imx8mn::bsp::drivers::common::{append_ops, RegOp};
use crate::nxp::imx8mn::bsp::drivers::gpio::{pin_ops, Gpio};
use crate::nxp::imx8mn::bsp::memory_map::{GPIO1_START, GPIO2_START, IOMUXC_START};

verus! {

/// Pad Select.
#[derive(Clone, Copy, PartialEq, Eq, Structural)]
pub enum PadSelect {
    Gpio1Io04,
    Usdhc2Vselect,
    Sdma1ExtEvent1,
}

/// The GPIO registers that go with uSDHC2.
pub struct Usdhc2GpioRegs {
    pub iomuxc_sw_mux_ctl_pad_gpio1_io15: u32,
    pub iomuxc_sw_pad_ctl_pad_gpio1_io15: u32,
}

impl Default for Usdhc2GpioRegs {
    /// The register addresses of the i.MX 8M Nano IOMUXC memory map.
    fn default() -> (r: Self)
        ensures
            r.iomuxc_sw_mux_ctl_pad_gpio1_io15 == IOMUXC_START + 0x64,
            r.iomuxc_sw_pad_ctl_pad_gpio1_io15 == IOMUXC_START + 0x2cc,
    {
        Usdhc2GpioRegs {
            iomuxc_sw_mux_ctl_pad_gpio1_io15: (IOMUXC_START + 0x64) as u32,
            iomuxc_sw_pad_ctl_pad_gpio1_io15: (IOMUXC_START + 0x2cc) as u32,
        }
    }
}

/// The writes that set up the uSDHC2 GPIO pad GPIO1_IO15: mux mode ALT0,
/// GPIO1 pin 15 driven low, pad control 0x1c4.
pub open spec fn gpio_mux_ops(r: Usdhc2GpioRegs) -> Seq<RegOp> {
    seq![RegOp::Write { addr: r.iomuxc_sw_mux_ctl_pad_gpio1_io15, value: 0 }] + pin_ops(
        GPIO1_START as u32,
        15,
        false,
    ) + seq![RegOp::Write { addr: r.iomuxc_sw_pad_ctl_pad_gpio1_io15, value: 0x1c4 }]
}

impl Usdhc2GpioRegs {
    /// Muxes GPIO1_IO15 (only mode ALT0 with software input off is known to
    /// the driver), drives GPIO1 pin 15 low and sets the pad control.
    pub fn set_usdhc2_gpio_mux_cfg(&self, mux_val: MuxMode, sion_val: Sion) -> (ops: Vec<RegOp>)
        requires
            mux_val == MuxMode::Alt0 && sion_val == Sion::Disabled,
        ensures
            ops@ == gpio_mux_ops(*self),
    {
        let mut ops: Vec<RegOp> = Vec::new();
        ops.push(RegOp::Write { addr: self.iomuxc_sw_mux_ctl_pad_gpio1_io15, value: 0x0 });
        let gpio1 = Gpio::new(GPIO1_START);
        append_ops(&mut ops, gpio1.clear_pin(15));
        let pad = self.get_pad_ctrl_val(Dse::DseX2, Fsel::Slow, Ode::Disabled, Pue::PullUp, Hys::Enabled, Pe::Enabled);
        ops.push(RegOp::Write { addr: self.iomuxc_sw_pad_ctl_pad_gpio1_io15, value: pad });
        assert(ops@ =~= gpio_mux_ops(*self));
        ops
    }

    /// The pad control value of GPIO1_IO15: drive strength X2, slow slew, no
    /// open drain, pull-up, hysteresis and pull resistors on. That is the one
    /// setting the driver knows.
    pub fn get_pad_ctrl_val(&self, dse: Dse, fsel: Fsel, ode: Ode, pue: Pue, hys: Hys, pe: Pe) -> (v: u32)
        requires
            dse == Dse::DseX2 && fsel == Fsel::Slow && ode == Ode::Disabled && pue == Pue::PullUp
                && hys == Hys::Enabled && pe == Pe::Enabled,
        ensures
            v == 0x1c4,
    {
        0x1c4
    }
}

/// The pin muxing registers of uSDHC2.
pub struct Usdhc2MuxRegs {
    pub iomuxc_sw_mux_ctl_pad_sd2_cd_b: u32,
    pub iomuxc_sw_mux_ctl_pad_sd2_clk: u32,
    pub iomuxc_sw_mux_ctl_pad_sd2_cmd: u32,
    pub iomuxc_sw_mux_ctl_pad_sd2_data0: u32,
    pub iomuxc_sw_mux_ctl_pad_sd2_data1: u32,
    pub iomuxc_sw_mux_ctl_pad_sd2_data2: u32,
    pub iomuxc_sw_mux_ctl_pad_sd2_data3: u32,
    pub iomuxc_sw_mux_ctl_pad_sd2_reset_b: u32,
    pub iomuxc_sw_mux_ctl_pad_sd2_wp: u32,
    pub iomuxc_sw_pad_ctl_pad_sd2_cd_b: u32,
    pub iomuxc_sw_pad_ctl_pad_sd2_clk: u32,
    pub iomuxc_sw_pad_ctl_pad_sd2_cmd: u32,
    pub iomuxc_sw_pad_ctl_pad_sd2_data0: u32,
    pub iomuxc_sw_pad_ctl_pad_sd2_data1: u32,
    pub iomuxc_sw_pad_ctl_pad_sd2_data2: u32,
    pub iomuxc_sw_pad_ctl_pad_sd2_data3: u32,
    pub iomuxc_sw_pad_ctl_pad_sd2_reset_b: u32,
    pub iomuxc_sw_pad_ctl_pad_sd2_wp: u32,
    pub iomuxc_sw_mux_ctl_pad_usdhc2_vselect: u32,
    pub iomuxc_sw_pad_ctl_pad_usdhc2_vselect: u32,
}

impl Default for Usdhc2MuxRegs {
    /// The register addresses of the i.MX 8M Nano IOMUXC memory map.
    fn default() -> (r: Usdhc2MuxRegs)
        ensures
            r == usdhc2_mux_regs(),
    {
        Usdhc2MuxRegs {
            iomuxc_sw_mux_ctl_pad_sd2_cd_b: (IOMUXC_START + 0xd0) as u32,
            iomuxc_sw_mux_ctl_pad_sd2_clk: (IOMUXC_START + 0xd4) as u32,
            iomuxc_sw_mux_ctl_pad_sd2_cmd: (IOMUXC_START + 0xd8) as u32,
            iomuxc_sw_mux_ctl_pad_sd2_data0: (IOMUXC_START + 0xdc) as u32,
            iomuxc_sw_mux_ctl_pad_sd2_data1: (IOMUXC_START + 0xe0) as u32,
            iomuxc_sw_mux_ctl_pad_sd2_data2: (IOMUXC_START + 0xe4) as u32,
            iomuxc_sw_mux_ctl_pad_sd2_data3: (IOMUXC_START + 0xe8) as u32,
            iomuxc_sw_mux_ctl_pad_sd2_reset_b: (IOMUXC_START + 0xec) as u32,
            iomuxc_sw_mux_ctl_pad_sd2_wp: (IOMUXC_START + 0xf0) as u32,
            iomuxc_sw_pad_ctl_pad_sd2_cd_b: (IOMUXC_START + 0x338) as u32,
            iomuxc_sw_pad_ctl_pad_sd2_clk: (IOMUXC_START + 0x33c) as u32,
            iomuxc_sw_pad_ctl_pad_sd2_cmd: (IOMUXC_START + 0x340) as u32,
            iomuxc_sw_pad_ctl_pad_sd2_data0: (IOMUXC_START + 0x344) as u32,
            iomuxc_sw_pad_ctl_pad_sd2_data1: (IOMUXC_START + 0x348) as u32,
            iomuxc_sw_pad_ctl_pad_sd2_data2: (IOMUXC_START + 0x34c) as u32,
            iomuxc_sw_pad_ctl_pad_sd2_data3: (IOMUXC_START + 0x350) as u32,
            iomuxc_sw_pad_ctl_pad_sd2_reset_b: (IOMUXC_START + 0x354) as u32,
            iomuxc_sw_pad_ctl_pad_sd2_wp: (IOMUXC_START + 0x358) as u32,
            iomuxc_sw_mux_ctl_pad_usdhc2_vselect: (IOMUXC_START + 0x38) as u32,
            iomuxc_sw_pad_ctl_pad_usdhc2_vselect: (IOMUXC_START + 0x2a0) as u32,
        }
    }
}

/// The uSDHC2 register addresses of the i.MX 8M Nano IOMUXC memory map.
pub open spec fn usdhc2_mux_regs() -> Usdhc2MuxRegs {
    Usdhc2MuxRegs {
        iomuxc_sw_mux_ctl_pad_sd2_cd_b: (IOMUXC_START + 0xd0) as u32,
        iomuxc_sw_mux_ctl_pad_sd2_clk: (IOMUXC_START + 0xd4) as u32,
        iomuxc_sw_mux_ctl_pad_sd2_cmd: (IOMUXC_START + 0xd8) as u32,
        iomuxc_sw_mux_ctl_pad_sd2_data0: (IOMUXC_START + 0xdc) as u32,
        iomuxc_sw_mux_ctl_pad_sd2_data1: (IOMUXC_START + 0xe0) as u32,
        iomuxc_sw_mux_ctl_pad_sd2_data2: (IOMUXC_START + 0xe4) as u32,
        iomuxc_sw_mux_ctl_pad_sd2_data3: (IOMUXC_START + 0xe8) as u32,
        iomuxc_sw_mux_ctl_pad_sd2_reset_b: (IOMUXC_START + 0xec) as u32,
        iomuxc_sw_mux_ctl_pad_sd2_wp: (IOMUXC_START + 0xf0) as u32,
        iomuxc_sw_pad_ctl_pad_sd2_cd_b: (IOMUXC_START + 0x338) as u32,
        iomuxc_sw_pad_ctl_pad_sd2_clk: (IOMUXC_START + 0x33c) as u32,
        iomuxc_sw_pad_ctl_pad_sd2_cmd: (IOMUXC_START + 0x340) as u32,
        iomuxc_sw_pad_ctl_pad_sd2_data0: (IOMUXC_START + 0x344) as u32,
        iomuxc_sw_pad_ctl_pad_sd2_data1: (IOMUXC_START + 0x348) as u32,
        iomuxc_sw_pad_ctl_pad_sd2_data2: (IOMUXC_START + 0x34c) as u32,
        iomuxc_sw_pad_ctl_pad_sd2_data3: (IOMUXC_START + 0x350) as u32,
        iomuxc_sw_pad_ctl_pad_sd2_reset_b: (IOMUXC_START + 0x354) as u32,
        iomuxc_sw_pad_ctl_pad_sd2_wp: (IOMUXC_START + 0x358) as u32,
        iomuxc_sw_mux_ctl_pad_usdhc2_vselect: (IOMUXC_START + 0x38) as u32,
        iomuxc_sw_pad_ctl_pad_usdhc2_vselect: (IOMUXC_START + 0x2a0) as u32,
    }
}

/// The pad settings the uSDHC2 driver knows, with their control values:
/// drive strength X1 and no open drain in all of them.
pub open spec fn usdhc2_pad_value(dse: Dse, fsel: Fsel, ode: Ode, pue: Pue, hys: Hys, pe: Pe) -> Option<u32> {
    if dse != Dse::DseX1 || ode != Ode::Disabled {
        None
    } else if fsel == Fsel::Fast && pue == Pue::PullUp && hys == Hys::Enabled && pe == Pe::Enabled {
        Some(0x1d0u32)
    } else if fsel == Fsel::Fast && pue == Pue::PullDown && hys == Hys::Enabled && pe == Pe::Enabled {
        Some(0x190u32)
    } else if fsel == Fsel::Slow && pue == Pue::PullUp && hys == Hys::Disabled && pe == Pe::Disabled {
        Some(0x41u32)
    } else if fsel == Fsel::Slow && pue == Pue::PullUp && hys == Hys::Enabled && pe == Pe::Disabled {
        Some(0xc1u32)
    } else {
        None
    }
}

/// The writes that set up the uSDHC2 pads: SD2_RESET_B as GPIO2 pin 19,
/// driven high; the clock, command and data pads in mode ALT0; their pad
/// controls; VSELECT; and GPIO2 pin 19 driven low again.
pub open spec fn mux_ops(r: Usdhc2MuxRegs, input_selector: u32) -> Seq<RegOp> {
    seq![RegOp::Write { addr: r.iomuxc_sw_mux_ctl_pad_sd2_reset_b, value: 0x5 }] + pin_ops(
        GPIO2_START as u32,
        19,
        true,
    ) + seq![
        RegOp::Write { addr: r.iomuxc_sw_mux_ctl_pad_sd2_clk, value: 0 },
        RegOp::Write { addr: r.iomuxc_sw_mux_ctl_pad_sd2_cmd, value: 0 },
        RegOp::Write { addr: r.iomuxc_sw_mux_ctl_pad_sd2_data0, value: 0 },
        RegOp::Write { addr: r.iomuxc_sw_mux_ctl_pad_sd2_data1, value: 0 },
        RegOp::Write { addr: r.iomuxc_sw_mux_ctl_pad_sd2_data2, value: 0 },
        RegOp::Write { addr: r.iomuxc_sw_mux_ctl_pad_sd2_data3, value: 0 },
        RegOp::Write { addr: r.iomuxc_sw_pad_ctl_pad_sd2_clk, value: 0x190 },
        RegOp::Write { addr: r.iomuxc_sw_pad_ctl_pad_sd2_cmd, value: 0x1d0 },
        RegOp::Write { addr: r.iomuxc_sw_pad_ctl_pad_sd2_data0, value: 0x1d0 },
        RegOp::Write { addr: r.iomuxc_sw_pad_ctl_pad_sd2_data1, value: 0x1d0 },
        RegOp::Write { addr: r.iomuxc_sw_pad_ctl_pad_sd2_data2, value: 0x1d0 },
        RegOp::Write { addr: r.iomuxc_sw_pad_ctl_pad_sd2_data3, value: 0x1d0 },
        RegOp::Write { addr: r.iomuxc_sw_pad_ctl_pad_sd2_reset_b, value: 0x41 },
        RegOp::Write { addr: r.iomuxc_sw_mux_ctl_pad_usdhc2_vselect, value: input_selector },
        RegOp::Write { addr: r.iomuxc_sw_pad_ctl_pad_usdhc2_vselect, value: 0x1d0 },
    ] + pin_ops(GPIO2_START as u32, 19, false)
}

impl Usdhc2MuxRegs {
    /// Sets up the uSDHC2 pads (only mode ALT0 with software input off is
    /// known to the driver); `input_selector` goes to VSELECT.
    pub fn set_usdhc2_mux_cfg(&self, mux_val: MuxMode, sion_val: Sion, input_selector: u32) -> (ops: Vec<RegOp>)
        requires
            mux_val == MuxMode::Alt0 && sion_val == Sion::Disabled,
        ensures
            ops@ == mux_ops(*self, input_selector),
    {
        let gpio2 = Gpio::new(GPIO2_START);
        let mut ops: Vec<RegOp> = Vec::new();
        ops.push(RegOp::Write { addr: self.iomuxc_sw_mux_ctl_pad_sd2_reset_b, value: 0x5 });
        append_ops(&mut ops, gpio2.set_pin(19));
        ops.push(RegOp::Write { addr: self.iomuxc_sw_mux_ctl_pad_sd2_clk, value: 0x0 });
        ops.push(RegOp::Write { addr: self.iomuxc_sw_mux_ctl_pad_sd2_cmd, value: 0x0 });
        ops.push(RegOp::Write { addr: self.iomuxc_sw_mux_ctl_pad_sd2_data0, value: 0x0 });
        ops.push(RegOp::Write { addr: self.iomuxc_sw_mux_ctl_pad_sd2_data1, value: 0x0 });
        ops.push(RegOp::Write { addr: self.iomuxc_sw_mux_ctl_pad_sd2_data2, value: 0x0 });
        ops.push(RegOp::Write { addr: self.iomuxc_sw_mux_ctl_pad_sd2_data3, value: 0x0 });
        let fast_pull_down = self.get_pad_ctrl_val(
            Dse::DseX1,
            Fsel::Fast,
            Ode::Disabled,
            Pue::PullDown,
            Hys::Enabled,
            Pe::Enabled,
        );
        let fast_pull_up = self.get_pad_ctrl_val(
            Dse::DseX1,
            Fsel::Fast,
            Ode::Disabled,
            Pue::PullUp,
            Hys::Enabled,
            Pe::Enabled,
        );
        let slow_plain = self.get_pad_ctrl_val(
            Dse::DseX1,
            Fsel::Slow,
            Ode::Disabled,
            Pue::PullUp,
            Hys::Disabled,
            Pe::Disabled,
        );
        ops.push(RegOp::Write { addr: self.iomuxc_sw_pad_ctl_pad_sd2_clk, value: fast_pull_down });
        ops.push(RegOp::Write { addr: self.iomuxc_sw_pad_ctl_pad_sd2_cmd, value: fast_pull_up });
        ops.push(RegOp::Write { addr: self.iomuxc_sw_pad_ctl_pad_sd2_data0, value: fast_pull_up });
        ops.push(RegOp::Write { addr: self.iomuxc_sw_pad_ctl_pad_sd2_data1, value: fast_pull_up });
        ops.push(RegOp::Write { addr: self.iomuxc_sw_pad_ctl_pad_sd2_data2, value: fast_pull_up });
        ops.push(RegOp::Write { addr: self.iomuxc_sw_pad_ctl_pad_sd2_data3, value: fast_pull_up });
        ops.push(RegOp::Write { addr: self.iomuxc_sw_pad_ctl_pad_sd2_reset_b, value: slow_plain });
        ops.push(RegOp::Write { addr: self.iomuxc_sw_mux_ctl_pad_usdhc2_vselect, value: input_selector });
        ops.push(RegOp::Write { addr: self.iomuxc_sw_pad_ctl_pad_usdhc2_vselect, value: fast_pull_up });
        append_ops(&mut ops, gpio2.clear_pin(19));
        assert(ops@ =~= mux_ops(*self, input_selector));
        ops
    }

    /// The pad control value of a uSDHC2 pad setting the driver knows.
    pub fn get_pad_ctrl_val(&self, dse: Dse, fsel: Fsel, ode: Ode, pue: Pue, hys: Hys, pe: Pe) -> (v: u32)
        requires
            usdhc2_pad_value(dse, fsel, ode, pue, hys, pe) is Some,
        ensures
            Some(v) == usdhc2_pad_value(dse, fsel, ode, pue, hys, pe),
    {
        if fsel == Fsel::Fast && pue == Pue::PullUp {
            0x1d0
        } else if fsel == Fsel::Fast {
            0x190
        } else if hys == Hys::Disabled {
            0x41
        } else {
            0xc1
        }
    }

    /// The VSELECT input value: 1 selects uSDHC2's VSELECT.
    pub fn get_pad_sel_val(&self, pad_sel_val: PadSelect) -> (v: u32)
        requires
            pad_sel_val == PadSelect::Usdhc2Vselect,
        ensures
            v == 0x1,
    {
        0x1
    }
}

/// Sets the mux configuration of the uSDHC2 peripheral: first its GPIO
/// pad, then its own pads.
pub fn usdhc2_mux_mmio_set() -> (ops: Vec<RegOp>)
    ensures
        ops@ == gpio_mux_ops(
            Usdhc2GpioRegs {
                iomuxc_sw_mux_ctl_pad_gpio1_io15: (IOMUXC_START + 0x64) as u32,
                iomuxc_sw_pad_ctl_pad_gpio1_io15: (IOMUXC_START + 0x2cc) as u32,
            },
        ) + mux_ops(usdhc2_mux_regs(), 1),
{
    let usdhc_gpio_regs = Usdhc2GpioRegs::default();
    let mut ops = usdhc_gpio_regs.set_usdhc2_gpio_mux_cfg(MuxMode::Alt0, Sion::Disabled);
    let usdhc_regs = Usdhc2MuxRegs::default();
    let input_selector = usdhc_regs.get_pad_sel_val(PadSelect::Usdhc2Vselect);
    append_ops(&mut ops, usdhc_regs.set_usdhc2_mux_cfg(MuxMode::Alt0, Sion::Disabled, input_selector));
    ops
}

} // verus!
