//! PLL configuration of the analog clock block.
use vstd::prelude::*;
use super::ccm::{
    clk_root_source_sel, clock_enable, clock_set_target_val, gate_write, root_source_sel,
    target_write, CCGRIdx, ClkRootIdx, CLK_ROOT_ON,
};
use crate::nxp::imx8mn::bsp::drivers::common::{append_ops, field, RegOp};

verus! {

pub const INTPLL_CLKE_MASK: u32 = 1 << 11;

/// Offsets of the PLL registers from the start of the block.
pub const ARM_PLL_GEN_CTRL: u32 = 0x84;
pub const ARM_PLL_FDIV_CTRL: u32 = 0x88;
pub const SYS_PLL1_GEN_CTRL: u32 = 0x94;
pub const SYS_PLL1_FDIV_CTRL: u32 = 0x98;
pub const SYS_PLL2_GEN_CTRL: u32 = 0x104;
pub const SYS_PLL2_FDIV_CTRL: u32 = 0x108;
pub const SYS_PLL3_GEN_CTRL: u32 = 0x114;
pub const SYS_PLL3_FDIV_CTRL: u32 = 0x118;

/// Bits of a PLL general function control register.
pub const PLL_BYPASS: u32 = 1 << 4;
pub const PLL_RST: u32 = 1 << 9;
pub const PLL_CLKE: u32 = 1 << 11;
pub const PLL_LOCK_SEL: u32 = 1 << 29;
pub const PLL_LOCK: u32 = 1 << 31;
/// The output enables of a system PLL: CLKE and the DIV2, DIV3, DIV4,
/// DIV5, DIV6, DIV8, DIV10 and DIV20 clock enables (bits 11, 13, ..., 27).
pub const PLL_OUTPUTS: u32 = (1 << 11) | (1 << 13) | (1 << 15) | (1 << 17) | (1 << 19) | (1 << 21)
    | (1 << 23) | (1 << 25) | (1 << 27);

/// The PLLs of the clock block.
#[derive(Clone, Copy, PartialEq, Eq, Structural)]
pub enum PllClocks {
    ArmPll,
    VpuPll,
    GpuPll,
    SystemPll1,
    SystemPll2,
    SystemPll3,
    AudioPll1,
    AudioPll2,
    VideoPll,
    DramPll,
}

/// The divide-and-fraction register fields: a 3-bit post-divider at bit 0,
/// a 6-bit pre-divider at bit 4 and a 10-bit main divider at bit 12 (between
/// the reserved bits 11:10 and 31:22); the modify that sets them to `main`,
/// `pre` and `post`. The PLL then runs at 24 MHz x main / (pre x 2^post).
/// The main divider is deliberately the 10-bit field at bits 21:12, the
/// bits the register layout leaves between its reserved fields: a 2-bit
/// field at bit 10 would drop 0x12c to 0 and leave the PLL off its
/// 1200 MHz and 600 MHz settings.
pub open spec fn fdiv_modify(addr: u32, main: u32, pre: u32, post: u32) -> RegOp {
    RegOp::Modify {
        addr: addr,
        mask: field(0x3FF, 12, main).0 | field(0x3F, 4, pre).0 | field(0b111, 0, post).0,
        value: field(0x3FF, 12, main).1 | field(0x3F, 4, pre).1 | field(0b111, 0, post).1,
    }
}

fn fdiv_op(addr: u32, main: u32, pre: u32, post: u32) -> (op: RegOp)
    ensures
        op == fdiv_modify(addr, main, pre, post),
{
    let mask = (0x3FFu32 << 12u32) | (0x3Fu32 << 4u32) | (0b111u32 << 0u32);
    let value = ((main & 0x3FF) << 12u32) | ((pre & 0x3F) << 4u32) | ((post & 0b111) << 0u32);
    RegOp::Modify { addr: addr, mask: mask, value: value }
}

/// The modify that sets the bits of `bits`.
pub open spec fn set_bits(addr: u32, bits: u32) -> RegOp {
    RegOp::Modify { addr: addr, mask: bits, value: bits }
}

/// The modify that clears the bits of `bits`.
pub open spec fn clear_bits(addr: u32, bits: u32) -> RegOp {
    RegOp::Modify { addr: addr, mask: bits, value: 0 }
}

/// The bring-up of a PLL whose control registers are `gen` and `fdiv`:
/// bypass it with the lock taken from the PLL output, hold it in reset,
/// set its dividers when the frequency is one the driver knows, wait
/// 100 us, release reset, wait for lock, leave bypass, enable its output.
pub open spec fn pll_bring_up(gen: u32, fdiv: Option<RegOp>) -> Seq<RegOp> {
    seq![set_bits(gen, PLL_BYPASS | PLL_LOCK_SEL), clear_bits(gen, PLL_RST)] + match fdiv {
        Some(op) => seq![op],
        None => Seq::<RegOp>::empty(),
    } + seq![
        RegOp::DelayMicros { us: 100 },
        set_bits(gen, PLL_RST),
        RegOp::WaitUntilSet { addr: gen, mask: PLL_LOCK },
        clear_bits(gen, PLL_BYPASS),
        set_bits(gen, PLL_CLKE),
    ]
}

/// The register operations of `pll_configure`.
pub open spec fn pll_configure_ops(base: u32, pll: PllClocks, freq: u32) -> Seq<RegOp> {
    match pll {
        PllClocks::ArmPll => pll_bring_up(
            (base + ARM_PLL_GEN_CTRL) as u32,
            if freq == 1200 {
                Some(fdiv_modify((base + ARM_PLL_FDIV_CTRL) as u32, 0x12c, 3, 1))
            } else {
                None
            },
        ),
        PllClocks::SystemPll3 => pll_bring_up(
            (base + SYS_PLL3_GEN_CTRL) as u32,
            if freq == 600 {
                Some(fdiv_modify((base + SYS_PLL3_FDIV_CTRL) as u32, 0x12c, 3, 2))
            } else {
                None
            },
        ),
        _ => Seq::<RegOp>::empty(),
    }
}

/// The register operations of `clock_init`.
pub open spec fn clock_init_ops(base: u32) -> Seq<RegOp> {
    seq![
        set_bits((base + SYS_PLL1_GEN_CTRL) as u32, PLL_OUTPUTS),
        set_bits((base + SYS_PLL2_GEN_CTRL) as u32, PLL_OUTPUTS),
        target_write(ClkRootIdx::ArmA53ClkRoot, CLK_ROOT_ON | root_source_sel(2)),
    ] + pll_configure_ops(base, PllClocks::ArmPll, 1200) + seq![
        target_write(ClkRootIdx::CoreSelCfg, root_source_sel(1)),
    ] + pll_configure_ops(base, PllClocks::SystemPll3, 600) + seq![
        target_write(ClkRootIdx::NocClkRoot, CLK_ROOT_ON | root_source_sel(2)),
        gate_write(CCGRIdx::CcgrGic, false),
        target_write(ClkRootIdx::GicClkRoot, CLK_ROOT_ON | root_source_sel(3)),
        gate_write(CCGRIdx::CcgrGic, true),
        target_write(ClkRootIdx::NandUsdhcBusClkRoot, CLK_ROOT_ON | root_source_sel(1)),
        gate_write(CCGRIdx::CcgrDdr1, false),
        target_write(ClkRootIdx::DramAltClkRoot, CLK_ROOT_ON | root_source_sel(1)),
        target_write(ClkRootIdx::DramApbClkRoot, CLK_ROOT_ON | root_source_sel(1)),
        gate_write(CCGRIdx::CcgrDdr1, true),
        gate_write(CCGRIdx::CcgrWdog1, false),
        gate_write(CCGRIdx::CcgrWdog2, false),
        gate_write(CCGRIdx::CcgrWdog3, false),
        target_write(ClkRootIdx::WdogClkRoot, CLK_ROOT_ON | root_source_sel(0)),
        gate_write(CCGRIdx::CcgrWdog1, true),
        gate_write(CCGRIdx::CcgrWdog2, true),
        gate_write(CCGRIdx::CcgrWdog3, true),
        gate_write(CCGRIdx::CcgrTempSensor, true),
        gate_write(CCGRIdx::CcgrSecDebug, true),
    ]
}

/// The analog clock block at `mmio_start`.
pub struct CCMAnalog {
    pub mmio_start: usize,
}

impl CCMAnalog {
    /// The block at `mmio_start_addr`.
    pub fn new(mmio_start_addr: usize) -> (c: Self)
        ensures
            c.mmio_start == mmio_start_addr,
    {
        CCMAnalog { mmio_start: mmio_start_addr }
    }

    /// Enables all the outputs of system PLL1.
    pub fn set_pll1_outputs(&self) -> (op: RegOp)
        requires
            self.mmio_start + 0x11c <= u32::MAX,
        ensures
            op == set_bits((self.mmio_start + SYS_PLL1_GEN_CTRL) as u32, PLL_OUTPUTS),
    {
        RegOp::Modify {
            addr: self.mmio_start as u32 + SYS_PLL1_GEN_CTRL,
            mask: PLL_OUTPUTS,
            value: PLL_OUTPUTS,
        }
    }

    /// Enables all the outputs of system PLL2.
    pub fn set_pll2_outputs(&self) -> (op: RegOp)
        requires
            self.mmio_start + 0x11c <= u32::MAX,
        ensures
            op == set_bits((self.mmio_start + SYS_PLL2_GEN_CTRL) as u32, PLL_OUTPUTS),
    {
        RegOp::Modify {
            addr: self.mmio_start as u32 + SYS_PLL2_GEN_CTRL,
            mask: PLL_OUTPUTS,
            value: PLL_OUTPUTS,
        }
    }

    fn bring_up(gen: u32, fdiv: Option<RegOp>) -> (ops: Vec<RegOp>)
        ensures
            ops@ == pll_bring_up(gen, fdiv),
    {
        let mut ops: Vec<RegOp> = Vec::new();
        ops.push(RegOp::Modify { addr: gen, mask: PLL_BYPASS | PLL_LOCK_SEL, value: PLL_BYPASS | PLL_LOCK_SEL });
        ops.push(RegOp::Modify { addr: gen, mask: PLL_RST, value: 0 });
        match fdiv {
            Some(op) => ops.push(op),
            None => {},
        }
        ops.push(RegOp::DelayMicros { us: 100 });
        ops.push(RegOp::Modify { addr: gen, mask: PLL_RST, value: PLL_RST });
        ops.push(RegOp::WaitUntilSet { addr: gen, mask: PLL_LOCK });
        ops.push(RegOp::Modify { addr: gen, mask: PLL_BYPASS, value: 0 });
        ops.push(RegOp::Modify { addr: gen, mask: PLL_CLKE, value: PLL_CLKE });
        assert(ops@ =~= pll_bring_up(gen, fdiv));
        ops
    }

    /// Brings up the ARM PLL (at 1200 MHz) or system PLL3 (at 600 MHz);
    /// another frequency leaves the dividers as they are, and the other PLLs
    /// are left alone.
    pub fn pll_configure(&self, pll: PllClocks, freq: u32) -> (ops: Vec<RegOp>)
        requires
            self.mmio_start + 0x11c <= u32::MAX,
        ensures
            ops@ == pll_configure_ops(self.mmio_start as u32, pll, freq),
    {
        let base = self.mmio_start as u32;
        match pll {
            PllClocks::ArmPll => {
                let fdiv = if freq == 1200 {
                    Some(fdiv_op(base + ARM_PLL_FDIV_CTRL, 0x12c, 3, 1))
                } else {
                    None
                };
                Self::bring_up(base + ARM_PLL_GEN_CTRL, fdiv)
            },
            PllClocks::SystemPll3 => {
                let fdiv = if freq == 600 {
                    Some(fdiv_op(base + SYS_PLL3_FDIV_CTRL, 0x12c, 3, 2))
                } else {
                    None
                };
                Self::bring_up(base + SYS_PLL3_GEN_CTRL, fdiv)
            },
            _ => Vec::new(),
        }
    }

    /// Configures the system PLLs and sets the clock gates and root clocks
    /// of the ARM core, the NoC, the GIC, the NAND/uSDHC bus, the DRAM, the
    /// watchdogs, the temperature sensor and secure debug.
    pub fn clock_init(&self) -> (ops: Vec<RegOp>)
        requires
            self.mmio_start + 0x11c <= u32::MAX,
        ensures
            ops@ == clock_init_ops(self.mmio_start as u32),
    {
        let mut ops: Vec<RegOp> = Vec::new();
        ops.push(self.set_pll1_outputs());
        ops.push(self.set_pll2_outputs());
        ops.push(clock_set_target_val(ClkRootIdx::ArmA53ClkRoot, CLK_ROOT_ON | clk_root_source_sel(2)));
        append_ops(&mut ops, self.pll_configure(PllClocks::ArmPll, 1200));
        ops.push(clock_set_target_val(ClkRootIdx::CoreSelCfg, clk_root_source_sel(1)));
        append_ops(&mut ops, self.pll_configure(PllClocks::SystemPll3, 600));
        ops.push(clock_set_target_val(ClkRootIdx::NocClkRoot, CLK_ROOT_ON | clk_root_source_sel(2)));
        ops.push(clock_enable(CCGRIdx::CcgrGic, false));
        ops.push(clock_set_target_val(ClkRootIdx::GicClkRoot, CLK_ROOT_ON | clk_root_source_sel(3)));
        ops.push(clock_enable(CCGRIdx::CcgrGic, true));
        ops.push(clock_set_target_val(ClkRootIdx::NandUsdhcBusClkRoot, CLK_ROOT_ON | clk_root_source_sel(1)));
        ops.push(clock_enable(CCGRIdx::CcgrDdr1, false));
        ops.push(clock_set_target_val(ClkRootIdx::DramAltClkRoot, CLK_ROOT_ON | clk_root_source_sel(1)));
        ops.push(clock_set_target_val(ClkRootIdx::DramApbClkRoot, CLK_ROOT_ON | clk_root_source_sel(1)));
        ops.push(clock_enable(CCGRIdx::CcgrDdr1, true));
        ops.push(clock_enable(CCGRIdx::CcgrWdog1, false));
        ops.push(clock_enable(CCGRIdx::CcgrWdog2, false));
        ops.push(clock_enable(CCGRIdx::CcgrWdog3, false));
        ops.push(clock_set_target_val(ClkRootIdx::WdogClkRoot, CLK_ROOT_ON | clk_root_source_sel(0)));
        ops.push(clock_enable(CCGRIdx::CcgrWdog1, true));
        ops.push(clock_enable(CCGRIdx::CcgrWdog2, true));
        ops.push(clock_enable(CCGRIdx::CcgrWdog3, true));
        ops.push(clock_enable(CCGRIdx::CcgrTempSensor, true));
        ops.push(clock_enable(CCGRIdx::CcgrSecDebug, true));
        assert(ops@ =~= clock_init_ops(self.mmio_start as u32));
        ops
    }
}

} // verus!
