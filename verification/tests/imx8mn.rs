use std::collections::HashMap;

use rustboot_hal::nxp::imx8mn::bsp::clocks::analog::{CCMAnalog, PllClocks, PLL_OUTPUTS};
use rustboot_hal::nxp::imx8mn::bsp::clocks::ccm::{
    clk_root_source_sel, clock_enable, clock_set_target_val, CCGRIdx, ClkRootIdx, CLK_ROOT_ON,
};
use rustboot_hal::nxp::imx8mn::bsp::clocks::scntrclk::enable_sctr;
use rustboot_hal::nxp::imx8mn::bsp::clocks::uartclks::enable_uart_clk;
use rustboot_hal::nxp::imx8mn::bsp::clocks::usdhcclks::enable_usdhc_clk;
use rustboot_hal::nxp::imx8mn::bsp::counter::SystemCounter;
use rustboot_hal::nxp::imx8mn::bsp::drivers::common::{DeviceDriver, DriverManager, MMIODerefWrapper, RegOp};
use rustboot_hal::nxp::imx8mn::bsp::drivers::driver_manager::{driver_manager, start_system_counter, sys_clocks_init};
use rustboot_hal::nxp::imx8mn::bsp::drivers::gpio::Gpio;
use rustboot_hal::nxp::imx8mn::bsp::drivers::uart0::Uart;
use rustboot_hal::nxp::imx8mn::bsp::global::board_name;
use rustboot_hal::nxp::imx8mn::bsp::mux::iomux::{construct_pad_sel_val, construct_pad_val, uart2_mux_mmio_set, PadSelect};
use rustboot_hal::nxp::imx8mn::bsp::mux::iomuxc::{Dse, Fsel, Hys, Ode, Pe, Pue};
use rustboot_hal::nxp::imx8mn::bsp::mux::usdhc2grp::{usdhc2_mux_mmio_set, Usdhc2MuxRegs};
use rustboot_hal::nxp::imx8mn::log::console::{console, Read, Statistics, Write};

/// Registers for the tests: registers not yet written read as `fill`.
struct Regs {
    values: HashMap<u32, u32>,
    fill: u32,
}

impl Regs {
    fn new(fill: u32) -> Self {
        Regs { values: HashMap::new(), fill }
    }

    fn get(&self, a: u32) -> u32 {
        *self.values.get(&a).unwrap_or(&self.fill)
    }

    fn run(&mut self, ops: &[RegOp]) {
        for op in ops {
            match op {
                RegOp::Write { addr, value } => {
                    self.values.insert(*addr, *value);
                }
                RegOp::Modify { addr, mask, value } => {
                    let old = self.get(*addr);
                    self.values.insert(*addr, (old & !mask) | value);
                }
                _ => {}
            }
        }
    }
}

#[test]
fn clock_root_values() {
    assert_eq!(clk_root_source_sel(2), 0x0200_0000);
    assert_eq!(clk_root_source_sel(9), 0x0100_0000);
    assert_eq!(CLK_ROOT_ON, 0x1000_0000);
}

#[test]
fn clock_gate_and_target_addresses() {
    assert!(clock_enable(CCGRIdx::CcgrUart2, true) == RegOp::Write { addr: 0x3038_4004 + 0x10 * 74, value: 3 });
    assert!(clock_enable(CCGRIdx::CcgrUart2, false) == RegOp::Write { addr: 0x3038_4008 + 0x10 * 74, value: 3 });
    assert!(enable_sctr() == RegOp::Write { addr: 0x3038_4004 + 0x10 * 57, value: 3 });
    assert!(clock_set_target_val(ClkRootIdx::Usdhc2ClkRoot, 7) == RegOp::Write { addr: 0x3038_8004 + 0x80 * 89, value: 7 });
}

#[test]
fn uart_and_usdhc_clocks() {
    let ops = enable_uart_clk(1);
    assert_eq!(ops.len(), 3);
    assert!(ops[1] == RegOp::Write { addr: 0x3038_8004 + 0x80 * 95, value: 0x1000_0000 });
    assert!(enable_uart_clk(7).is_empty());
    let ops = enable_uart_clk(0);
    assert!(ops[0] == RegOp::Write { addr: 0x3038_4008 + 0x10 * 73, value: 3 });
    assert!(ops[1] == RegOp::Write { addr: 0x3038_8004 + 0x80 * 94, value: 0x1000_0000 });
    assert!(ops[2] == RegOp::Write { addr: 0x3038_4004 + 0x10 * 73, value: 3 });
    let ops = enable_uart_clk(3);
    assert!(ops[1] == RegOp::Write { addr: 0x3038_8004 + 0x80 * 97, value: 0x1000_0000 });
    assert_eq!(enable_uart_clk(2).len(), 3);
    let ops = enable_usdhc_clk(2);
    assert!(ops[0] == RegOp::Write { addr: 0x3038_4008 + 0x10 * 82, value: 3 });
    assert!(ops[1] == RegOp::Write { addr: 0x3038_8004 + 0x80 * 89, value: 0x1100_0000 });
    assert!(ops[2] == RegOp::Write { addr: 0x3038_4004 + 0x10 * 82, value: 3 });
    assert!(enable_usdhc_clk(0).is_empty());
}

#[test]
fn pll_bring_up() {
    let analog = CCMAnalog::new(0x3036_0000);
    assert_eq!(PLL_OUTPUTS, 0x0AAA_A800);
    assert!(analog.set_pll1_outputs() == RegOp::Modify { addr: 0x3036_0094, mask: 0x0AAA_A800, value: 0x0AAA_A800 });
    let ops = analog.pll_configure(PllClocks::ArmPll, 1200);
    assert_eq!(ops.len(), 8);
    assert!(ops[0] == RegOp::Modify { addr: 0x3036_0084, mask: 0x2000_0010, value: 0x2000_0010 });
    assert!(ops[1] == RegOp::Modify { addr: 0x3036_0084, mask: 0x200, value: 0 });
    assert!(ops[2] == RegOp::Modify { addr: 0x3036_0088, mask: 0x3FF3F7, value: 0x12C031 });
    assert!(ops[3] == RegOp::DelayMicros { us: 100 });
    assert!(ops[5] == RegOp::WaitUntilSet { addr: 0x3036_0084, mask: 0x8000_0000 });
    assert!(ops[7] == RegOp::Modify { addr: 0x3036_0084, mask: 0x800, value: 0x800 });
    let ops = analog.pll_configure(PllClocks::SystemPll3, 600);
    assert!(ops[2] == RegOp::Modify { addr: 0x3036_0118, mask: 0x3FF3F7, value: 0x12C032 });
    assert_eq!(analog.pll_configure(PllClocks::ArmPll, 1000).len(), 7);
    assert!(analog.pll_configure(PllClocks::SystemPll1, 800).is_empty());
}

#[test]
fn system_clock_init() {
    let ops = sys_clocks_init();
    assert_eq!(ops.len(), 3 + 8 + 1 + 8 + 18);
    let mut regs = Regs::new(0);
    regs.run(&ops);
    assert_eq!(regs.get(0x3036_0094), 0x0AAA_A800);
    assert_eq!(regs.get(0x3036_0084), 0x2000_0A00);
    assert_eq!(regs.get(0x3038_8004 + 0x80 * 100), 0x1300_0000);
}

#[test]
fn uart2_pads() {
    assert_eq!(construct_pad_val(Dse::DseX6, Fsel::Slow, Ode::Disabled, Pue::PullDown, Hys::Disabled, Pe::Disabled), 7);
    assert_eq!(construct_pad_sel_val(PadSelect::Uart2TxdAlt0), 0);
    let ops = uart2_mux_mmio_set();
    assert!(ops == vec![
        RegOp::Write { addr: 0x3033_023c, value: 0 },
        RegOp::Write { addr: 0x3033_0240, value: 0 },
        RegOp::Write { addr: 0x3033_04a4, value: 7 },
        RegOp::Write { addr: 0x3033_04a8, value: 7 },
        RegOp::Write { addr: 0x3033_04fc, value: 0 },
    ]);
}

#[test]
fn usdhc2_pads() {
    let regs = Usdhc2MuxRegs::default();
    assert_eq!(regs.get_pad_ctrl_val(Dse::DseX1, Fsel::Fast, Ode::Disabled, Pue::PullUp, Hys::Enabled, Pe::Enabled), 0x1d0);
    assert_eq!(regs.get_pad_ctrl_val(Dse::DseX1, Fsel::Fast, Ode::Disabled, Pue::PullDown, Hys::Enabled, Pe::Enabled), 0x190);
    assert_eq!(regs.get_pad_ctrl_val(Dse::DseX1, Fsel::Slow, Ode::Disabled, Pue::PullUp, Hys::Disabled, Pe::Disabled), 0x41);
    assert_eq!(regs.get_pad_ctrl_val(Dse::DseX1, Fsel::Slow, Ode::Disabled, Pue::PullUp, Hys::Enabled, Pe::Disabled), 0xc1);
    let ops = usdhc2_mux_mmio_set();
    assert_eq!(ops.len(), 3 + 1 + 2 + 15 + 1);
    assert!(ops[0] == RegOp::Write { addr: 0x3033_0064, value: 0 });
    assert!(ops[2] == RegOp::Write { addr: 0x3033_02cc, value: 0x1c4 });
    assert!(ops[3] == RegOp::Write { addr: 0x3033_00ec, value: 5 });
    let mut r = Regs::new(0xFFFF_FFFF);
    r.run(&ops);
    assert_eq!(r.get(0x3033_033c), 0x190);
    assert_eq!(r.get(0x3033_0340), 0x1d0);
    assert_eq!(r.get(0x3033_0354), 0x41);
    assert_eq!(r.get(0x3033_0038), 1);
    assert_eq!(r.get(0x3033_02a0), 0x1d0);
    // GPIO1 pin 15 and GPIO2 pin 19 end up low; GPIO2 pin 19 was made an
    // output; the other pins keep their bits.
    assert_eq!(r.get(0x3020_0000), 0xFFFF_7FFF);
    assert_eq!(r.get(0x3021_0000), 0xFFF7_FFFF);
    assert_eq!(r.get(0x3021_0004), 0xFFFF_FFFF);
}

#[test]
fn gpio_pins() {
    let g = Gpio::new(0x3021_0000);
    let mut r = Regs::new(0x5555_5555);
    r.run(&g.set_pin(19));
    assert_eq!(r.get(0x3021_0000), 0x5555_5555 | (1 << 19));
    assert_eq!(r.get(0x3021_0004), 0x5555_5555 | (1 << 19));
    r.run(&g.clear_pin(2));
    assert_eq!(r.get(0x3021_0000), 0x5555_5551 | (1 << 19));
    r.run(&g.clear_pin(19));
    assert_eq!(r.get(0x3021_0000), 0x5555_5551);
    assert_eq!(r.get(0x3021_0004), 0x5555_5555 | (1 << 19));
    assert_eq!(g.read_pin(4, 0b1_0000), 1);
    assert_eq!(g.read_pin(3, 0b1_0000), 0);
    assert_eq!(g.compatible(), "i.MX 8M Nano Gpio");
}

#[test]
fn uart_bring_up() {
    let u = Uart::new(0x3089_0000);
    let ops = u.init().unwrap();
    assert_eq!(ops.len(), 14);
    assert!(ops[2] == RegOp::WaitUntilSet { addr: 0x3089_0084, mask: 1 });
    assert!(ops[8] == RegOp::Modify { addr: 0x3089_0090, mask: 0xFFBF, value: 0x2A01 });
    assert!(ops[11] == RegOp::Write { addr: 0x3089_00A8, value: 104 });
    let mut r = Regs::new(0);
    r.run(&ops);
    assert_eq!(r.get(0x3089_0084), 0x4027);
    assert_eq!(r.get(0x3089_0088), 0x0084);
    assert_eq!(r.get(0x3089_0080), 1);
    assert_eq!(u.compatible(), "i.MX8M Uart2");
}

#[test]
fn console_writes_count_characters() {
    let mut m = driver_manager();
    let c = console(&mut m);
    assert_eq!(c.chars_written(), 0);
    let ops = c.write_char('A');
    assert!(ops == vec![
        RegOp::Write { addr: 0x3089_0040, value: 0x41 },
        RegOp::WaitUntilSet { addr: 0x3089_0098, mask: 0x8 },
    ]);
    c.write_char('B');
    assert_eq!(c.chars_written(), 2);
    assert_eq!(c.chars_read(), 0);
    assert_eq!(c.read_char(), ' ');
    c.clear_rx();
    // The console is the manager's UART: its count carries over.
    console(&mut m).write_char('C');
    assert_eq!(m.all_device_drivers()[0].chars_written(), 3);
}

#[test]
fn system_counter_start() {
    let (frq, op) = start_system_counter(8_000_000);
    assert_eq!(frq, 8_000_000);
    assert!(op == RegOp::Write { addr: 0x306C_0000, value: 0x103 });
    let (_, op) = SystemCounter::new(0x1000).start_counter(1);
    assert!(op == RegOp::Write { addr: 0x1000, value: 0x103 });
}

#[test]
fn drivers_and_board() {
    let m = driver_manager();
    let d = m.all_device_drivers();
    assert_eq!(d.len(), 1);
    assert_eq!(d[0].compatible(), "i.MX8M Uart2");
    assert_eq!(board_name(), "i.MX 8M Nano EVK");
    let w: MMIODerefWrapper<u32> = MMIODerefWrapper::new(0x3089_0000);
    assert_eq!(w.start_addr, 0x3089_0000);
}

#[test]
fn early_start_up_writes() {
    let (frq, ops) = rustboot_hal::bootloaders::imx8mn::start_rust(8_000_000);
    assert_eq!(frq, 8_000_000);
    assert_eq!(ops.len(), 2 + 3 + 3 + 5 + 22);
    assert!(ops[0] == RegOp::Write { addr: 0x3038_4004 + 0x10 * 57, value: 3 });
    assert!(ops[1] == RegOp::Write { addr: 0x306C_0000, value: 0x103 });
    assert!(ops[8] == RegOp::Write { addr: 0x3033_023c, value: 0 });
}
