//! UART driver of UART2, the debug port of the i.MX 8M Nano EVK.
use vstd::prelude::*;
use super::common::{field, DeviceDriver, RegOp};
use crate::nxp::imx8mn::log::console::{Read, Statistics, Write};

verus! {

/// Offsets of the UART registers.
pub const UART2_URXD: u32 = 0x00;
pub const UART2_UTXD: u32 = 0x40;
pub const UART2_UCR1: u32 = 0x80;
pub const UART2_UCR2: u32 = 0x84;
pub const UART2_UCR3: u32 = 0x88;
pub const UART2_UCR4: u32 = 0x8C;
pub const UART2_UFCR: u32 = 0x90;
pub const UART2_USR2: u32 = 0x98;
pub const UART2_UESC: u32 = 0x9C;
pub const UART2_UTIM: u32 = 0xA0;
pub const UART2_UBIR: u32 = 0xA4;
pub const UART2_UBMR: u32 = 0xA8;
pub const UART2_UTS: u32 = 0xB4;

/// UCR2.SRST: the reset is over when it reads 1.
pub const UCR2_SRST: u32 = 1 << 0;
/// USR2.TXDC: transmission complete.
pub const USR2_TXDC: u32 = 1 << 3;
/// UCR2 in operation: 8-bit words, RTS ignored, receiver and transmitter
/// enabled, out of reset.
pub const UCR2_RUN: u32 = (1 << 5) | (1 << 14) | (1 << 1) | (1 << 2) | (1 << 0);
/// UCR3.RXDMUXSEL, which should always be set.
pub const UCR3_RXDMUXSEL: u32 = 1 << 2;
/// UCR1.UARTEN.
pub const UCR1_UARTEN: u32 = 1 << 0;

/// The reference clock of the UART.
pub const UART_REF_CLK: u64 = 24000000;
/// The baud rate of the debug port.
pub const BAUD_RATE: u64 = 115200;

/// The FIFO control the driver sets: TX threshold field 000010 and RX
/// threshold 000001, written as decimal numbers, and the reference clock
/// divided by 4 (field value 100, decimal).
pub open spec fn ufcr_setting() -> (u32, u32) {
    (
        field(0x3F, 10, 10).0 | field(0x7, 7, 100).0 | field(0x3F, 0, 1).0,
        field(0x3F, 10, 10).1 | field(0x7, 7, 100).1 | field(0x3F, 0, 1).1,
    )
}

/// The register operations that bring UART2 up at 115200 baud, 8N1, from
/// the 24 MHz reference clock.
pub open spec fn init_uart_ops(base: u32) -> Seq<RegOp> {
    seq![
        RegOp::Write { addr: (base + UART2_UCR1) as u32, value: 0 },
        RegOp::Write { addr: (base + UART2_UCR2) as u32, value: 0 },
        RegOp::WaitUntilSet { addr: (base + UART2_UCR2) as u32, mask: UCR2_SRST },
        RegOp::Write { addr: (base + UART2_UCR3) as u32, value: 0x0084 },
        RegOp::Write { addr: (base + UART2_UCR4) as u32, value: 0x8000 },
        RegOp::Write { addr: (base + UART2_UESC) as u32, value: 0x2b },
        RegOp::Write { addr: (base + UART2_UTIM) as u32, value: 0x0 },
        RegOp::Write { addr: (base + UART2_UTS) as u32, value: 0x0 },
        RegOp::Modify {
            addr: (base + UART2_UFCR) as u32,
            mask: ufcr_setting().0,
            value: ufcr_setting().1,
        },
        RegOp::Write { addr: (base + UART2_UBIR) as u32, value: 0x000f },
        RegOp::Modify { addr: (base + UART2_UCR2) as u32, mask: UCR2_RUN, value: UCR2_RUN },
        RegOp::Write { addr: (base + UART2_UBMR) as u32, value: (UART_REF_CLK as int / (2 * BAUD_RATE as int)) as u32 },
        RegOp::Modify { addr: (base + UART2_UCR3) as u32, mask: UCR3_RXDMUXSEL, value: UCR3_RXDMUXSEL },
        RegOp::Modify { addr: (base + UART2_UCR1) as u32, mask: UCR1_UARTEN, value: UCR1_UARTEN },
    ]
}

/// The UART registers at `mmio_start` and the characters moved so far.
pub struct UartInner {
    mmio_start: usize,
    chars_written: usize,
    chars_read: usize,
}

impl UartInner {
    /// The registers lie within the 32-bit address space.
    #[verifier::type_invariant]
    spec fn inv(self) -> bool {
        self.mmio_start + UART2_UTS <= u32::MAX
    }

    pub closed spec fn start(self) -> usize {
        self.mmio_start
    }

    pub closed spec fn written(self) -> usize {
        self.chars_written
    }

    pub closed spec fn read(self) -> usize {
        self.chars_read
    }

    pub fn new(mmio_start_addr: usize) -> (u: Self)
        requires
            mmio_start_addr + UART2_UTS <= u32::MAX,
        ensures
            u.start() == mmio_start_addr,
            u.written() == 0,
            u.read() == 0,
    {
        UartInner { mmio_start: mmio_start_addr, chars_written: 0, chars_read: 0 }
    }

    /// The start of the registers.
    pub fn mmio_start(&self) -> (s: usize)
        ensures
            s == self.start(),
    {
        self.mmio_start
    }

    /// Brings UART2 up: disable, reset and wait for the reset to end, set
    /// the control, FIFO and baud-rate registers, enable.
    pub fn init_uart(&self) -> (ops: Vec<RegOp>)
        ensures
            ops@ == init_uart_ops(self.start() as u32),
    {
        proof {
            use_type_invariant(self);
        }
        let base = self.mmio_start as u32;
        let mut ops: Vec<RegOp> = Vec::new();
        ops.push(RegOp::Write { addr: base + UART2_UCR1, value: 0 });
        ops.push(RegOp::Write { addr: base + UART2_UCR2, value: 0 });
        ops.push(RegOp::WaitUntilSet { addr: base + UART2_UCR2, mask: UCR2_SRST });
        ops.push(RegOp::Write { addr: base + UART2_UCR3, value: 0x0084 });
        ops.push(RegOp::Write { addr: base + UART2_UCR4, value: 0x8000 });
        ops.push(RegOp::Write { addr: base + UART2_UESC, value: 0x2b });
        ops.push(RegOp::Write { addr: base + UART2_UTIM, value: 0x0 });
        ops.push(RegOp::Write { addr: base + UART2_UTS, value: 0x0 });
        let ufcr_mask = (0x3Fu32 << 10u32) | (0x7u32 << 7u32) | (0x3Fu32 << 0u32);
        let ufcr_value = ((10u32 & 0x3F) << 10u32) | ((100u32 & 0x7) << 7u32) | ((1u32 & 0x3F) << 0u32);
        ops.push(RegOp::Modify { addr: base + UART2_UFCR, mask: ufcr_mask, value: ufcr_value });
        ops.push(RegOp::Write { addr: base + UART2_UBIR, value: 0x000f });
        ops.push(RegOp::Modify { addr: base + UART2_UCR2, mask: UCR2_RUN, value: UCR2_RUN });
        ops.push(RegOp::Write { addr: base + UART2_UBMR, value: (UART_REF_CLK / (2 * BAUD_RATE)) as u32 });
        ops.push(RegOp::Modify { addr: base + UART2_UCR3, mask: UCR3_RXDMUXSEL, value: UCR3_RXDMUXSEL });
        ops.push(RegOp::Modify { addr: base + UART2_UCR1, mask: UCR1_UARTEN, value: UCR1_UARTEN });
        assert(ops@ =~= init_uart_ops(base));
        ops
    }

    /// Sends a character: write it to the transmitter, then wait until the
    /// transmission is complete. Counts the character.
    pub fn write_char(&mut self, c: char) -> (ops: Vec<RegOp>)
        ensures
            ops@ == seq![
                RegOp::Write { addr: (old(self).start() + UART2_UTXD) as u32, value: c as u32 },
                RegOp::WaitUntilSet { addr: (old(self).start() + UART2_USR2) as u32, mask: USR2_TXDC },
            ],
            final(self).written() == (old(self).written() + 1) % (usize::MAX as int + 1),
            final(self).read() == old(self).read(),
            final(self).start() == old(self).start(),
    {
        proof {
            use_type_invariant(&*self);
        }
        let base = self.mmio_start as u32;
        let mut ops: Vec<RegOp> = Vec::new();
        ops.push(RegOp::Write { addr: base + UART2_UTXD, value: c as u32 });
        ops.push(RegOp::WaitUntilSet { addr: base + UART2_USR2, mask: USR2_TXDC });
        self.chars_written = self.chars_written.wrapping_add(1);
        ops
    }

    /// The characters written so far.
    pub fn chars_written(&self) -> (n: usize)
        ensures
            n == self.written(),
    {
        self.chars_written
    }

    /// The characters read so far.
    pub fn chars_read(&self) -> (n: usize)
        ensures
            n == self.read(),
    {
        self.chars_read
    }
}

/// The UART.
pub struct Uart {
    pub inner: UartInner,
}

impl Uart {
    pub fn new(mmio_start_addr: usize) -> (u: Self)
        requires
            mmio_start_addr + UART2_UTS <= u32::MAX,
        ensures
            u.inner.start() == mmio_start_addr,
            u.inner.written() == 0,
            u.inner.read() == 0,
    {
        Uart { inner: UartInner::new(mmio_start_addr) }
    }
}

impl DeviceDriver for Uart {
    fn compatible(&self) -> (s: &'static str)
        ensures
            s@ == "i.MX8M Uart2"@,
    {
        "i.MX8M Uart2"
    }

    /// Brings the UART up.
    fn init(&self) -> (r: Result<Vec<RegOp>, &'static str>)
        ensures
            r matches Ok(ops) && ops@ == init_uart_ops(self.inner.start() as u32),
    {
        Ok(self.inner.init_uart())
    }
}

impl Write for Uart {
    /// Sends a character.
    fn write_char(&mut self, c: char) -> (ops: Vec<RegOp>)
        ensures
            ops@ == seq![
                RegOp::Write { addr: (old(self).inner.start() + UART2_UTXD) as u32, value: c as u32 },
                RegOp::WaitUntilSet { addr: (old(self).inner.start() + UART2_USR2) as u32, mask: USR2_TXDC },
            ],
            final(self).inner.written() == (old(self).inner.written() + 1) % (usize::MAX as int + 1),
    {
        self.inner.write_char(c)
    }
}

impl Read for Uart {
    fn clear_rx(&self) {
    }
}

impl Statistics for Uart {
    fn chars_written(&self) -> (n: usize)
        ensures
            n == self.inner.written(),
    {
        self.inner.chars_written()
    }

    fn chars_read(&self) -> (n: usize)
        ensures
            n == self.inner.read(),
    {
        self.inner.chars_read()
    }
}

} // verus!
