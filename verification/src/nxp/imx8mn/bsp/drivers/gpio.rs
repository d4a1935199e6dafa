//! GPIO driver.
//!
//! Each pin owns one bit of the data, direction and pad status registers.
//! Setting, clearing or reading a pin modifies that pin's bits alone and
//! keeps those of the other pins.
use vstd::prelude::*;
use super::common::{modified, op_reg, reg_after, DeviceDriver, RegOp};

verus! {

/// Offsets of the GPIO registers.
pub const GPIO_DR: u32 = 0x00;
pub const GPIO_GDIR: u32 = 0x04;
pub const GPIO_PSR: u32 = 0x08;

/// The GPIO block at `mmio_start`.
pub struct GpioInner {
    pub mmio_start: usize,
}

/// The operations that drive `pin` of the block at `base` high (its
/// direction bit set to output, its data bit set) or low (its data bit
/// cleared); the bits of the other pins are kept.
pub open spec fn pin_ops(base: u32, pin: u8, val: bool) -> Seq<RegOp> {
    if val {
        seq![
            RegOp::Modify { addr: (base + GPIO_GDIR) as u32, mask: (1u32 << pin), value: (1u32 << pin) },
            RegOp::Modify { addr: (base + GPIO_DR) as u32, mask: (1u32 << pin), value: (1u32 << pin) },
        ]
    } else {
        seq![RegOp::Modify { addr: (base + GPIO_DR) as u32, mask: (1u32 << pin), value: 0 }]
    }
}

impl GpioInner {
    pub fn new(mmio_start_addr: usize) -> (g: Self)
        ensures
            g.mmio_start == mmio_start_addr,
    {
        GpioInner { mmio_start: mmio_start_addr }
    }

    /// Drives `pin` high, making it an output, or low.
    pub fn set_gpio_pin(&self, pin: u8, val: bool) -> (ops: Vec<RegOp>)
        requires
            pin < 32,
            self.mmio_start + GPIO_PSR <= u32::MAX,
        ensures
            ops@ == pin_ops(self.mmio_start as u32, pin, val),
    {
        let base = self.mmio_start as u32;
        let mut ops: Vec<RegOp> = Vec::new();
        let bit: u32 = 1u32 << pin;
        if val {
            ops.push(RegOp::Modify { addr: base + GPIO_GDIR, mask: bit, value: bit });
            ops.push(RegOp::Modify { addr: base + GPIO_DR, mask: bit, value: bit });
        } else {
            ops.push(RegOp::Modify { addr: base + GPIO_DR, mask: bit, value: 0 });
        }
        assert(ops@ =~= pin_ops(base, pin, val));
        ops
    }

    /// The operation that makes `pin` an input before a read: its direction
    /// bit cleared, the other pins' kept.
    pub fn input_direction(&self, pin: u8) -> (op: RegOp)
        requires
            pin < 32,
            self.mmio_start + GPIO_PSR <= u32::MAX,
        ensures
            op == (RegOp::Modify {
                addr: (self.mmio_start + GPIO_GDIR) as u32,
                mask: (1u32 << pin),
                value: 0,
            }),
    {
        RegOp::Modify { addr: self.mmio_start as u32 + GPIO_GDIR, mask: 1u32 << pin, value: 0 }
    }

    /// The level of `pin` in the pad status `psr`.
    pub fn get_gpio_pin(&self, pin: u8, psr: u32) -> (level: u8)
        requires
            pin < 32,
        ensures
            level == ((psr >> pin) & 0x1) as u8,
            level <= 1,
    {
        let bit = (psr >> pin) & 0x1;
        assert(bit <= 1) by (bit_vector)
            requires
                bit == (psr >> pin) & 0x1,
        ;
        bit as u8
    }
}

/// A GPIO block.
pub struct Gpio {
    pub inner: GpioInner,
}

impl Gpio {
    pub fn new(mmio_start_addr: usize) -> (g: Self)
        ensures
            g.inner.mmio_start == mmio_start_addr,
    {
        Gpio { inner: GpioInner::new(mmio_start_addr) }
    }

    /// Drives `pin` high.
    pub fn set_pin(&self, pin: u8) -> (ops: Vec<RegOp>)
        requires
            pin < 32,
            self.inner.mmio_start + GPIO_PSR <= u32::MAX,
        ensures
            ops@ == pin_ops(self.inner.mmio_start as u32, pin, true),
    {
        self.inner.set_gpio_pin(pin, true)
    }

    /// Drives `pin` low.
    pub fn clear_pin(&self, pin: u8) -> (ops: Vec<RegOp>)
        requires
            pin < 32,
            self.inner.mmio_start + GPIO_PSR <= u32::MAX,
        ensures
            ops@ == pin_ops(self.inner.mmio_start as u32, pin, false),
    {
        self.inner.set_gpio_pin(pin, false)
    }

    /// The level of `pin` in the pad status `psr`, read once the pins are inputs.
    pub fn read_pin(&self, pin: u8, psr: u32) -> (level: u8)
        requires
            pin < 32,
        ensures
            level == ((psr >> pin) & 0x1) as u8,
    {
        self.inner.get_gpio_pin(pin, psr)
    }
}

impl DeviceDriver for Gpio {
    fn compatible(&self) -> (s: &'static str)
        ensures
            s@ == "i.MX 8M Nano Gpio"@,
    {
        "i.MX 8M Nano Gpio"
    }
}

/// Driving a pin high sets its data and direction bits (an output at level
/// 1), driving it low clears its data bit, and making it an input clears
/// its direction bit; every other pin's bits are kept.
pub proof fn lemma_pin_ops_result(base: u32, pin: u8, dr: u32, gdir: u32)
    requires
        pin < 32,
        base + GPIO_PSR <= u32::MAX,
    ensures
        reg_after(pin_ops(base, pin, true), (base + GPIO_DR) as u32, dr) == dr | (1u32 << pin),
        reg_after(pin_ops(base, pin, true), (base + GPIO_GDIR) as u32, gdir) == gdir | (1u32 << pin),
        reg_after(pin_ops(base, pin, false), (base + GPIO_DR) as u32, dr) == dr & !(1u32 << pin),
        reg_after(pin_ops(base, pin, false), (base + GPIO_GDIR) as u32, gdir) == gdir,
        modified(gdir, 1u32 << pin, 0) == gdir & !(1u32 << pin),
        forall|q: u32|
            q < 32 && q != pin ==> ((dr | (1u32 << pin)) >> q) & 1 == (dr >> q) & 1 && ((dr & !(1u32
                << pin)) >> q) & 1 == (dr >> q) & 1,
        ((dr | (1u32 << pin)) >> pin) & 1 == 1,
        ((dr & !(1u32 << pin)) >> pin) & 1 == 0,
{
    reveal_with_fuel(reg_after, 3);
    let s = pin_ops(base, pin, true);
    let c = pin_ops(base, pin, false);
    assert(s.drop_last() =~= seq![s[0]]);
    assert(s.drop_last().drop_last() =~= Seq::<RegOp>::empty());
    assert(c.drop_last() =~= Seq::<RegOp>::empty());
    let b = 1u32 << pin;
    assert((dr & !b) | b == dr | b) by (bit_vector);
    assert((gdir & !b) | b == gdir | b) by (bit_vector);
    assert(((dr | b) & !b) | b == dr | b) by (bit_vector);
    assert((dr & !b) | 0 == dr & !b) by (bit_vector);
    assert((gdir & !b) | 0 == gdir & !b) by (bit_vector);
    assert(forall|q: u32|
        q < 32 && q != pin ==> ((dr | (1u32 << pin)) >> q) & 1 == (dr >> q) & 1 && ((dr & !(1u32
            << pin)) >> q) & 1 == (dr >> q) & 1) by (bit_vector)
        requires
            pin < 32,
    ;
    assert(((dr | (1u32 << pin)) >> pin) & 1 == 1 && ((dr & !(1u32 << pin)) >> pin) & 1 == 0)
        by (bit_vector)
        requires
            pin < 32,
    ;
    assert(base + GPIO_DR != base + GPIO_GDIR);
}

} // verus!
