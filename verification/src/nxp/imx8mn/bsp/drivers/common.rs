//! Common device driver code: the register operations that drivers plan,
//! what they leave in each register, and the driver interfaces.
use vstd::prelude::*;
use core::marker::PhantomData;

verus! {

/// One operation on a memory-mapped register.
#[derive(Clone, Copy, PartialEq, Eq, Structural)]
pub enum RegOp {
    /// Write `value` to the register at `addr`.
    Write { addr: u32, value: u32 },
    /// Read the register at `addr`, clear the bits of `mask`, set those of
    /// `value`, and write the result back.
    Modify { addr: u32, mask: u32, value: u32 },
    /// Busy-wait for `us` microseconds.
    DelayMicros { us: u32 },
    /// Spin until one of the bits of `mask` reads as set at `addr`.
    WaitUntilSet { addr: u32, mask: u32 },
}

/// The mask and value of a register field of `mask` bits, at `shift`, set
/// to `v` (bits of `v` beyond the field are dropped).
pub open spec fn field(mask: u32, shift: u32, v: u32) -> (u32, u32) {
    ((mask << shift) as u32, ((v & mask) << shift) as u32)
}

/// A register holding `old` after a modify that clears `mask` and sets `value`.
pub open spec fn modified(old: u32, mask: u32, value: u32) -> u32 {
    (old & !mask) | value
}

/// The register at `a` after `op`, where it held `prev` before; waits leave
/// registers as they are.
pub open spec fn op_reg(op: RegOp, a: u32, prev: u32) -> u32 {
    match op {
        RegOp::Write { addr, value } => if addr == a {
            value
        } else {
            prev
        },
        RegOp::Modify { addr, mask, value } => if addr == a {
            modified(prev, mask, value)
        } else {
            prev
        },
        _ => prev,
    }
}

/// The register at `a` after the operations `ops`, in order, where it held
/// `init` before.
pub open spec fn reg_after(ops: Seq<RegOp>, a: u32, init: u32) -> u32
    decreases ops.len(),
{
    if ops.len() == 0 {
        init
    } else {
        op_reg(ops.last(), a, reg_after(ops.drop_last(), a, init))
    }
}

/// A modify whose mask covers the whole register writes its value, whatever
/// the register held.
pub proof fn lemma_full_mask_modify(old: u32, value: u32)
    by (bit_vector)
    ensures
        (old & !0xFFFF_FFFFu32) | value == value,
{
}

/// Appends the operations of `more` to `ops`.
pub fn append_ops(ops: &mut Vec<RegOp>, more: Vec<RegOp>)
    ensures
        final(ops)@ == old(ops)@ + more@,
{
    let mut more = more;
    ops.append(&mut more);
}

/// Access to a block of memory-mapped registers at `start_addr`.
pub struct MMIODerefWrapper<T> {
    pub start_addr: usize,
    pub phantom: PhantomData<T>,
}

impl<T> MMIODerefWrapper<T> {
    /// A wrapper for the registers at `start_addr`.
    pub fn new(start_addr: usize) -> (w: Self)
        ensures
            w.start_addr == start_addr,
    {
        MMIODerefWrapper { start_addr, phantom: PhantomData }
    }
}

/// Device Driver functions.
pub trait DeviceDriver {
    /// A compatibility string that identifies the driver.
    fn compatible(&self) -> &'static str;

    /// The register operations that bring the device up; none by default.
    fn init(&self) -> (r: Result<Vec<RegOp>, &'static str>)
        default_ensures
            r matches Ok(ops) && ops@.len() == 0,
    {
        Ok(Vec::new())
    }
}

/// Device driver management functions.
pub trait DriverManager {
    type Driver: DeviceDriver;

    /// All the board's drivers, in the order in which they are brought up.
    fn all_device_drivers(&self) -> &[Self::Driver];
}

} // verus!
