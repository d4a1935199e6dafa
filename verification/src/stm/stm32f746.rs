//! Flash driver and boot checks of the STM32F746.
use vstd::prelude::*;
use crate::flash::{
    after_ops, data_written, lemma_after_push, lemma_programmed_twice, FlashInterface, FlashOp,
    ERASED,
};

verus! {

pub const FLASH_PAGE_SIZE: u32 = 0x40000;
pub const STACK_LOW: u32 = 0x2000_0000;
pub const STACK_UP: u32 = 0x2002_0000;
pub const RB_HDR_SIZE: u32 = 0x100;
pub const BASE_ADDR: u32 = 0x08040000;
pub const VTR_TABLE_SIZE: u32 = 0x100;
pub const FW_RESET_VTR: u32 = BASE_ADDR + RB_HDR_SIZE + VTR_TABLE_SIZE + 0xC9;
pub const UNLOCKKEY1: u32 = 0x45670123;
pub const UNLOCKKEY2: u32 = 0xCDEF89AB;

/// The flash writer and eraser.
pub struct FlashWriterEraser {}

impl FlashWriterEraser {
    pub fn new() -> (f: Self) {
        FlashWriterEraser {  }
    }
}

/// The sector that holds `a`: its number, first address and size. Sectors
/// 0 to 3 hold 32 KiB, sector 4 holds 128 KiB and sectors 5 to 7 hold
/// 256 KiB each.
pub open spec fn sector_of(a: int) -> Option<(u8, u32, u32)> {
    if 0x0800_0000 <= a <= 0x0800_7FFF {
        Some((0u8, 0x0800_0000u32, 0x8000u32))
    } else if 0x0800_8000 <= a <= 0x0800_FFFF {
        Some((1u8, 0x0800_8000u32, 0x8000u32))
    } else if 0x0801_0000 <= a <= 0x0801_7FFF {
        Some((2u8, 0x0801_0000u32, 0x8000u32))
    } else if 0x0801_8000 <= a <= 0x0801_FFFF {
        Some((3u8, 0x0801_8000u32, 0x8000u32))
    } else if 0x0802_0000 <= a <= 0x0803_FFFF {
        Some((4u8, 0x0802_0000u32, 0x2_0000u32))
    } else if 0x0804_0000 <= a <= 0x0807_FFFF {
        Some((5u8, 0x0804_0000u32, 0x4_0000u32))
    } else if 0x0808_0000 <= a <= 0x080B_FFFF {
        Some((6u8, 0x0808_0000u32, 0x4_0000u32))
    } else if 0x080C_0000 <= a <= 0x080F_FFFF {
        Some((7u8, 0x080C_0000u32, 0x4_0000u32))
    } else {
        None
    }
}

/// Size of hardware sector `n`: sectors 0 to 3 hold 32 KiB, sector 4
/// 128 KiB, sectors 5 to 7 256 KiB.
pub open spec fn hw_sector_size(n: int) -> int {
    if n < 4 {
        0x8000
    } else if n == 4 {
        0x2_0000
    } else {
        0x4_0000
    }
}

/// First address of hardware sector `n`: the sectors follow one another from
/// 0x0800_0000.
pub open spec fn hw_sector_start(n: int) -> int {
    if n <= 4 {
        0x0800_0000 + n * 0x8000
    } else {
        0x0804_0000 + (n - 5) * 0x4_0000
    }
}

/// Every flash address lies in the sector looked up for it, and that sector
/// is the hardware sector that spans it (its number, first address and
/// size); erasing it erases the address. Addresses outside the flash have no
/// sector.
pub proof fn lemma_sector_holds_address(a: int, init: u8)
    ensures
        0x0800_0000 <= a < 0x0810_0000 ==> (sector_of(a) matches Some((n, s, z)) && 0 <= n < 8
            && s == hw_sector_start(n as int) && z == hw_sector_size(n as int) && s <= a < s + z
            && sector_erased(a, a, init) == ERASED),
        !(0x0800_0000 <= a < 0x0810_0000) ==> sector_of(a) is None,
{
}

/// The sector that holds `address`.
pub fn sector_lookup(address: u32) -> (r: Option<(u8, u32, u32)>)
    ensures
        r == sector_of(address as int),
{
    if 0x0800_0000 <= address && address <= 0x0800_7FFF {
        Some((0, 0x0800_0000, 0x8000))
    } else if 0x0800_8000 <= address && address <= 0x0800_FFFF {
        Some((1, 0x0800_8000, 0x8000))
    } else if 0x0801_0000 <= address && address <= 0x0801_7FFF {
        Some((2, 0x0801_0000, 0x8000))
    } else if 0x0801_8000 <= address && address <= 0x0801_FFFF {
        Some((3, 0x0801_8000, 0x8000))
    } else if 0x0802_0000 <= address && address <= 0x0803_FFFF {
        Some((4, 0x0802_0000, 0x2_0000))
    } else if 0x0804_0000 <= address && address <= 0x0807_FFFF {
        Some((5, 0x0804_0000, 0x4_0000))
    } else if 0x0808_0000 <= address && address <= 0x080B_FFFF {
        Some((6, 0x0808_0000, 0x4_0000))
    } else if 0x080C_0000 <= address && address <= 0x080F_FFFF {
        Some((7, 0x080C_0000, 0x4_0000))
    } else {
        None
    }
}

/// The byte at `a` after erasing the sector that holds `addr`, if any.
pub open spec fn sector_erased(addr: int, a: int, init: u8) -> u8 {
    match sector_of(addr) {
        Some((_, start, size)) => if start <= a < start + size {
            ERASED
        } else {
            init
        },
        None => init,
    }
}

impl FlashInterface for FlashWriterEraser {
    open spec fn write_ok(&self, address: int, len: int, data_addr: int) -> bool {
        address + len < u32::MAX
    }

    open spec fn erase_ok(&self, addr: int, len: int) -> bool {
        addr <= u32::MAX
    }

    /// Writes `data` at `address` one byte at a time, with 8-bit
    /// parallelism; the last byte is programmed a second time. An empty
    /// write programs nothing.
    fn hal_flash_write(&self, address: usize, data: &[u8], data_addr: usize) -> (ops: Vec<FlashOp>)
        ensures
            data@.len() == 0 ==> ops@.len() == 0,
            data@.len() > 0 ==> ops@.len() == data@.len() + 1,
            forall|k: int|
                0 <= k < data@.len() ==> #[trigger] ops@[k] == (FlashOp::ProgramByte {
                    addr: (address + k) as u32,
                    byte: data@[k],
                }),
            data@.len() > 0 ==> ops@[data@.len() as int] == (FlashOp::ProgramByte {
                addr: (address + data@.len() - 1) as u32,
                byte: data@[data@.len() - 1],
            }),
            forall|a: int, init: u8|
                #[trigger] after_ops(ops@, a, init) == data_written(address as int, data@, a, init),
    {
        let len = data.len();
        let mut ops: Vec<FlashOp> = Vec::new();
        if len == 0 {
            return ops;
        }
        let mut idx: usize = 0;
        while idx <= len
            invariant
                idx <= len + 1,
                len == data@.len(),
                len >= 1,
                address + len < u32::MAX,
                ops@.len() == idx,
                forall|k: int|
                    0 <= k < idx && k < len ==> #[trigger] ops@[k] == (FlashOp::ProgramByte {
                        addr: (address + k) as u32,
                        byte: data@[k],
                    }),
                idx == len + 1 ==> ops@[len as int] == (FlashOp::ProgramByte {
                    addr: (address + len - 1) as u32,
                    byte: data@[len - 1],
                }),
                forall|a: int, init: u8|
                    #[trigger] after_ops(ops@, a, init) == data_written(
                        address as int,
                        data@.take(if idx <= len {
                            idx as int
                        } else {
                            len as int
                        }),
                        a,
                        init,
                    ),
            decreases len + 1 - idx,
        {
            let offset = if idx == len {
                idx - 1
            } else {
                idx
            };
            let word: u8 = data[offset];
            let write_address = (address as u32) + offset as u32;
            let op = FlashOp::ProgramByte { addr: write_address, byte: word };
            let ghost old_ops = ops@;
            proof {
                let upto = if idx < len {
                    idx + 1
                } else {
                    len as int
                };
                assert forall|a: int, init: u8|
                    #[trigger] after_ops(old_ops.push(op), a, init) == data_written(
                        address as int,
                        data@.take(upto),
                        a,
                        init,
                    ) by {
                    lemma_after_push(old_ops, op, a, init);
                    lemma_programmed_twice(init, word, word);
                }
            }
            ops.push(op);
            idx = idx + 1;
        }
        assert(data@.take(len as int) =~= data@);
        ops
    }

    /// Erases the sector that holds `addr`, whatever `len` is; an address
    /// outside the flash erases nothing.
    fn hal_flash_erase(&self, addr: usize, len: usize) -> (ops: Vec<FlashOp>)
        ensures
            ops@ == (match sector_of(addr as int) {
                Some((sector, start, size)) => seq![
                    FlashOp::EraseSector { sector: sector, start: start, size: size },
                ],
                None => Seq::<FlashOp>::empty(),
            }),
            forall|a: int, init: u8|
                #[trigger] after_ops(ops@, a, init) == sector_erased(addr as int, a, init),
    {
        let mut ops: Vec<FlashOp> = Vec::new();
        match sector_lookup(addr as u32) {
            Some((sec, start, size)) => {
                let op = FlashOp::EraseSector { sector: sec, start: start, size: size };
                proof {
                    assert forall|a: int, init: u8|
                        #[trigger] after_ops(seq![op], a, init) == sector_erased(
                            addr as int,
                            a,
                            init,
                        ) by {
                        lemma_after_push(Seq::<FlashOp>::empty(), op, a, init);
                        assert(Seq::<FlashOp>::empty().push(op) =~= seq![op]);
                    }
                }
                ops.push(op);
                assert(ops@ =~= seq![op]);
            },
            None => {},
        }
        ops
    }
}

pub fn preboot() {
}

/// An integer known to lie in `MIN..=MAX`, or to equal `VAL`.
pub struct RefinedUsize<const MIN: u32, const MAX: u32, const VAL: u32>(pub u32);

impl<const MIN: u32, const MAX: u32, const VAL: u32> RefinedUsize<MIN, MAX, VAL> {
    /// Wraps a value within `MIN..=MAX`, the address bound of a stack pointer.
    pub fn bounded_int(i: u32) -> (r: Self)
        requires
            MIN <= i <= MAX,
        ensures
            r.0 == i,
    {
        RefinedUsize(i)
    }

    /// Wraps a value equal to `VAL`, the address of a reset handler.
    pub fn single_valued_int(i: u32) -> (r: Self)
        requires
            i == VAL,
        ensures
            r.0 == i,
    {
        RefinedUsize(i)
    }
}

/// The stack pointer and reset vector to boot an image with, read from the
/// first two words of its vector table: the stack pointer must lie in RAM
/// and the reset vector must be the firmware's reset handler; otherwise the
/// image is refused.
pub fn check_vector_table(stack_word: u32, reset_word: u32) -> (r: Option<(u32, u32)>)
    ensures
        r == (if STACK_LOW <= stack_word <= STACK_UP && reset_word == FW_RESET_VTR {
            Some((stack_word, reset_word))
        } else {
            None::<(u32, u32)>
        }),
{
    if STACK_LOW <= stack_word && stack_word <= STACK_UP && reset_word == FW_RESET_VTR {
        let sp = RefinedUsize::<STACK_LOW, STACK_UP, 0>::bounded_int(stack_word).0;
        let rv = RefinedUsize::<0, 0, FW_RESET_VTR>::single_valued_int(reset_word).0;
        Some((sp, rv))
    } else {
        None
    }
}

} // verus!
