//! Flash (NVMC) driver and boot checks of the nRF52840.
use vstd::prelude::*;
use crate::flash::{
    after_ops, data_written, pages_erased, pages_for, stepped_erase_plan, FlashInterface, FlashOp,
};
use crate::nrf::nvmc_write_plan;

verus! {

pub const FLASH_PAGE_SIZE: u32 = 4096;
pub const STACK_LOW: u32 = 0x20_000_000;
pub const STACK_UP: u32 = 0x20_040_000;
pub const RB_HDR_SIZE: u32 = 0x100;
pub const BASE_ADDR: u32 = 0x2f000;
pub const VTR_TABLE_SIZE: u32 = 0x100;
pub const FW_RESET_VTR: u32 = BASE_ADDR + RB_HDR_SIZE + VTR_TABLE_SIZE + 1;

/// The NVMC flash writer and eraser.
pub struct FlashWriterEraser {}

impl FlashWriterEraser {
    pub fn new() -> (f: Self) {
        FlashWriterEraser {  }
    }
}

impl FlashInterface for FlashWriterEraser {
    open spec fn write_ok(&self, address: int, len: int, data_addr: int) -> bool {
        address + len <= u32::MAX
    }

    open spec fn erase_ok(&self, addr: int, len: int) -> bool {
        addr + len <= u32::MAX
    }

    /// Writes `data` at `address`, a word at a time where the flash address
    /// and the buffer are both word-aligned and a byte at a time elsewhere.
    fn hal_flash_write(&self, address: usize, data: &[u8], data_addr: usize) -> (ops: Vec<FlashOp>)
        ensures
            forall|a: int, init: u8|
                #[trigger] after_ops(ops@, a, init) == data_written(address as int, data@, a, init),
            forall|k: int|
                0 <= k < ops@.len() ==> (#[trigger] ops@[k] matches FlashOp::ProgramWord { addr, .. } ==> addr
                    % 4 == 0 && (data_addr + (addr - address)) % 4 == 0),
    {
        nvmc_write_plan(address, data, data_addr)
    }

    /// Erases the pages from `addr`, one page erase per 4 KiB step below
    /// `addr + len`.
    fn hal_flash_erase(&self, addr: usize, len: usize) -> (ops: Vec<FlashOp>)
        ensures
            ops@.len() == pages_for(len as int, FLASH_PAGE_SIZE as int),
            forall|k: int|
                0 <= k < ops@.len() ==> #[trigger] ops@[k] == (FlashOp::ErasePage {
                    addr: (addr + k * FLASH_PAGE_SIZE) as u32,
                    size: FLASH_PAGE_SIZE,
                }),
            addr % FLASH_PAGE_SIZE as usize == 0 ==> forall|a: int, init: u8|
                #[trigger] after_ops(ops@, a, init) == pages_erased(
                    addr as int,
                    addr + ops@.len() * FLASH_PAGE_SIZE,
                    a,
                    init,
                ),
    {
        stepped_erase_plan(addr as u32, len as u32, FLASH_PAGE_SIZE)
    }
}

pub fn preboot() {
}

/// An integer known to lie in `MIN..=MAX`, or to equal `VAL`.
pub struct RefinedUsize<const MIN: u32, const MAX: u32, const VAL: u32>(pub u32);

impl<const MIN: u32, const MAX: u32, const VAL: u32> RefinedUsize<MIN, MAX, VAL> {
    /// Wraps a value within `MIN..=MAX`.
    pub fn bounded_int(i: u32) -> (r: Self)
        requires
            MIN <= i <= MAX,
        ensures
            r.0 == i,
    {
        RefinedUsize(i)
    }

    /// Wraps a value equal to `VAL`.
    pub fn single_valued_int(i: u32) -> (r: Self)
        requires
            i == VAL,
        ensures
            r.0 == i,
    {
        RefinedUsize(i)
    }
}

/// The stack pointer and reset vector to boot an image with, read from the
/// first two words of its vector table: the stack pointer must lie in RAM
/// and the reset vector must be the firmware's reset handler; otherwise the
/// image is refused.
pub fn check_vector_table(stack_word: u32, reset_word: u32) -> (r: Option<(u32, u32)>)
    ensures
        r == (if STACK_LOW <= stack_word <= STACK_UP && reset_word == FW_RESET_VTR {
            Some((stack_word, reset_word))
        } else {
            None::<(u32, u32)>
        }),
{
    if STACK_LOW <= stack_word && stack_word <= STACK_UP && reset_word == FW_RESET_VTR {
        let sp = RefinedUsize::<STACK_LOW, STACK_UP, 0>::bounded_int(stack_word).0;
        let rv = RefinedUsize::<0, 0, FW_RESET_VTR>::single_valued_int(reset_word).0;
        Some((sp, rv))
    } else {
        None
    }
}

} // verus!
