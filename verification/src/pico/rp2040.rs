//! Flash driver and boot checks of the RP2040, whose program flash is an
//! external QSPI chip programmed through the boot ROM.
//!
//! The boot ROM takes flash offsets, counted from the start of the chip;
//! the same bytes are read back through the XIP window at
//! `FLASH_XIP_BASE_ADDR`. Plans here are made of flash offsets.
use vstd::prelude::*;
use crate::flash::{
    after_ops, data_written, lemma_after_push, lemma_programmed, pages_erased, pages_for,
    copy_range, stepped_erase_plan, FlashInterface, FlashOp, ERASED,
};

verus! {

pub const FLASH_XIP_BASE_ADDR: usize = 0x1000_0000;
pub const FLASH_BLOCK_SIZE: usize = 65536;
pub const FLASH_SECTOR_SIZE: usize = 4096;
pub const FLASH_PAGE_SIZE: usize = 256;
pub const FLASH_SECTOR_ERASE_CMD: u8 = 0x20;
pub const FLASH_BLOCK32_ERASE_CMD: u8 = 0x52;
pub const FLASH_BLOCK64_ERASE_CMD: u8 = 0xD8;
pub const STACK_LOW: u32 = 0x2000_0000;
pub const STACK_UP: u32 = 0x2004_2000;
pub const RB_HDR_SIZE: u32 = 0x100;
pub const FW_BASE_ADDR: u32 = 0x1002_0000;
pub const VTR_TABLE_SIZE: u32 = 0x100;
pub const FW_RESET_VTR: u32 = FW_BASE_ADDR + RB_HDR_SIZE + 0xc1;

/// The flash writer and eraser, which works through the boot ROM.
pub struct FlashWriterEraser {}

impl FlashWriterEraser {
    pub fn new() -> (f: Self) {
        FlashWriterEraser {  }
    }
}

/// The page (block, sector and page within the sector) and the byte within
/// it of a flash offset.
pub struct PagePosition {
    pub block: usize,
    pub sector: usize,
    pub page: usize,
    pub byte: usize,
}

/// Splits a flash offset into its 64 KiB block, 4 KiB sector within the
/// block, 256-byte page within the sector and byte within the page.
pub fn page_position(offset: usize) -> (p: PagePosition)
    ensures
        p.block == offset / FLASH_BLOCK_SIZE,
        p.sector == (offset % FLASH_BLOCK_SIZE) / FLASH_SECTOR_SIZE,
        p.page == (offset % FLASH_SECTOR_SIZE) / FLASH_PAGE_SIZE,
        p.byte == offset % FLASH_PAGE_SIZE,
        p.block * FLASH_BLOCK_SIZE + p.sector * FLASH_SECTOR_SIZE + p.page * FLASH_PAGE_SIZE
            == offset - offset % FLASH_PAGE_SIZE,
{
    let block_num: usize = offset / FLASH_BLOCK_SIZE;
    assert(offset - 65536 * block_num == offset % 65536) by (nonlinear_arith)
        requires
            block_num == offset / 65536,
    ;
    let in_block: usize = offset - (FLASH_BLOCK_SIZE * block_num);
    let sector_num: usize = in_block / FLASH_SECTOR_SIZE;
    assert(in_block - 4096 * sector_num == offset % 4096) by (nonlinear_arith)
        requires
            sector_num == in_block / 4096,
            in_block == offset % 65536,
    ;
    let in_sector: usize = in_block - (FLASH_SECTOR_SIZE * sector_num);
    let page_num: usize = in_sector / FLASH_PAGE_SIZE;
    assert(in_sector - 256 * page_num == offset % 256) by (nonlinear_arith)
        requires
            page_num == in_sector / 256,
            in_sector == offset % 4096,
    ;
    let byte_num: usize = in_sector - (FLASH_PAGE_SIZE * page_num);
    PagePosition { block: block_num, sector: sector_num, page: page_num, byte: byte_num }
}

/// The 256-byte page of data that starts `from` bytes into `data`, with the
/// bytes past its end left erased, so that programming them changes nothing.
fn page_of(data: &[u8], from: usize) -> (buf: Vec<u8>)
    requires
        from < data@.len(),
    ensures
        buf@.len() == FLASH_PAGE_SIZE,
        forall|j: int|
            0 <= j < FLASH_PAGE_SIZE ==> #[trigger] buf@[j] == (if from + j < data@.len() {
                data@[from + j]
            } else {
                ERASED
            }),
{
    let mut buf: Vec<u8> = Vec::new();
    let mut j: usize = 0;
    while j < FLASH_PAGE_SIZE
        invariant
            j <= FLASH_PAGE_SIZE,
            from < data@.len(),
            buf@.len() == j,
            forall|i: int|
                0 <= i < j ==> #[trigger] buf@[i] == (if from + i < data@.len() {
                    data@[from + i]
                } else {
                    ERASED
                }),
        decreases FLASH_PAGE_SIZE - j,
    {
        if j < data.len() - from {
            buf.push(data[from + j]);
        } else {
            buf.push(ERASED);
        }
        j = j + 1;
    }
    buf
}

impl FlashInterface for FlashWriterEraser {
    open spec fn write_ok(&self, address: int, len: int, data_addr: int) -> bool {
        &&& FLASH_XIP_BASE_ADDR <= address
        &&& address - FLASH_XIP_BASE_ADDR + len + FLASH_PAGE_SIZE <= u32::MAX
        &&& len <= 4 ==> (address - FLASH_XIP_BASE_ADDR) % (FLASH_PAGE_SIZE as int) + len
            <= FLASH_PAGE_SIZE
    }

    open spec fn erase_ok(&self, addr: int, len: int) -> bool {
        FLASH_XIP_BASE_ADDR <= addr && addr - FLASH_XIP_BASE_ADDR + len <= u32::MAX
    }

    /// Writes `data` at the XIP address `address`. Up to four bytes go in
    /// by rewriting the page that holds them with its other bytes as they
    /// are; longer data is programmed page by page from its first byte.
    fn hal_flash_write(&self, address: usize, data: &[u8], data_addr: usize) -> (ops: Vec<FlashOp>)
        ensures
            forall|a: int, init: u8|
                #[trigger] after_ops(ops@, a, init) == data_written(
                    address - FLASH_XIP_BASE_ADDR,
                    data@,
                    a,
                    init,
                ),
            data@.len() <= 4 ==> ops@.len() == 1,
            data@.len() > 4 ==> ops@.len() == pages_for(data@.len() as int, FLASH_PAGE_SIZE as int),
    {
        let len = data.len();
        let offset_addr = address - FLASH_XIP_BASE_ADDR;
        let mut ops: Vec<FlashOp> = Vec::new();
        if len <= 4 {
            let pos = page_position(offset_addr);
            let page_start_addr = (pos.block * FLASH_BLOCK_SIZE) + (pos.sector * FLASH_SECTOR_SIZE) + (
            pos.page * FLASH_PAGE_SIZE);
            let bytes = copy_range(data, 0, len);
            let op = FlashOp::UpdateBlock {
                base: page_start_addr as u32,
                size: FLASH_PAGE_SIZE as u32,
                off: pos.byte as u32,
                bytes: bytes,
                erase: None,
            };
            proof {
                assert forall|a: int, init: u8|
                    #[trigger] after_ops(seq![op], a, init) == data_written(
                        offset_addr as int,
                        data@,
                        a,
                        init,
                    ) by {
                    lemma_after_push(Seq::<FlashOp>::empty(), op, a, init);
                    assert(Seq::<FlashOp>::empty().push(op) =~= seq![op]);
                    lemma_programmed(init);
                }
            }
            ops.push(op);
            assert(ops@ =~= seq![op]);
        } else {
            let start = offset_addr as u32;
            let end = (offset_addr + len) as u32;
            let mut addr = start;
            let mut from: usize = 0;
            loop
                invariant_except_break
                    addr == start + from,
                    from % FLASH_PAGE_SIZE == 0,
                    ops@.len() == from / FLASH_PAGE_SIZE,
                    forall|a: int, init: u8|
                        #[trigger] after_ops(ops@, a, init) == data_written(
                            start as int,
                            data@.take(from as int),
                            a,
                            init,
                        ),
                invariant
                    start <= addr < end,
                    end == start + len,
                    start == offset_addr,
                    len == data@.len(),
                    len > 4,
                    end + FLASH_PAGE_SIZE <= u32::MAX,
                ensures
                    ops@.len() == pages_for(len as int, FLASH_PAGE_SIZE as int),
                    forall|a: int, init: u8|
                        #[trigger] after_ops(ops@, a, init) == data_written(
                            start as int,
                            data@,
                            a,
                            init,
                        ),
                decreases end - addr,
            {
                let buf = page_of(data, from);
                let op = FlashOp::ProgramBytes { addr: addr, bytes: buf };
                let ghost old_ops = ops@;
                let next = if len - from < FLASH_PAGE_SIZE {
                    len
                } else {
                    from + FLASH_PAGE_SIZE
                };
                proof {
                    assert forall|a: int, init: u8|
                        #[trigger] after_ops(old_ops.push(op), a, init) == data_written(
                            start as int,
                            data@.take(next as int),
                            a,
                            init,
                        ) by {
                        lemma_after_push(old_ops, op, a, init);
                        lemma_programmed(init);
                    }
                }
                ops.push(op);
                if end - addr <= FLASH_PAGE_SIZE as u32 {
                    proof {
                        let q = old_ops.len() as int;
                        assert(next == len);
                        assert(data@.take(len as int) =~= data@);
                        assert((len + 255) / 256 == q + 1);
                    }
                    break ;
                }
                addr = addr + FLASH_PAGE_SIZE as u32;
                from = from + FLASH_PAGE_SIZE;
            }
        }
        ops
    }

    /// Erases, a 4 KiB sector at a time, from the XIP address `addr` while
    /// below `addr + len`.
    fn hal_flash_erase(&self, addr: usize, len: usize) -> (ops: Vec<FlashOp>)
        ensures
            ops@.len() == pages_for(len as int, FLASH_SECTOR_SIZE as int),
            forall|k: int|
                0 <= k < ops@.len() ==> #[trigger] ops@[k] == (FlashOp::ErasePage {
                    addr: (addr - FLASH_XIP_BASE_ADDR + k * FLASH_SECTOR_SIZE) as u32,
                    size: FLASH_SECTOR_SIZE as u32,
                }),
            (addr - FLASH_XIP_BASE_ADDR) % (FLASH_SECTOR_SIZE as int) == 0 ==> forall|a: int, init: u8|
                #[trigger] after_ops(ops@, a, init) == pages_erased(
                    addr - FLASH_XIP_BASE_ADDR,
                    addr - FLASH_XIP_BASE_ADDR + ops@.len() * FLASH_SECTOR_SIZE,
                    a,
                    init,
                ),
    {
        let addres = (addr - FLASH_XIP_BASE_ADDR) as u32;
        stepped_erase_plan(addres, len as u32, FLASH_SECTOR_SIZE as u32)
    }
}

pub fn preboot() {
}

/// An integer known to lie in `MIN..=MAX`, or to equal `VAL`.
pub struct RefinedUsize<const MIN: u32, const MAX: u32, const VAL: u32>(pub u32);

impl<const MIN: u32, const MAX: u32, const VAL: u32> RefinedUsize<MIN, MAX, VAL> {
    /// Wraps a value within `MIN..=MAX`, the address bound of a stack pointer.
    pub fn bounded_int(i: u32) -> (r: Self)
        requires
            MIN <= i <= MAX,
        ensures
            r.0 == i,
    {
        RefinedUsize(i)
    }

    /// Wraps a value equal to `VAL`, the address of a reset handler.
    pub fn single_valued_int(i: u32) -> (r: Self)
        requires
            i == VAL,
        ensures
            r.0 == i,
    {
        RefinedUsize(i)
    }
}

/// The stack pointer and reset vector to boot an image with, read from the
/// first two words of its vector table: the stack pointer must lie in RAM
/// and the reset vector must be the firmware's reset handler; otherwise the
/// image is refused.
pub fn check_vector_table(stack_word: u32, reset_word: u32) -> (r: Option<(u32, u32)>)
    ensures
        r == (if STACK_LOW <= stack_word <= STACK_UP && reset_word == FW_RESET_VTR {
            Some((stack_word, reset_word))
        } else {
            None::<(u32, u32)>
        }),
{
    if STACK_LOW <= stack_word && stack_word <= STACK_UP && reset_word == FW_RESET_VTR {
        let sp = RefinedUsize::<STACK_LOW, STACK_UP, 0>::bounded_int(stack_word).0;
        let rv = RefinedUsize::<0, 0, FW_RESET_VTR>::single_valued_int(reset_word).0;
        Some((sp, rv))
    } else {
        None
    }
}

} // verus!
