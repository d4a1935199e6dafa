//! Flash driver and boot checks of the STM32F334.
use vstd::prelude::*;
use crate::flash::{
    after_ops, data_written, le_half, lemma_after_push, lemma_le_half_bytes, lemma_programmed,
    half_byte, pack_le_half, FlashInterface, FlashOp, ERASED,
};

verus! {

pub const FLASH_PAGE_SIZE: u32 = 2048;
pub const STACK_LOW: u32 = 0x2000_0000;
pub const STACK_UP: u32 = 0x2002_0000;
pub const RB_HDR_SIZE: u32 = 0x100;
pub const BASE_ADDR: u32 = 0x0800B800;
pub const VTR_TABLE_SIZE: u32 = 0x100;
pub const FW_RESET_VTR: u32 = BASE_ADDR + RB_HDR_SIZE + VTR_TABLE_SIZE + 0x89;
pub const UNLOCKKEY1: u32 = 0x45670123;
pub const UNLOCKKEY2: u32 = 0xCDEF89AB;
/// The first address of the flash.
pub const FLASH_START: u32 = 0x0800_0000;
/// The last address of the flash.
pub const FLASH_END: u32 = 0x0800_FFFF;
/// The mask that keeps, of a flash address, the first address of its page.
pub const PAGE_MASK: u32 = 0x0800_F800;

/// The flash writer and eraser.
pub struct FlashWriterEraser {}

impl FlashWriterEraser {
    pub fn new() -> (f: Self) {
        FlashWriterEraser {  }
    }
}

/// Whether `a` is a flash address.
pub open spec fn in_flash(a: int) -> bool {
    FLASH_START <= a <= FLASH_END
}

/// The page that a single-byte write at `address` rewrites.
pub open spec fn rewrite_page(address: int) -> int {
    FLASH_START + ((address - FLASH_START) / 0x800) * 0x800
}

/// The page rewrite that programs the single byte `data` at `address`.
pub open spec fn single_byte_rewrite(op: FlashOp, address: int, data: Seq<u8>) -> bool {
    &&& op matches FlashOp::UpdateBlock { base, size, off, bytes, erase }
    &&& base == rewrite_page(address)
    &&& size == FLASH_PAGE_SIZE
    &&& base + off == address
    &&& bytes@ == data
    &&& erase == (if in_flash(base as int) {
        Some((base, FLASH_PAGE_SIZE))
    } else {
        None
    })
}

/// The byte at `a` after erasing `n` pages from `base`, pages outside the
/// flash being skipped.
pub open spec fn f334_erased(base: int, n: int, a: int, init: u8) -> u8 {
    if base <= a < base + n * FLASH_PAGE_SIZE && in_flash(a) {
        ERASED
    } else {
        init
    }
}

/// The number of pages an erase of `len` bytes covers.
pub open spec fn erase_pages(len: int) -> int {
    if len % (FLASH_PAGE_SIZE as int) != 0 {
        len / (FLASH_PAGE_SIZE as int) + 1
    } else {
        len / (FLASH_PAGE_SIZE as int)
    }
}

impl FlashInterface for FlashWriterEraser {
    open spec fn write_ok(&self, address: int, len: int, data_addr: int) -> bool {
        &&& address + len <= u32::MAX
        &&& len == 1 ==> FLASH_START <= address
    }

    open spec fn erase_ok(&self, addr: int, len: int) -> bool {
        addr <= u32::MAX && len <= 0x1000_0000
    }

    /// Writes `data` at `address` a half-word at a time; a last odd byte is
    /// programmed into the half-word that holds it. A single byte goes in by
    /// rewriting its whole page: the page is read, the byte laid over it, the
    /// page erased (when it lies in the flash) and programmed back.
    fn hal_flash_write(&self, address: usize, data: &[u8], data_addr: usize) -> (ops: Vec<FlashOp>)
        ensures
            data@.len() != 1 ==> forall|a: int, init: u8|
                #[trigger] after_ops(ops@, a, init) == data_written(address as int, data@, a, init),
            data@.len() == 1 ==> ops@.len() == 1 && single_byte_rewrite(ops@[0], address as int, data@),
            data@.len() == 1 && address <= FLASH_END ==> forall|a: int, init: u8|
                #[trigger] after_ops(ops@, a, init) == (if a == address {
                    data@[0]
                } else {
                    init
                }),
    {
        let address = address as u32;
        let len = data.len() as u32;
        let mut ops: Vec<FlashOp> = Vec::new();
        if len == 1 {
            let val = address - FLASH_START;
            let sector = val / 0x800;
            let offset = val % 0x800;
            assert(sector * 0x800 + offset == val) by (nonlinear_arith)
                requires
                    sector == val / 0x800,
                    offset == val % 0x800,
            ;
            let base = FLASH_START + sector * 0x800;
            let erase = if FLASH_START <= base && base <= FLASH_END {
                Some((base, FLASH_PAGE_SIZE))
            } else {
                None
            };
            let op = FlashOp::UpdateBlock {
                base: base,
                size: FLASH_PAGE_SIZE,
                off: offset,
                bytes: crate::flash::copy_range(data, 0, 1),
                erase: erase,
            };
            proof {
                assert forall|a: int, init: u8|
                    address <= FLASH_END implies #[trigger] after_ops(seq![op], a, init) == (if a
                        == address {
                        data@[0]
                    } else {
                        init
                    }) by {
                    lemma_after_push(Seq::<FlashOp>::empty(), op, a, init);
                    assert(Seq::<FlashOp>::empty().push(op) =~= seq![op]);
                }
            }
            ops.push(op);
            assert(ops@ =~= seq![op]);
            assert(data@.subrange(0, 1) =~= data@);
            return ops;
        }
        let mut idx: u32 = 0;
        while idx < len
            invariant
                idx <= len,
                len == data@.len(),
                len != 1,
                address + len <= u32::MAX,
                forall|a: int, init: u8|
                    #[trigger] after_ops(ops@, a, init) == data_written(
                        address as int,
                        data@.take(idx as int),
                        a,
                        init,
                    ),
            decreases len - idx,
        {
            let i = idx as usize;
            let ghost old_ops = ops@;
            if len - idx > 1 {
                let h = pack_le_half(data[i], data[i + 1]);
                let op = FlashOp::ProgramHalfWord { addr: address + idx, half: h };
                proof {
                    lemma_le_half_bytes(data@[i as int], data@[i + 1], h);
                    assert forall|a: int, init: u8|
                        #[trigger] after_ops(old_ops.push(op), a, init) == data_written(
                            address as int,
                            data@.take(idx + 2),
                            a,
                            init,
                        ) by {
                        lemma_after_push(old_ops, op, a, init);
                    }
                }
                ops.push(op);
                idx = idx + 2;
            } else {
                let op = FlashOp::ProgramByte { addr: address + idx, byte: data[i] };
                proof {
                    assert forall|a: int, init: u8|
                        #[trigger] after_ops(old_ops.push(op), a, init) == data_written(
                            address as int,
                            data@.take(idx + 1),
                            a,
                            init,
                        ) by {
                        lemma_after_push(old_ops, op, a, init);
                    }
                }
                ops.push(op);
                idx = idx + 1;
            }
        }
        assert(data@.take(len as int) =~= data@);
        ops
    }

    /// Erases, from the page that holds `addr`, as many 2 KiB pages as `len`
    /// bytes take; pages that lie outside the flash are skipped.
    fn hal_flash_erase(&self, addr: usize, len: usize) -> (ops: Vec<FlashOp>)
        ensures
            forall|a: int, init: u8|
                #[trigger] after_ops(ops@, a, init) == f334_erased(
                    (addr as u32 & PAGE_MASK) as int,
                    erase_pages(len as int),
                    a,
                    init,
                ),
    {
        let mut address = (addr as u32) & PAGE_MASK;
        let ghost base = address;
        let remaing_bytes = len % FLASH_PAGE_SIZE as usize;
        let mut num_pages = len / FLASH_PAGE_SIZE as usize;
        if remaing_bytes != 0 {
            num_pages = num_pages + 1;
        }
        let ghost total = num_pages;
        assert(len / 2048 <= 0x2_0000) by (nonlinear_arith)
            requires
                len <= 0x1000_0000,
        ;
        assert(base <= 0x0800_F800u32 && base % 2048 == 0) by (bit_vector)
            requires
                base == (addr as u32) & 0x0800_F800u32,
        ;
        let mut ops: Vec<FlashOp> = Vec::new();
        while num_pages > 0
            invariant
                num_pages <= total,
                total <= 0x2_0001,
                total == erase_pages(len as int),
                base <= PAGE_MASK,
                base % 2048 == 0,
                address == base + (total - num_pages) * FLASH_PAGE_SIZE,
                forall|a: int, init: u8|
                    #[trigger] after_ops(ops@, a, init) == f334_erased(
                        base as int,
                        total - num_pages,
                        a,
                        init,
                    ),
            decreases num_pages,
        {
            let ghost old_ops = ops@;
            let ghost done = total - num_pages;
            if FLASH_START <= address && address <= FLASH_END {
                let op = FlashOp::ErasePage { addr: address, size: FLASH_PAGE_SIZE };
                proof {
                    assert(address % 2048 == 0);
                    assert forall|a: int, init: u8|
                        #[trigger] after_ops(old_ops.push(op), a, init) == f334_erased(
                            base as int,
                            done + 1,
                            a,
                            init,
                        ) by {
                        lemma_after_push(old_ops, op, a, init);
                    }
                }
                ops.push(op);
            } else {
                proof {
                    assert forall|a: int, init: u8|
                        #[trigger] after_ops(ops@, a, init) == f334_erased(
                            base as int,
                            done + 1,
                            a,
                            init,
                        ) by {
                        if address <= a < address + 2048 {
                            assert(!in_flash(a));
                        }
                    }
                }
            }
            address = address + FLASH_PAGE_SIZE;
            num_pages = num_pages - 1;
        }
        ops
    }
}

/// The half-words that program a page buffer back, each made of two
/// consecutive bytes, little-endian.
pub fn page_halfwords(buffer: &[u8]) -> (h: Vec<u16>)
    requires
        buffer@.len() % 2 == 0,
    ensures
        h@.len() == buffer@.len() / 2,
        forall|k: int|
            0 <= k < h@.len() ==> #[trigger] h@[k] == le_half(buffer@[2 * k], buffer@[2 * k + 1]),
{
    let mut h: Vec<u16> = Vec::new();
    let mut half_words_count: usize = 0;
    while half_words_count < buffer.len()
        invariant
            half_words_count <= buffer@.len(),
            half_words_count % 2 == 0,
            buffer@.len() % 2 == 0,
            h@.len() == half_words_count / 2,
            forall|k: int|
                0 <= k < h@.len() ==> #[trigger] h@[k] == le_half(buffer@[2 * k], buffer@[2 * k + 1]),
        decreases buffer@.len() - half_words_count,
    {
        let add = pack_le_half(buffer[half_words_count], buffer[half_words_count + 1]);
        h.push(add);
        half_words_count = half_words_count + 2;
    }
    h
}

pub fn preboot() {
}

/// An integer known to lie in `MIN..=MAX`, or to equal `VAL`.
pub struct RefinedUsize<const MIN: u32, const MAX: u32, const VAL: u32>(pub u32);

impl<const MIN: u32, const MAX: u32, const VAL: u32> RefinedUsize<MIN, MAX, VAL> {
    /// Wraps a value within `MIN..=MAX`, the address bound of a stack pointer.
    pub fn bounded_int(i: u32) -> (r: Self)
        requires
            MIN <= i <= MAX,
        ensures
            r.0 == i,
    {
        RefinedUsize(i)
    }

    /// Wraps a value equal to `VAL`, the address of a reset handler.
    pub fn single_valued_int(i: u32) -> (r: Self)
        requires
            i == VAL,
        ensures
            r.0 == i,
    {
        RefinedUsize(i)
    }
}

/// The stack pointer and reset vector to boot an image with, read from the
/// first two words of its vector table: the stack pointer must lie in RAM
/// and the reset vector must be the firmware's reset handler; otherwise the
/// image is refused.
pub fn check_vector_table(stack_word: u32, reset_word: u32) -> (r: Option<(u32, u32)>)
    ensures
        r == (if STACK_LOW <= stack_word <= STACK_UP && reset_word == FW_RESET_VTR {
            Some((stack_word, reset_word))
        } else {
            None::<(u32, u32)>
        }),
{
    if STACK_LOW <= stack_word && stack_word <= STACK_UP && reset_word == FW_RESET_VTR {
        let sp = RefinedUsize::<STACK_LOW, STACK_UP, 0>::bounded_int(stack_word).0;
        let rv = RefinedUsize::<0, 0, FW_RESET_VTR>::single_valued_int(reset_word).0;
        Some((sp, rv))
    } else {
        None
    }
}

} // verus!
