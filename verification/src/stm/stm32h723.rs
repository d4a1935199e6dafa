//! Flash driver and boot checks of the STM32H723.
//!
//! The H7 flash is programmed in 32-byte flash words. Because of its ECC,
//! the sectors that hold the partition flags cannot be programmed twice:
//! a short write there erases the flags sector first.
use vstd::prelude::*;
use crate::flash::{
    after_ops, copy_range, data_written, in_region, lemma_after_push, lemma_programmed,
    FlashInterface, FlashOp, ERASED,
};

verus! {

pub const FLASH_SECTOR_SIZE: u32 = 0x20000;
pub const PARTITION_SIZE: u32 = 0x40000;
pub const PARTITION_BOOT_ADDRESS: u32 = 0x0802_0000;
pub const PARTITION_UPDATE_ADDRESS: u32 = 0x0806_0000;
pub const STM32H7_PART_BOOT_END: u32 = PARTITION_BOOT_ADDRESS + PARTITION_SIZE;
pub const STM32H7_PART_UPDATE_END: u32 = PARTITION_UPDATE_ADDRESS + PARTITION_SIZE;
pub const STM32H7_PART_BOOT_FLAGS_PAGE_ADDRESS: u32 = ((STM32H7_PART_BOOT_END - 1) / FLASH_SECTOR_SIZE)
    * FLASH_SECTOR_SIZE;
pub const STM32H7_PART_UPDATE_FLAGS_PAGE_ADDRESS: u32 = ((STM32H7_PART_UPDATE_END - 1)
    / FLASH_SECTOR_SIZE) * FLASH_SECTOR_SIZE;
pub const FLASHMEM_ADDRESS_SPACE: u32 = 0x08000000;
pub const STACK_LOW: u32 = 0x20_000_000;
pub const STACK_UP: u32 = 0x20_040_000;
pub const RB_HDR_SIZE: u32 = 0x100;
pub const BASE_ADDR: u32 = 0x08020000;
pub const VTR_TABLE_SIZE: u32 = 0x100;
pub const FW_RESET_VTR: u32 = BASE_ADDR + RB_HDR_SIZE + VTR_TABLE_SIZE + 0x19D;
pub const UNLOCKKEY1: u32 = 0x45670123;
pub const UNLOCKKEY2: u32 = 0xCDEF89AB;
pub const PSIZE_X8: u8 = 0b00;
pub const PSIZE_X16: u8 = 0b01;
pub const PSIZE_X32: u8 = 0b10;
pub const PSIZE_X64: u8 = 0b11;
pub const KB: u32 = 1024;
/// The size of a flash word, the unit the H7 flash is programmed in.
pub const FLASH_WORD_SIZE: u32 = 32;

/// The flash writer and eraser.
pub struct FlashWriterEraser {}

impl FlashWriterEraser {
    pub fn new() -> (f: Self) {
        FlashWriterEraser {  }
    }
}

/// Whether `addr` lies in the flags sector of the boot partition.
pub fn stm32h7_boot_flag_page(addr: u32) -> (b: bool)
    ensures
        b == (STM32H7_PART_BOOT_FLAGS_PAGE_ADDRESS <= addr < STM32H7_PART_BOOT_END),
{
    (addr >= STM32H7_PART_BOOT_FLAGS_PAGE_ADDRESS) && (addr < STM32H7_PART_BOOT_END)
}

/// Whether `addr` lies in the flags sector of the update partition.
pub fn stm32h7_update_flag_page(addr: u32) -> (b: bool)
    ensures
        b == (STM32H7_PART_UPDATE_FLAGS_PAGE_ADDRESS <= addr < STM32H7_PART_UPDATE_END),
{
    (addr >= STM32H7_PART_UPDATE_FLAGS_PAGE_ADDRESS) && (addr < STM32H7_PART_UPDATE_END)
}

/// The flags sector that a write of `len` bytes at `addr` erases first: a
/// write of at most one flash word into one of the two flags sectors.
pub open spec fn flags_erase(addr: int, len: int) -> Option<(u32, u32)> {
    if len <= FLASH_WORD_SIZE && STM32H7_PART_BOOT_FLAGS_PAGE_ADDRESS <= addr < STM32H7_PART_BOOT_END {
        Some((STM32H7_PART_BOOT_FLAGS_PAGE_ADDRESS, FLASH_SECTOR_SIZE))
    } else if len <= FLASH_WORD_SIZE && STM32H7_PART_UPDATE_FLAGS_PAGE_ADDRESS <= addr
        < STM32H7_PART_UPDATE_END {
        Some((STM32H7_PART_UPDATE_FLAGS_PAGE_ADDRESS, FLASH_SECTOR_SIZE))
    } else {
        None
    }
}

/// The first address of the flags sector that a write erases, if any.
pub open spec fn flags_sector(addr: int, len: int) -> int {
    match flags_erase(addr, len) {
        Some((start, _)) => start as int,
        None => 0,
    }
}

/// The byte at `a` after a flags write of `data` at `addr` that fits one
/// flash word: the flash word keeps its other bytes, the rest of the flags
/// sector is erased.
pub open spec fn flags_written(addr: int, data: Seq<u8>, sector: int, a: int, init: u8) -> u8 {
    let base = addr - addr % (FLASH_WORD_SIZE as int);
    if addr <= a < addr + data.len() {
        data[a - addr]
    } else if base <= a < base + FLASH_WORD_SIZE {
        init
    } else if sector <= a < sector + FLASH_SECTOR_SIZE {
        ERASED
    } else {
        init
    }
}

/// Whether the plan of a flags write across a flash-word boundary is two
/// flash-word updates: the first rewrites the flash word that holds
/// `addr` with the data's first bytes, the second the next flash word with
/// the rest; each erases the flags sector before programming its word back.
pub open spec fn flags_split_plan(ops: Seq<FlashOp>, addr: int, data: Seq<u8>) -> bool {
    let off = addr % (FLASH_WORD_SIZE as int);
    let n0 = FLASH_WORD_SIZE - off;
    let erase = flags_erase(addr, data.len() as int);
    &&& ops.len() == 2
    &&& ops[0] matches FlashOp::UpdateBlock { base, size, off: o, bytes, erase: e } && base == addr - off
        && size == FLASH_WORD_SIZE && o == off && bytes@ == data.take(n0) && e == erase
    &&& ops[1] matches FlashOp::UpdateBlock { base, size, off: o, bytes, erase: e } && base == addr - off
        + FLASH_WORD_SIZE && size == FLASH_WORD_SIZE && o == 0 && bytes@ == data.skip(n0) && e == erase
}

/// The sector that holds `a`: its number, first address and size (eight
/// sectors of 128 KiB).
pub open spec fn sector_of(a: int) -> Option<(u8, u32, u32)> {
    if 0x0800_0000 <= a <= 0x080F_FFFF {
        Some((
            ((a - 0x0800_0000) / (FLASH_SECTOR_SIZE as int)) as u8,
            (0x0800_0000 + ((a - 0x0800_0000) / (FLASH_SECTOR_SIZE as int)) * FLASH_SECTOR_SIZE) as u32,
            FLASH_SECTOR_SIZE,
        ))
    } else {
        None
    }
}

/// Every flash address lies in the sector looked up for it, the hardware
/// sector of 128 KiB that spans it (number `n` starts at 0x0800_0000 +
/// n x 128 KiB); erasing it erases the address. Addresses outside the flash
/// have no sector.
pub proof fn lemma_sector_holds_address(a: int, init: u8)
    ensures
        0x0800_0000 <= a < 0x0810_0000 ==> (sector_of(a) matches Some((n, s, z)) && 0 <= n < 8 && s
            == 0x0800_0000 + n * 0x2_0000 && z == 0x2_0000 && s <= a < s + z && sector_erased(a, a, init)
            == ERASED),
        !(0x0800_0000 <= a < 0x0810_0000) ==> sector_of(a) is None,
{
    if 0x0800_0000 <= a < 0x0810_0000 {
        let n = (a - 0x0800_0000) / 0x2_0000;
        assert(0 <= n < 8 && 0x0800_0000 + n * 0x2_0000 <= a < 0x0800_0000 + n * 0x2_0000 + 0x2_0000)
            by (nonlinear_arith)
            requires
                n == (a - 0x0800_0000) / 0x2_0000,
                0x0800_0000 <= a < 0x0810_0000,
        ;
    }
}

/// The sector that holds `address`.
pub fn sector_lookup(address: u32) -> (r: Option<(u8, u32, u32)>)
    ensures
        r == sector_of(address as int),
{
    if 0x0800_0000 <= address && address <= 0x0801_FFFF {
        Some((0, 0x0800_0000, FLASH_SECTOR_SIZE))
    } else if 0x0802_0000 <= address && address <= 0x0803_FFFF {
        Some((1, 0x0802_0000, FLASH_SECTOR_SIZE))
    } else if 0x0804_0000 <= address && address <= 0x0805_FFFF {
        Some((2, 0x0804_0000, FLASH_SECTOR_SIZE))
    } else if 0x0806_0000 <= address && address <= 0x0807_FFFF {
        Some((3, 0x0806_0000, FLASH_SECTOR_SIZE))
    } else if 0x0808_0000 <= address && address <= 0x0809_FFFF {
        Some((4, 0x0808_0000, FLASH_SECTOR_SIZE))
    } else if 0x080A_0000 <= address && address <= 0x080B_FFFF {
        Some((5, 0x080A_0000, FLASH_SECTOR_SIZE))
    } else if 0x080C_0000 <= address && address <= 0x080D_FFFF {
        Some((6, 0x080C_0000, FLASH_SECTOR_SIZE))
    } else if 0x080E_0000 <= address && address <= 0x080F_FFFF {
        Some((7, 0x080E_0000, FLASH_SECTOR_SIZE))
    } else {
        None
    }
}

/// The byte at `a` after erasing the sector that holds `addr`, if any.
pub open spec fn sector_erased(addr: int, a: int, init: u8) -> u8 {
    match sector_of(addr) {
        Some((_, start, size)) => if start <= a < start + size {
            ERASED
        } else {
            init
        },
        None => init,
    }
}

impl FlashInterface for FlashWriterEraser {
    open spec fn write_ok(&self, address: int, len: int, data_addr: int) -> bool {
        address + len + FLASH_WORD_SIZE <= u32::MAX
    }

    open spec fn erase_ok(&self, addr: int, len: int) -> bool {
        addr <= u32::MAX
    }

    /// Writes `data` at `addr`. Data longer than a flash word is programmed
    /// a flash word at a time from `addr`, and what is left of it, as a short
    /// write is, goes in by rewriting the flash words that hold it with their
    /// other bytes as they are. A short write into a flags sector erases that
    /// sector before each flash word is programmed back.
    fn hal_flash_write(&self, address: usize, data: &[u8], data_addr: usize) -> (ops: Vec<FlashOp>)
        ensures
            flags_erase(address as int, data@.len() as int) is None ==> forall|a: int, init: u8|
                #[trigger] after_ops(ops@, a, init) == data_written(address as int, data@, a, init),
            data@.len() > 0 && flags_erase(address as int, data@.len() as int) is Some && (address as int) % (FLASH_WORD_SIZE as int) + data@.len() <= FLASH_WORD_SIZE ==> forall|
                a: int,
                init: u8,
            |
                #[trigger] after_ops(ops@, a, init) == flags_written(
                    address as int,
                    data@,
                    flags_sector(address as int, data@.len() as int),
                    a,
                    init,
                ),
            data@.len() > 0 && flags_erase(address as int, data@.len() as int) is Some && (address as int) % (
            FLASH_WORD_SIZE as int) + data@.len() > FLASH_WORD_SIZE ==> flags_split_plan(
                ops@,
                address as int,
                data@,
            ),
    {
        let addr = address as u32;
        let len = data.len() as u32;
        let erase = if len <= FLASH_WORD_SIZE && stm32h7_boot_flag_page(addr) {
            Some((STM32H7_PART_BOOT_FLAGS_PAGE_ADDRESS, FLASH_SECTOR_SIZE))
        } else if len <= FLASH_WORD_SIZE && stm32h7_update_flag_page(addr) {
            Some((STM32H7_PART_UPDATE_FLAGS_PAGE_ADDRESS, FLASH_SECTOR_SIZE))
        } else {
            None
        };
        let mut ops: Vec<FlashOp> = Vec::new();
        let mut i: u32 = 0;
        while i < len
            invariant
                i <= len,
                len == data@.len(),
                addr == address,
                addr + len + FLASH_WORD_SIZE <= u32::MAX,
                erase == flags_erase(address as int, len as int),
                erase is None ==> forall|a: int, init: u8|
                    #[trigger] after_ops(ops@, a, init) == data_written(
                        address as int,
                        data@.take(i as int),
                        a,
                        init,
                    ),
                erase is Some && (address as int) % (FLASH_WORD_SIZE as int) + len <= FLASH_WORD_SIZE ==> (i
                    == 0 ==> ops@.len() == 0) && (i > 0 ==> (i == len
                    && forall|a: int, init: u8|
                    #[trigger] after_ops(ops@, a, init) == flags_written(
                        address as int,
                        data@,
                        flags_sector(address as int, len as int),
                        a,
                        init,
                    ))),
                erase is Some && (address as int) % (FLASH_WORD_SIZE as int) + len > FLASH_WORD_SIZE ==> (i
                    == 0 ==> ops@.len() == 0) && (0 < i < len ==> i == FLASH_WORD_SIZE - (address as int)
                    % (FLASH_WORD_SIZE as int) && ops@.len() == 1 && (ops@[0] matches FlashOp::UpdateBlock {
                    base,
                    size,
                    off: o,
                    bytes,
                    erase: e,
                } && base == address - (address as int) % (FLASH_WORD_SIZE as int) && size
                    == FLASH_WORD_SIZE && o == (address as int) % (FLASH_WORD_SIZE as int) && bytes@
                    == data@.take(i as int) && e == erase)) && (i == len ==> flags_split_plan(
                    ops@,
                    address as int,
                    data@,
                )),
            decreases len - i,
        {
            let ghost old_ops = ops@;
            if len > FLASH_WORD_SIZE && len - i >= FLASH_WORD_SIZE {
                let bytes = copy_range(data, i as usize, (i + FLASH_WORD_SIZE) as usize);
                let op = FlashOp::ProgramBytes { addr: addr + i, bytes: bytes };
                proof {
                    assert forall|a: int, init: u8|
                        #[trigger] after_ops(old_ops.push(op), a, init) == data_written(
                            address as int,
                            data@.take(i + FLASH_WORD_SIZE),
                            a,
                            init,
                        ) by {
                        lemma_after_push(old_ops, op, a, init);
                    }
                }
                ops.push(op);
                i = i + FLASH_WORD_SIZE;
            } else {
                let off = (addr + i) % FLASH_WORD_SIZE;
                let base_address = (addr + i) - off;
                let n = if FLASH_WORD_SIZE - off < len - i {
                    FLASH_WORD_SIZE - off
                } else {
                    len - i
                };
                let bytes = copy_range(data, i as usize, (i + n) as usize);
                let op = FlashOp::UpdateBlock {
                    base: base_address,
                    size: FLASH_WORD_SIZE,
                    off: off,
                    bytes: bytes,
                    erase: erase,
                };
                proof {
                    if erase is None {
                        assert forall|a: int, init: u8|
                            #[trigger] after_ops(old_ops.push(op), a, init) == data_written(
                                address as int,
                                data@.take(i + n),
                                a,
                                init,
                            ) by {
                            lemma_after_push(old_ops, op, a, init);
                            lemma_programmed(after_ops(old_ops, a, init));
                        }
                    }
                    if erase is Some && (address as int) % (FLASH_WORD_SIZE as int) + len <= FLASH_WORD_SIZE {
                        assert(i == 0);
                        assert(n == len);
                        assert(old_ops.push(op) =~= seq![op]);
                        assert(base_address <= STM32H7_PART_UPDATE_END);
                        assert forall|a: int, init: u8|
                            #[trigger] after_ops(old_ops.push(op), a, init) == flags_written(
                                address as int,
                                data@,
                                flags_sector(address as int, len as int),
                                a,
                                init,
                            ) by {
                            lemma_after_push(old_ops, op, a, init);
                            lemma_programmed(init);
                            assert(data@.subrange(0, len as int) =~= data@);
                        }
                    }
                }
                ops.push(op);
                i = i + n;
            }
        }
        assert(data@.take(len as int) =~= data@);
        ops
    }

    /// Erases the sector that holds `addr`, whatever `len` is; an address
    /// outside the flash erases nothing.
    fn hal_flash_erase(&self, addr: usize, len: usize) -> (ops: Vec<FlashOp>)
        ensures
            ops@ == (match sector_of(addr as int) {
                Some((sector, start, size)) => seq![
                    FlashOp::EraseSector { sector: sector, start: start, size: size },
                ],
                None => Seq::<FlashOp>::empty(),
            }),
            forall|a: int, init: u8|
                #[trigger] after_ops(ops@, a, init) == sector_erased(addr as int, a, init),
    {
        let mut ops: Vec<FlashOp> = Vec::new();
        match sector_lookup(addr as u32) {
            Some((sec, start, size)) => {
                let op = FlashOp::EraseSector { sector: sec, start: start, size: size };
                proof {
                    assert forall|a: int, init: u8|
                        #[trigger] after_ops(seq![op], a, init) == sector_erased(
                            addr as int,
                            a,
                            init,
                        ) by {
                        lemma_after_push(Seq::<FlashOp>::empty(), op, a, init);
                        assert(Seq::<FlashOp>::empty().push(op) =~= seq![op]);
                    }
                }
                ops.push(op);
                assert(ops@ =~= seq![op]);
            },
            None => {},
        }
        ops
    }
}

/// An integer known to lie in `MIN..=MAX`, or to equal `VAL`.
pub struct RefinedUsize<const MIN: u32, const MAX: u32, const VAL: u32>(pub u32);

impl<const MIN: u32, const MAX: u32, const VAL: u32> RefinedUsize<MIN, MAX, VAL> {
    /// Wraps a value within `MIN..=MAX`, the address bound of a stack pointer.
    pub fn bounded_int(i: u32) -> (r: Self)
        requires
            MIN <= i <= MAX,
        ensures
            r.0 == i,
    {
        RefinedUsize(i)
    }

    /// Wraps a value equal to `VAL`, the address of a reset handler.
    pub fn single_valued_int(i: u32) -> (r: Self)
        requires
            i == VAL,
        ensures
            r.0 == i,
    {
        RefinedUsize(i)
    }
}

/// The stack pointer and reset vector to boot an image with, read from the
/// first two words of its vector table: the stack pointer must lie in RAM
/// and the reset vector must be the firmware's reset handler; otherwise the
/// image is refused.
pub fn check_vector_table(stack_word: u32, reset_word: u32) -> (r: Option<(u32, u32)>)
    ensures
        r == (if STACK_LOW <= stack_word <= STACK_UP && reset_word == FW_RESET_VTR {
            Some((stack_word, reset_word))
        } else {
            None::<(u32, u32)>
        }),
{
    if STACK_LOW <= stack_word && stack_word <= STACK_UP && reset_word == FW_RESET_VTR {
        let sp = RefinedUsize::<STACK_LOW, STACK_UP, 0>::bounded_int(stack_word).0;
        let rv = RefinedUsize::<0, 0, FW_RESET_VTR>::single_valued_int(reset_word).0;
        Some((sp, rv))
    } else {
        None
    }
}

} // verus!
