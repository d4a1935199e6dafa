//! A model of on-chip and external NOR flash, and the flash interface that
//! every board implements.
//!
//! A board driver does not touch the flash itself here: it plans the
//! controller operations (`FlashOp`) that carry out a write or an erase, and
//! the contracts say, byte by byte, what the flash holds once they are done.
//! Programming can only clear bits, so a programmed byte becomes the AND of
//! what was there and the new value; erasing sets bytes to `ERASED`.
use vstd::prelude::*;

verus! {

/// The value of an erased flash byte.
pub const ERASED: u8 = 0xFF;

/// One operation of a flash controller.
pub enum FlashOp {
    /// Program a 32-bit word, little-endian, at `addr`.
    ProgramWord { addr: u32, word: u32 },
    /// Program a 16-bit half-word, little-endian, at `addr`.
    ProgramHalfWord { addr: u32, half: u16 },
    /// Program one byte at `addr`; the controller rewrites the unit that holds
    /// it with the unit's other bytes as they are.
    ProgramByte { addr: u32, byte: u8 },
    /// Program consecutive bytes from `addr`.
    ProgramBytes { addr: u32, bytes: Vec<u8> },
    /// Read the `size`-byte block at `base`, lay `bytes` over the copy from
    /// offset `off`, erase the region `(start, length)` in `erase` if there is
    /// one, and program the copy back over the block.
    UpdateBlock { base: u32, size: u32, off: u32, bytes: Vec<u8>, erase: Option<(u32, u32)> },
    /// Erase the page of `size` bytes that holds `addr`.
    ErasePage { addr: u32, size: u32 },
    /// Erase sector number `sector`, which spans `size` bytes from `start`.
    EraseSector { sector: u8, start: u32, size: u32 },
}

/// A byte after programming `value` over `prev`.
pub open spec fn programmed(prev: u8, value: u8) -> u8 {
    prev & value
}

/// Byte `k` (0 is the lowest) of a little-endian word.
pub open spec fn word_byte(w: u32, k: int) -> u8 {
    if k == 0 {
        (w & 0xff) as u8
    } else if k == 1 {
        ((w >> 8u32) & 0xff) as u8
    } else if k == 2 {
        ((w >> 16u32) & 0xff) as u8
    } else {
        ((w >> 24u32) & 0xff) as u8
    }
}

/// Byte `k` (0 is the lowest) of a little-endian half-word.
pub open spec fn half_byte(h: u16, k: int) -> u8 {
    if k == 0 {
        (h & 0xff) as u8
    } else {
        ((h >> 8u16) & 0xff) as u8
    }
}

/// The little-endian word made of four bytes.
pub open spec fn le_word(b0: u8, b1: u8, b2: u8, b3: u8) -> u32 {
    (b0 as u32) | ((b1 as u32) << 8u32) | ((b2 as u32) << 16u32) | ((b3 as u32) << 24u32)
}

/// The little-endian half-word made of two bytes.
pub open spec fn le_half(b0: u8, b1: u8) -> u16 {
    (b0 as u16) | ((b1 as u16) << 8u16)
}

/// The first address of the `size`-byte page that holds `addr`.
pub open spec fn page_base(addr: int, size: int) -> int {
    addr - addr % size
}

/// Whether `a` lies in the optional region `(start, length)`.
pub open spec fn in_region(r: Option<(u32, u32)>, a: int) -> bool {
    match r {
        Some((s, n)) => s <= a < s + n,
        None => false,
    }
}

/// The byte at address `a` after `op`, where it held `prev` before.
pub open spec fn op_byte(op: FlashOp, a: int, prev: u8) -> u8 {
    match op {
        FlashOp::ProgramWord { addr, word } => if addr <= a < addr + 4 {
            programmed(prev, word_byte(word, a - addr))
        } else {
            prev
        },
        FlashOp::ProgramHalfWord { addr, half } => if addr <= a < addr + 2 {
            programmed(prev, half_byte(half, a - addr))
        } else {
            prev
        },
        FlashOp::ProgramByte { addr, byte } => if a == addr {
            programmed(prev, byte)
        } else {
            prev
        },
        FlashOp::ProgramBytes { addr, bytes } => if addr <= a < addr + bytes@.len() {
            programmed(prev, bytes@[a - addr])
        } else {
            prev
        },
        FlashOp::UpdateBlock { base, size, off, bytes, erase } => if base <= a < base + size {
            let c = if base + off <= a < base + off + bytes@.len() {
                bytes@[a - base - off]
            } else {
                prev
            };
            if in_region(erase, a) {
                c
            } else {
                programmed(prev, c)
            }
        } else if in_region(erase, a) {
            ERASED
        } else {
            prev
        },
        FlashOp::ErasePage { addr, size } => if page_base(addr as int, size as int) <= a
            < page_base(addr as int, size as int) + size {
            ERASED
        } else {
            prev
        },
        FlashOp::EraseSector { sector, start, size } => if start <= a < start + size {
            ERASED
        } else {
            prev
        },
    }
}

/// The byte at address `a` after the operations `ops`, in order, where it
/// held `init` before.
pub open spec fn after_ops(ops: Seq<FlashOp>, a: int, init: u8) -> u8
    decreases ops.len(),
{
    if ops.len() == 0 {
        init
    } else {
        op_byte(ops.last(), a, after_ops(ops.drop_last(), a, init))
    }
}

/// The byte at `a` once `data` is programmed from `address`, where it held
/// `init` before.
pub open spec fn data_written(address: int, data: Seq<u8>, a: int, init: u8) -> u8 {
    if address <= a < address + data.len() {
        programmed(init, data[a - address])
    } else {
        init
    }
}

/// Running one more operation.
pub proof fn lemma_after_push(ops: Seq<FlashOp>, op: FlashOp, a: int, init: u8)
    ensures
        after_ops(ops.push(op), a, init) == op_byte(op, a, after_ops(ops, a, init)),
{
    assert(ops.push(op).drop_last() =~= ops);
}

/// Programming over an erased byte leaves the new value, and programming a
/// byte with itself, or with an erased byte, changes nothing.
pub proof fn lemma_programmed(x: u8)
    by (bit_vector)
    ensures
        0xFFu8 & x == x,
        x & x == x,
        x & 0xFFu8 == x,
{
}

/// Programming twice is programming the AND of the two values.
pub proof fn lemma_programmed_twice(a: u8, b: u8, c: u8)
    by (bit_vector)
    ensures
        (a & b) & c == a & (b & c),
        (a & b) & b == a & b,
{
}

/// The bytes of a little-endian word are the bytes it was made of.
pub proof fn lemma_le_word_bytes(b0: u8, b1: u8, b2: u8, b3: u8, w: u32)
    by (bit_vector)
    requires
        w == (b0 as u32) | ((b1 as u32) << 8u32) | ((b2 as u32) << 16u32) | ((b3 as u32) << 24u32),
    ensures
        ((w & 0xff) as u8) == b0,
        (((w >> 8u32) & 0xff) as u8) == b1,
        (((w >> 16u32) & 0xff) as u8) == b2,
        (((w >> 24u32) & 0xff) as u8) == b3,
{
}

/// The bytes of a little-endian half-word are the bytes it was made of.
pub proof fn lemma_le_half_bytes(b0: u8, b1: u8, h: u16)
    by (bit_vector)
    requires
        h == (b0 as u16) | ((b1 as u16) << 8u16),
    ensures
        ((h & 0xff) as u8) == b0,
        (((h >> 8u16) & 0xff) as u8) == b1,
{
}

/// Running one list of operations after another.
pub proof fn lemma_after_ops_concat(s: Seq<FlashOp>, t: Seq<FlashOp>, a: int, init: u8)
    ensures
        after_ops(s + t, a, init) == after_ops(t, a, after_ops(s, a, init)),
    decreases t.len(),
{
    if t.len() == 0 {
        assert(s + t =~= s);
    } else {
        assert((s + t).drop_last() =~= s + t.drop_last());
        lemma_after_ops_concat(s, t.drop_last(), a, init);
    }
}

/// Reading back a write made over erased flash: once the bytes from
/// `start` to `end` are erased, writing `data` within them leaves each byte
/// of the data at its address.
pub proof fn lemma_erase_then_write(
    erase_ops: Seq<FlashOp>,
    write_ops: Seq<FlashOp>,
    start: int,
    end: int,
    address: int,
    data: Seq<u8>,
    a: int,
    init: u8,
)
    requires
        forall|b: int, i: u8| start <= b < end ==> #[trigger] after_ops(erase_ops, b, i) == ERASED,
        forall|b: int, i: u8| #[trigger] after_ops(write_ops, b, i) == data_written(address, data, b, i),
        start <= address,
        address + data.len() <= end,
        address <= a < address + data.len(),
    ensures
        after_ops(erase_ops + write_ops, a, init) == data[a - address],
{
    lemma_after_ops_concat(erase_ops, write_ops, a, init);
    assert(after_ops(erase_ops, a, init) == ERASED);
    lemma_programmed(data[a - address]);
}

/// Packs four bytes into a little-endian word.
pub fn pack_le_word(b0: u8, b1: u8, b2: u8, b3: u8) -> (w: u32)
    ensures
        w == le_word(b0, b1, b2, b3),
{
    (b0 as u32) | ((b1 as u32) << 8u32) | ((b2 as u32) << 16u32) | ((b3 as u32) << 24u32)
}

/// Packs two bytes into a little-endian half-word.
pub fn pack_le_half(b0: u8, b1: u8) -> (h: u16)
    ensures
        h == le_half(b0, b1),
{
    (b0 as u16) | ((b1 as u16) << 8u16)
}

/// The bytes `data[from..to]`, copied.
pub fn copy_range(data: &[u8], from: usize, to: usize) -> (v: Vec<u8>)
    requires
        from <= to <= data@.len(),
    ensures
        v@ == data@.subrange(from as int, to as int),
{
    let mut v: Vec<u8> = Vec::new();
    let mut i = from;
    while i < to
        invariant
            from <= i <= to <= data@.len(),
            v@ == data@.subrange(from as int, i as int),
        decreases to - i,
    {
        v.push(data[i]);
        i = i + 1;
    }
    v
}

/// The interface every board's flash driver offers: the operations that
/// write an arbitrary blob of data to an arbitrary location in flash, and
/// those that erase the pages holding a range, given the address of its
/// first page and the number of bytes.
pub trait FlashInterface {
    /// The writes the driver accepts: `len` bytes from `address`, taken from
    /// a buffer at `data_addr`.
    spec fn write_ok(&self, address: int, len: int, data_addr: int) -> bool;

    /// The erases the driver accepts: `len` bytes from `addr`.
    spec fn erase_ok(&self, addr: int, len: int) -> bool;

    /// The operations that write `data` to flash at `address`; `data_addr`
    /// is the address of the buffer, which decides whether whole words can
    /// be moved at once.
    fn hal_flash_write(&self, address: usize, data: &[u8], data_addr: usize) -> (ops: Vec<FlashOp>)
        requires
            self.write_ok(address as int, data@.len() as int, data_addr as int),
    ;

    /// The operations that erase `len` bytes of flash from `addr`.
    fn hal_flash_erase(&self, addr: usize, len: usize) -> (ops: Vec<FlashOp>)
        requires
            self.erase_ok(addr as int, len as int),
    ;
}

/// The byte at `a` after erasing every page from `start` (a page boundary)
/// up to `end`.
pub open spec fn pages_erased(start: int, end: int, a: int, init: u8) -> u8 {
    if start <= a < end {
        ERASED
    } else {
        init
    }
}

/// The number of `size`-byte pages that `len` bytes take.
pub open spec fn pages_for(len: int, size: int) -> int {
    (len + size - 1) / size
}

/// The erase plan that steps a page at a time: a page erase at `start`,
/// then every `size` bytes while below `start + len`.
pub fn stepped_erase_plan(start: u32, len: u32, size: u32) -> (ops: Vec<FlashOp>)
    requires
        size > 0,
        start + len <= u32::MAX,
    ensures
        ops@.len() == pages_for(len as int, size as int),
        forall|k: int|
            0 <= k < ops@.len() ==> #[trigger] ops@[k] == (FlashOp::ErasePage {
                addr: (start + k * size) as u32,
                size: size,
            }),
        start % size == 0 ==> forall|a: int, init: u8|
            #[trigger] after_ops(ops@, a, init) == pages_erased(
                start as int,
                start + ops@.len() * size,
                a,
                init,
            ),
{
    let end = start + len;
    let mut ops: Vec<FlashOp> = Vec::new();
    if len == 0 {
        assert(pages_for(0, size as int) == 0) by (nonlinear_arith)
            requires
                size > 0,
        ;
        return ops;
    }
    let mut cur = start;
    loop
        invariant_except_break
            cur == start + ops@.len() * size,
            start % size == 0 ==> cur % size == 0,
            forall|k: int|
                0 <= k < ops@.len() ==> #[trigger] ops@[k] == (FlashOp::ErasePage {
                    addr: (start + k * size) as u32,
                    size: size,
                }),
            start % size == 0 ==> forall|a: int, init: u8|
                #[trigger] after_ops(ops@, a, init) == pages_erased(start as int, cur as int, a, init),
        invariant
            start <= cur < end,
            end == start + len,
            size > 0,
        ensures
            ops@.len() == pages_for(len as int, size as int),
            forall|k: int|
                0 <= k < ops@.len() ==> #[trigger] ops@[k] == (FlashOp::ErasePage {
                    addr: (start + k * size) as u32,
                    size: size,
                }),
            start % size == 0 ==> forall|a: int, init: u8|
                #[trigger] after_ops(ops@, a, init) == pages_erased(
                    start as int,
                    start + ops@.len() * size,
                    a,
                    init,
                ),
        decreases end - cur,
    {
        let op = FlashOp::ErasePage { addr: cur, size: size };
        let ghost old_ops = ops@;
        proof {
            if start % size == 0 {
                assert forall|a: int, init: u8|
                    #[trigger] after_ops(old_ops.push(op), a, init) == pages_erased(
                        start as int,
                        cur + size,
                        a,
                        init,
                    ) by {
                    lemma_after_push(old_ops, op, a, init);
                }
            }
        }
        ops.push(op);
        proof {
            let q = old_ops.len() as int;
            let z = size as int;
            assert((q + 1) * z == q * z + z) by (nonlinear_arith);
        }
        if end - cur <= size {
            proof {
                let q = old_ops.len() as int;
                let n = len as int;
                let z = size as int;
                assert((n + z - 1) / z == q + 1) by (nonlinear_arith)
                    requires
                        q * z < n <= q * z + z,
                        z > 0,
                ;
            }
            break ;
        }
        proof {
            let c = cur as int;
            let z = size as int;
            assert(c % z == 0 ==> (c + z) % z == 0) by (nonlinear_arith)
                requires
                    z > 0,
            ;
        }
        cur = cur + size;
    }
    ops
}

} // verus!
