//! Nordic nRF boards.
use vstd::prelude::*;
use crate::flash::{
    after_ops, data_written, lemma_after_push, lemma_le_word_bytes, pack_le_word, word_byte,
    FlashOp,
};

pub mod nrf52840;
pub mod nrf9160;


verus! {

/// The write plan of an NVMC: a whole word where at least four bytes remain
/// and both the flash address and the buffer are word-aligned, a single byte
/// otherwise. Each byte of the data ends up programmed at its address.
pub fn nvmc_write_plan(address: usize, data: &[u8], data_addr: usize) -> (ops: Vec<FlashOp>)
    requires
        address + data@.len() <= u32::MAX,
    ensures
        forall|a: int, init: u8|
            #[trigger] after_ops(ops@, a, init) == data_written(address as int, data@, a, init),
        forall|k: int|
            0 <= k < ops@.len() ==> (#[trigger] ops@[k] is ProgramWord || ops@[k] is ProgramByte),
        forall|k: int|
            0 <= k < ops@.len() ==> (#[trigger] ops@[k] matches FlashOp::ProgramWord { addr, .. } ==> addr
                % 4 == 0 && (data_addr + (addr - address)) % 4 == 0 && address <= addr && addr + 4
                <= address + data@.len()),
{
    let address = address as u32;
    let len = data.len() as u32;
    let data_align = (data_addr % 4) as u32;
    let mut idx: u32 = 0;
    let mut ops: Vec<FlashOp> = Vec::new();
    while idx < len
        invariant
            idx <= len,
            len == data@.len(),
            address + len <= u32::MAX,
            data_align < 4,
            forall|a: int, init: u8|
                #[trigger] after_ops(ops@, a, init) == data_written(
                    address as int,
                    data@.take(idx as int),
                    a,
                    init,
                ),
            forall|k: int|
                0 <= k < ops@.len() ==> (#[trigger] ops@[k] is ProgramWord || ops@[k] is ProgramByte),
            data_align == data_addr % 4,
            forall|k: int|
                0 <= k < ops@.len() ==> (#[trigger] ops@[k] matches FlashOp::ProgramWord { addr, .. } ==> addr
                    % 4 == 0 && (data_addr + (addr - address)) % 4 == 0 && address <= addr && addr + 4 <= address
                    + idx),
        decreases len - idx,
    {
        let i = idx as usize;
        let ghost old_ops = ops@;
        if len - idx > 3 && (address + idx) & 3 == 0 && (data_align + idx) & 3 == 0 {
            let w = pack_le_word(data[i], data[i + 1], data[i + 2], data[i + 3]);
            let op = FlashOp::ProgramWord { addr: address + idx, word: w };
            proof {
                let fa: u32 = (address + idx) as u32;
                let da: u32 = (data_align + idx) as u32;
                assert(fa % 4 == 0 && da % 4 == 0) by (bit_vector)
                    requires
                        fa & 3 == 0,
                        da & 3 == 0,
                ;
                assert((data_addr + idx) % 4 == 0);
                lemma_le_word_bytes(data@[i as int], data@[i + 1], data@[i + 2], data@[i + 3], w);
                assert forall|a: int, init: u8|
                    #[trigger] after_ops(old_ops.push(op), a, init) == data_written(
                        address as int,
                        data@.take(idx + 4),
                        a,
                        init,
                    ) by {
                    lemma_after_push(old_ops, op, a, init);
                    let j = a - (address + idx);
                    if 0 <= j < 4 {
                        assert(word_byte(w, j) == data@[idx + j]);
                    }
                }
            }
            ops.push(op);
            idx = idx + 4;
        } else {
            let op = FlashOp::ProgramByte { addr: address + idx, byte: data[i] };
            proof {
                assert forall|a: int, init: u8|
                    #[trigger] after_ops(old_ops.push(op), a, init) == data_written(
                        address as int,
                        data@.take(idx + 1),
                        a,
                        init,
                    ) by {
                    lemma_after_push(old_ops, op, a, init);
                }
            }
            ops.push(op);
            idx = idx + 1;
        }
    }
    assert(data@.take(len as int) =~= data@);
    ops
}

} // verus!
