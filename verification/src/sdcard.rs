//! Register-level logic shared by the SD host controller drivers: the card
//! status word, the CSD/CID layouts and the field arithmetic they rest on.

use vstd::prelude::*;
use vstd::arithmetic::power2::pow2;
use vstd::bits::{lemma_u64_pow2_no_overflow, lemma_u64_shl_is_mul};

verus! {

/// Mask of the error bits of an R1 card status.
pub const R1_ERRORS_MASK: u32 = 0xfff9c004;
/// Card status bit: the card expects an application command.
pub const ST_APP_CMD: u32 = 0x00000020;

/// The word `w` with the field selected by `mask` (unshifted) at `shift`
/// replaced by the low bits of `v` (a read-modify-write of one register field).
pub open spec fn set_field(w: u32, shift: u32, mask: u32, v: u32) -> u32 {
    (w & !(mask << shift)) | ((v & mask) << shift)
}

/// The field selected by `mask` (unshifted) at `shift` of `w`.
pub open spec fn get_field(w: u32, shift: u32, mask: u32) -> u32 {
    (w >> shift) & mask
}

/// Writes `v` into a field of `w`.
pub fn field_set(w: u32, shift: u32, mask: u32, v: u32) -> (r: u32)
    requires
        shift < 32,
    ensures
        r == set_field(w, shift, mask, v),
{
    (w & !(mask << shift)) | ((v & mask) << shift)
}

/// Reads a field of `w`.
pub fn field_get(w: u32, shift: u32, mask: u32) -> (r: u32)
    requires
        shift < 32,
    ensures
        r == get_field(w, shift, mask),
{
    (w >> shift) & mask
}

/// Byte `k` (0..16) of the 16-byte buffer the drivers assemble from the four
/// response registers: bytes 0..4 come from RESP3, 4..8 from RESP2, 8..12
/// from RESP1 and 12..16 from RESP0, each word in little-endian order.
pub open spec fn resp_byte(r0: u32, r1: u32, r2: u32, r3: u32, k: int) -> u8 {
    let w = if k < 4 { r3 } else if k < 8 { r2 } else if k < 12 { r1 } else { r0 };
    let sh = (8 * (k % 4)) as u32;
    ((w >> sh) & 0xff) as u8
}

/// The response buffer, byte by byte.
pub fn response_bytes(r0: u32, r1: u32, r2: u32, r3: u32) -> (b: Vec<u8>)
    ensures
        b.len() == 16,
        forall|k: int| 0 <= k < 16 ==> #[trigger] b@[k] == resp_byte(r0, r1, r2, r3, k),
{
    let mut b: Vec<u8> = Vec::new();
    let mut k: usize = 0;
    while k < 16
        invariant
            k <= 16,
            b.len() == k,
            forall|j: int| 0 <= j < k ==> #[trigger] b@[j] == resp_byte(r0, r1, r2, r3, j),
        decreases 16 - k,
    {
        let w = if k < 4 { r3 } else if k < 8 { r2 } else if k < 12 { r1 } else { r0 };
        let sh: u32 = (8 * (k % 4)) as u32;
        b.push(((w >> sh) & 0xff) as u8);
        k = k + 1;
    }
    b
}

/// Card-status word recovered from an R6 (SEND_REL_ADDR) response: bits 12:0
/// map directly, bit 13 to bit 19 (ERROR), bit 14 to bit 22
/// (ILLEGAL_COMMAND) and bit 15 to bit 23 (COM_CRC_ERROR).
pub open spec fn r6_status(resp0: u32) -> u32 {
    (resp0 & 0x1fff) | ((resp0 & 0x2000) << 6) | ((resp0 & 0x4000) << 8) | ((resp0 & 0x8000) << 8)
}

/// The 16-byte response buffer as a sequence.
pub open spec fn resp_bytes(r0: u32, r1: u32, r2: u32, r3: u32) -> Seq<u8> {
    Seq::new(16, |k: int| resp_byte(r0, r1, r2, r3, k))
}

/// See [`r6_status`].
pub fn status_from_r6(resp0: u32) -> (r: u32)
    ensures
        r == r6_status(resp0),
{
    (resp0 & 0x1fff) | ((resp0 & 0x2000) << 6) | ((resp0 & 0x4000) << 8) | ((resp0 & 0x8000) << 8)
}

/// The relative card address carried in the upper half of an R6 response.
pub open spec fn r6_rca(resp0: u32) -> u32 {
    resp0 & 0xffff0000
}

/// The contents of the Card-Specific Data register, as four 32-bit slices.
#[derive(Clone, Copy, PartialEq, Eq, Structural)]
pub struct CSD {
    pub csd0: u32,
    pub csd1: u32,
    pub csd2: u32,
    pub csd3: u32,
}

/// Whether the buffer's CSD_STRUCTURE field (bits 127:126, in byte 2)
/// announces a version 2.0 (high capacity) CSD.
pub open spec fn csd_is_v2(b: Seq<u8>) -> bool {
    (b[2] & 0xc0) >> 6u8 == 1u8
}

/// CSD slice 0: CSD_STRUCTURE, SPEC_VERS, NSAC, TAAC and TRAN_SPEED.
pub open spec fn csd0_of(b0: u8, b1: u8, b2: u8, b7: u8) -> u32 {
    ((b2 as u32) << 24u32) | ((b0 as u32) << 16u32) | ((b1 as u32) << 8u32) | (b7 as u32)
}

/// CSD slice 1 above the C_SIZE field: CCC, READ_BL_LEN, READ_BL_PARTIAL,
/// WRITE_BLK_MISALIGN, READ_BLK_MISALIGN and DSR_IMP.
pub open spec fn csd1_high_of(b4: u8, b5: u8, b6: u8) -> u32 {
    ((b6 as u32) << 24u32) | ((b5 as u32) << 16u32) | (((b4 >> 4u8) as u32) << 12u32)
}

/// Version 1.0 C_SIZE (bits 73:62).
pub open spec fn c_size_v1(b4: u8, b10: u8, b11: u8) -> u32 {
    (((((b4 & 3) as u32) << 8u32) + (b11 as u32)) * 4 + (((b10 & 0xc0) >> 6u8) as u32)) as u32
}

/// Version 1.0 C_SIZE_MULT (bits 49:47).
pub open spec fn c_size_mult(b8: u8, b9: u8) -> u32 {
    (((b9 & 0x03) << 1u8) | ((b8 & 0x80) >> 7u8)) as u32
}

/// READ_BL_LEN (bits 83:80).
pub open spec fn read_bl_len(b5: u8) -> u32 {
    (b5 & 0x0f) as u32
}

/// Version 2.0 C_SIZE (bits 69:48).
pub open spec fn c_size_v2(b9: u8, b10: u8, b11: u8) -> u32 {
    (((b11 & 0x3f) as u32) << 16u32) | ((b10 as u32) << 8u32) | (b9 as u32)
}

/// SECTOR_SIZE (bits 45:39) and ERASE_BLK_EN (bit 46) as they sit in CSD
/// slice 2 (bits 8:2 and 9).
pub open spec fn csd2_erase_sector_of(b8: u8, b15: u8) -> u32 {
    ((((b8 & 0x40) >> 6u8) as u32) << 9u32) | (((((b15 & 0x80) >> 1u8) | (b8 & 0x3f)) as u32) << 2u32)
}

/// CSD slice 2 of a version 2.0 CSD: C_SIZE with ERASE_BLK_EN and
/// SECTOR_SIZE written over its bits 9:2.
pub open spec fn csd2_v2_of(b8: u8, b9: u8, b10: u8, b11: u8, b15: u8) -> u32 {
    (c_size_v2(b9, b10, b11) & !0x3fcu32) | csd2_erase_sector_of(b8, b15)
}

/// CSD slice 2 of a version 1.0 CSD: the supply current limits,
/// C_SIZE_MULT, ERASE_BLK_EN and SECTOR_SIZE; bits 1:0 and 16:10 keep their
/// previous value.
pub open spec fn csd2_v1_of(old: u32, b8: u8, b9: u8, b10: u8, b15: u8) -> u32 {
    (old & 0x1fc03)
        | ((((b10 & 0x38) >> 3u8) as u32) << 29u32)
        | (((b10 & 0x07) as u32) << 26u32)
        | ((((b9 & 0xe0) >> 5u8) as u32) << 23u32)
        | ((((b9 & 0x1c) >> 2u8) as u32) << 20u32)
        | (c_size_mult(b8, b9) << 17u32)
        | csd2_erase_sector_of(b8, b15)
}

/// CSD slice 3: WP_GRP_SIZE, WP_GRP_ENABLE, R2W_FACTOR, WRITE_BL_LEN,
/// WRITE_BL_PARTIAL, DEFAULT_ECC, FILE_FORMAT_GRP, COPY, PERM_WRITE_PROTECT,
/// TMP_WRITE_PROTECT and the overlapping FILE_FORMAT/ECC fields (ECC, written
/// last, owns bits 2:1); bits 0, 4 and 23:22 keep their previous value.
pub open spec fn csd3_of(old: u32, b12: u8, b13: u8, b14: u8, b15: u8) -> u32 {
    (old & 0x00c00011)
        | (((b15 & 0x7f) as u32) << 25u32)
        | (((b14 >> 7u8) as u32) << 24u32)
        | ((((b14 & 0x1c) >> 2u8) as u32) << 19u32)
        | (((((b14 & 0x03) << 2u8) | ((b13 & 0xc0) >> 6u8)) as u32) << 15u32)
        | ((((b13 >> 5u8) & 1) as u32) << 14u32)
        | ((((b14 & 0x60) >> 5u8) as u32) << 9u32)
        | (((b12 >> 4u8) as u32) << 5u32)
        | ((((b12 >> 3u8) & 1) as u32) << 3u32)
        | (((b12 & 0x03) as u32) << 1u32)
}

/// The CSD after decoding the response buffer `b` over `old`.
pub open spec fn csd_after(old: CSD, b: Seq<u8>) -> CSD {
    CSD {
        csd0: csd0_of(b[0], b[1], b[2], b[7]),
        csd1: csd1_high_of(b[4], b[5], b[6]) | (if csd_is_v2(b) {
            old.csd1 & 0xfff
        } else {
            c_size_v1(b[4], b[10], b[11])
        }),
        csd2: if csd_is_v2(b) {
            csd2_v2_of(b[8], b[9], b[10], b[11], b[15])
        } else {
            csd2_v1_of(old.csd2, b[8], b[9], b[10], b[15])
        },
        csd3: csd3_of(old.csd3, b[12], b[13], b[14], b[15]),
    }
}

/// Card capacity in bytes described by the buffer: C_SIZE x 512 KiB for a
/// version 2.0 CSD, (C_SIZE + 1) x 2^(C_SIZE_MULT + 2) x 2^READ_BL_LEN for
/// version 1.0.
pub open spec fn csd_capacity(b: Seq<u8>) -> int {
    if csd_is_v2(b) {
        c_size_v2(b[9], b[10], b[11]) * 512 * 1024
    } else {
        (c_size_v1(b[4], b[10], b[11]) + 1) * pow2((c_size_mult(b[8], b[9]) + 2) as nat) * pow2(
            read_bl_len(b[5]) as nat,
        )
    }
}

/// The version 1.0 capacity is computed in 32 bits: it must fit.
pub open spec fn csd_capacity_fits(b: Seq<u8>) -> bool {
    csd_is_v2(b) || csd_capacity(b) <= u32::MAX
}

/// Whether a SEND_CSD response describes a capacity the CSD decoding can
/// compute (see `csd_capacity_fits`): a caller tests it before decoding.
pub fn csd_capacity_ok(r0: u32, r1: u32, r2: u32, r3: u32) -> (ok: bool)
    ensures
        ok == csd_capacity_fits(resp_bytes(r0, r1, r2, r3)),
{
    let b = response_bytes(r0, r1, r2, r3);
    assert(b@ =~= resp_bytes(r0, r1, r2, r3));
    let (b2, b4, b5, b8, b9, b10, b11) = (b[2], b[4], b[5], b[8], b[9], b[10], b[11]);
    if (b2 & 0xc0) >> 6u8 == 1u8 {
        return true;
    }
    let hi: u32 = ((b4 & 3) as u32) << 8u32;
    let lo: u32 = ((b10 & 0xc0) >> 6u8) as u32;
    assert(hi <= 0x300 && lo <= 3) by (bit_vector)
        requires
            hi == ((b4 & 3) as u32) << 8u32,
            lo == ((b10 & 0xc0) >> 6u8) as u32,
    ;
    let cs: u32 = (hi + (b11 as u32)) * 4 + lo;
    let mult: u32 = (((b9 & 0x03) << 1u8) | ((b8 & 0x80) >> 7u8)) as u32;
    let bl: u32 = (b5 & 0x0f) as u32;
    assert(cs == c_size_v1(b4, b10, b11) && cs <= 0xfff && mult == c_size_mult(b8, b9) && mult <= 7
        && bl == read_bl_len(b5) && bl <= 15) by (bit_vector)
        requires
            hi == ((b4 & 3) as u32) << 8u32,
            lo == ((b10 & 0xc0) >> 6u8) as u32,
            hi <= 0x300,
            cs == (hi + (b11 as u32)) * 4 + lo,
            mult == (((b9 & 0x03) << 1u8) | ((b8 & 0x80) >> 7u8)) as u32,
            bl == (b5 & 0x0f) as u32,
    ;
    let pm: u64 = 1u64 << ((mult + 2) as u64);
    let pb: u64 = 1u64 << (bl as u64);
    proof {
        lemma_u64_pow2_no_overflow((mult + 2) as nat);
        lemma_u64_pow2_no_overflow(bl as nat);
        lemma_u64_shl_is_mul(1, (mult + 2) as u64);
        lemma_u64_shl_is_mul(1, bl as u64);
        assert(pm <= 512) by (bit_vector)
            requires
                pm == 1u64 << ((mult + 2) as u64),
                mult <= 7,
        ;
        assert(pb <= 32768) by (bit_vector)
            requires
                pb == 1u64 << (bl as u64),
                bl <= 15,
        ;
        assert((cs as u64 + 1) * pm <= 4096 * 512) by (nonlinear_arith)
            requires
                cs <= 0xfff,
                pm <= 512,
        ;
        assert((cs as u64 + 1) * pm * pb <= 4096 * 512 * 32768) by (nonlinear_arith)
            requires
                (cs as u64 + 1) * pm <= 4096 * 512,
                pb <= 32768,
        ;
    }
    ((cs as u64) + 1) * pm * pb <= 0xFFFF_FFFFu64
}

/// The CSD version read back from a decoded CSD is the version the
/// response announced: `is_version2` after `unpack` tells whether the
/// response's CSD_STRUCTURE field is 1.
pub proof fn lemma_unpacked_version(old: CSD, r0: u32, r1: u32, r2: u32, r3: u32)
    ensures
        (get_field(csd_after(old, resp_bytes(r0, r1, r2, r3)).csd0, 30, 0x3) == 1) == csd_is_v2(
            resp_bytes(r0, r1, r2, r3),
        ),
{
    let b = resp_bytes(r0, r1, r2, r3);
    let b0 = b[0];
    let b1 = b[1];
    let b2 = b[2];
    let b7 = b[7];
    assert((((((b2 as u32) << 24u32) | ((b0 as u32) << 16u32) | ((b1 as u32) << 8u32) | (b7 as u32))
        >> 30u32) & 0x3 == 1) == ((b2 & 0xc0) >> 6u8 == 1u8)) by (bit_vector);
}

impl CSD {
    /// An all-zero CSD.
    pub fn new() -> (c: Self)
        ensures
            c == (CSD { csd0: 0, csd1: 0, csd2: 0, csd3: 0 }),
    {
        CSD { csd0: 0, csd1: 0, csd2: 0, csd3: 0 }
    }

    /// CSD_STRUCTURE is 1: a version 2.0 CSD.
    pub fn is_version2(&self) -> (r: bool)
        ensures
            r == (get_field(self.csd0, 30, 0x3) == 1),
    {
        field_get(self.csd0, 30, 0x3) == 1
    }

    /// Decodes a SEND_CSD response into the CSD fields and returns the card
    /// capacity in bytes.
    pub fn unpack(&mut self, r0: u32, r1: u32, r2: u32, r3: u32) -> (capacity: u64)
        requires
            csd_capacity_fits(resp_bytes(r0, r1, r2, r3)),
        ensures
            *final(self) == csd_after(*old(self), resp_bytes(r0, r1, r2, r3)),
            capacity == csd_capacity(resp_bytes(r0, r1, r2, r3)),
    {
        let b = response_bytes(r0, r1, r2, r3);
        assert(b@ =~= resp_bytes(r0, r1, r2, r3));
        self.unpack_buffer(&b)
    }

    /// Decodes a 16-byte CSD buffer; see [`CSD::unpack`].
    fn unpack_buffer(&mut self, b: &Vec<u8>) -> (capacity: u64)
        requires
            b.len() == 16,
            csd_capacity_fits(b@),
        ensures
            *final(self) == csd_after(*old(self), b@),
            capacity == csd_capacity(b@),
    {
        let b0 = b[0];
        let b1 = b[1];
        let b2 = b[2];
        let b4 = b[4];
        let b5 = b[5];
        let b6 = b[6];
        let b7 = b[7];
        let b8 = b[8];
        let b9 = b[9];
        let b10 = b[10];
        let b11 = b[11];
        let b12 = b[12];
        let b13 = b[13];
        let b14 = b[14];
        let b15 = b[15];
        let old0 = self.csd0;
        let old1 = self.csd1;
        let old2 = self.csd2;
        let old3 = self.csd3;

        // slice 0
        let s0a = field_set(old0, 30, 0x3, ((b2 & 0xc0) >> 6u8) as u32);
        let s0b = field_set(s0a, 24, 0x3f, (b2 & 0x3f) as u32);
        let s0c = field_set(s0b, 8, 0xff, b1 as u32);
        let s0d = field_set(s0c, 16, 0xff, b0 as u32);
        let c0 = field_set(s0d, 0, 0xff, b7 as u32);
        assert(c0 == csd0_of(b0, b1, b2, b7) && (get_field(c0, 30, 0x3) == 1) == ((b2 & 0xc0) >> 6u8 == 1u8)) by (bit_vector)
            requires
                s0a == set_field(old0, 30, 0x3, ((b2 & 0xc0) >> 6u8) as u32),
                s0b == set_field(s0a, 24, 0x3f, (b2 & 0x3f) as u32),
                s0c == set_field(s0b, 8, 0xff, b1 as u32),
                s0d == set_field(s0c, 16, 0xff, b0 as u32),
                c0 == set_field(s0d, 0, 0xff, b7 as u32),
        ;

        // slice 1
        let s1a = field_set(old1, 20, 0xfff, (((b6 as u16) << 4u16) | (((b5 & 0xf0) >> 4u8) as u16)) as u32);
        let s1b = field_set(s1a, 16, 0xf, (b5 & 0x0f) as u32);
        let s1c = field_set(s1b, 15, 0x1, if b4 & 0x80 != 0 { 1 } else { 0 });
        let s1d = field_set(s1c, 14, 0x1, if b4 & 0x40 != 0 { 1 } else { 0 });
        let s1e = field_set(s1d, 13, 0x1, if b4 & 0x20 != 0 { 1 } else { 0 });
        let s1f = field_set(s1e, 12, 0x1, if b4 & 0x10 != 0 { 1 } else { 0 });
        assert(s1f == csd1_high_of(b4, b5, b6) | (old1 & 0xfff)) by (bit_vector)
            requires
                s1a == set_field(old1, 20, 0xfff, (((b6 as u16) << 4u16) | (((b5 & 0xf0) >> 4u8) as u16)) as u32),
                s1b == set_field(s1a, 16, 0xf, (b5 & 0x0f) as u32),
                s1c == set_field(s1b, 15, 0x1, if b4 & 0x80 != 0 { 1u32 } else { 0u32 }),
                s1d == set_field(s1c, 14, 0x1, if b4 & 0x40 != 0 { 1u32 } else { 0u32 }),
                s1e == set_field(s1d, 13, 0x1, if b4 & 0x20 != 0 { 1u32 } else { 0u32 }),
                s1f == set_field(s1e, 12, 0x1, if b4 & 0x10 != 0 { 1u32 } else { 0u32 }),
        ;

        let capacity: u64;
        let c1: u32;
        let c2: u32;
        if field_get(c0, 30, 0x3) == 1 {
            // version 2.0
            let card_capacity: u32 = (((b11 & 0x3f) as u32) << 16u32) | ((b10 as u32) << 8u32) | (b9 as u32);
            assert(card_capacity <= 0x3fffff) by (bit_vector)
                requires
                    card_capacity == (((b11 & 0x3f) as u32) << 16u32) | ((b10 as u32) << 8u32) | (b9 as u32),
            ;
            c1 = s1f;
            let c2a = field_set(card_capacity, 9, 0x1, ((b8 & 0x40) >> 6u8) as u32);
            c2 = field_set(c2a, 2, 0x7f, (((b15 & 0x80) >> 1u8) | (b8 & 0x3f)) as u32);
            assert(c2 == csd2_v2_of(b8, b9, b10, b11, b15)) by (bit_vector)
                requires
                    card_capacity == (((b11 & 0x3f) as u32) << 16u32) | ((b10 as u32) << 8u32) | (b9 as u32),
                    c2a == set_field(card_capacity, 9, 0x1, ((b8 & 0x40) >> 6u8) as u32),
                    c2 == set_field(c2a, 2, 0x7f, (((b15 & 0x80) >> 1u8) | (b8 & 0x3f)) as u32),
            ;
            let cc: u64 = card_capacity as u64;
            assert(cc * 524288 <= 0x3fffff * 524288) by (nonlinear_arith)
                requires
                    cc <= 0x3fffff,
            ;
            capacity = cc * 524288;
        } else {
            // version 1.0
            let csize: u32 = ((b4 & 0x03) as u32) << 8u32;
            let t1 = field_set(s1f, 0, 0xfff, csize);
            let g1 = field_get(t1, 0, 0xfff);
            assert(g1 == csize && csize <= 0x300) by (bit_vector)
                requires
                    csize == ((b4 & 0x03) as u32) << 8u32,
                    t1 == set_field(s1f, 0, 0xfff, csize),
                    g1 == get_field(t1, 0, 0xfff),
            ;
            let t2 = field_set(t1, 0, 0xfff, b11 as u32 + g1);
            let t3 = field_set(t2, 0, 0xfff, field_get(t2, 0, 0xfff) << 2u32);
            let g3 = field_get(t3, 0, 0xfff);
            assert(g3 <= 0xfff) by (bit_vector)
                requires
                    g3 == get_field(t3, 0, 0xfff),
            ;
            let t4 = field_set(t3, 0, 0xfff, ((b10 & 0xc0) >> 6u8) as u32 + g3);
            let ghost h = csd1_high_of(b4, b5, b6);
            assert(t4 == h | c_size_v1(b4, b10, b11) && get_field(t4, 0, 0xfff) == c_size_v1(b4, b10, b11)
                && get_field(t4, 16, 0xf) == read_bl_len(b5) && c_size_v1(b4, b10, b11) <= 0xfff) by (bit_vector)
                requires
                    h == csd1_high_of(b4, b5, b6),
                    s1f == h | (old1 & 0xfff),
                    csize == ((b4 & 0x03) as u32) << 8u32,
                    t1 == set_field(s1f, 0, 0xfff, csize),
                    t2 == set_field(t1, 0, 0xfff, (b11 as u32 + get_field(t1, 0, 0xfff)) as u32),
                    t3 == set_field(t2, 0, 0xfff, get_field(t2, 0, 0xfff) << 2u32),
                    t4 == set_field(t3, 0, 0xfff, (((b10 & 0xc0) >> 6u8) as u32 + get_field(t3, 0, 0xfff)) as u32),
            ;
            let u1 = field_set(old2, 29, 0x7, ((b10 & 0x38) as u32) >> 3u32);
            let u2 = field_set(u1, 26, 0x7, (b10 & 0x07) as u32);
            let u3 = field_set(u2, 23, 0x7, ((b9 & 0xe0) as u32) >> 5u32);
            let u4 = field_set(u3, 20, 0x7, ((b9 & 0x1c) as u32) >> 2u32);
            let u5 = field_set(u4, 17, 0x7, (((b9 & 0x03) << 1u8) | ((b8 & 0x80) >> 7u8)) as u32);
            let cs = field_get(t4, 0, 0xfff);
            let mult = field_get(u5, 17, 0x7);
            let bl = field_get(t4, 16, 0xf);
            assert(mult == c_size_mult(b8, b9) && mult <= 7 && bl <= 15) by (bit_vector)
                requires
                    u5 == set_field(u4, 17, 0x7, (((b9 & 0x03) << 1u8) | ((b8 & 0x80) >> 7u8)) as u32),
                    mult == get_field(u5, 17, 0x7),
                    bl == get_field(t4, 16, 0xf),
            ;
            let pm: u64 = 1u64 << ((mult + 2) as u64);
            let pb: u64 = 1u64 << (bl as u64);
            proof {
                lemma_u64_pow2_no_overflow((mult + 2) as nat);
                lemma_u64_pow2_no_overflow(bl as nat);
                lemma_u64_shl_is_mul(1, (mult + 2) as u64);
                lemma_u64_shl_is_mul(1, bl as u64);
                assert(pm <= 512) by (bit_vector)
                    requires
                        pm == 1u64 << ((mult + 2) as u64),
                        mult <= 7,
                ;
                assert(pb <= 32768) by (bit_vector)
                    requires
                        pb == 1u64 << (bl as u64),
                        bl <= 15,
                ;
                assert((cs as u64 + 1) * pm <= 4096 * 512) by (nonlinear_arith)
                    requires
                        cs <= 0xfff,
                        pm <= 512,
                ;
                assert((cs as u64 + 1) * pm * pb <= 4096 * 512 * 32768) by (nonlinear_arith)
                    requires
                        (cs as u64 + 1) * pm <= 4096 * 512,
                        pb <= 32768,
                ;
            }
            c1 = t4;
            let c2a = field_set(u5, 9, 0x1, ((b8 & 0x40) >> 6u8) as u32);
            c2 = field_set(c2a, 2, 0x7f, (((b15 & 0x80) >> 1u8) | (b8 & 0x3f)) as u32);
            assert(c2 == csd2_v1_of(old2, b8, b9, b10, b15)) by (bit_vector)
                requires
                    u1 == set_field(old2, 29, 0x7, ((b10 & 0x38) as u32) >> 3u32),
                    u2 == set_field(u1, 26, 0x7, (b10 & 0x07) as u32),
                    u3 == set_field(u2, 23, 0x7, ((b9 & 0xe0) as u32) >> 5u32),
                    u4 == set_field(u3, 20, 0x7, ((b9 & 0x1c) as u32) >> 2u32),
                    u5 == set_field(u4, 17, 0x7, (((b9 & 0x03) << 1u8) | ((b8 & 0x80) >> 7u8)) as u32),
                    c2a == set_field(u5, 9, 0x1, ((b8 & 0x40) >> 6u8) as u32),
                    c2 == set_field(c2a, 2, 0x7f, (((b15 & 0x80) >> 1u8) | (b8 & 0x3f)) as u32),
            ;
            capacity = ((cs as u64) + 1) * pm * pb;
        }

        // slice 3
        let v1 = field_set(old3, 25, 0x7f, (b15 & 0x7f) as u32);
        let v2 = field_set(v1, 24, 0x1, if b14 & 0x80 != 0 { 1 } else { 0 });
        let v3 = field_set(v2, 9, 0x1f, ((b14 & 0x60) >> 5u8) as u32);
        let v4 = field_set(v3, 19, 0x7, ((b14 & 0x1c) >> 2u8) as u32);
        let v5 = field_set(v4, 15, 0xf, (((b14 & 0x03) << 2u8) | ((b13 & 0xc0) >> 6u8)) as u32);
        let v6 = field_set(v5, 14, 0x1, if b13 & 0x20 != 0 { 1 } else { 0 });
        let v7 = field_set(v6, 8, 0x1, if b12 & 0x80 != 0 { 1 } else { 0 });
        let v8 = field_set(v7, 7, 0x1, if b12 & 0x40 != 0 { 1 } else { 0 });
        let v9 = field_set(v8, 6, 0x1, if b12 & 0x20 != 0 { 1 } else { 0 });
        let v10 = field_set(v9, 5, 0x1, if b12 & 0x10 != 0 { 1 } else { 0 });
        let v11 = field_set(v10, 2, 0x3, ((b12 & 0x0c) >> 2u8) as u32);
        let c3 = field_set(v11, 1, 0x3, (b12 & 0x03) as u32);
        assert(c3 == csd3_of(old3, b12, b13, b14, b15)) by (bit_vector)
            requires
                v1 == set_field(old3, 25, 0x7f, (b15 & 0x7f) as u32),
                v2 == set_field(v1, 24, 0x1, if b14 & 0x80 != 0 { 1u32 } else { 0u32 }),
                v3 == set_field(v2, 9, 0x1f, ((b14 & 0x60) >> 5u8) as u32),
                v4 == set_field(v3, 19, 0x7, ((b14 & 0x1c) >> 2u8) as u32),
                v5 == set_field(v4, 15, 0xf, (((b14 & 0x03) << 2u8) | ((b13 & 0xc0) >> 6u8)) as u32),
                v6 == set_field(v5, 14, 0x1, if b13 & 0x20 != 0 { 1u32 } else { 0u32 }),
                v7 == set_field(v6, 8, 0x1, if b12 & 0x80 != 0 { 1u32 } else { 0u32 }),
                v8 == set_field(v7, 7, 0x1, if b12 & 0x40 != 0 { 1u32 } else { 0u32 }),
                v9 == set_field(v8, 6, 0x1, if b12 & 0x20 != 0 { 1u32 } else { 0u32 }),
                v10 == set_field(v9, 5, 0x1, if b12 & 0x10 != 0 { 1u32 } else { 0u32 }),
                v11 == set_field(v10, 2, 0x3, ((b12 & 0x0c) >> 2u8) as u32),
                c3 == set_field(v11, 1, 0x3, (b12 & 0x03) as u32),
        ;

        self.csd0 = c0;
        self.csd1 = c1;
        self.csd2 = c2;
        self.csd3 = c3;
        capacity
    }
}

/// The contents of the Card Identification register, as four 32-bit slices.
#[derive(Clone, Copy, PartialEq, Eq, Structural)]
pub struct CID {
    pub cid0: u32,
    pub cid1: u32,
    pub cid2: u32,
    pub cid3: u32,
}

impl CID {
    /// An all-zero CID.
    pub fn new() -> (c: Self)
        ensures
            c == (CID { cid0: 0, cid1: 0, cid2: 0, cid3: 0 }),
    {
        CID { cid0: 0, cid1: 0, cid2: 0, cid3: 0 }
    }

    /// The CID as delivered by a 136-bit response: the highest bits are in
    /// RESP3.
    pub fn from_response(r0: u32, r1: u32, r2: u32, r3: u32) -> (c: Self)
        ensures
            c == (CID { cid0: r3, cid1: r2, cid2: r1, cid3: r0 }),
    {
        CID { cid0: r3, cid1: r2, cid2: r1, cid3: r0 }
    }

    /// Manufacturer ID.
    pub fn manufacturer_id(&self) -> (r: u32)
        ensures
            r == get_field(self.cid0, 16, 0xff),
    {
        field_get(self.cid0, 16, 0xff)
    }

    /// Product serial number: the upper 16 bits from CID slice 2, the lower
    /// 16 bits from CID slice 3.
    pub fn serial_number(&self) -> (r: u32)
        ensures
            r == ((get_field(self.cid2, 0, 0xffff) << 16u32) | get_field(self.cid3, 16, 0xffff)),
    {
        let hi = field_get(self.cid2, 0, 0xffff);
        let lo = field_get(self.cid3, 16, 0xffff);
        (hi << 16u32) | lo
    }

    /// Manufacturing year (the CID stores the offset from 2000).
    pub fn manufacture_year(&self) -> (r: u32)
        ensures
            r == 2000 + get_field(self.cid3, 4, 0xff),
    {
        let y = field_get(self.cid3, 4, 0xff);
        let c3 = self.cid3;
        proof {
            assert((c3 >> 4u32) & 0xffu32 <= 0xff) by (bit_vector);
        }
        2000 + y
    }

    /// Manufacturing month (1 = January).
    pub fn manufacture_month(&self) -> (r: u32)
        ensures
            r == get_field(self.cid3, 0, 0xf),
    {
        field_get(self.cid3, 0, 0xf)
    }
}

} // verus!
