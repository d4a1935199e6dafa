//! EMMC2 SD host controller of the BCM2711 (Raspberry Pi 4): the command
//! table, the handling of card responses, the SD clock divider, block
//! transfers and the decisions of the card initialisation sequence.
//!
//! The register accesses themselves are performed by the caller; this module
//! decides what to send and what each response means.

use vstd::prelude::*;
use crate::sdcard::{R1_ERRORS_MASK, ST_APP_CMD, CID, CSD, csd_after, csd_capacity, csd_capacity_fits, resp_bytes, r6_rca, r6_status, status_from_r6};

verus! {

/// Interrupt bits of the EMMC INTERRUPT register.
pub const INT_AUTO_ERROR: u32 = 0x01000000;
pub const INT_DATA_END_ERR: u32 = 0x00400000;
pub const INT_DATA_CRC_ERR: u32 = 0x00200000;
pub const INT_DATA_TIMEOUT: u32 = 0x00100000;
pub const INT_INDEX_ERROR: u32 = 0x00080000;
pub const INT_END_ERROR: u32 = 0x00040000;
pub const INT_CRC_ERROR: u32 = 0x00020000;
pub const INT_CMD_TIMEOUT: u32 = 0x00010000;
pub const INT_ERR: u32 = 0x00008000;
pub const INT_ENDBOOT: u32 = 0x00004000;
pub const INT_BOOTACK: u32 = 0x00002000;
pub const INT_RETUNE: u32 = 0x00001000;
pub const INT_CARD: u32 = 0x00000100;
pub const INT_READ_RDY: u32 = 0x00000020;
pub const INT_WRITE_RDY: u32 = 0x00000010;
pub const INT_BLOCK_GAP: u32 = 0x00000004;
pub const INT_DATA_DONE: u32 = 0x00000002;
pub const INT_CMD_DONE: u32 = 0x00000001;
/// The fatal error interrupts.
pub const INT_ERROR_MASK: u32 = INT_CRC_ERROR | INT_END_ERROR | INT_INDEX_ERROR | INT_DATA_TIMEOUT
    | INT_DATA_CRC_ERR | INT_DATA_END_ERR | INT_ERR | INT_AUTO_ERROR;
/// Identification-mode SD clock (400 kHz).
pub const FREQ_SETUP: u32 = 400_000;
/// Data-transfer SD clock (25 MHz).
pub const FREQ_NORMAL: u32 = 25_000_000;
/// EMMC base clock (50 MHz).
pub const BASE_CLOCK: u32 = 50_000_000;
/// ACMD41 argument bits.
pub const ACMD41_HCS: u32 = 0x40000000;
pub const ACMD41_SDXC_POWER: u32 = 0x10000000;
pub const ACMD41_S18R: u32 = 0x04000000;
pub const ACMD41_VOLTAGE: u32 = 0x00ff8000;
/// ACMD41 argument for a high capacity card.
pub const ACMD41_ARG_HC: u32 = 0x50ff8000;
/// ACMD41 argument for a standard capacity card.
pub const ACMD41_ARG_SC: u32 = 0x00ff8000;
/// SEND_IF_COND argument: voltage range 1, check pattern 0xAA.
pub const IF_COND_ARG: u32 = 0x000001AA;
/// Data timeout exponent.
pub const DTO: u32 = 14;

#[allow(non_camel_case_types)]
/// Result of an SD operation.
#[derive(Clone, Copy, PartialEq, Eq, Structural, Debug)]
pub enum SdResult {
    /// No error
    EMMC_OK,
    /// General non specific SD error
    EMMC_ERROR,
    /// SD Timeout error
    EMMC_TIMEOUT,
    /// SD Card is busy
    EMMC_BUSY,
    /// SD Card did not respond
    EMMC_NO_RESP,
    /// SD Card did not reset
    EMMC_ERROR_RESET,
    /// SD Card clock change failed
    EMMC_ERROR_CLOCK,
    /// SD Card does not support requested voltage
    EMMC_ERROR_VOLTAGE,
    /// SD Card app command failed
    EMMC_ERROR_APP_CMD,
    /// SD Card not present
    EMMC_CARD_ABSENT,
    EMMC_READ_ERROR,
    EMMC_MOUNT_FAIL,
    /// The card reported these error bits in its status.
    EMMC_CARD_STATE(u32),
    /// No operation has produced a result yet.
    NONE,
}

/// The type of SD card.
#[allow(non_camel_case_types)]
#[derive(Clone, Copy, PartialEq, Eq, Structural, Debug)]
pub enum SdCardType {
    EMMC_TYPE_UNKNOWN,
    EMMC_TYPE_MMC,
    EMMC_TYPE_1,
    EMMC_TYPE_2_SC,
    EMMC_TYPE_2_HC,
}

impl SdCardType {
    /// The name the card type is reported under.
    pub fn name(&self) -> (r: &'static str)
        ensures
            *self == SdCardType::EMMC_TYPE_UNKNOWN ==> r@ == "Unknown"@,
            *self == SdCardType::EMMC_TYPE_MMC ==> r@ == "MMC"@,
            *self == SdCardType::EMMC_TYPE_1 ==> r@ == "Type 1"@,
            *self == SdCardType::EMMC_TYPE_2_SC ==> r@ == "Type 2 SC"@,
            *self == SdCardType::EMMC_TYPE_2_HC ==> r@ == "Type 2 HC"@,
    {
        match self {
            SdCardType::EMMC_TYPE_UNKNOWN => "Unknown",
            SdCardType::EMMC_TYPE_MMC => "MMC",
            SdCardType::EMMC_TYPE_1 => "Type 1",
            SdCardType::EMMC_TYPE_2_SC => "Type 2 SC",
            SdCardType::EMMC_TYPE_2_HC => "Type 2 HC",
        }
    }
}

/// An SD command record.
#[derive(Clone, Copy)]
pub struct EMMCCommand {
    /// Name the command is logged under.
    pub cmd_name: &'static str,
    /// Value written to the command transfer type register.
    pub cmd_code: u32,
    /// 1 when the card's RCA is the command argument.
    pub use_rca: u16,
    /// Delay in microseconds to apply after issuing the command.
    pub delay: u16,
}

impl EMMCCommand {
    /// The empty command record.
    pub fn new() -> (c: Self)
        ensures
            c.cmd_name@ == " "@,
            c.cmd_code == 0,
            c.use_rca == 0,
            c.delay == 0,
    {
        EMMCCommand { cmd_name: " ", cmd_code: 0, use_rca: 0, delay: 0 }
    }

    /// Response type field (0: none, 1: 136 bits, 2: 48 bits, 3: 48 bits
    /// with busy).
    pub fn response_type(&self) -> (r: u32)
        ensures
            r == resp_type_of(self.cmd_code),
            r < 4,
    {
        let c = self.cmd_code;
        let r = (c >> 16u32) & 0x3;
        assert(r < 4) by (bit_vector)
            requires
                r == (c >> 16u32) & 0x3,
        ;
        r
    }

    /// EMMCCommand index field.
    pub fn index(&self) -> (r: u32)
        ensures
            r == cmd_index_of(self.cmd_code),
    {
        (self.cmd_code >> 24u32) & 0x3f
    }
}

/// Static description of a command.
pub struct CmdSpec {
    pub index: u32,
    pub rsp: u32,
    pub isdata: bool,
    pub dat_dir: bool,
    pub blkcnt_en: bool,
    pub multi_block: bool,
    pub use_rca: u16,
    pub delay: u16,
}

pub open spec fn flag(b: bool) -> u32 {
    if b { 1u32 } else { 0u32 }
}

/// The CMDTM register value: CMD_INDEX (29:24), CMD_ISDATA (21),
/// CMD_RSPNS_TYPE (17:16), TM_MULTI_BLOCK (5), TM_DAT_DIR (4) and
/// TM_BLKCNT_EN (1).
pub open spec fn spec_encode(s: CmdSpec) -> u32 {
    (s.index << 24u32) | (flag(s.isdata) << 21u32) | (s.rsp << 16u32) | (flag(s.multi_block) << 5u32)
        | (flag(s.dat_dir) << 4u32) | (flag(s.blkcnt_en) << 1u32)
}

/// CMD_INDEX of a command register value.
pub open spec fn cmd_index_of(code: u32) -> u32 {
    (code >> 24u32) & 0x3f
}

/// CMD_RSPNS_TYPE of a command register value.
pub open spec fn resp_type_of(code: u32) -> u32 {
    (code >> 16u32) & 0x3
}

fn encode_cmd(index: u32, rsp: u32, isdata: bool, dat_dir: bool, blkcnt_en: bool, multi_block: bool) -> (r: u32)
    ensures
        r == spec_encode(CmdSpec { index, rsp, isdata, dat_dir, blkcnt_en, multi_block, use_rca: 0, delay: 0 }),
{
    (index << 24u32) | ((if isdata { 1u32 } else { 0u32 }) << 21u32) | (rsp << 16u32) | ((if multi_block {
        1u32
    } else {
        0u32
    }) << 5u32) | ((if dat_dir { 1u32 } else { 0u32 }) << 4u32) | ((if blkcnt_en { 1u32 } else { 0u32 })
        << 1u32)
}

/// Decoding a command register value gives back the command's index and
/// response type.
pub proof fn lemma_decode_encode(s: CmdSpec)
    requires
        s.index < 64,
        s.rsp < 4,
    ensures
        cmd_index_of(spec_encode(s)) == s.index,
        resp_type_of(spec_encode(s)) == s.rsp,
{
    let i = s.index;
    let r = s.rsp;
    let a = flag(s.isdata);
    let m = flag(s.multi_block);
    let d = flag(s.dat_dir);
    let c = flag(s.blkcnt_en);
    assert(((((i << 24u32) | (a << 21u32) | (r << 16u32) | (m << 5u32) | (d << 4u32) | (c << 1u32)) >> 24u32)
        & 0x3f) == i && ((((i << 24u32) | (a << 21u32) | (r << 16u32) | (m << 5u32) | (d << 4u32) | (c
        << 1u32)) >> 16u32) & 0x3) == r) by (bit_vector)
        requires
            i < 64,
            r < 4,
            a <= 1,
            m <= 1,
            d <= 1,
            c <= 1,
    ;
}

/// Every command of the table has an index below 64 and a 2-bit response
/// type.
pub proof fn lemma_cmd_spec_bounds(c: SdCardCommands)
    ensures
        cmd_spec(c).index < 64,
        cmd_spec(c).rsp < 4,
{
}

/// The data commands' CMDTM values are the SD and BCM2711 encodings:
/// READ_SINGLE (CMD17) 0x1122_0010, READ_MULTI (CMD18) 0x1222_0032,
/// WRITE_SINGLE (CMD24) 0x1822_0000, WRITE_MULTI (CMD25) 0x1922_0022 and
/// SEND_SCR (ACMD51) 0x3322_0010. Each reads or writes data (CMD_ISDATA,
/// bit 21); the reads move it from the card to the host (TM_DAT_DIR, bit 4,
/// set), the writes from the host to the card (TM_DAT_DIR clear). So the
/// command of every block transfer moves data in the transfer's direction.
pub proof fn lemma_data_command_directions()
    ensures
        spec_encode(cmd_spec(SdCardCommands::READ_SINGLE)) == 0x1122_0010,
        spec_encode(cmd_spec(SdCardCommands::READ_MULTI)) == 0x1222_0032,
        spec_encode(cmd_spec(SdCardCommands::WRITE_SINGLE)) == 0x1822_0000,
        spec_encode(cmd_spec(SdCardCommands::WRITE_MULTI)) == 0x1922_0022,
        spec_encode(cmd_spec(SdCardCommands::SEND_SCR)) == 0x3322_0010,
        forall|c: SdCardCommands|
            c == SdCardCommands::READ_SINGLE || c == SdCardCommands::READ_MULTI || c == SdCardCommands::SEND_SCR
                ==> #[trigger] spec_encode(cmd_spec(c)) & 0x0020_0010 == 0x0020_0010,
        forall|c: SdCardCommands|
            c == SdCardCommands::WRITE_SINGLE || c == SdCardCommands::WRITE_MULTI ==> #[trigger] spec_encode(
                cmd_spec(c),
            ) & 0x0020_0010 == 0x0020_0000,
        forall|t: Transfer|
            (#[trigger] spec_encode(cmd_spec(transfer_command(t))) & 0x10 != 0) == !t.write,
{
    assert(((0x11u32 << 24u32) | (1u32 << 21u32) | (2u32 << 16u32) | (0u32 << 5u32) | (1u32 << 4u32) | (0u32
        << 1u32)) == 0x1122_0010u32 && ((0x12u32 << 24u32) | (1u32 << 21u32) | (2u32 << 16u32) | (1u32 << 5u32)
        | (1u32 << 4u32) | (1u32 << 1u32)) == 0x1222_0032u32 && ((0x18u32 << 24u32) | (1u32 << 21u32) | (2u32
        << 16u32) | (0u32 << 5u32) | (0u32 << 4u32) | (0u32 << 1u32)) == 0x1822_0000u32 && ((0x19u32 << 24u32)
        | (1u32 << 21u32) | (2u32 << 16u32) | (1u32 << 5u32) | (0u32 << 4u32) | (1u32 << 1u32))
        == 0x1922_0022u32 && ((0x33u32 << 24u32) | (1u32 << 21u32) | (2u32 << 16u32) | (0u32 << 5u32) | (1u32
        << 4u32) | (0u32 << 1u32)) == 0x3322_0010u32 && 0x1122_0010u32 & 0x0020_0010u32 == 0x0020_0010u32
        && 0x1222_0032u32 & 0x0020_0010u32 == 0x0020_0010u32 && 0x3322_0010u32 & 0x0020_0010u32
        == 0x0020_0010u32 && 0x1822_0000u32 & 0x0020_0010u32 == 0x0020_0000u32 && 0x1922_0022u32
        & 0x0020_0010u32 == 0x0020_0000u32 && 0x1122_0010u32 & 0x10u32 != 0 && 0x1222_0032u32 & 0x10u32 != 0
        && 0x1822_0000u32 & 0x10u32 == 0 && 0x1922_0022u32 & 0x10u32 == 0) by (bit_vector);
}

/// An R6 response (to SEND_REL_ADDR) gives the card its RCA: the response's
/// upper half (bits 31:16), whatever the record held; the commands that
/// address the card, CARD_SELECT among them, are then sent with it.
pub proof fn lemma_r6_records_rca(card: SdDescriptor, cmd: EMMCCommand, arg: u32, r0: u32, r1: u32, r2: u32, r3: u32)
    requires
        cmd.cmd_code == spec_encode(cmd_spec(SdCardCommands::SEND_REL_ADDR)),
    ensures
        after_response(card, cmd, arg, r0, r1, r2, r3).0.rca == r0 & 0xffff0000,
        after_response(card, cmd, arg, r0, r1, r2, r3).0.rca & 0xffff == 0,
        cmd_spec(SdCardCommands::CARD_SELECT).use_rca == 1,
{
    lemma_decode_encode(cmd_spec(SdCardCommands::SEND_REL_ADDR));
    assert((r0 & 0xffff0000u32) & 0xffffu32 == 0) by (bit_vector);
}

/// SD commands the controller issues. The commands after `APP_CMD_START` are
/// application commands: an APP_CMD precedes each of them.
#[allow(non_camel_case_types)]
#[derive(Clone, Copy, PartialEq, Eq, Structural, Debug)]
pub enum SdCardCommands {
    GO_IDLE_STATE,
    ALL_SEND_CID,
    SEND_REL_ADDR,
    SET_DSR,
    SWITCH_FUNC,
    CARD_SELECT,
    SEND_IF_COND,
    SEND_CSD,
    SEND_CID,
    VOLTAGE_SWITCH,
    STOP_TRANS,
    SEND_STATUS,
    GO_INACTIVE,
    SET_BLOCKLEN,
    READ_SINGLE,
    READ_MULTI,
    SEND_TUNING,
    SPEED_CLASS,
    SET_BLOCKCNT,
    WRITE_SINGLE,
    WRITE_MULTI,
    PROGRAM_CSD,
    SET_WRITE_PR,
    CLR_WRITE_PR,
    SND_WRITE_PR,
    ERASE_WR_ST,
    ERASE_WR_END,
    ERASE,
    LOCK_UNLOCK,
    APP_CMD,
    APP_CMD_RCA,
    GEN_CMD,
    APP_CMD_START,
    SET_BUS_WIDTH,
    EMMC_STATUS,
    SEND_NUM_WRBL,
    SEND_NUM_ERS,
    APP_SEND_OP_COND,
    SET_CLR_DET,
    SEND_SCR,
}

/// Index, response type, data flags, RCA use and post-command delay of each
/// command.
pub open spec fn cmd_spec(c: SdCardCommands) -> CmdSpec {
    match c {
        SdCardCommands::GO_IDLE_STATE => CmdSpec { index: 0x00, rsp: 0, isdata: false, dat_dir: false, blkcnt_en: false, multi_block: false, use_rca: 0, delay: 0 },
        SdCardCommands::ALL_SEND_CID => CmdSpec { index: 0x02, rsp: 1, isdata: false, dat_dir: false, blkcnt_en: false, multi_block: false, use_rca: 0, delay: 0 },
        SdCardCommands::SEND_REL_ADDR => CmdSpec { index: 0x03, rsp: 2, isdata: false, dat_dir: false, blkcnt_en: false, multi_block: false, use_rca: 0, delay: 0 },
        SdCardCommands::SET_DSR => CmdSpec { index: 0x04, rsp: 0, isdata: false, dat_dir: false, blkcnt_en: false, multi_block: false, use_rca: 0, delay: 0 },
        SdCardCommands::SWITCH_FUNC => CmdSpec { index: 0x06, rsp: 2, isdata: false, dat_dir: false, blkcnt_en: false, multi_block: false, use_rca: 0, delay: 0 },
        SdCardCommands::CARD_SELECT => CmdSpec { index: 0x07, rsp: 3, isdata: false, dat_dir: false, blkcnt_en: false, multi_block: false, use_rca: 1, delay: 0 },
        SdCardCommands::SEND_IF_COND => CmdSpec { index: 0x08, rsp: 2, isdata: false, dat_dir: false, blkcnt_en: false, multi_block: false, use_rca: 1, delay: 100 },
        SdCardCommands::SEND_CSD => CmdSpec { index: 0x09, rsp: 1, isdata: false, dat_dir: false, blkcnt_en: false, multi_block: false, use_rca: 1, delay: 0 },
        SdCardCommands::SEND_CID => CmdSpec { index: 0x0a, rsp: 1, isdata: false, dat_dir: false, blkcnt_en: false, multi_block: false, use_rca: 1, delay: 0 },
        SdCardCommands::VOLTAGE_SWITCH => CmdSpec { index: 0x0b, rsp: 2, isdata: false, dat_dir: false, blkcnt_en: false, multi_block: false, use_rca: 0, delay: 0 },
        SdCardCommands::STOP_TRANS => CmdSpec { index: 0x0c, rsp: 3, isdata: false, dat_dir: false, blkcnt_en: false, multi_block: false, use_rca: 0, delay: 0 },
        SdCardCommands::SEND_STATUS => CmdSpec { index: 0x0d, rsp: 2, isdata: false, dat_dir: false, blkcnt_en: false, multi_block: false, use_rca: 1, delay: 0 },
        SdCardCommands::GO_INACTIVE => CmdSpec { index: 0x0f, rsp: 0, isdata: false, dat_dir: false, blkcnt_en: false, multi_block: false, use_rca: 1, delay: 0 },
        SdCardCommands::SET_BLOCKLEN => CmdSpec { index: 0x10, rsp: 0, isdata: false, dat_dir: false, blkcnt_en: false, multi_block: false, use_rca: 0, delay: 0 },
        SdCardCommands::READ_SINGLE => CmdSpec { index: 0x11, rsp: 2, isdata: true, dat_dir: true, blkcnt_en: false, multi_block: false, use_rca: 0, delay: 0 },
        SdCardCommands::READ_MULTI => CmdSpec { index: 0x12, rsp: 2, isdata: true, dat_dir: true, blkcnt_en: true, multi_block: true, use_rca: 0, delay: 0 },
        SdCardCommands::SEND_TUNING => CmdSpec { index: 0x13, rsp: 2, isdata: false, dat_dir: false, blkcnt_en: false, multi_block: false, use_rca: 0, delay: 0 },
        SdCardCommands::SPEED_CLASS => CmdSpec { index: 0x14, rsp: 3, isdata: false, dat_dir: false, blkcnt_en: false, multi_block: false, use_rca: 0, delay: 0 },
        SdCardCommands::SET_BLOCKCNT => CmdSpec { index: 0x17, rsp: 2, isdata: false, dat_dir: false, blkcnt_en: false, multi_block: false, use_rca: 0, delay: 0 },
        SdCardCommands::WRITE_SINGLE => CmdSpec { index: 0x18, rsp: 2, isdata: true, dat_dir: false, blkcnt_en: false, multi_block: false, use_rca: 0, delay: 0 },
        SdCardCommands::WRITE_MULTI => CmdSpec { index: 0x19, rsp: 2, isdata: true, dat_dir: false, blkcnt_en: true, multi_block: true, use_rca: 0, delay: 0 },
        SdCardCommands::PROGRAM_CSD => CmdSpec { index: 0x1b, rsp: 2, isdata: false, dat_dir: false, blkcnt_en: false, multi_block: false, use_rca: 0, delay: 0 },
        SdCardCommands::SET_WRITE_PR => CmdSpec { index: 0x1c, rsp: 3, isdata: false, dat_dir: false, blkcnt_en: false, multi_block: false, use_rca: 0, delay: 0 },
        SdCardCommands::CLR_WRITE_PR => CmdSpec { index: 0x1d, rsp: 3, isdata: false, dat_dir: false, blkcnt_en: false, multi_block: false, use_rca: 0, delay: 0 },
        SdCardCommands::SND_WRITE_PR => CmdSpec { index: 0x1e, rsp: 2, isdata: false, dat_dir: false, blkcnt_en: false, multi_block: false, use_rca: 0, delay: 0 },
        SdCardCommands::ERASE_WR_ST => CmdSpec { index: 0x20, rsp: 2, isdata: false, dat_dir: false, blkcnt_en: false, multi_block: false, use_rca: 0, delay: 0 },
        SdCardCommands::ERASE_WR_END => CmdSpec { index: 0x21, rsp: 2, isdata: false, dat_dir: false, blkcnt_en: false, multi_block: false, use_rca: 0, delay: 0 },
        SdCardCommands::ERASE => CmdSpec { index: 0x26, rsp: 3, isdata: false, dat_dir: false, blkcnt_en: false, multi_block: false, use_rca: 0, delay: 0 },
        SdCardCommands::LOCK_UNLOCK => CmdSpec { index: 0x2a, rsp: 2, isdata: false, dat_dir: false, blkcnt_en: false, multi_block: false, use_rca: 0, delay: 0 },
        SdCardCommands::APP_CMD => CmdSpec { index: 0x37, rsp: 0, isdata: false, dat_dir: false, blkcnt_en: false, multi_block: false, use_rca: 0, delay: 100 },
        SdCardCommands::APP_CMD_RCA => CmdSpec { index: 0x37, rsp: 2, isdata: false, dat_dir: false, blkcnt_en: false, multi_block: false, use_rca: 1, delay: 0 },
        SdCardCommands::GEN_CMD => CmdSpec { index: 0x38, rsp: 2, isdata: false, dat_dir: false, blkcnt_en: false, multi_block: false, use_rca: 0, delay: 0 },
        SdCardCommands::APP_CMD_START => CmdSpec { index: 0, rsp: 0, isdata: false, dat_dir: false, blkcnt_en: false, multi_block: false, use_rca: 0, delay: 0 },
        SdCardCommands::SET_BUS_WIDTH => CmdSpec { index: 0x06, rsp: 2, isdata: false, dat_dir: false, blkcnt_en: false, multi_block: false, use_rca: 0, delay: 0 },
        SdCardCommands::EMMC_STATUS => CmdSpec { index: 0x0d, rsp: 2, isdata: false, dat_dir: false, blkcnt_en: false, multi_block: false, use_rca: 1, delay: 0 },
        SdCardCommands::SEND_NUM_WRBL => CmdSpec { index: 0x16, rsp: 2, isdata: false, dat_dir: false, blkcnt_en: false, multi_block: false, use_rca: 0, delay: 0 },
        SdCardCommands::SEND_NUM_ERS => CmdSpec { index: 0x17, rsp: 2, isdata: false, dat_dir: false, blkcnt_en: false, multi_block: false, use_rca: 0, delay: 0 },
        SdCardCommands::APP_SEND_OP_COND => CmdSpec { index: 0x29, rsp: 2, isdata: false, dat_dir: false, blkcnt_en: false, multi_block: false, use_rca: 0, delay: 1000 },
        SdCardCommands::SET_CLR_DET => CmdSpec { index: 0x2a, rsp: 2, isdata: false, dat_dir: false, blkcnt_en: false, multi_block: false, use_rca: 0, delay: 0 },
        SdCardCommands::SEND_SCR => CmdSpec { index: 0x33, rsp: 2, isdata: true, dat_dir: true, blkcnt_en: false, multi_block: false, use_rca: 0, delay: 0 },
    }
}

/// The name each command is logged under.
pub open spec fn cmd_name_spec(c: SdCardCommands) -> Seq<char> {
    match c {
        SdCardCommands::GO_IDLE_STATE => "GO_IDLE_STATE"@,
        SdCardCommands::ALL_SEND_CID => "ALL_SEND_CID"@,
        SdCardCommands::SEND_REL_ADDR => "SEND_REL_ADDR"@,
        SdCardCommands::SET_DSR => "SET_DSR"@,
        SdCardCommands::SWITCH_FUNC => "SWITCH_FUNC"@,
        SdCardCommands::CARD_SELECT => "CARD_SELECT"@,
        SdCardCommands::SEND_IF_COND => "SEND_IF_COND"@,
        SdCardCommands::SEND_CSD => "SEND_CSD"@,
        SdCardCommands::SEND_CID => "SEND_CID"@,
        SdCardCommands::VOLTAGE_SWITCH => "VOLT_SWITCH"@,
        SdCardCommands::STOP_TRANS => "STOP_TRANS"@,
        SdCardCommands::SEND_STATUS => "SEND_STATUS"@,
        SdCardCommands::GO_INACTIVE => "GO_INACTIVE"@,
        SdCardCommands::SET_BLOCKLEN => "SET_BLOCKLEN"@,
        SdCardCommands::READ_SINGLE => "READ_SINGLE"@,
        SdCardCommands::READ_MULTI => "READ_MULTI"@,
        SdCardCommands::SEND_TUNING => "SEND_TUNING"@,
        SdCardCommands::SPEED_CLASS => "SPEED_CLASS"@,
        SdCardCommands::SET_BLOCKCNT => "SET_BLOCKCNT"@,
        SdCardCommands::WRITE_SINGLE => "WRITE_SINGLE"@,
        SdCardCommands::WRITE_MULTI => "WRITE_MULTI"@,
        SdCardCommands::PROGRAM_CSD => "PROGRAM_CSD"@,
        SdCardCommands::SET_WRITE_PR => "SET_WRITE_PR"@,
        SdCardCommands::CLR_WRITE_PR => "CLR_WRITE_PR"@,
        SdCardCommands::SND_WRITE_PR => "SND_WRITE_PR"@,
        SdCardCommands::ERASE_WR_ST => "ERASE_WR_ST"@,
        SdCardCommands::ERASE_WR_END => "ERASE_WR_END"@,
        SdCardCommands::ERASE => "ERASE"@,
        SdCardCommands::LOCK_UNLOCK => "LOCK_UNLOCK"@,
        SdCardCommands::APP_CMD => "APP_CMD"@,
        SdCardCommands::APP_CMD_RCA => "APP_CMD_RCA"@,
        SdCardCommands::GEN_CMD => "GEN_CMD"@,
        SdCardCommands::APP_CMD_START => " "@,
        SdCardCommands::SET_BUS_WIDTH => "SET_BUS_WIDTH"@,
        SdCardCommands::EMMC_STATUS => "EMMC_STATUS"@,
        SdCardCommands::SEND_NUM_WRBL => "SEND_NUM_WRBL"@,
        SdCardCommands::SEND_NUM_ERS => "SEND_NUM_ERS"@,
        SdCardCommands::APP_SEND_OP_COND => "APP_SEND_OP_COND"@,
        SdCardCommands::SET_CLR_DET => "SET_CLR_DET"@,
        SdCardCommands::SEND_SCR => "SEND_SCR"@,
    }
}

/// Commands from `APP_CMD_START` on are application commands.
pub open spec fn is_app_command(c: SdCardCommands) -> bool {
    c == SdCardCommands::APP_CMD_START || c == SdCardCommands::SET_BUS_WIDTH || c == SdCardCommands::EMMC_STATUS || c == SdCardCommands::SEND_NUM_WRBL || c == SdCardCommands::SEND_NUM_ERS || c == SdCardCommands::APP_SEND_OP_COND || c == SdCardCommands::SET_CLR_DET || c == SdCardCommands::SEND_SCR
}

impl SdCardCommands {
    /// Whether the command must be preceded by APP_CMD.
    pub fn needs_app_cmd(&self) -> (r: bool)
        ensures
            r == is_app_command(*self),
    {
        match self {
            SdCardCommands::APP_CMD_START => true,
            SdCardCommands::SET_BUS_WIDTH => true,
            SdCardCommands::EMMC_STATUS => true,
            SdCardCommands::SEND_NUM_WRBL => true,
            SdCardCommands::SEND_NUM_ERS => true,
            SdCardCommands::APP_SEND_OP_COND => true,
            SdCardCommands::SET_CLR_DET => true,
            SdCardCommands::SEND_SCR => true,
            _ => false,
        }
    }

    /// The command record: name, CMDTM register value, RCA use and delay.
    pub fn get_cmd(&self) -> (cmd: EMMCCommand)
        requires
            *self != SdCardCommands::APP_CMD_START,
        ensures
            cmd.cmd_name@ == cmd_name_spec(*self),
            cmd.cmd_code == spec_encode(cmd_spec(*self)),
            cmd.use_rca == cmd_spec(*self).use_rca,
            cmd.delay == cmd_spec(*self).delay,
    {
        match self {
            SdCardCommands::GO_IDLE_STATE => EMMCCommand { cmd_name: "GO_IDLE_STATE", cmd_code: encode_cmd(0x00, 0, false, false, false, false), use_rca: 0, delay: 0 },
            SdCardCommands::ALL_SEND_CID => EMMCCommand { cmd_name: "ALL_SEND_CID", cmd_code: encode_cmd(0x02, 1, false, false, false, false), use_rca: 0, delay: 0 },
            SdCardCommands::SEND_REL_ADDR => EMMCCommand { cmd_name: "SEND_REL_ADDR", cmd_code: encode_cmd(0x03, 2, false, false, false, false), use_rca: 0, delay: 0 },
            SdCardCommands::SET_DSR => EMMCCommand { cmd_name: "SET_DSR", cmd_code: encode_cmd(0x04, 0, false, false, false, false), use_rca: 0, delay: 0 },
            SdCardCommands::SWITCH_FUNC => EMMCCommand { cmd_name: "SWITCH_FUNC", cmd_code: encode_cmd(0x06, 2, false, false, false, false), use_rca: 0, delay: 0 },
            SdCardCommands::CARD_SELECT => EMMCCommand { cmd_name: "CARD_SELECT", cmd_code: encode_cmd(0x07, 3, false, false, false, false), use_rca: 1, delay: 0 },
            SdCardCommands::SEND_IF_COND => EMMCCommand { cmd_name: "SEND_IF_COND", cmd_code: encode_cmd(0x08, 2, false, false, false, false), use_rca: 1, delay: 100 },
            SdCardCommands::SEND_CSD => EMMCCommand { cmd_name: "SEND_CSD", cmd_code: encode_cmd(0x09, 1, false, false, false, false), use_rca: 1, delay: 0 },
            SdCardCommands::SEND_CID => EMMCCommand { cmd_name: "SEND_CID", cmd_code: encode_cmd(0x0a, 1, false, false, false, false), use_rca: 1, delay: 0 },
            SdCardCommands::VOLTAGE_SWITCH => EMMCCommand { cmd_name: "VOLT_SWITCH", cmd_code: encode_cmd(0x0b, 2, false, false, false, false), use_rca: 0, delay: 0 },
            SdCardCommands::STOP_TRANS => EMMCCommand { cmd_name: "STOP_TRANS", cmd_code: encode_cmd(0x0c, 3, false, false, false, false), use_rca: 0, delay: 0 },
            SdCardCommands::SEND_STATUS => EMMCCommand { cmd_name: "SEND_STATUS", cmd_code: encode_cmd(0x0d, 2, false, false, false, false), use_rca: 1, delay: 0 },
            SdCardCommands::GO_INACTIVE => EMMCCommand { cmd_name: "GO_INACTIVE", cmd_code: encode_cmd(0x0f, 0, false, false, false, false), use_rca: 1, delay: 0 },
            SdCardCommands::SET_BLOCKLEN => EMMCCommand { cmd_name: "SET_BLOCKLEN", cmd_code: encode_cmd(0x10, 0, false, false, false, false), use_rca: 0, delay: 0 },
            SdCardCommands::READ_SINGLE => EMMCCommand { cmd_name: "READ_SINGLE", cmd_code: encode_cmd(0x11, 2, true, true, false, false), use_rca: 0, delay: 0 },
            SdCardCommands::READ_MULTI => EMMCCommand { cmd_name: "READ_MULTI", cmd_code: encode_cmd(0x12, 2, true, true, true, true), use_rca: 0, delay: 0 },
            SdCardCommands::SEND_TUNING => EMMCCommand { cmd_name: "SEND_TUNING", cmd_code: encode_cmd(0x13, 2, false, false, false, false), use_rca: 0, delay: 0 },
            SdCardCommands::SPEED_CLASS => EMMCCommand { cmd_name: "SPEED_CLASS", cmd_code: encode_cmd(0x14, 3, false, false, false, false), use_rca: 0, delay: 0 },
            SdCardCommands::SET_BLOCKCNT => EMMCCommand { cmd_name: "SET_BLOCKCNT", cmd_code: encode_cmd(0x17, 2, false, false, false, false), use_rca: 0, delay: 0 },
            SdCardCommands::WRITE_SINGLE => EMMCCommand { cmd_name: "WRITE_SINGLE", cmd_code: encode_cmd(0x18, 2, true, false, false, false), use_rca: 0, delay: 0 },
            SdCardCommands::WRITE_MULTI => EMMCCommand { cmd_name: "WRITE_MULTI", cmd_code: encode_cmd(0x19, 2, true, false, true, true), use_rca: 0, delay: 0 },
            SdCardCommands::PROGRAM_CSD => EMMCCommand { cmd_name: "PROGRAM_CSD", cmd_code: encode_cmd(0x1b, 2, false, false, false, false), use_rca: 0, delay: 0 },
            SdCardCommands::SET_WRITE_PR => EMMCCommand { cmd_name: "SET_WRITE_PR", cmd_code: encode_cmd(0x1c, 3, false, false, false, false), use_rca: 0, delay: 0 },
            SdCardCommands::CLR_WRITE_PR => EMMCCommand { cmd_name: "CLR_WRITE_PR", cmd_code: encode_cmd(0x1d, 3, false, false, false, false), use_rca: 0, delay: 0 },
            SdCardCommands::SND_WRITE_PR => EMMCCommand { cmd_name: "SND_WRITE_PR", cmd_code: encode_cmd(0x1e, 2, false, false, false, false), use_rca: 0, delay: 0 },
            SdCardCommands::ERASE_WR_ST => EMMCCommand { cmd_name: "ERASE_WR_ST", cmd_code: encode_cmd(0x20, 2, false, false, false, false), use_rca: 0, delay: 0 },
            SdCardCommands::ERASE_WR_END => EMMCCommand { cmd_name: "ERASE_WR_END", cmd_code: encode_cmd(0x21, 2, false, false, false, false), use_rca: 0, delay: 0 },
            SdCardCommands::ERASE => EMMCCommand { cmd_name: "ERASE", cmd_code: encode_cmd(0x26, 3, false, false, false, false), use_rca: 0, delay: 0 },
            SdCardCommands::LOCK_UNLOCK => EMMCCommand { cmd_name: "LOCK_UNLOCK", cmd_code: encode_cmd(0x2a, 2, false, false, false, false), use_rca: 0, delay: 0 },
            SdCardCommands::APP_CMD => EMMCCommand { cmd_name: "APP_CMD", cmd_code: encode_cmd(0x37, 0, false, false, false, false), use_rca: 0, delay: 100 },
            SdCardCommands::APP_CMD_RCA => EMMCCommand { cmd_name: "APP_CMD_RCA", cmd_code: encode_cmd(0x37, 2, false, false, false, false), use_rca: 1, delay: 0 },
            SdCardCommands::GEN_CMD => EMMCCommand { cmd_name: "GEN_CMD", cmd_code: encode_cmd(0x38, 2, false, false, false, false), use_rca: 0, delay: 0 },
            SdCardCommands::SET_BUS_WIDTH => EMMCCommand { cmd_name: "SET_BUS_WIDTH", cmd_code: encode_cmd(0x06, 2, false, false, false, false), use_rca: 0, delay: 0 },
            SdCardCommands::EMMC_STATUS => EMMCCommand { cmd_name: "EMMC_STATUS", cmd_code: encode_cmd(0x0d, 2, false, false, false, false), use_rca: 1, delay: 0 },
            SdCardCommands::SEND_NUM_WRBL => EMMCCommand { cmd_name: "SEND_NUM_WRBL", cmd_code: encode_cmd(0x16, 2, false, false, false, false), use_rca: 0, delay: 0 },
            SdCardCommands::SEND_NUM_ERS => EMMCCommand { cmd_name: "SEND_NUM_ERS", cmd_code: encode_cmd(0x17, 2, false, false, false, false), use_rca: 0, delay: 0 },
            SdCardCommands::APP_SEND_OP_COND => EMMCCommand { cmd_name: "APP_SEND_OP_COND", cmd_code: encode_cmd(0x29, 2, false, false, false, false), use_rca: 0, delay: 1000 },
            SdCardCommands::SET_CLR_DET => EMMCCommand { cmd_name: "SET_CLR_DET", cmd_code: encode_cmd(0x2a, 2, false, false, false, false), use_rca: 0, delay: 0 },
            SdCardCommands::SEND_SCR => EMMCCommand { cmd_name: "SEND_SCR", cmd_code: encode_cmd(0x33, 2, true, true, false, false), use_rca: 0, delay: 0 },
            SdCardCommands::APP_CMD_START => EMMCCommand { cmd_name: " ", cmd_code: 0, use_rca: 0, delay: 0 },
        }
    }
}
/// The result a card status word stands for: the error bits of an R1 status,
/// if any.
pub open spec fn r1_result(status: u32) -> SdResult {
    if status & R1_ERRORS_MASK == 0 {
        SdResult::EMMC_OK
    } else {
        SdResult::EMMC_CARD_STATE(status & R1_ERRORS_MASK)
    }
}

fn r1_check(status: u32) -> (r: SdResult)
    ensures
        r == r1_result(status),
{
    if status & R1_ERRORS_MASK == 0 {
        SdResult::EMMC_OK
    } else {
        SdResult::EMMC_CARD_STATE(status & R1_ERRORS_MASK)
    }
}

/// OCR: card power up status bit (busy bit, active low).
pub open spec fn ocr_powered_up(ocr: u32) -> bool {
    ocr & 0x8000_0000 != 0
}

/// OCR: card capacity status (high capacity).
pub open spec fn ocr_high_capacity(ocr: u32) -> bool {
    ocr & 0x4000_0000 != 0
}

/// OCR: the card accepts 3.2-3.3 V or 3.3-3.4 V.
pub open spec fn ocr_accepts_3v3(ocr: u32) -> bool {
    ocr & 0x0030_0000 != 0
}

/// SCR: the card supports both the 1-bit and the 4-bit bus (BUS_WIDTH is 5).
pub open spec fn scr_bus_width_1_4(scr: u64) -> bool {
    (scr >> 8u64) & 0xf == 5
}

/// Retries of ACMD41 after its first attempt while the card is busy.
pub const OP_COND_RETRIES: u8 = 6;
/// Wait before each ACMD41 retry, in microseconds.
pub const OP_COND_RETRY_WAIT_US: u32 = 400000;

/// What the ACMD41 loop does next.
#[derive(Clone, Copy, PartialEq, Eq, Structural, Debug)]
pub enum OpCondAction {
    /// Wait `OP_COND_RETRY_WAIT_US`, send ACMD41 again, and go on with this
    /// many retries left.
    Retry(u8),
    /// The loop is over with this result.
    Finish(SdResult),
}

/// Result of the ACMD41 loop once the card stopped being asked: still busy
/// is a timeout, a card without 3.3 V is refused, otherwise success.
pub open spec fn op_cond_result(ocr: u32) -> SdResult {
    if !ocr_powered_up(ocr) {
        SdResult::EMMC_TIMEOUT
    } else if !ocr_accepts_3v3(ocr) {
        SdResult::EMMC_ERROR_VOLTAGE
    } else {
        SdResult::EMMC_OK
    }
}

/// SD card description record.
#[derive(Clone, Copy)]
pub struct SdDescriptor {
    /// Card CID
    pub cid: CID,
    /// Card CSD
    pub csd: CSD,
    /// Card SCR
    pub scr: u64,
    /// Card capacity in bytes, computed from the CSD
    pub card_capacity: u64,
    /// Card type
    pub emmc_card_type: SdCardType,
    /// Card relative address (upper 16 bits)
    pub rca: u32,
    /// Card OCR
    pub ocr: u32,
    /// Card status of the last response
    pub status: u32,
    /// The last command sent
    pub last_cmd: EMMCCommand,
}

/// The descriptor after the response to `cmd` (sent with `arg`) was
/// received in the four response registers.
pub open spec fn after_response(
    o: SdDescriptor,
    cmd: EMMCCommand,
    arg: u32,
    r0: u32,
    r1: u32,
    r2: u32,
    r3: u32,
) -> (SdDescriptor, SdResult) {
    let rt = resp_type_of(cmd.cmd_code);
    let ix = cmd_index_of(cmd.cmd_code);
    if rt == 0 {
        (o, SdResult::EMMC_OK)
    } else if rt == 3 {
        (SdDescriptor { status: r0, ..o }, r1_result(r0))
    } else if rt == 2 {
        if ix == 0x03 {
            (SdDescriptor { rca: r6_rca(r0), status: r6_status(r0), ..o }, r1_result(r6_status(r0)))
        } else if ix == 0x08 {
            (SdDescriptor { status: 0, ..o }, if r0 == arg { SdResult::EMMC_OK } else { SdResult::EMMC_ERROR })
        } else if ix == 0x29 {
            (SdDescriptor { status: 0, ocr: r0, ..o }, SdResult::EMMC_OK)
        } else {
            (SdDescriptor { status: r0, ..o }, r1_result(r0))
        }
    } else if ix == 0x09 {
        let b = resp_bytes(r0, r1, r2, r3);
        (
            SdDescriptor {
                status: 0,
                csd: csd_after(o.csd, b),
                card_capacity: csd_capacity(b) as u64,
                ..o
            },
            SdResult::EMMC_OK,
        )
    } else {
        (SdDescriptor { status: 0, cid: CID { cid0: r3, cid1: r2, cid2: r1, cid3: r0 }, ..o }, SdResult::EMMC_OK)
    }
}

/// A SEND_CSD response must describe a capacity that the driver can compute.
pub open spec fn response_acceptable(cmd: EMMCCommand, r0: u32, r1: u32, r2: u32, r3: u32) -> bool {
    resp_type_of(cmd.cmd_code) == 1 && cmd_index_of(cmd.cmd_code) == 0x09 ==> csd_capacity_fits(
        resp_bytes(r0, r1, r2, r3),
    )
}

impl SdDescriptor {
    /// The descriptor of an unknown card.
    pub fn new() -> (d: Self)
        ensures
            d.cid == (CID { cid0: 0, cid1: 0, cid2: 0, cid3: 0 }),
            d.csd == (CSD { csd0: 0, csd1: 0, csd2: 0, csd3: 0 }),
            d.scr == 0,
            d.card_capacity == 0,
            d.emmc_card_type == SdCardType::EMMC_TYPE_UNKNOWN,
            d.rca == 0,
            d.ocr == 0,
            d.status == 0,
            d.last_cmd.cmd_code == 0,
    {
        SdDescriptor {
            cid: CID::new(),
            csd: CSD::new(),
            scr: 0,
            card_capacity: 0,
            emmc_card_type: SdCardType::EMMC_TYPE_UNKNOWN,
            rca: 0,
            ocr: 0,
            status: 0,
            last_cmd: EMMCCommand::new(),
        }
    }

    /// Forgets the card: zero RCA, OCR, status and last command, type
    /// unknown. CID, CSD, SCR and capacity are kept.
    pub fn reset_entries(&mut self)
        ensures
            final(self).rca == 0,
            final(self).ocr == 0,
            final(self).status == 0,
            final(self).last_cmd.cmd_code == 0,
            final(self).emmc_card_type == SdCardType::EMMC_TYPE_UNKNOWN,
            final(self).cid == old(self).cid,
            final(self).csd == old(self).csd,
            final(self).scr == old(self).scr,
            final(self).card_capacity == old(self).card_capacity,
    {
        self.rca = 0;
        self.ocr = 0;
        self.last_cmd = EMMCCommand::new();
        self.status = 0;
        self.emmc_card_type = SdCardType::EMMC_TYPE_UNKNOWN;
    }

    /// Records the command about to be sent.
    pub fn record_command(&mut self, cmd: EMMCCommand)
        ensures
            *final(self) == (SdDescriptor { last_cmd: cmd, ..*old(self) }),
    {
        self.last_cmd = cmd;
    }

    /// Whether the response to `cmd` is one `handle_response` can take: a
    /// SEND_CSD response must describe a capacity the decoding can compute.
    pub fn response_ok(cmd: &EMMCCommand, r0: u32, r1: u32, r2: u32, r3: u32) -> (ok: bool)
        ensures
            ok == response_acceptable(*cmd, r0, r1, r2, r3),
    {
        if cmd.response_type() == 1 && cmd.index() == 0x09 {
            crate::sdcard::csd_capacity_ok(r0, r1, r2, r3)
        } else {
            true
        }
    }

    /// `handle_response` where the response is one it can take; otherwise
    /// `None`, with the record unchanged.
    pub fn try_handle_response(
        &mut self,
        cmd: EMMCCommand,
        arg: u32,
        r0: u32,
        r1: u32,
        r2: u32,
        r3: u32,
    ) -> (r: Option<SdResult>)
        ensures
            !response_acceptable(cmd, r0, r1, r2, r3) ==> r is None && *final(self) == *old(self),
            response_acceptable(cmd, r0, r1, r2, r3) ==> (r matches Some(res) && (*final(self), res)
                == after_response(*old(self), cmd, arg, r0, r1, r2, r3)),
    {
        if Self::response_ok(&cmd, r0, r1, r2, r3) {
            Some(self.handle_response(cmd, arg, r0, r1, r2, r3))
        } else {
            None
        }
    }

    /// Interprets the response to `cmd`, updating the card record, once the
    /// controller has signalled command completion.
    pub fn handle_response(
        &mut self,
        cmd: EMMCCommand,
        arg: u32,
        r0: u32,
        r1: u32,
        r2: u32,
        r3: u32,
    ) -> (r: SdResult)
        requires
            response_acceptable(cmd, r0, r1, r2, r3),
        ensures
            (*final(self), r) == after_response(*old(self), cmd, arg, r0, r1, r2, r3),
    {
        let rt = cmd.response_type();
        let ix = cmd.index();
        if rt == 0 {
            SdResult::EMMC_OK
        } else if rt == 3 {
            self.status = r0;
            r1_check(r0)
        } else if rt == 2 {
            if ix == 0x03 {
                self.rca = r0 & 0xffff0000;
                self.status = status_from_r6(r0);
                r1_check(self.status)
            } else if ix == 0x08 {
                self.status = 0;
                if r0 == arg {
                    SdResult::EMMC_OK
                } else {
                    SdResult::EMMC_ERROR
                }
            } else if ix == 0x29 {
                self.status = 0;
                self.ocr = r0;
                SdResult::EMMC_OK
            } else {
                self.status = r0;
                r1_check(r0)
            }
        } else {
            self.status = 0;
            if ix == 0x09 {
                let cap = self.csd.unpack(r0, r1, r2, r3);
                self.card_capacity = cap;
            } else {
                self.cid = CID::from_response(r0, r1, r2, r3);
            }
            SdResult::EMMC_OK
        }
    }

    /// Stores the SCR read as two data words (low word first).
    pub fn set_scr(&mut self, scr_lo: u32, scr_hi: u32)
        ensures
            *final(self) == (SdDescriptor { scr: (scr_lo as u64) | ((scr_hi as u64) << 32u64), ..*old(self) }),
    {
        self.scr = (scr_lo as u64) | ((scr_hi as u64) << 32u64);
    }

    /// The argument of a command sent without one: the RCA when the command
    /// addresses the card, else 0.
    pub fn command_argument(&self, cmd: &EMMCCommand) -> (arg: u32)
        ensures
            arg == (if cmd.use_rca == 1 { self.rca } else { 0 }),
    {
        if cmd.use_rca == 1 {
            self.rca
        } else {
            0
        }
    }

    /// The APP_CMD that precedes an application command and its argument:
    /// without an RCA, APP_CMD with argument 0, else APP_CMD_RCA with the RCA.
    pub fn app_command(&self) -> (r: (EMMCCommand, u32))
        ensures
            self.rca == 0 ==> r.0.cmd_code == spec_encode(cmd_spec(SdCardCommands::APP_CMD)) && r.1 == 0
                && r.0.delay == 100,
            self.rca != 0 ==> r.0.cmd_code == spec_encode(cmd_spec(SdCardCommands::APP_CMD_RCA)) && r.1
                == self.rca && r.0.use_rca == 1,
    {
        if self.rca == 0 {
            (SdCardCommands::APP_CMD.get_cmd(), 0)
        } else {
            (SdCardCommands::APP_CMD_RCA.get_cmd(), self.rca)
        }
    }

    /// Outcome of an APP_CMD. Without an RCA the response is not looked at;
    /// with one, a failed command is reported as is, and a card status without
    /// the APP_CMD bit is an error.
    pub fn app_command_outcome(&self, had_rca: bool, resp: SdResult) -> (r: SdResult)
        ensures
            !had_rca ==> r == SdResult::EMMC_OK,
            had_rca && resp != SdResult::EMMC_OK ==> r == resp,
            had_rca && resp == SdResult::EMMC_OK ==> r == (if self.status & ST_APP_CMD == 0 {
                SdResult::EMMC_ERROR
            } else {
                SdResult::EMMC_OK
            }),
    {
        if !had_rca {
            SdResult::EMMC_OK
        } else if resp != SdResult::EMMC_OK {
            resp
        } else if self.status & ST_APP_CMD == 0 {
            SdResult::EMMC_ERROR
        } else {
            SdResult::EMMC_OK
        }
    }

    /// After an application command was answered, a card with an RCA must
    /// show the APP_CMD status bit; otherwise the command was not taken as an
    /// application command.
    pub fn check_app_cmd(&self, cmd_type: SdCardCommands, resp: SdResult) -> (r: SdResult)
        ensures
            r == (if resp == SdResult::EMMC_OK && is_app_command(cmd_type) && self.rca != 0 && self.status
                & ST_APP_CMD == 0 {
                SdResult::EMMC_ERROR_APP_CMD
            } else {
                resp
            }),
    {
        if resp == SdResult::EMMC_OK && cmd_type.needs_app_cmd() && self.rca != 0 && self.status & ST_APP_CMD
            == 0 {
            SdResult::EMMC_ERROR_APP_CMD
        } else {
            resp
        }
    }

    /// Outcome of the ACMD41 loop once it stopped: still busy is a timeout; a
    /// card that does not accept 3.3 V is refused.
    pub fn op_cond_outcome(&self) -> (r: SdResult)
        ensures
            !ocr_powered_up(self.ocr) ==> r == SdResult::EMMC_TIMEOUT,
            ocr_powered_up(self.ocr) && !ocr_accepts_3v3(self.ocr) ==> r == SdResult::EMMC_ERROR_VOLTAGE,
            ocr_powered_up(self.ocr) && ocr_accepts_3v3(self.ocr) ==> r == SdResult::EMMC_OK,
    {
        if self.ocr & 0x8000_0000 == 0 {
            SdResult::EMMC_TIMEOUT
        } else if self.ocr & 0x0030_0000 == 0 {
            SdResult::EMMC_ERROR_VOLTAGE
        } else {
            SdResult::EMMC_OK
        }
    }

    /// Whether the ACMD41 loop goes on: the card is still busy and retries are
    /// left.
    pub fn op_cond_retry(&self, retries: u8) -> (r: bool)
        ensures
            r == (!ocr_powered_up(self.ocr) && retries != 0),
    {
        self.ocr & 0x8000_0000 == 0 && retries != 0
    }

    /// One round of the ACMD41 loop, given the response to the last ACMD41
    /// (the OCR it returned is in the record) and the retries left: an
    /// error other than a timeout ends the loop with it; a card still busy
    /// is asked again after 400 ms while retries are left; otherwise the
    /// loop ends with `op_cond_result`. Started with `OP_COND_RETRIES` after
    /// the first ACMD41, the loop sends it at most seven times.
    pub fn op_cond_step(&self, retries: u8, resp: SdResult) -> (r: OpCondAction)
        ensures
            r == (if resp != SdResult::EMMC_OK && resp != SdResult::EMMC_TIMEOUT {
                OpCondAction::Finish(resp)
            } else if !ocr_powered_up(self.ocr) && retries != 0 {
                OpCondAction::Retry((retries - 1) as u8)
            } else {
                OpCondAction::Finish(op_cond_result(self.ocr))
            }),
            r matches OpCondAction::Retry(left) ==> left < retries,
    {
        if resp != SdResult::EMMC_OK && resp != SdResult::EMMC_TIMEOUT {
            OpCondAction::Finish(resp)
        } else if self.op_cond_retry(retries) {
            OpCondAction::Retry(retries - 1)
        } else {
            OpCondAction::Finish(self.op_cond_outcome())
        }
    }

    /// Card type once ACMD41 succeeded after SEND_IF_COND: high or standard
    /// capacity by the OCR's CCS bit.
    pub fn set_type_from_ocr(&mut self)
        ensures
            *final(self) == (SdDescriptor {
                emmc_card_type: if ocr_high_capacity(old(self).ocr) {
                    SdCardType::EMMC_TYPE_2_HC
                } else {
                    SdCardType::EMMC_TYPE_2_SC
                },
                ..*old(self)
            }),
    {
        if self.ocr & 0x4000_0000 != 0 {
            self.emmc_card_type = SdCardType::EMMC_TYPE_2_HC;
        } else {
            self.emmc_card_type = SdCardType::EMMC_TYPE_2_SC;
        }
    }

    /// Whether the card supports the 4-bit bus (SCR BUS_WIDTH is 1|4).
    pub fn supports_4bit_bus(&self) -> (r: bool)
        ensures
            r == scr_bus_width_1_4(self.scr),
    {
        (self.scr >> 8u64) & 0xf == 5
    }

    /// Argument of SET_BUS_WIDTH selecting the 4-bit bus.
    pub fn bus_width_4_argument(&self) -> (r: u32)
        ensures
            r == self.rca | 2,
    {
        self.rca | 2
    }
}

/// Interrupts a wait for `mask` watches: `mask` plus the fatal errors.
pub fn wait_mask(mask: u32) -> (r: u32)
    ensures
        r == mask | INT_ERROR_MASK,
{
    mask | INT_ERROR_MASK
}

/// Outcome of waiting (up to one second) for the interrupts in `mask`, given
/// the time waited in microseconds and the interrupt flags seen; with it, the
/// value written back to INTERRUPT to clear flags.
///
/// A timeout (of the wait, the command or the data) clears every flag seen;
/// another error does too; success clears only the awaited interrupts.
pub fn wait_for_interrupt_outcome(mask: u32, time_diff: u64, ival: u32) -> (r: (SdResult, u32))
    ensures
        (time_diff >= 1000000 || ival & INT_CMD_TIMEOUT != 0 || ival & INT_DATA_TIMEOUT != 0) ==> r == (
        SdResult::EMMC_TIMEOUT,
        ival,
        ),
        !(time_diff >= 1000000 || ival & INT_CMD_TIMEOUT != 0 || ival & INT_DATA_TIMEOUT != 0) && ival
            & INT_ERROR_MASK != 0 ==> r == (SdResult::EMMC_ERROR, ival),
        !(time_diff >= 1000000 || ival & INT_CMD_TIMEOUT != 0 || ival & INT_DATA_TIMEOUT != 0) && ival
            & INT_ERROR_MASK == 0 ==> r == (SdResult::EMMC_OK, mask),
{
    if time_diff >= 1000000 || ival & INT_CMD_TIMEOUT != 0 || ival & INT_DATA_TIMEOUT != 0 {
        (SdResult::EMMC_TIMEOUT, ival)
    } else if ival & INT_ERROR_MASK != 0 {
        (SdResult::EMMC_ERROR, ival)
    } else {
        (SdResult::EMMC_OK, mask)
    }
}

/// Outcome of waiting (up to one second) for the command line: busy when the
/// wait ran out or an error interrupt is pending.
pub fn wait_for_command_outcome(time_diff: u64, ival: u32) -> (r: SdResult)
    ensures
        r == (if time_diff >= 1000000 || ival & INT_ERROR_MASK != 0 {
            SdResult::EMMC_BUSY
        } else {
            SdResult::EMMC_OK
        }),
{
    if time_diff >= 1000000 || ival & INT_ERROR_MASK != 0 {
        SdResult::EMMC_BUSY
    } else {
        SdResult::EMMC_OK
    }
}

/// Outcome of waiting (up to half a second) for the data lines: busy when
/// the wait ran out or an error interrupt is pending.
pub fn wait_for_data_outcome(time_diff: u64, ival: u32) -> (r: SdResult)
    ensures
        r == (if time_diff >= 500000 || ival & INT_ERROR_MASK != 0 {
            SdResult::EMMC_BUSY
        } else {
            SdResult::EMMC_OK
        }),
{
    if time_diff >= 500000 || ival & INT_ERROR_MASK != 0 {
        SdResult::EMMC_BUSY
    } else {
        SdResult::EMMC_OK
    }
}

/// Where sending a command stands.
#[derive(Clone, Copy, PartialEq, Eq, Structural, Debug)]
pub enum CommandState {
    Start,
    AwaitLines,
    AwaitDone,
    Done,
}

/// What the driver does next to send a command.
#[derive(Clone, Copy, PartialEq, Eq, Structural, Debug)]
pub enum CommandAction {
    /// Wait (up to 1 s) for the command line to be free: the event is
    /// `wait_for_command_outcome`.
    WaitForCommandLine,
    /// Clear the interrupt flags, write `arg` to ARG1 and `cmdtm` to CMDTM,
    /// wait `delay_us`, then wait for CMD_DONE (the event is
    /// `wait_for_interrupt_outcome` with `INT_CMD_DONE`) and read RESP0..3.
    Issue { arg: u32, cmdtm: u32, delay_us: u32 },
    /// The command is over with this result.
    Finish(SdResult),
}

/// The transition table of sending `cmd` with `arg`: the next state, the
/// action and the card record, from `state` when the previous action ended
/// with `event` (and, once the command completed, the response words). The
/// command is recorded as the last one sent; lines that stay busy end the
/// send with a busy result; a failed completion ends it with its result;
/// a completed command's response is interpreted by `after_response`.
pub open spec fn command_next(
    card: SdDescriptor,
    cmd: EMMCCommand,
    arg: u32,
    state: CommandState,
    event: SdResult,
    r0: u32,
    r1: u32,
    r2: u32,
    r3: u32,
) -> (CommandState, CommandAction, SdDescriptor) {
    match state {
        CommandState::Start => (CommandState::AwaitLines, CommandAction::WaitForCommandLine, card),
        CommandState::AwaitLines => if event != SdResult::EMMC_OK {
            (CommandState::Done, CommandAction::Finish(SdResult::EMMC_BUSY), card)
        } else {
            (
                CommandState::AwaitDone,
                CommandAction::Issue { arg: arg, cmdtm: cmd.cmd_code, delay_us: cmd.delay as u32 },
                SdDescriptor { last_cmd: cmd, ..card },
            )
        },
        CommandState::AwaitDone => if event != SdResult::EMMC_OK {
            (CommandState::Done, CommandAction::Finish(event), card)
        } else {
            let after = after_response(card, cmd, arg, r0, r1, r2, r3);
            (CommandState::Done, CommandAction::Finish(after.1), after.0)
        },
        CommandState::Done => (CommandState::Done, CommandAction::Finish(SdResult::NONE), card),
    }
}

/// One step of sending `cmd` with `arg`, as `command_next` tables it.
pub fn command_step(
    card: &mut SdDescriptor,
    cmd: EMMCCommand,
    arg: u32,
    state: CommandState,
    event: SdResult,
    r0: u32,
    r1: u32,
    r2: u32,
    r3: u32,
) -> (r: (CommandState, CommandAction))
    requires
        state == CommandState::AwaitDone && event == SdResult::EMMC_OK ==> response_acceptable(cmd, r0, r1, r2, r3),
    ensures
        (r.0, r.1, *final(card)) == command_next(*old(card), cmd, arg, state, event, r0, r1, r2, r3),
{
    match state {
        CommandState::Start => {
            
            (CommandState::AwaitLines, CommandAction::WaitForCommandLine)
        },
        CommandState::AwaitLines => {
            if event != SdResult::EMMC_OK {
                (CommandState::Done, CommandAction::Finish(SdResult::EMMC_BUSY))
            } else {
                card.record_command(cmd);
                (CommandState::AwaitDone, CommandAction::Issue { arg: arg, cmdtm: cmd.cmd_code, delay_us: cmd.delay as u32 })
            }
        },
        CommandState::AwaitDone => {
            if event != SdResult::EMMC_OK {
                (CommandState::Done, CommandAction::Finish(event))
            } else {
                let res = card.handle_response(cmd, arg, r0, r1, r2, r3);
                (CommandState::Done, CommandAction::Finish(res))
            }
        },
        CommandState::Done => (CommandState::Done, CommandAction::Finish(SdResult::NONE)),
    }
}

/// Outcome of waiting (up to 100 ms) for the host circuit reset to clear.
pub fn reset_outcome(td: u64) -> (r: SdResult)
    ensures
        r == (if td >= 100000 { SdResult::EMMC_ERROR_RESET } else { SdResult::EMMC_OK }),
{
    if td >= 100000 {
        SdResult::EMMC_ERROR_RESET
    } else {
        SdResult::EMMC_OK
    }
}

/// Outcome of waiting (up to 100 ms) for the SD clock to be stable.
pub fn clock_stable_outcome(td: u64) -> (r: SdResult)
    ensures
        r == (if td >= 100000 { SdResult::EMMC_ERROR_CLOCK } else { SdResult::EMMC_OK }),
{
    if td >= 100000 {
        SdResult::EMMC_ERROR_CLOCK
    } else {
        SdResult::EMMC_OK
    }
}

/// BLKSIZECNT after a transfer of `blocks` blocks of `size` bytes is set up:
/// BLKCNT (bits 31:16) and BLKSIZE (bits 9:0) hold them, the reserved bits
/// 15:10 are kept.
pub open spec fn blksizecnt_after(prev: u32, blocks: u32, size: u32) -> u32 {
    (((prev & !0xFFFF_0000u32) | ((blocks & 0xFFFF) << 16u32)) & !0x3FFu32) | (size & 0x3FF)
}

/// Size in bytes of the one block the SCR is read as.
pub const SCR_BLOCK_SIZE: u32 = 8;
/// Size in bytes of a data block.
pub const BLOCK_SIZE: u32 = 512;

/// BLKSIZECNT programmed for `blocks` blocks of `size` bytes.
pub fn blksizecnt(prev: u32, blocks: u32, size: u32) -> (v: u32)
    ensures
        v == blksizecnt_after(prev, blocks, size),
{
    (((prev & !0xFFFF_0000u32) | ((blocks & 0xFFFF) << 16u32)) & !0x3FFu32) | (size & 0x3FF)
}

/// BLKSIZECNT before SEND_SCR: one block of 8 bytes.
pub fn scr_blksizecnt(prev: u32) -> (v: u32)
    ensures
        v == blksizecnt_after(prev, 1, SCR_BLOCK_SIZE),
{
    blksizecnt(prev, 1, SCR_BLOCK_SIZE)
}

/// BLKSIZECNT before a block transfer: `num_blocks` blocks of 512 bytes.
pub fn transfer_blksizecnt(prev: u32, num_blocks: u32) -> (v: u32)
    ensures
        v == blksizecnt_after(prev, num_blocks, BLOCK_SIZE),
{
    blksizecnt(prev, num_blocks, BLOCK_SIZE)
}

/// Outcome of reading the two SCR words: fewer than two within the polls is
/// a timeout.
pub fn scr_read_outcome(num_read: u32) -> (r: SdResult)
    ensures
        r == (if num_read != 2 { SdResult::EMMC_TIMEOUT } else { SdResult::EMMC_OK }),
{
    if num_read != 2 {
        SdResult::EMMC_TIMEOUT
    } else {
        SdResult::EMMC_OK
    }
}

/// The reasons for which the filesystem may read blocks from the card.
pub open spec fn read_reason_allowed(reason: Seq<char>) -> bool {
    reason == "read_multi"@ || reason == "read"@ || reason == "read_mbr"@ || reason == "read_bpb"@
        || reason == "read_info_sector"@ || reason == "read_fat"@ || reason == "next_cluster"@
        || reason == "read_dir"@ || reason == "fat_read"@
}

fn same_text(a: &str, b: &str) -> (r: bool)
    ensures
        r == (a@ == b@),
{
    let n = a.unicode_len();
    if n != b.unicode_len() {
        return false;
    }
    let mut i: usize = 0;
    while i < n
        invariant
            n == a@.len(),
            n == b@.len(),
            i <= n,
            forall|j: int| 0 <= j < i ==> a@[j] == b@[j],
        decreases n - i,
    {
        if a.get_char(i) != b.get_char(i) {
            return false;
        }
        i = i + 1;
    }
    assert(a@ =~= b@);
    true
}

/// Whether a block read for `reason` is allowed: the filesystem's reads
/// (multi-block, single, MBR, BPB, info sector, FAT, next cluster, directory
/// and FAT reads); any other read is refused.
pub fn read_reason_ok(reason: &str) -> (ok: bool)
    ensures
        ok == read_reason_allowed(reason@),
{
    same_text(reason, "read_multi") || same_text(reason, "read") || same_text(reason, "read_mbr")
        || same_text(reason, "read_bpb") || same_text(reason, "read_info_sector") || same_text(
        reason,
        "read_fat",
    ) || same_text(reason, "next_cluster") || same_text(reason, "read_dir") || same_text(reason, "fat_read")
}

/// Where reading the SCR stands.
#[derive(Clone, Copy, PartialEq, Eq, Structural, Debug)]
pub enum ScrState {
    Start,
    AwaitDataIdle,
    AwaitCommand,
    AwaitReady,
    AwaitWords,
    Done,
}

/// What the driver does next to read the SCR.
#[derive(Clone, Copy, PartialEq, Eq, Structural, Debug)]
pub enum ScrAction {
    /// Wait for the data lines to be idle.
    WaitForData,
    /// Write this value to BLKSIZECNT, then send SEND_SCR.
    SendScr(u32),
    /// Wait for this interrupt.
    WaitInterrupt(u32),
    /// Read the two SCR words as they come (polling for up to 100 ms): the
    /// event is `scr_read_outcome` of the number read.
    ReadWords,
    /// The read is over with this result.
    Finish(SdResult),
}

/// The transition table of reading the SCR: the next state, action and
/// card record from `state` when the previous action ended with `event`;
/// `blksizecnt` is the register's current value and `scr_lo`, `scr_hi` the
/// words read. Busy data lines are a timeout; SEND_SCR goes out once
/// BLKSIZECNT asks for one block of 8 bytes; a failed command or wait ends
/// the read with its result; the two words read are stored as the SCR.
pub open spec fn scr_next(
    card: SdDescriptor,
    state: ScrState,
    event: SdResult,
    blksizecnt: u32,
    scr_lo: u32,
    scr_hi: u32,
) -> (ScrState, ScrAction, SdDescriptor) {
    let failed = (ScrState::Done, ScrAction::Finish(event), card);
    match state {
        ScrState::Start => (ScrState::AwaitDataIdle, ScrAction::WaitForData, card),
        ScrState::AwaitDataIdle => if event != SdResult::EMMC_OK {
            (ScrState::Done, ScrAction::Finish(SdResult::EMMC_TIMEOUT), card)
        } else {
            (
                ScrState::AwaitCommand,
                ScrAction::SendScr(blksizecnt_after(blksizecnt, 1, SCR_BLOCK_SIZE)),
                card,
            )
        },
        ScrState::AwaitCommand => if event != SdResult::EMMC_OK {
            failed
        } else {
            (ScrState::AwaitReady, ScrAction::WaitInterrupt(INT_READ_RDY), card)
        },
        ScrState::AwaitReady => if event != SdResult::EMMC_OK {
            failed
        } else {
            (ScrState::AwaitWords, ScrAction::ReadWords, card)
        },
        ScrState::AwaitWords => if event != SdResult::EMMC_OK {
            failed
        } else {
            (
                ScrState::Done,
                ScrAction::Finish(SdResult::EMMC_OK),
                SdDescriptor { scr: (scr_lo as u64) | ((scr_hi as u64) << 32u64), ..card },
            )
        },
        ScrState::Done => (ScrState::Done, ScrAction::Finish(SdResult::NONE), card),
    }
}

/// One step of reading the SCR, as `scr_next` tables it.
pub fn scr_step(
    card: &mut SdDescriptor,
    state: ScrState,
    event: SdResult,
    blksizecnt: u32,
    scr_lo: u32,
    scr_hi: u32,
) -> (r: (ScrState, ScrAction))
    ensures
        (r.0, r.1, *final(card)) == scr_next(*old(card), state, event, blksizecnt, scr_lo, scr_hi),
{
    match state {
        ScrState::Start => (ScrState::AwaitDataIdle, ScrAction::WaitForData),
        ScrState::AwaitDataIdle => {
            if event != SdResult::EMMC_OK {
                (ScrState::Done, ScrAction::Finish(SdResult::EMMC_TIMEOUT))
            } else {
                (ScrState::AwaitCommand, ScrAction::SendScr(scr_blksizecnt(blksizecnt)))
            }
        },
        ScrState::AwaitCommand => {
            if event != SdResult::EMMC_OK {
                (ScrState::Done, ScrAction::Finish(event))
            } else {
                (ScrState::AwaitReady, ScrAction::WaitInterrupt(INT_READ_RDY))
            }
        },
        ScrState::AwaitReady => {
            if event != SdResult::EMMC_OK {
                (ScrState::Done, ScrAction::Finish(event))
            } else {
                (ScrState::AwaitWords, ScrAction::ReadWords)
            }
        },
        ScrState::AwaitWords => {
            if event != SdResult::EMMC_OK {
                (ScrState::Done, ScrAction::Finish(event))
            } else {
                card.set_scr(scr_lo, scr_hi);
                (ScrState::Done, ScrAction::Finish(SdResult::EMMC_OK))
            }
        },
        ScrState::Done => (ScrState::Done, ScrAction::Finish(SdResult::NONE)),
    }
}

/// The SD clock divider as CONTROL1 bits: the low 8 bits in CLK_FREQ8
/// (15:8) and bits 9:8 in CLK_FREQ_MS2 (7:6).
pub open spec fn divider_bits(div: u32) -> u32 {
    ((div << 8u32) & 0xFF00) | (((div >> 8u32) << 6u32) & 0xC0)
}

/// CONTROL1 for a clock divider: the divider bits, DTO in the data timeout
/// unit field DATA_TOUNIT (bits 19:16), CLK_GENSEL clear, CLK_EN and
/// CLK_INTLEN. DTO is deliberately placed at the field's offset (16): a
/// shift by the field's mask value, 0xF0000, is past the word's width and
/// would leave the exponent outside DATA_TOUNIT.
pub open spec fn control1_for(div: u32) -> u32 {
    divider_bits(div) | (DTO << 16u32) | 0x4 | 0x1
}

/// The divider for an SD clock of `freq`: BASE_CLOCK / (2 x freq), one more
/// when that would run faster than `freq`.
pub open spec fn clock_divisor(freq: u32) -> u32 {
    let d = (BASE_CLOCK as int / (2 * freq)) as u32;
    if BASE_CLOCK as int / (2 * d) > freq {
        (d + 1) as u32
    } else {
        d
    }
}

/// Frequencies the divider can produce: the divider is at least 1 (half
/// the base clock at most) and fits its 10 bits. Below about 24.4 kHz the
/// divider needs more than 10 bits, which the divider encoding
/// (`emmc_get_clock_divider2`) refuses; above 25 MHz it would be 0.
pub open spec fn clock_frequency_ok(freq: u32) -> bool {
    0 < freq && 2 * freq <= BASE_CLOCK && clock_divisor(freq) < 1024
}

/// Settings of the EMMC2 clock for a frequency.
#[derive(Clone, Copy, PartialEq, Eq, Structural)]
pub struct ClockSetting {
    /// The clock divider.
    pub divisor: u32,
    /// The CONTROL1 register value.
    pub control1: u32,
}

/// Representation of the EMMC2 host controller at its MMIO base address.
pub struct EMMCController {
    pub mmio_start: usize,
}

impl EMMCController {
    /// A controller at the given MMIO base address.
    pub fn new(mmio_start_addr: usize) -> (c: Self)
        ensures
            c.mmio_start == mmio_start_addr,
    {
        EMMCController { mmio_start: mmio_start_addr }
    }

    /// CONTROL1 clock divider bit pattern of a divider value.
    pub fn emmc_get_clock_divider2(&self, div: u32) -> (v: u32)
        requires
            div < 1024,
        ensures
            v == divider_bits(div),
    {
        let clkfreq8shift: u32 = 8;
        let clkfreq8mask: u32 = 0xFF00;
        let clkfreqms2shift: u32 = 6;
        let clkfreqms2mask: u32 = 0xC0;
        let mut v = (div << clkfreq8shift) & clkfreq8mask;
        v = v | (((div >> 8u32) << clkfreqms2shift) & clkfreqms2mask);
        v
    }

    /// The divider and CONTROL1 value that set the SD clock to `freq`.
    pub fn emmc_set_clock2(&self, freq: u32) -> (s: ClockSetting)
        requires
            clock_frequency_ok(freq),
        ensures
            s.divisor == clock_divisor(freq),
            1 <= s.divisor < 1024,
            s.control1 == control1_for(s.divisor),
    {
        assert(freq << 1u32 == 2 * freq) by (bit_vector)
            requires
                freq <= 25_000_000,
        ;
        let mut div = BASE_CLOCK / (freq << 1u32);
        assert(div >= 1) by (nonlinear_arith)
            requires
                div == BASE_CLOCK as int / (2 * freq),
                2 * freq <= BASE_CLOCK,
                freq > 0,
        ;
        assert(div <= 25_000_000) by (nonlinear_arith)
            requires
                div == BASE_CLOCK as int / (2 * freq),
                freq > 0,
                BASE_CLOCK == 50_000_000,
        ;
        assert(div << 1u32 == 2 * div) by (bit_vector)
            requires
                div <= 25_000_000,
        ;
        if BASE_CLOCK / (div << 1u32) > freq {
            div = div + 1;
        }
        let control1 = self.emmc_get_clock_divider2(div) | (DTO << 16u32) | 0x4 | 0x1;
        ClockSetting { divisor: div, control1 }
    }
}

/// The SD clock the divider produces is never faster than requested.
pub proof fn lemma_clock_not_above_request(freq: u32)
    requires
        clock_frequency_ok(freq),
    ensures
        BASE_CLOCK as int / (2 * clock_divisor(freq) as int) <= freq,
{
    let d = BASE_CLOCK as int / (2 * freq);
    assert(d >= 1) by (nonlinear_arith)
        requires
            d == BASE_CLOCK as int / (2 * freq),
            2 * freq <= BASE_CLOCK,
            freq > 0,
    ;
    if BASE_CLOCK as int / (2 * d) > freq {
        assert(BASE_CLOCK as int / (2 * (d + 1)) <= freq) by (nonlinear_arith)
            requires
                d == BASE_CLOCK as int / (2 * freq),
                freq > 0,
                d >= 1,
        ;
    }
}

/// Whether the card accepts SET_BLOCK_COUNT, as the driver tests it: any bit
/// of the SCR's CMD_SUPPORT field (bits 25:24) set.
pub open spec fn scr_cmd_support_any(scr: u64) -> bool {
    scr & 0x0300_0000 != 0
}

/// The block address of a transfer: high capacity cards are addressed in
/// blocks, standard capacity cards (version 1 and version 2 SC) in bytes
/// (block x 512, in 32 bits).
pub open spec fn block_address(t: SdCardType, block: u32) -> u32 {
    if t == SdCardType::EMMC_TYPE_2_HC {
        block
    } else {
        block << 9u32
    }
}

fn card_block_address(t: SdCardType, block: u32) -> (a: u32)
    ensures
        a == block_address(t, block),
{
    if t == SdCardType::EMMC_TYPE_2_HC {
        block
    } else {
        block << 9u32
    }
}

/// A block transfer to or from the card.
#[derive(Clone, Copy, PartialEq, Eq, Structural, Debug)]
pub enum TransferState {
    Start,
    AwaitDataIdle,
    AwaitBlockCount,
    AwaitTransferCommand,
    /// Waiting for the ready interrupt of this block.
    AwaitBlock(u32),
    AwaitDataDone,
    AwaitStop,
    Done,
}

/// What the driver does next in a block transfer.
#[derive(Clone, Copy, PartialEq, Eq, Structural, Debug)]
pub enum TransferAction {
    /// Wait for the data lines to be idle.
    WaitForData,
    /// Send a command with the given argument (APP_CMD first if needed).
    SendCommandA(SdCardCommands, u32),
    /// Send a command with its implicit argument.
    SendCommand(SdCardCommands),
    /// Program BLKSIZECNT with this many blocks of 512 bytes
    /// (`transfer_blksizecnt`), then send the read or write command with the
    /// given address.
    StartTransfer(u32, SdCardCommands, u32),
    /// Wait for this interrupt, then move block `index` (512 bytes) between
    /// the buffer and the data register.
    MoveBlock(u32, u32),
    /// Wait for this interrupt.
    WaitInterrupt(u32),
    /// The transfer is over with this result.
    Finish(SdResult),
}

/// A block transfer request.
#[derive(Clone, Copy, PartialEq, Eq, Structural, Debug)]
pub struct Transfer {
    pub start_block: u32,
    pub num_blocks: u32,
    pub write: bool,
}

/// The command that moves the blocks: single or multiple block, read or
/// write.
pub open spec fn transfer_command(t: Transfer) -> SdCardCommands {
    if t.write {
        if t.num_blocks == 1 { SdCardCommands::WRITE_SINGLE } else { SdCardCommands::WRITE_MULTI }
    } else {
        if t.num_blocks == 1 { SdCardCommands::READ_SINGLE } else { SdCardCommands::READ_MULTI }
    }
}

/// The interrupt that announces each block: write-ready or read-ready.
pub open spec fn ready_interrupt(t: Transfer) -> u32 {
    if t.write { INT_WRITE_RDY } else { INT_READ_RDY }
}

/// Upper bound on the steps left in a transfer.
pub open spec fn transfer_rank(t: Transfer, s: TransferState) -> int {
    match s {
        TransferState::Start => t.num_blocks + 8,
        TransferState::AwaitDataIdle => t.num_blocks + 7,
        TransferState::AwaitBlockCount => t.num_blocks + 6,
        TransferState::AwaitTransferCommand => t.num_blocks + 5,
        TransferState::AwaitBlock(k) => t.num_blocks - k + 4,
        TransferState::AwaitDataDone => 3,
        TransferState::AwaitStop => 1,
        TransferState::Done => 0,
    }
}

/// Whether a transfer state is one the machine can reach.
pub open spec fn transfer_state_ok(t: Transfer, s: TransferState) -> bool {
    match s {
        TransferState::AwaitBlock(k) => k < t.num_blocks,
        TransferState::AwaitDataDone | TransferState::AwaitStop => t.num_blocks >= 1,
        _ => true,
    }
}

fn transfer_cmd(t: &Transfer) -> (c: SdCardCommands)
    ensures
        c == transfer_command(*t),
{
    if t.write {
        if t.num_blocks == 1 { SdCardCommands::WRITE_SINGLE } else { SdCardCommands::WRITE_MULTI }
    } else {
        if t.num_blocks == 1 { SdCardCommands::READ_SINGLE } else { SdCardCommands::READ_MULTI }
    }
}

/// The step that programs BLKSIZECNT and sends the read or write command.
pub open spec fn start_transfer(t: Transfer, card: SdDescriptor) -> (TransferState, TransferAction) {
    (
        TransferState::AwaitTransferCommand,
        TransferAction::StartTransfer(
            t.num_blocks,
            transfer_command(t),
            block_address(card.emmc_card_type, t.start_block),
        ),
    )
}

/// The step once every block has moved (and, for a write, the data is
/// done): a multi-block transfer to a card without CMD_SUPPORT is stopped
/// with STOP_TRANS, any other transfer is over.
pub open spec fn end_transfer(t: Transfer, card: SdDescriptor) -> (TransferState, TransferAction) {
    if t.num_blocks > 1 && !scr_cmd_support_any(card.scr) {
        (TransferState::AwaitStop, TransferAction::SendCommand(SdCardCommands::STOP_TRANS))
    } else {
        (TransferState::Done, TransferAction::Finish(SdResult::EMMC_OK))
    }
}

/// The transition table of a block transfer: the next state and action from
/// `state` when the previous action ended with `event`.
pub open spec fn transfer_next(t: Transfer, card: SdDescriptor, state: TransferState, event: SdResult) -> (
    TransferState,
    TransferAction,
) {
    let failed = (TransferState::Done, TransferAction::Finish(event));
    match state {
        TransferState::Start => if card.emmc_card_type == SdCardType::EMMC_TYPE_UNKNOWN {
            (TransferState::Done, TransferAction::Finish(SdResult::EMMC_NO_RESP))
        } else {
            (TransferState::AwaitDataIdle, TransferAction::WaitForData)
        },
        TransferState::AwaitDataIdle => if event != SdResult::EMMC_OK {
            (TransferState::Done, TransferAction::Finish(SdResult::EMMC_TIMEOUT))
        } else if t.num_blocks > 1 && scr_cmd_support_any(card.scr) {
            (
                TransferState::AwaitBlockCount,
                TransferAction::SendCommandA(SdCardCommands::SET_BLOCKCNT, t.num_blocks),
            )
        } else {
            start_transfer(t, card)
        },
        TransferState::AwaitBlockCount => if event != SdResult::EMMC_OK {
            failed
        } else {
            start_transfer(t, card)
        },
        TransferState::AwaitTransferCommand => if event != SdResult::EMMC_OK {
            failed
        } else if t.num_blocks == 0 {
            (TransferState::Done, TransferAction::Finish(SdResult::EMMC_TIMEOUT))
        } else {
            (TransferState::AwaitBlock(0), TransferAction::MoveBlock(ready_interrupt(t), 0))
        },
        TransferState::AwaitBlock(k) => if event != SdResult::EMMC_OK {
            failed
        } else if k + 1 < t.num_blocks {
            (TransferState::AwaitBlock((k + 1) as u32), TransferAction::MoveBlock(ready_interrupt(t), (k + 1) as u32))
        } else if t.write {
            (TransferState::AwaitDataDone, TransferAction::WaitInterrupt(INT_DATA_DONE))
        } else {
            end_transfer(t, card)
        },
        TransferState::AwaitDataDone => if event != SdResult::EMMC_OK {
            failed
        } else {
            end_transfer(t, card)
        },
        TransferState::AwaitStop => if event != SdResult::EMMC_OK {
            failed
        } else {
            (TransferState::Done, TransferAction::Finish(SdResult::EMMC_OK))
        },
        TransferState::Done => (TransferState::Done, TransferAction::Finish(SdResult::NONE)),
    }
}

/// One step of a block transfer: given the outcome of the previous action,
/// decide the next state and action.
///
/// An unknown card gets no response. Before a multi-block transfer a card
/// whose SCR announces CMD_SUPPORT gets SET_BLOCKCNT; the block count and
/// size are programmed and the read or write command sent with the block's
/// address; blocks are moved one by one after each ready interrupt; a write
/// ends with the data-done interrupt; a multi-block transfer to a card
/// without CMD_SUPPORT ends with STOP_TRANS. A transfer of no blocks times
/// out after its command.
pub fn transfer_step(t: &Transfer, card: &SdDescriptor, state: TransferState, event: SdResult) -> (r: (
    TransferState,
    TransferAction,
))
    requires
        transfer_state_ok(*t, state),
    ensures
        r == transfer_next(*t, *card, state, event),
        transfer_state_ok(*t, r.0),
        state != TransferState::Done ==> transfer_rank(*t, r.0) < transfer_rank(*t, state),
        (r.0 == TransferState::Done) == (r.1 is Finish),
        r.1 == TransferAction::Finish(SdResult::EMMC_OK) ==> event == SdResult::EMMC_OK && t.num_blocks >= 1,
{
    let supports_count = card.scr & 0x0300_0000 != 0;
    match state {
        TransferState::Start => {
            if card.emmc_card_type == SdCardType::EMMC_TYPE_UNKNOWN {
                (TransferState::Done, TransferAction::Finish(SdResult::EMMC_NO_RESP))
            } else {
                (TransferState::AwaitDataIdle, TransferAction::WaitForData)
            }
        },
        TransferState::AwaitDataIdle => {
            if event != SdResult::EMMC_OK {
                (TransferState::Done, TransferAction::Finish(SdResult::EMMC_TIMEOUT))
            } else if t.num_blocks > 1 && supports_count {
                (
                    TransferState::AwaitBlockCount,
                    TransferAction::SendCommandA(SdCardCommands::SET_BLOCKCNT, t.num_blocks),
                )
            } else {
                let addr = card_block_address(card.emmc_card_type, t.start_block);
                (TransferState::AwaitTransferCommand, TransferAction::StartTransfer(t.num_blocks, transfer_cmd(t), addr))
            }
        },
        TransferState::AwaitBlockCount => {
            if event != SdResult::EMMC_OK {
                (TransferState::Done, TransferAction::Finish(event))
            } else {
                let addr = card_block_address(card.emmc_card_type, t.start_block);
                (TransferState::AwaitTransferCommand, TransferAction::StartTransfer(t.num_blocks, transfer_cmd(t), addr))
            }
        },
        TransferState::AwaitTransferCommand => {
            if event != SdResult::EMMC_OK {
                (TransferState::Done, TransferAction::Finish(event))
            } else if t.num_blocks == 0 {
                (TransferState::Done, TransferAction::Finish(SdResult::EMMC_TIMEOUT))
            } else {
                let m = if t.write { INT_WRITE_RDY } else { INT_READ_RDY };
                (TransferState::AwaitBlock(0), TransferAction::MoveBlock(m, 0))
            }
        },
        TransferState::AwaitBlock(k) => {
            if event != SdResult::EMMC_OK {
                (TransferState::Done, TransferAction::Finish(event))
            } else if k + 1 < t.num_blocks {
                let m = if t.write { INT_WRITE_RDY } else { INT_READ_RDY };
                (TransferState::AwaitBlock(k + 1), TransferAction::MoveBlock(m, k + 1))
            } else if t.write {
                (TransferState::AwaitDataDone, TransferAction::WaitInterrupt(INT_DATA_DONE))
            } else if t.num_blocks > 1 && !supports_count {
                (TransferState::AwaitStop, TransferAction::SendCommand(SdCardCommands::STOP_TRANS))
            } else {
                (TransferState::Done, TransferAction::Finish(SdResult::EMMC_OK))
            }
        },
        TransferState::AwaitDataDone => {
            if event != SdResult::EMMC_OK {
                (TransferState::Done, TransferAction::Finish(event))
            } else if t.num_blocks > 1 && !supports_count {
                (TransferState::AwaitStop, TransferAction::SendCommand(SdCardCommands::STOP_TRANS))
            } else {
                (TransferState::Done, TransferAction::Finish(SdResult::EMMC_OK))
            }
        },
        TransferState::AwaitStop => {
            if event != SdResult::EMMC_OK {
                (TransferState::Done, TransferAction::Finish(event))
            } else {
                (TransferState::Done, TransferAction::Finish(SdResult::EMMC_OK))
            }
        },
        TransferState::Done => (TransferState::Done, TransferAction::Finish(SdResult::NONE)),
    }
}

/// A data word written to the card: four buffer bytes, little-endian.
pub open spec fn word_of(b0: u8, b1: u8, b2: u8, b3: u8) -> u32 {
    (b0 as u32) | ((b1 as u32) << 8u32) | ((b2 as u32) << 16u32) | ((b3 as u32) << 24u32)
}

/// Packs four buffer bytes into the data word written to the card.
pub fn pack_word(b0: u8, b1: u8, b2: u8, b3: u8) -> (w: u32)
    ensures
        w == word_of(b0, b1, b2, b3),
{
    (b0 as u32) | ((b1 as u32) << 8u32) | ((b2 as u32) << 16u32) | ((b3 as u32) << 24u32)
}

/// The four buffer bytes a data word read from the card is stored as:
/// little-endian, the order a write sends them in, whether the buffer is
/// word-aligned or not. The unaligned case is deliberately not stored
/// byte-reversed: a reversed store would make the same blocks read
/// differently into aligned and unaligned buffers, and a read would not give
/// back what a write wrote.
pub fn unpack_word(w: u32, aligned: bool) -> (b: (u8, u8, u8, u8))
    ensures
        word_of(b.0, b.1, b.2, b.3) == w,
{
    let x0 = (w & 0xff) as u8;
    let x1 = ((w >> 8u32) & 0xff) as u8;
    let x2 = ((w >> 16u32) & 0xff) as u8;
    let x3 = ((w >> 24u32) & 0xff) as u8;
    assert(word_of(x0, x1, x2, x3) == w) by (bit_vector)
        requires
            x0 == (w & 0xff) as u8,
            x1 == ((w >> 8u32) & 0xff) as u8,
            x2 == ((w >> 16u32) & 0xff) as u8,
            x3 == ((w >> 24u32) & 0xff) as u8,
    ;
    (x0, x1, x2, x3)
}

/// The erase range of `num_blocks` blocks from `start_block`: the addresses
/// of its first and last block (ERASE_WR_ST and ERASE_WR_END take both
/// ends inclusive), or none when there is no block to clear.
pub fn erase_range(card: &SdDescriptor, start_block: u32, num_blocks: u32) -> (r: Option<(u32, u32)>)
    requires
        start_block + num_blocks <= u32::MAX + 1,
    ensures
        r == (if num_blocks == 0 {
            None
        } else {
            Some(
                (
                    block_address(card.emmc_card_type, start_block),
                    block_address(card.emmc_card_type, (start_block + num_blocks - 1) as u32),
                ),
            )
        }),
{
    if num_blocks == 0 {
        None
    } else {
        Some(
            (
                card_block_address(card.emmc_card_type, start_block),
                card_block_address(card.emmc_card_type, start_block + (num_blocks - 1)),
            ),
        )
    }
}

/// Outcome of the erase wait: the data lines still inhibited after the last
/// poll is a timeout.
pub fn erase_wait_outcome(count: u32, dat_inhibit: bool) -> (r: SdResult)
    ensures
        r == (if dat_inhibit && count == 0 { SdResult::EMMC_TIMEOUT } else { SdResult::EMMC_OK }),
{
    if dat_inhibit && count == 0 {
        SdResult::EMMC_TIMEOUT
    } else {
        SdResult::EMMC_OK
    }
}


/// Where the card initialisation sequence stands.
#[derive(Clone, Copy, PartialEq, Eq, Structural, Debug)]
pub enum InitState {
    Start,
    AwaitReset,
    AwaitIfCond,
    AwaitOpCondHc,
    AwaitLegacyReset,
    AwaitOpCondSc,
    AwaitCid,
    AwaitRca,
    AwaitCsd,
    AwaitClock,
    AwaitSelect,
    AwaitScr,
    AwaitBusWidth,
    AwaitBusConfigured,
    AwaitBlocklen,
    Done,
}

/// What the driver does next in the initialisation sequence.
#[derive(Clone, Copy, PartialEq, Eq, Structural, Debug)]
pub enum InitAction {
    /// Reset the controller and the card record, then GO_IDLE_STATE.
    ResetCard,
    /// Send a command with the given argument (APP_CMD first if needed).
    SendCommandA(SdCardCommands, u32),
    /// Send a command with its implicit argument (APP_CMD first if needed).
    SendCommand(SdCardCommands),
    /// Run the ACMD41 loop with the given argument.
    AppSendOpCond(u32),
    /// Set the SD clock to the given frequency.
    SetClock(u32),
    /// Read the card's SCR: wait for the data lines, program BLKSIZECNT with
    /// `scr_blksizecnt`, send SEND_SCR, wait for the read-ready interrupt and
    /// read the two SCR words.
    ReadScr,
    /// Switch the controller to the 4-bit data bus.
    UseFourBitBus,
    /// Initialisation is over with this result.
    Finish(SdResult),
}

/// Steps left before the sequence is over, at most.
pub open spec fn init_rank(s: InitState) -> nat {
    match s {
        InitState::Start => 16,
        InitState::AwaitReset => 15,
        InitState::AwaitIfCond => 14,
        InitState::AwaitLegacyReset => 13,
        InitState::AwaitOpCondSc => 12,
        InitState::AwaitOpCondHc => 12,
        InitState::AwaitCid => 11,
        InitState::AwaitRca => 10,
        InitState::AwaitCsd => 9,
        InitState::AwaitClock => 8,
        InitState::AwaitSelect => 7,
        InitState::AwaitScr => 6,
        InitState::AwaitBusWidth => 5,
        InitState::AwaitBusConfigured => 4,
        InitState::AwaitBlocklen => 3,
        InitState::Done => 0,
    }
}

/// The transition table of the card initialisation: the next state and
/// action from `state` when the previous action ended with `event` (and,
/// after the legacy reset, `cmd_inhibit` tells whether a command is still in
/// progress).
///
/// Reset, then SEND_IF_COND: a version 2 card answers and gets ACMD41 with
/// the high capacity argument; a busy controller ends the sequence; any
/// other failure means a version 1 card, which is reset again and gets
/// ACMD41 with the standard capacity argument. Then ALL_SEND_CID,
/// SEND_REL_ADDR, SEND_CSD, the normal clock, CARD_SELECT, the SCR read,
/// SET_BUS_WIDTH when the card supports the 4-bit bus, and SET_BLOCKLEN
/// 512. Any failing step ends the sequence with its result.
pub open spec fn init_next(state: InitState, card: SdDescriptor, event: SdResult, cmd_inhibit: bool) -> (
    InitState,
    InitAction,
) {
    let failed = (InitState::Done, InitAction::Finish(event));
    let ok = event == SdResult::EMMC_OK;
    match state {
        InitState::Start => (InitState::AwaitReset, InitAction::ResetCard),
        InitState::AwaitReset => if !ok {
            failed
        } else {
            (InitState::AwaitIfCond, InitAction::SendCommandA(SdCardCommands::SEND_IF_COND, IF_COND_ARG))
        },
        InitState::AwaitIfCond => if ok {
            (InitState::AwaitOpCondHc, InitAction::AppSendOpCond(ACMD41_ARG_HC))
        } else if event == SdResult::EMMC_BUSY {
            failed
        } else {
            (InitState::AwaitLegacyReset, InitAction::ResetCard)
        },
        InitState::AwaitOpCondHc => if !ok {
            failed
        } else {
            (InitState::AwaitCid, InitAction::SendCommand(SdCardCommands::ALL_SEND_CID))
        },
        InitState::AwaitLegacyReset => if cmd_inhibit && !ok {
            failed
        } else {
            (InitState::AwaitOpCondSc, InitAction::AppSendOpCond(ACMD41_ARG_SC))
        },
        InitState::AwaitOpCondSc => if !ok {
            failed
        } else {
            (InitState::AwaitCid, InitAction::SendCommand(SdCardCommands::ALL_SEND_CID))
        },
        InitState::AwaitCid => if !ok {
            failed
        } else {
            (InitState::AwaitRca, InitAction::SendCommand(SdCardCommands::SEND_REL_ADDR))
        },
        InitState::AwaitRca => if !ok {
            failed
        } else {
            (InitState::AwaitCsd, InitAction::SendCommand(SdCardCommands::SEND_CSD))
        },
        InitState::AwaitCsd => if !ok {
            failed
        } else {
            (InitState::AwaitClock, InitAction::SetClock(FREQ_NORMAL))
        },
        InitState::AwaitClock => if !ok {
            failed
        } else {
            (InitState::AwaitSelect, InitAction::SendCommand(SdCardCommands::CARD_SELECT))
        },
        InitState::AwaitSelect => if !ok {
            failed
        } else {
            (InitState::AwaitScr, InitAction::ReadScr)
        },
        InitState::AwaitScr => if !ok {
            failed
        } else if scr_bus_width_1_4(card.scr) {
            (InitState::AwaitBusWidth, InitAction::SendCommandA(SdCardCommands::SET_BUS_WIDTH, card.rca | 2))
        } else {
            (InitState::AwaitBlocklen, InitAction::SendCommandA(SdCardCommands::SET_BLOCKLEN, 512))
        },
        InitState::AwaitBusWidth => if !ok {
            failed
        } else {
            (InitState::AwaitBusConfigured, InitAction::UseFourBitBus)
        },
        InitState::AwaitBusConfigured => (
            InitState::AwaitBlocklen,
            InitAction::SendCommandA(SdCardCommands::SET_BLOCKLEN, 512),
        ),
        InitState::AwaitBlocklen => if !ok {
            failed
        } else {
            (InitState::Done, InitAction::Finish(SdResult::EMMC_OK))
        },
        InitState::Done => (InitState::Done, InitAction::Finish(SdResult::NONE)),
    }
}

/// The card record after an initialisation step: the accepted ACMD41 of a
/// version 2 card records its type from the OCR's capacity bit (high or
/// standard capacity), that of a version 1 card records version 1; every
/// other step leaves the record as it was.
pub open spec fn init_card_after(state: InitState, card: SdDescriptor, event: SdResult) -> SdDescriptor {
    if state == InitState::AwaitOpCondHc && event == SdResult::EMMC_OK {
        SdDescriptor {
            emmc_card_type: if ocr_high_capacity(card.ocr) {
                SdCardType::EMMC_TYPE_2_HC
            } else {
                SdCardType::EMMC_TYPE_2_SC
            },
            ..card
        }
    } else if state == InitState::AwaitOpCondSc && event == SdResult::EMMC_OK {
        SdDescriptor { emmc_card_type: SdCardType::EMMC_TYPE_1, ..card }
    } else {
        card
    }
}

/// The states the initialisation reaches only once the card's operating
/// conditions are known.
pub open spec fn init_typed(s: InitState) -> bool {
    match s {
        InitState::AwaitCid | InitState::AwaitRca | InitState::AwaitCsd | InitState::AwaitClock
        | InitState::AwaitSelect | InitState::AwaitScr | InitState::AwaitBusWidth
        | InitState::AwaitBusConfigured | InitState::AwaitBlocklen => true,
        _ => false,
    }
}

/// Whether the record names a card type: version 1, or version 2 of high or
/// standard capacity.
pub open spec fn card_typed(c: SdDescriptor) -> bool {
    c.emmc_card_type == SdCardType::EMMC_TYPE_2_HC || c.emmc_card_type == SdCardType::EMMC_TYPE_2_SC || c.emmc_card_type == SdCardType::EMMC_TYPE_1
}

/// The state and card record after the initialisation steps with the
/// outcomes `events` (each with its command-inhibit flag), from the start.
pub open spec fn init_run(card: SdDescriptor, events: Seq<(SdResult, bool)>) -> (InitState, SdDescriptor)
    decreases events.len(),
{
    if events.len() == 0 {
        (InitState::Start, card)
    } else {
        let prev = init_run(card, events.drop_last());
        (
            init_next(prev.0, prev.1, events.last().0, events.last().1).0,
            init_card_after(prev.0, prev.1, events.last().0),
        )
    }
}

proof fn lemma_init_run_typed(card: SdDescriptor, events: Seq<(SdResult, bool)>)
    ensures
        init_typed(init_run(card, events).0) ==> card_typed(init_run(card, events).1),
    decreases events.len(),
{
    if events.len() > 0 {
        lemma_init_run_typed(card, events.drop_last());
    }
}

/// Whatever the card answers along the way, an initialisation that ends
/// with success has passed an accepted ACMD41 and recorded the card's type:
/// version 1, or version 2 of high or standard capacity.
pub proof fn lemma_init_success_types_card(
    card: SdDescriptor,
    events: Seq<(SdResult, bool)>,
    event: SdResult,
    cmd_inhibit: bool,
)
    ensures
        init_next(init_run(card, events).0, init_run(card, events).1, event, cmd_inhibit).1
            == InitAction::Finish(SdResult::EMMC_OK) ==> card_typed(
            init_card_after(init_run(card, events).0, init_run(card, events).1, event),
        ),
{
    lemma_init_run_typed(card, events);
}

/// An accepted ACMD41 records the card's type from what the card said: a
/// version 2 card is high capacity exactly when its OCR has the card
/// capacity status bit (30) set, and a card that only answered the legacy
/// ACMD41 is version 1; the RCA, OCR and SCR stay as they were. A high capacity card is then addressed by block number, a standard capacity one by byte address.
pub proof fn lemma_op_cond_records_capacity(card: SdDescriptor)
    ensures
        init_card_after(InitState::AwaitOpCondHc, card, SdResult::EMMC_OK).emmc_card_type == (if card.ocr
            & 0x4000_0000 != 0 {
            SdCardType::EMMC_TYPE_2_HC
        } else {
            SdCardType::EMMC_TYPE_2_SC
        }),
        init_card_after(InitState::AwaitOpCondSc, card, SdResult::EMMC_OK).emmc_card_type == SdCardType::EMMC_TYPE_1,
        init_card_after(InitState::AwaitOpCondHc, card, SdResult::EMMC_OK).rca == card.rca,
        init_card_after(InitState::AwaitOpCondHc, card, SdResult::EMMC_OK).ocr == card.ocr,
        init_card_after(InitState::AwaitOpCondHc, card, SdResult::EMMC_OK).scr == card.scr,
        forall|b: u32|
            #[trigger] block_address(
                init_card_after(InitState::AwaitOpCondHc, card, SdResult::EMMC_OK).emmc_card_type,
                b,
            ) == (if card.ocr & 0x4000_0000 != 0 {
                b
            } else {
                b << 9u32
            }),
{
}

/// One step of the card initialisation: given the outcome `event` of the
/// previous action (and, after the legacy reset, whether a command is still
/// in progress), decide the next state and action, as `init_next` tables
/// them. The card type is recorded in `card` once the operating conditions
/// are known.
pub fn init_step(state: InitState, card: &mut SdDescriptor, event: SdResult, cmd_inhibit: bool) -> (r: (
    InitState,
    InitAction,
))
    ensures
        r == init_next(state, *old(card), event, cmd_inhibit),
        *final(card) == init_card_after(state, *old(card), event),
        state != InitState::Done ==> init_rank(r.0) < init_rank(state),
        (r.0 == InitState::Done) == (r.1 is Finish),
        r.1 == InitAction::Finish(SdResult::EMMC_OK) ==> state == InitState::AwaitBlocklen && event
            == SdResult::EMMC_OK,
{
    match state {
        InitState::Start => (InitState::AwaitReset, InitAction::ResetCard),
        InitState::AwaitReset => {
            if event != SdResult::EMMC_OK {
                (InitState::Done, InitAction::Finish(event))
            } else {
                (InitState::AwaitIfCond, InitAction::SendCommandA(SdCardCommands::SEND_IF_COND, IF_COND_ARG))
            }
        },
        InitState::AwaitIfCond => {
            if event == SdResult::EMMC_OK {
                (InitState::AwaitOpCondHc, InitAction::AppSendOpCond(ACMD41_ARG_HC))
            } else if event == SdResult::EMMC_BUSY {
                (InitState::Done, InitAction::Finish(event))
            } else {
                (InitState::AwaitLegacyReset, InitAction::ResetCard)
            }
        },
        InitState::AwaitOpCondHc => {
            if event != SdResult::EMMC_OK {
                (InitState::Done, InitAction::Finish(event))
            } else {
                card.set_type_from_ocr();
                (InitState::AwaitCid, InitAction::SendCommand(SdCardCommands::ALL_SEND_CID))
            }
        },
        InitState::AwaitLegacyReset => {
            if cmd_inhibit && event != SdResult::EMMC_OK {
                (InitState::Done, InitAction::Finish(event))
            } else {
                (InitState::AwaitOpCondSc, InitAction::AppSendOpCond(ACMD41_ARG_SC))
            }
        },
        InitState::AwaitOpCondSc => {
            if event != SdResult::EMMC_OK {
                (InitState::Done, InitAction::Finish(event))
            } else {
                card.emmc_card_type = SdCardType::EMMC_TYPE_1;
                (InitState::AwaitCid, InitAction::SendCommand(SdCardCommands::ALL_SEND_CID))
            }
        },
        InitState::AwaitCid => {
            if event != SdResult::EMMC_OK {
                (InitState::Done, InitAction::Finish(event))
            } else {
                (InitState::AwaitRca, InitAction::SendCommand(SdCardCommands::SEND_REL_ADDR))
            }
        },
        InitState::AwaitRca => {
            if event != SdResult::EMMC_OK {
                (InitState::Done, InitAction::Finish(event))
            } else {
                (InitState::AwaitCsd, InitAction::SendCommand(SdCardCommands::SEND_CSD))
            }
        },
        InitState::AwaitCsd => {
            if event != SdResult::EMMC_OK {
                (InitState::Done, InitAction::Finish(event))
            } else {
                (InitState::AwaitClock, InitAction::SetClock(FREQ_NORMAL))
            }
        },
        InitState::AwaitClock => {
            if event != SdResult::EMMC_OK {
                (InitState::Done, InitAction::Finish(event))
            } else {
                (InitState::AwaitSelect, InitAction::SendCommand(SdCardCommands::CARD_SELECT))
            }
        },
        InitState::AwaitSelect => {
            if event != SdResult::EMMC_OK {
                (InitState::Done, InitAction::Finish(event))
            } else {
                (InitState::AwaitScr, InitAction::ReadScr)
            }
        },
        InitState::AwaitScr => {
            if event != SdResult::EMMC_OK {
                (InitState::Done, InitAction::Finish(event))
            } else if card.supports_4bit_bus() {
                (
                    InitState::AwaitBusWidth,
                    InitAction::SendCommandA(SdCardCommands::SET_BUS_WIDTH, card.bus_width_4_argument()),
                )
            } else {
                (InitState::AwaitBlocklen, InitAction::SendCommandA(SdCardCommands::SET_BLOCKLEN, 512))
            }
        },
        InitState::AwaitBusWidth => {
            if event != SdResult::EMMC_OK {
                (InitState::Done, InitAction::Finish(event))
            } else {
                (InitState::AwaitBusConfigured, InitAction::UseFourBitBus)
            }
        },
        InitState::AwaitBusConfigured => {
            (InitState::AwaitBlocklen, InitAction::SendCommandA(SdCardCommands::SET_BLOCKLEN, 512))
        },
        InitState::AwaitBlocklen => {
            if event != SdResult::EMMC_OK {
                (InitState::Done, InitAction::Finish(event))
            } else {
                (InitState::Done, InitAction::Finish(SdResult::EMMC_OK))
            }
        },
        InitState::Done => (InitState::Done, InitAction::Finish(SdResult::NONE)),
    }
}

} // verus!
