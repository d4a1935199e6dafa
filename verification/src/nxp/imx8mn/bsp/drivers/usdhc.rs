//! Ultra Secured Digital Host Controller (uSDHC) of the i.MX 8M Nano: the
//! command table, the handling of card responses, the SD clock dividers and
//! the decisions of the card initialisation sequence.
//!
//! The register accesses themselves are performed by the caller; this module
//! decides what to send and what each response means.

use vstd::prelude::*;
use crate::sdcard::{R1_ERRORS_MASK, ST_APP_CMD, CID, CSD, csd_after, csd_capacity, csd_capacity_fits, resp_bytes, r6_rca, r6_status, status_from_r6};

verus! {

/// Interrupt status bit: command complete.
pub const INT_CMD_DONE: u32 = 0x00000001;
/// Identification-mode SD clock (400 kHz).
pub const FREQ_SETUP: u32 = 400_000;
/// Data-transfer SD clock (50 MHz).
pub const FREQ_NORMAL: u32 = 50_000_000;
/// uSDHC base clock (400 MHz).
pub const BASE_CLOCK: u32 = 400_000_000;
/// ACMD41 argument bits.
pub const ACMD41_HCS: u32 = 0x40000000;
pub const ACMD41_SDXC_POWER: u32 = 0x10000000;
pub const ACMD41_S18R: u32 = 0x04000000;
pub const ACMD41_VOLTAGE: u32 = 0x00ff8000;
/// ACMD41 argument for a high capacity card.
pub const ACMD41_ARG_HC: u32 = 0x50ff8000;
/// ACMD41 argument for a standard capacity card.
pub const ACMD41_ARG_SC: u32 = 0x00ff8000;
/// SEND_IF_COND argument: voltage range 1, check pattern 0xAA.
pub const IF_COND_ARG: u32 = 0x000001AA;
/// Interrupt status bits of a failed command: command timeout, CRC, end-bit
/// and index errors.
pub const CMD_ERROR_BITS: u32 = 0x000F0000;
/// Vendor-specific register initial value.
pub const VENDORSPEC_INIT: u32 = 0x2000000b;
/// Tuning control register initial value.
pub const TUNINIG_CTRL_INIT: u32 = 0x01222894;

/// Result of an SD operation.
#[derive(Clone, Copy, PartialEq, Eq, Structural, Debug)]
pub enum SdResult {
    /// No error
    SdOk,
    /// General non specific SD error
    SdError,
    /// SD Timeout error
    SdTimeout,
    /// SD Card is busy
    SdBusy,
    /// SD Card did not respond
    SdNoResp,
    /// SD Card did not reset
    SdErrorReset,
    /// SD Card clock change failed
    SdErrorClock,
    /// SD Card does not support requested voltage
    SdErrorVoltage,
    /// SD Card app command failed
    SdErrorAppCmd,
    /// SD Card not present
    SdCardAbsent,
    SdReadError,
    SdMountFail,
    /// The card reported these error bits in its status.
    SdCardState(u32),
    /// No operation has produced a result yet.
    NotRun,
}

/// The type of SD card.
#[derive(Clone, Copy, PartialEq, Eq, Structural, Debug)]
pub enum SdCardType {
    TypeUnknown,
    TypeMmc,
    Type1,
    Type2Sc,
    Type2Hc,
}

impl SdCardType {
    /// The name the card type is reported under.
    pub fn name(&self) -> (r: &'static str)
        ensures
            *self == SdCardType::TypeUnknown ==> r@ == "Unknown"@,
            *self == SdCardType::TypeMmc ==> r@ == "MMC"@,
            *self == SdCardType::Type1 ==> r@ == "Type 1"@,
            *self == SdCardType::Type2Sc ==> r@ == "Type 2 SC"@,
            *self == SdCardType::Type2Hc ==> r@ == "Type 2 HC"@,
    {
        match self {
            SdCardType::TypeUnknown => "Unknown",
            SdCardType::TypeMmc => "MMC",
            SdCardType::Type1 => "Type 1",
            SdCardType::Type2Sc => "Type 2 SC",
            SdCardType::Type2Hc => "Type 2 HC",
        }
    }
}

/// An SD command record.
#[derive(Clone, Copy)]
pub struct Command {
    /// Name the command is logged under.
    pub cmd_name: &'static str,
    /// Value written to the command transfer type register.
    pub cmd_code: u32,
    /// 1 when the card's RCA is the command argument.
    pub use_rca: u16,
    /// Delay in microseconds to apply after issuing the command.
    pub delay: u16,
}

impl Command {
    /// The empty command record.
    pub fn new() -> (c: Self)
        ensures
            c.cmd_name@ == " "@,
            c.cmd_code == 0,
            c.use_rca == 0,
            c.delay == 0,
    {
        Command { cmd_name: " ", cmd_code: 0, use_rca: 0, delay: 0 }
    }

    /// Response type field (0: none, 1: 136 bits, 2: 48 bits, 3: 48 bits
    /// with busy).
    pub fn response_type(&self) -> (r: u32)
        ensures
            r == resp_type_of(self.cmd_code),
            r < 4,
    {
        let c = self.cmd_code;
        let r = (c >> 16u32) & 0x3;
        assert(r < 4) by (bit_vector)
            requires
                r == (c >> 16u32) & 0x3,
        ;
        r
    }

    /// Command index field.
    pub fn index(&self) -> (r: u32)
        ensures
            r == cmd_index_of(self.cmd_code),
    {
        (self.cmd_code >> 24u32) & 0x3f
    }

    /// Whether the response to this command is followed by the two data
    /// words of the SCR (SEND_SCR).
    pub fn reads_scr(&self) -> (r: bool)
        ensures
            r == (resp_type_of(self.cmd_code) == 2 && cmd_index_of(self.cmd_code) == 0x33),
    {
        self.response_type() == 2 && self.index() == 0x33
    }
}

/// Static description of a command.
pub struct CmdSpec {
    pub index: u32,
    pub rsp: u32,
    pub ccc: bool,
    pub cic: bool,
    pub dp: bool,
    pub use_rca: u16,
    pub delay: u16,
}

/// The command transfer type register value: CMDINX (29:24), DPSEL (21),
/// CICEN (20), CCCEN (19) and RSPTYP (17:16).
pub open spec fn spec_encode(s: CmdSpec) -> u32 {
    (s.index << 24u32) | ((if s.dp { 1u32 } else { 0u32 }) << 21u32) | ((if s.cic { 1u32 } else { 0u32 }) << 20u32)
        | ((if s.ccc { 1u32 } else { 0u32 }) << 19u32) | (s.rsp << 16u32)
}

/// CMDINX of a command register value.
pub open spec fn cmd_index_of(code: u32) -> u32 {
    (code >> 24u32) & 0x3f
}

/// RSPTYP of a command register value.
pub open spec fn resp_type_of(code: u32) -> u32 {
    (code >> 16u32) & 0x3
}

fn encode_cmd(index: u32, rsp: u32, ccc: bool, cic: bool, dp: bool) -> (r: u32)
    ensures
        r == spec_encode(CmdSpec { index, rsp, ccc, cic, dp, use_rca: 0, delay: 0 }),
{
    (index << 24u32) | ((if dp { 1u32 } else { 0u32 }) << 21u32) | ((if cic { 1u32 } else { 0u32 }) << 20u32)
        | ((if ccc { 1u32 } else { 0u32 }) << 19u32) | (rsp << 16u32)
}

/// Decoding a command register value gives back the command's index and
/// response type.
pub proof fn lemma_decode_encode(s: CmdSpec)
    requires
        s.index < 64,
        s.rsp < 4,
    ensures
        cmd_index_of(spec_encode(s)) == s.index,
        resp_type_of(spec_encode(s)) == s.rsp,
{
    let i = s.index;
    let r = s.rsp;
    let d: u32 = if s.dp { 1 } else { 0 };
    let c: u32 = if s.cic { 1 } else { 0 };
    let k: u32 = if s.ccc { 1 } else { 0 };
    assert(((((i << 24u32) | (d << 21u32) | (c << 20u32) | (k << 19u32) | (r << 16u32)) >> 24u32) & 0x3f) == i
        && ((((i << 24u32) | (d << 21u32) | (c << 20u32) | (k << 19u32) | (r << 16u32)) >> 16u32) & 0x3) == r)
        by (bit_vector)
        requires
            i < 64,
            r < 4,
            d <= 1,
            c <= 1,
            k <= 1,
    ;
}

/// Every command of the table has an index below 64 and a 2-bit response
/// type.
pub proof fn lemma_cmd_spec_bounds(c: SdCardCommands)
    ensures
        cmd_spec(c).index < 64,
        cmd_spec(c).rsp < 4,
{
}

/// An R6 response (to SEND_REL_ADDR) gives the card its RCA: the response's
/// upper half (bits 31:16), whatever the record held; the commands that
/// address the card, CARD_SELECT among them, are then sent with it.
pub proof fn lemma_r6_records_rca(
    card: SdDescriptor,
    cmd: Command,
    arg: u32,
    r0: u32,
    r1: u32,
    r2: u32,
    r3: u32,
    scr_lo: u32,
    scr_hi: u32,
)
    requires
        cmd.cmd_code == spec_encode(cmd_spec(SdCardCommands::SendRelAddr)),
    ensures
        after_response(card, cmd, arg, r0, r1, r2, r3, scr_lo, scr_hi).0.rca == r0 & 0xffff0000,
        cmd_spec(SdCardCommands::CardSelect).use_rca == 1,
{
    lemma_decode_encode(cmd_spec(SdCardCommands::SendRelAddr));
}

/// SD commands the controller issues. The commands after `AppCmdStart` are
/// application commands: an APP_CMD precedes each of them.
#[derive(Clone, Copy, PartialEq, Eq, Structural, Debug)]
pub enum SdCardCommands {
    GoIdleState,
    SendOpCond,
    AllSendCid,
    SendRelAddr,
    SetDsr,
    SwitchFunc,
    CardSelect,
    SendIfCond,
    SendCsd,
    SendCid,
    VoltageSwitch,
    StopTrans,
    SendStatus,
    GoInactive,
    SetBlocklen,
    ReadSingle,
    ReadMulti,
    SendTuning,
    SpeedClass,
    SetBlockcnt,
    WriteSingle,
    WriteMulti,
    ProgramCsd,
    SetWritePr,
    ClrWritePr,
    SndWritePr,
    EraseWrSt,
    EraseWrEnd,
    Erase,
    LockUnlock,
    AppCmd,
    AppCmdRca,
    GenCmd,
    AppCmdStart,
    SetBusWidth,
    EmmcStatus,
    SendNumWrbl,
    SendNumErs,
    AppSendOpCond,
    SetClrDet,
    SendScr,
}

/// Index, response type, CRC/index check and data-present flags, RCA use
/// and post-command delay of each command.
pub open spec fn cmd_spec(c: SdCardCommands) -> CmdSpec {
    match c {
        SdCardCommands::GoIdleState => CmdSpec { index: 0x00, rsp: 0, ccc: false, cic: false, dp: false, use_rca: 0, delay: 0 },
        SdCardCommands::SendOpCond => CmdSpec { index: 0x01, rsp: 2, ccc: true, cic: true, dp: false, use_rca: 0, delay: 0 },
        SdCardCommands::AllSendCid => CmdSpec { index: 0x02, rsp: 1, ccc: true, cic: false, dp: false, use_rca: 0, delay: 0 },
        SdCardCommands::SendRelAddr => CmdSpec { index: 0x03, rsp: 2, ccc: false, cic: false, dp: false, use_rca: 0, delay: 0 },
        SdCardCommands::SetDsr => CmdSpec { index: 0x04, rsp: 0, ccc: false, cic: false, dp: false, use_rca: 0, delay: 0 },
        SdCardCommands::SwitchFunc => CmdSpec { index: 0x06, rsp: 2, ccc: false, cic: false, dp: false, use_rca: 0, delay: 0 },
        SdCardCommands::CardSelect => CmdSpec { index: 0x07, rsp: 3, ccc: false, cic: false, dp: false, use_rca: 1, delay: 0 },
        SdCardCommands::SendIfCond => CmdSpec { index: 0x08, rsp: 2, ccc: true, cic: true, dp: false, use_rca: 0, delay: 100 },
        SdCardCommands::SendCsd => CmdSpec { index: 0x09, rsp: 1, ccc: false, cic: false, dp: false, use_rca: 1, delay: 0 },
        SdCardCommands::SendCid => CmdSpec { index: 0x0a, rsp: 1, ccc: false, cic: false, dp: false, use_rca: 1, delay: 0 },
        SdCardCommands::VoltageSwitch => CmdSpec { index: 0x0b, rsp: 2, ccc: false, cic: false, dp: false, use_rca: 0, delay: 0 },
        SdCardCommands::StopTrans => CmdSpec { index: 0x0c, rsp: 3, ccc: false, cic: false, dp: false, use_rca: 0, delay: 0 },
        SdCardCommands::SendStatus => CmdSpec { index: 0x0d, rsp: 2, ccc: true, cic: true, dp: true, use_rca: 1, delay: 0 },
        SdCardCommands::GoInactive => CmdSpec { index: 0x0f, rsp: 0, ccc: false, cic: false, dp: false, use_rca: 1, delay: 0 },
        SdCardCommands::SetBlocklen => CmdSpec { index: 0x10, rsp: 0, ccc: false, cic: false, dp: false, use_rca: 0, delay: 0 },
        SdCardCommands::ReadSingle => CmdSpec { index: 0x11, rsp: 2, ccc: false, cic: false, dp: true, use_rca: 0, delay: 0 },
        SdCardCommands::ReadMulti => CmdSpec { index: 0x12, rsp: 2, ccc: false, cic: false, dp: true, use_rca: 0, delay: 0 },
        SdCardCommands::SendTuning => CmdSpec { index: 0x13, rsp: 2, ccc: false, cic: false, dp: false, use_rca: 0, delay: 0 },
        SdCardCommands::SpeedClass => CmdSpec { index: 0x14, rsp: 3, ccc: false, cic: false, dp: false, use_rca: 0, delay: 0 },
        SdCardCommands::SetBlockcnt => CmdSpec { index: 0x17, rsp: 2, ccc: false, cic: false, dp: false, use_rca: 0, delay: 0 },
        SdCardCommands::WriteSingle => CmdSpec { index: 0x18, rsp: 2, ccc: false, cic: false, dp: true, use_rca: 0, delay: 0 },
        SdCardCommands::WriteMulti => CmdSpec { index: 0x19, rsp: 2, ccc: false, cic: false, dp: true, use_rca: 0, delay: 0 },
        SdCardCommands::ProgramCsd => CmdSpec { index: 0x1b, rsp: 2, ccc: false, cic: false, dp: false, use_rca: 0, delay: 0 },
        SdCardCommands::SetWritePr => CmdSpec { index: 0x1c, rsp: 3, ccc: false, cic: false, dp: false, use_rca: 0, delay: 0 },
        SdCardCommands::ClrWritePr => CmdSpec { index: 0x1d, rsp: 3, ccc: false, cic: false, dp: false, use_rca: 0, delay: 0 },
        SdCardCommands::SndWritePr => CmdSpec { index: 0x1e, rsp: 2, ccc: false, cic: false, dp: false, use_rca: 0, delay: 0 },
        SdCardCommands::EraseWrSt => CmdSpec { index: 0x20, rsp: 2, ccc: false, cic: false, dp: false, use_rca: 0, delay: 0 },
        SdCardCommands::EraseWrEnd => CmdSpec { index: 0x21, rsp: 2, ccc: false, cic: false, dp: false, use_rca: 0, delay: 0 },
        SdCardCommands::Erase => CmdSpec { index: 0x26, rsp: 3, ccc: false, cic: false, dp: false, use_rca: 0, delay: 0 },
        SdCardCommands::LockUnlock => CmdSpec { index: 0x2a, rsp: 2, ccc: false, cic: false, dp: false, use_rca: 0, delay: 0 },
        SdCardCommands::AppCmd => CmdSpec { index: 0x37, rsp: 2, ccc: true, cic: true, dp: false, use_rca: 0, delay: 100 },
        SdCardCommands::AppCmdRca => CmdSpec { index: 0x37, rsp: 2, ccc: false, cic: false, dp: false, use_rca: 1, delay: 0 },
        SdCardCommands::GenCmd => CmdSpec { index: 0x38, rsp: 2, ccc: false, cic: false, dp: false, use_rca: 0, delay: 0 },
        SdCardCommands::AppCmdStart => CmdSpec { index: 0, rsp: 0, ccc: false, cic: false, dp: false, use_rca: 0, delay: 0 },
        SdCardCommands::SetBusWidth => CmdSpec { index: 0x06, rsp: 2, ccc: false, cic: false, dp: false, use_rca: 0, delay: 0 },
        SdCardCommands::EmmcStatus => CmdSpec { index: 0x0d, rsp: 2, ccc: false, cic: false, dp: false, use_rca: 1, delay: 0 },
        SdCardCommands::SendNumWrbl => CmdSpec { index: 0x16, rsp: 2, ccc: false, cic: false, dp: false, use_rca: 0, delay: 0 },
        SdCardCommands::SendNumErs => CmdSpec { index: 0x17, rsp: 2, ccc: false, cic: false, dp: false, use_rca: 0, delay: 0 },
        SdCardCommands::AppSendOpCond => CmdSpec { index: 0x29, rsp: 2, ccc: false, cic: false, dp: false, use_rca: 0, delay: 1000 },
        SdCardCommands::SetClrDet => CmdSpec { index: 0x2a, rsp: 2, ccc: false, cic: false, dp: false, use_rca: 0, delay: 0 },
        SdCardCommands::SendScr => CmdSpec { index: 0x33, rsp: 2, ccc: true, cic: true, dp: true, use_rca: 0, delay: 0 },
    }
}

/// The name each command is logged under.
pub open spec fn cmd_name_spec(c: SdCardCommands) -> Seq<char> {
    match c {
        SdCardCommands::GoIdleState => "GO_IDLE_STATE"@,
        SdCardCommands::SendOpCond => "SEND OP COND"@,
        SdCardCommands::AllSendCid => "ALL_SEND_CID"@,
        SdCardCommands::SendRelAddr => "SEND_REL_ADDR"@,
        SdCardCommands::SetDsr => "SET_DSR"@,
        SdCardCommands::SwitchFunc => "SWITCH_FUNC"@,
        SdCardCommands::CardSelect => "CARD_SELECT"@,
        SdCardCommands::SendIfCond => "SEND_IF_COND"@,
        SdCardCommands::SendCsd => "SEND_CSD"@,
        SdCardCommands::SendCid => "SEND_CID"@,
        SdCardCommands::VoltageSwitch => "VOLT_SWITCH"@,
        SdCardCommands::StopTrans => "STOP_TRANS"@,
        SdCardCommands::SendStatus => "SEND_STATUS"@,
        SdCardCommands::GoInactive => "GO_INACTIVE"@,
        SdCardCommands::SetBlocklen => "SET_BLOCKLEN"@,
        SdCardCommands::ReadSingle => "READ_SINGLE"@,
        SdCardCommands::ReadMulti => "READ_MULTI"@,
        SdCardCommands::SendTuning => "SEND_TUNING"@,
        SdCardCommands::SpeedClass => "SPEED_CLASS"@,
        SdCardCommands::SetBlockcnt => "SET_BLOCKCNT"@,
        SdCardCommands::WriteSingle => "WRITE_SINGLE"@,
        SdCardCommands::WriteMulti => "WRITE_MULTI"@,
        SdCardCommands::ProgramCsd => "PROGRAM_CSD"@,
        SdCardCommands::SetWritePr => "SET_WRITE_PR"@,
        SdCardCommands::ClrWritePr => "CLR_WRITE_PR"@,
        SdCardCommands::SndWritePr => "SND_WRITE_PR"@,
        SdCardCommands::EraseWrSt => "ERASE_WR_ST"@,
        SdCardCommands::EraseWrEnd => "ERASE_WR_END"@,
        SdCardCommands::Erase => "ERASE"@,
        SdCardCommands::LockUnlock => "LOCK_UNLOCK"@,
        SdCardCommands::AppCmd => "APP_CMD"@,
        SdCardCommands::AppCmdRca => "APP_CMD_RCA"@,
        SdCardCommands::GenCmd => "GEN_CMD"@,
        SdCardCommands::AppCmdStart => " "@,
        SdCardCommands::SetBusWidth => "SET_BUS_WIDTH"@,
        SdCardCommands::EmmcStatus => "EMMC_STATUS"@,
        SdCardCommands::SendNumWrbl => "SEND_NUM_WRBL"@,
        SdCardCommands::SendNumErs => "SEND_NUM_ERS"@,
        SdCardCommands::AppSendOpCond => "APP_SEND_OP_COND"@,
        SdCardCommands::SetClrDet => "SET_CLR_DET"@,
        SdCardCommands::SendScr => "SEND_SCR"@,
    }
}

/// Commands from `AppCmdStart` on are application commands.
pub open spec fn is_app_command(c: SdCardCommands) -> bool {
    c == SdCardCommands::AppCmdStart || c == SdCardCommands::SetBusWidth || c == SdCardCommands::EmmcStatus || c == SdCardCommands::SendNumWrbl || c == SdCardCommands::SendNumErs || c == SdCardCommands::AppSendOpCond || c == SdCardCommands::SetClrDet || c == SdCardCommands::SendScr
}

impl SdCardCommands {
    /// Whether the command must be preceded by APP_CMD.
    pub fn needs_app_cmd(&self) -> (r: bool)
        ensures
            r == is_app_command(*self),
    {
        match self {
            SdCardCommands::AppCmdStart => true,
            SdCardCommands::SetBusWidth => true,
            SdCardCommands::EmmcStatus => true,
            SdCardCommands::SendNumWrbl => true,
            SdCardCommands::SendNumErs => true,
            SdCardCommands::AppSendOpCond => true,
            SdCardCommands::SetClrDet => true,
            SdCardCommands::SendScr => true,
            _ => false,
        }
    }

    /// The command record: name, command-register value, RCA use and delay.
    pub fn get_cmd(&self) -> (cmd: Command)
        requires
            *self != SdCardCommands::AppCmdStart,
        ensures
            cmd.cmd_name@ == cmd_name_spec(*self),
            cmd.cmd_code == spec_encode(cmd_spec(*self)),
            cmd.use_rca == cmd_spec(*self).use_rca,
            cmd.delay == cmd_spec(*self).delay,
    {
        match self {
            SdCardCommands::GoIdleState => Command { cmd_name: "GO_IDLE_STATE", cmd_code: encode_cmd(0x00, 0, false, false, false), use_rca: 0, delay: 0 },
            SdCardCommands::SendOpCond => Command { cmd_name: "SEND OP COND", cmd_code: encode_cmd(0x01, 2, true, true, false), use_rca: 0, delay: 0 },
            SdCardCommands::AllSendCid => Command { cmd_name: "ALL_SEND_CID", cmd_code: encode_cmd(0x02, 1, true, false, false), use_rca: 0, delay: 0 },
            SdCardCommands::SendRelAddr => Command { cmd_name: "SEND_REL_ADDR", cmd_code: encode_cmd(0x03, 2, false, false, false), use_rca: 0, delay: 0 },
            SdCardCommands::SetDsr => Command { cmd_name: "SET_DSR", cmd_code: encode_cmd(0x04, 0, false, false, false), use_rca: 0, delay: 0 },
            SdCardCommands::SwitchFunc => Command { cmd_name: "SWITCH_FUNC", cmd_code: encode_cmd(0x06, 2, false, false, false), use_rca: 0, delay: 0 },
            SdCardCommands::CardSelect => Command { cmd_name: "CARD_SELECT", cmd_code: encode_cmd(0x07, 3, false, false, false), use_rca: 1, delay: 0 },
            SdCardCommands::SendIfCond => Command { cmd_name: "SEND_IF_COND", cmd_code: encode_cmd(0x08, 2, true, true, false), use_rca: 0, delay: 100 },
            SdCardCommands::SendCsd => Command { cmd_name: "SEND_CSD", cmd_code: encode_cmd(0x09, 1, false, false, false), use_rca: 1, delay: 0 },
            SdCardCommands::SendCid => Command { cmd_name: "SEND_CID", cmd_code: encode_cmd(0x0a, 1, false, false, false), use_rca: 1, delay: 0 },
            SdCardCommands::VoltageSwitch => Command { cmd_name: "VOLT_SWITCH", cmd_code: encode_cmd(0x0b, 2, false, false, false), use_rca: 0, delay: 0 },
            SdCardCommands::StopTrans => Command { cmd_name: "STOP_TRANS", cmd_code: encode_cmd(0x0c, 3, false, false, false), use_rca: 0, delay: 0 },
            SdCardCommands::SendStatus => Command { cmd_name: "SEND_STATUS", cmd_code: encode_cmd(0x0d, 2, true, true, true), use_rca: 1, delay: 0 },
            SdCardCommands::GoInactive => Command { cmd_name: "GO_INACTIVE", cmd_code: encode_cmd(0x0f, 0, false, false, false), use_rca: 1, delay: 0 },
            SdCardCommands::SetBlocklen => Command { cmd_name: "SET_BLOCKLEN", cmd_code: encode_cmd(0x10, 0, false, false, false), use_rca: 0, delay: 0 },
            SdCardCommands::ReadSingle => Command { cmd_name: "READ_SINGLE", cmd_code: encode_cmd(0x11, 2, false, false, true), use_rca: 0, delay: 0 },
            SdCardCommands::ReadMulti => Command { cmd_name: "READ_MULTI", cmd_code: encode_cmd(0x12, 2, false, false, true), use_rca: 0, delay: 0 },
            SdCardCommands::SendTuning => Command { cmd_name: "SEND_TUNING", cmd_code: encode_cmd(0x13, 2, false, false, false), use_rca: 0, delay: 0 },
            SdCardCommands::SpeedClass => Command { cmd_name: "SPEED_CLASS", cmd_code: encode_cmd(0x14, 3, false, false, false), use_rca: 0, delay: 0 },
            SdCardCommands::SetBlockcnt => Command { cmd_name: "SET_BLOCKCNT", cmd_code: encode_cmd(0x17, 2, false, false, false), use_rca: 0, delay: 0 },
            SdCardCommands::WriteSingle => Command { cmd_name: "WRITE_SINGLE", cmd_code: encode_cmd(0x18, 2, false, false, true), use_rca: 0, delay: 0 },
            SdCardCommands::WriteMulti => Command { cmd_name: "WRITE_MULTI", cmd_code: encode_cmd(0x19, 2, false, false, true), use_rca: 0, delay: 0 },
            SdCardCommands::ProgramCsd => Command { cmd_name: "PROGRAM_CSD", cmd_code: encode_cmd(0x1b, 2, false, false, false), use_rca: 0, delay: 0 },
            SdCardCommands::SetWritePr => Command { cmd_name: "SET_WRITE_PR", cmd_code: encode_cmd(0x1c, 3, false, false, false), use_rca: 0, delay: 0 },
            SdCardCommands::ClrWritePr => Command { cmd_name: "CLR_WRITE_PR", cmd_code: encode_cmd(0x1d, 3, false, false, false), use_rca: 0, delay: 0 },
            SdCardCommands::SndWritePr => Command { cmd_name: "SND_WRITE_PR", cmd_code: encode_cmd(0x1e, 2, false, false, false), use_rca: 0, delay: 0 },
            SdCardCommands::EraseWrSt => Command { cmd_name: "ERASE_WR_ST", cmd_code: encode_cmd(0x20, 2, false, false, false), use_rca: 0, delay: 0 },
            SdCardCommands::EraseWrEnd => Command { cmd_name: "ERASE_WR_END", cmd_code: encode_cmd(0x21, 2, false, false, false), use_rca: 0, delay: 0 },
            SdCardCommands::Erase => Command { cmd_name: "ERASE", cmd_code: encode_cmd(0x26, 3, false, false, false), use_rca: 0, delay: 0 },
            SdCardCommands::LockUnlock => Command { cmd_name: "LOCK_UNLOCK", cmd_code: encode_cmd(0x2a, 2, false, false, false), use_rca: 0, delay: 0 },
            SdCardCommands::AppCmd => Command { cmd_name: "APP_CMD", cmd_code: encode_cmd(0x37, 2, true, true, false), use_rca: 0, delay: 100 },
            SdCardCommands::AppCmdRca => Command { cmd_name: "APP_CMD_RCA", cmd_code: encode_cmd(0x37, 2, false, false, false), use_rca: 1, delay: 0 },
            SdCardCommands::GenCmd => Command { cmd_name: "GEN_CMD", cmd_code: encode_cmd(0x38, 2, false, false, false), use_rca: 0, delay: 0 },
            SdCardCommands::SetBusWidth => Command { cmd_name: "SET_BUS_WIDTH", cmd_code: encode_cmd(0x06, 2, false, false, false), use_rca: 0, delay: 0 },
            SdCardCommands::EmmcStatus => Command { cmd_name: "EMMC_STATUS", cmd_code: encode_cmd(0x0d, 2, false, false, false), use_rca: 1, delay: 0 },
            SdCardCommands::SendNumWrbl => Command { cmd_name: "SEND_NUM_WRBL", cmd_code: encode_cmd(0x16, 2, false, false, false), use_rca: 0, delay: 0 },
            SdCardCommands::SendNumErs => Command { cmd_name: "SEND_NUM_ERS", cmd_code: encode_cmd(0x17, 2, false, false, false), use_rca: 0, delay: 0 },
            SdCardCommands::AppSendOpCond => Command { cmd_name: "APP_SEND_OP_COND", cmd_code: encode_cmd(0x29, 2, false, false, false), use_rca: 0, delay: 1000 },
            SdCardCommands::SetClrDet => Command { cmd_name: "SET_CLR_DET", cmd_code: encode_cmd(0x2a, 2, false, false, false), use_rca: 0, delay: 0 },
            SdCardCommands::SendScr => Command { cmd_name: "SEND_SCR", cmd_code: encode_cmd(0x33, 2, true, true, true), use_rca: 0, delay: 0 },
            SdCardCommands::AppCmdStart => Command { cmd_name: " ", cmd_code: 0, use_rca: 0, delay: 0 },
        }
    }
}
/// The result a card status word stands for: the error bits of an R1 status,
/// if any.
pub open spec fn r1_result(status: u32) -> SdResult {
    if status & R1_ERRORS_MASK == 0 {
        SdResult::SdOk
    } else {
        SdResult::SdCardState(status & R1_ERRORS_MASK)
    }
}

fn r1_check(status: u32) -> (r: SdResult)
    ensures
        r == r1_result(status),
{
    if status & R1_ERRORS_MASK == 0 {
        SdResult::SdOk
    } else {
        SdResult::SdCardState(status & R1_ERRORS_MASK)
    }
}

/// OCR: card power up status bit (busy bit, active low).
pub open spec fn ocr_powered_up(ocr: u32) -> bool {
    ocr & 0x8000_0000 != 0
}

/// OCR: card capacity status (high capacity).
pub open spec fn ocr_high_capacity(ocr: u32) -> bool {
    ocr & 0x4000_0000 != 0
}

/// OCR: the card accepts 3.2-3.3 V or 3.3-3.4 V.
pub open spec fn ocr_accepts_3v3(ocr: u32) -> bool {
    ocr & 0x0030_0000 != 0
}

/// SCR: the card supports both the 1-bit and the 4-bit bus (BUS_WIDTH is 5).
pub open spec fn scr_bus_width_1_4(scr: u64) -> bool {
    (scr >> 8u64) & 0xf == 5
}

/// Retries of ACMD41 after its first attempt while the card is busy.
pub const OP_COND_RETRIES: u8 = 6;
/// Wait before each ACMD41 retry, in microseconds.
pub const OP_COND_RETRY_WAIT_US: u32 = 400000;

/// What the ACMD41 loop does next.
#[derive(Clone, Copy, PartialEq, Eq, Structural, Debug)]
pub enum OpCondAction {
    /// Wait `OP_COND_RETRY_WAIT_US`, send ACMD41 again, and go on with this
    /// many retries left.
    Retry(u8),
    /// The loop is over with this result.
    Finish(SdResult),
}

/// Result of the ACMD41 loop once the card stopped being asked: still busy
/// is a timeout, a card without 3.3 V is refused, otherwise success.
pub open spec fn op_cond_result(ocr: u32) -> SdResult {
    if !ocr_powered_up(ocr) {
        SdResult::SdTimeout
    } else if !ocr_accepts_3v3(ocr) {
        SdResult::SdErrorVoltage
    } else {
        SdResult::SdOk
    }
}

/// SD card description record.
#[derive(Clone, Copy)]
pub struct SdDescriptor {
    /// Card CID
    pub cid: CID,
    /// Card CSD
    pub csd: CSD,
    /// Card SCR
    pub scr: u64,
    /// Card capacity in bytes, computed from the CSD
    pub card_capacity: u64,
    /// Card type
    pub sd_card_type: SdCardType,
    /// Card relative address (upper 16 bits)
    pub rca: u32,
    /// Card OCR
    pub ocr: u32,
    /// Card status of the last response
    pub status: u32,
    /// The last command sent
    pub last_cmd: Command,
}

/// The descriptor after the response to `cmd` (sent with `arg`) was
/// received in the four response registers (and, for SEND_SCR, the two SCR
/// data words).
pub open spec fn after_response(
    o: SdDescriptor,
    cmd: Command,
    arg: u32,
    r0: u32,
    r1: u32,
    r2: u32,
    r3: u32,
    scr_lo: u32,
    scr_hi: u32,
) -> (SdDescriptor, SdResult) {
    let rt = resp_type_of(cmd.cmd_code);
    let ix = cmd_index_of(cmd.cmd_code);
    if rt == 0 {
        (o, SdResult::SdOk)
    } else if rt == 3 {
        (SdDescriptor { status: r0, ..o }, r1_result(r0))
    } else if rt == 2 {
        if ix == 0x03 {
            (SdDescriptor { rca: r6_rca(r0), status: r6_status(r0), ..o }, r1_result(r6_status(r0)))
        } else if ix == 0x08 {
            (SdDescriptor { status: 0, ..o }, if r0 == arg { SdResult::SdOk } else { SdResult::SdError })
        } else if ix == 0x29 {
            (SdDescriptor { status: 0, ocr: r0, ..o }, SdResult::SdOk)
        } else if ix == 0x33 {
            (SdDescriptor { scr: (scr_lo as u64) | ((scr_hi as u64) << 32u64), ..o }, SdResult::SdOk)
        } else {
            (SdDescriptor { status: r0, ..o }, r1_result(r0))
        }
    } else if ix == 0x09 {
        let b = resp_bytes(r0, r1, r2, r3);
        (
            SdDescriptor {
                status: 0,
                csd: csd_after(o.csd, b),
                card_capacity: csd_capacity(b) as u64,
                ..o
            },
            SdResult::SdOk,
        )
    } else {
        (SdDescriptor { status: 0, cid: CID { cid0: r3, cid1: r2, cid2: r1, cid3: r0 }, ..o }, SdResult::SdOk)
    }
}

/// A SEND_CSD response must describe a capacity that the driver can compute.
pub open spec fn response_acceptable(cmd: Command, r0: u32, r1: u32, r2: u32, r3: u32) -> bool {
    resp_type_of(cmd.cmd_code) == 1 && cmd_index_of(cmd.cmd_code) == 0x09 ==> csd_capacity_fits(
        resp_bytes(r0, r1, r2, r3),
    )
}

impl SdDescriptor {
    /// The descriptor of an unknown card.
    pub fn new() -> (d: Self)
        ensures
            d.cid == (CID { cid0: 0, cid1: 0, cid2: 0, cid3: 0 }),
            d.csd == (CSD { csd0: 0, csd1: 0, csd2: 0, csd3: 0 }),
            d.scr == 0,
            d.card_capacity == 0,
            d.sd_card_type == SdCardType::TypeUnknown,
            d.rca == 0,
            d.ocr == 0,
            d.status == 0,
            d.last_cmd.cmd_code == 0,
    {
        SdDescriptor {
            cid: CID::new(),
            csd: CSD::new(),
            scr: 0,
            card_capacity: 0,
            sd_card_type: SdCardType::TypeUnknown,
            rca: 0,
            ocr: 0,
            status: 0,
            last_cmd: Command::new(),
        }
    }

    /// Forgets the card: zero RCA, OCR, status and last command, type
    /// unknown. CID, CSD, SCR and capacity are kept.
    pub fn reset_entries(&mut self)
        ensures
            final(self).rca == 0,
            final(self).ocr == 0,
            final(self).status == 0,
            final(self).last_cmd.cmd_code == 0,
            final(self).sd_card_type == SdCardType::TypeUnknown,
            final(self).cid == old(self).cid,
            final(self).csd == old(self).csd,
            final(self).scr == old(self).scr,
            final(self).card_capacity == old(self).card_capacity,
    {
        self.rca = 0;
        self.ocr = 0;
        self.last_cmd = Command::new();
        self.status = 0;
        self.sd_card_type = SdCardType::TypeUnknown;
    }

    /// Records the command about to be sent.
    pub fn record_command(&mut self, cmd: Command)
        ensures
            *final(self) == (SdDescriptor { last_cmd: cmd, ..*old(self) }),
    {
        self.last_cmd = cmd;
    }

    /// Whether the response to `cmd` is one `handle_response` can take: a
    /// SEND_CSD response must describe a capacity the decoding can compute.
    pub fn response_ok(cmd: &Command, r0: u32, r1: u32, r2: u32, r3: u32) -> (ok: bool)
        ensures
            ok == response_acceptable(*cmd, r0, r1, r2, r3),
    {
        if cmd.response_type() == 1 && cmd.index() == 0x09 {
            crate::sdcard::csd_capacity_ok(r0, r1, r2, r3)
        } else {
            true
        }
    }

    /// `handle_response` where the response is one it can take; otherwise
    /// `None`, with the record unchanged.
    pub fn try_handle_response(
        &mut self,
        cmd: Command,
        arg: u32,
        r0: u32,
        r1: u32,
        r2: u32,
        r3: u32,
        scr_lo: u32,
        scr_hi: u32,
    ) -> (r: Option<SdResult>)
        ensures
            !response_acceptable(cmd, r0, r1, r2, r3) ==> r is None && *final(self) == *old(self),
            response_acceptable(cmd, r0, r1, r2, r3) ==> (r matches Some(res) && (*final(self), res)
                == after_response(*old(self), cmd, arg, r0, r1, r2, r3, scr_lo, scr_hi)),
    {
        if Self::response_ok(&cmd, r0, r1, r2, r3) {
            Some(self.handle_response(cmd, arg, r0, r1, r2, r3, scr_lo, scr_hi))
        } else {
            None
        }
    }

    /// Interprets the response to `cmd`, updating the card record, once the
    /// controller has signalled command completion.
    pub fn handle_response(
        &mut self,
        cmd: Command,
        arg: u32,
        r0: u32,
        r1: u32,
        r2: u32,
        r3: u32,
        scr_lo: u32,
        scr_hi: u32,
    ) -> (r: SdResult)
        requires
            response_acceptable(cmd, r0, r1, r2, r3),
        ensures
            (*final(self), r) == after_response(*old(self), cmd, arg, r0, r1, r2, r3, scr_lo, scr_hi),
    {
        let rt = cmd.response_type();
        let ix = cmd.index();
        if rt == 0 {
            SdResult::SdOk
        } else if rt == 3 {
            self.status = r0;
            r1_check(r0)
        } else if rt == 2 {
            if ix == 0x03 {
                self.rca = r0 & 0xffff0000;
                self.status = status_from_r6(r0);
                r1_check(self.status)
            } else if ix == 0x08 {
                self.status = 0;
                if r0 == arg {
                    SdResult::SdOk
                } else {
                    SdResult::SdError
                }
            } else if ix == 0x29 {
                self.status = 0;
                self.ocr = r0;
                SdResult::SdOk
            } else if ix == 0x33 {
                self.scr = (scr_lo as u64) | ((scr_hi as u64) << 32u64);
                SdResult::SdOk
            } else {
                self.status = r0;
                r1_check(r0)
            }
        } else {
            self.status = 0;
            if ix == 0x09 {
                let cap = self.csd.unpack(r0, r1, r2, r3);
                self.card_capacity = cap;
            } else {
                self.cid = CID::from_response(r0, r1, r2, r3);
            }
            SdResult::SdOk
        }
    }

    /// The argument of a command sent without one: the RCA when the command
    /// addresses the card, else 0.
    pub fn command_argument(&self, cmd: &Command) -> (arg: u32)
        ensures
            arg == (if cmd.use_rca == 1 { self.rca } else { 0 }),
    {
        if cmd.use_rca == 1 {
            self.rca
        } else {
            0
        }
    }

    /// The APP_CMD that precedes an application command and its argument:
    /// without an RCA, APP_CMD with argument 0, else APP_CMD_RCA with the RCA.
    pub fn app_command(&self) -> (r: (Command, u32))
        ensures
            self.rca == 0 ==> r.0.cmd_code == spec_encode(cmd_spec(SdCardCommands::AppCmd)) && r.1 == 0
                && r.0.delay == 100,
            self.rca != 0 ==> r.0.cmd_code == spec_encode(cmd_spec(SdCardCommands::AppCmdRca)) && r.1
                == self.rca && r.0.use_rca == 1,
    {
        if self.rca == 0 {
            (SdCardCommands::AppCmd.get_cmd(), 0)
        } else {
            (SdCardCommands::AppCmdRca.get_cmd(), self.rca)
        }
    }

    /// Outcome of an APP_CMD. Without an RCA the response is not looked at;
    /// with one, a failed command is reported as is, and a card status without
    /// the APP_CMD bit is an error.
    pub fn app_command_outcome(&self, had_rca: bool, resp: SdResult) -> (r: SdResult)
        ensures
            !had_rca ==> r == SdResult::SdOk,
            had_rca && resp != SdResult::SdOk ==> r == resp,
            had_rca && resp == SdResult::SdOk ==> r == (if self.status & ST_APP_CMD == 0 {
                SdResult::SdError
            } else {
                SdResult::SdOk
            }),
    {
        if !had_rca {
            SdResult::SdOk
        } else if resp != SdResult::SdOk {
            resp
        } else if self.status & ST_APP_CMD == 0 {
            SdResult::SdError
        } else {
            SdResult::SdOk
        }
    }

    /// After an application command was answered, a card with an RCA must
    /// show the APP_CMD status bit; otherwise the command was not taken as an
    /// application command.
    pub fn check_app_cmd(&self, cmd_type: SdCardCommands, resp: SdResult) -> (r: SdResult)
        ensures
            r == (if resp == SdResult::SdOk && is_app_command(cmd_type) && self.rca != 0 && self.status
                & ST_APP_CMD == 0 {
                SdResult::SdErrorAppCmd
            } else {
                resp
            }),
    {
        if resp == SdResult::SdOk && cmd_type.needs_app_cmd() && self.rca != 0 && self.status & ST_APP_CMD
            == 0 {
            SdResult::SdErrorAppCmd
        } else {
            resp
        }
    }

    /// Outcome of the ACMD41 loop once it stopped: still busy is a timeout; a
    /// card that does not accept 3.3 V is refused.
    pub fn op_cond_outcome(&self) -> (r: SdResult)
        ensures
            !ocr_powered_up(self.ocr) ==> r == SdResult::SdTimeout,
            ocr_powered_up(self.ocr) && !ocr_accepts_3v3(self.ocr) ==> r == SdResult::SdErrorVoltage,
            ocr_powered_up(self.ocr) && ocr_accepts_3v3(self.ocr) ==> r == SdResult::SdOk,
    {
        if self.ocr & 0x8000_0000 == 0 {
            SdResult::SdTimeout
        } else if self.ocr & 0x0030_0000 == 0 {
            SdResult::SdErrorVoltage
        } else {
            SdResult::SdOk
        }
    }

    /// Whether the ACMD41 loop goes on: the card is still busy and retries are
    /// left.
    pub fn op_cond_retry(&self, retries: u8) -> (r: bool)
        ensures
            r == (!ocr_powered_up(self.ocr) && retries != 0),
    {
        self.ocr & 0x8000_0000 == 0 && retries != 0
    }

    /// One round of the ACMD41 loop, given the response to the last ACMD41
    /// (the OCR it returned is in the record) and the retries left: an
    /// error other than a timeout ends the loop with it; a card still busy
    /// is asked again after 400 ms while retries are left; otherwise the
    /// loop ends with `op_cond_result`. Started with `OP_COND_RETRIES` after
    /// the first ACMD41, the loop sends it at most seven times.
    pub fn op_cond_step(&self, retries: u8, resp: SdResult) -> (r: OpCondAction)
        ensures
            r == (if resp != SdResult::SdOk && resp != SdResult::SdTimeout {
                OpCondAction::Finish(resp)
            } else if !ocr_powered_up(self.ocr) && retries != 0 {
                OpCondAction::Retry((retries - 1) as u8)
            } else {
                OpCondAction::Finish(op_cond_result(self.ocr))
            }),
            r matches OpCondAction::Retry(left) ==> left < retries,
    {
        if resp != SdResult::SdOk && resp != SdResult::SdTimeout {
            OpCondAction::Finish(resp)
        } else if self.op_cond_retry(retries) {
            OpCondAction::Retry(retries - 1)
        } else {
            OpCondAction::Finish(self.op_cond_outcome())
        }
    }

    /// Card type once ACMD41 succeeded after SEND_IF_COND: high or standard
    /// capacity by the OCR's CCS bit.
    pub fn set_type_from_ocr(&mut self)
        ensures
            *final(self) == (SdDescriptor {
                sd_card_type: if ocr_high_capacity(old(self).ocr) {
                    SdCardType::Type2Hc
                } else {
                    SdCardType::Type2Sc
                },
                ..*old(self)
            }),
    {
        if self.ocr & 0x4000_0000 != 0 {
            self.sd_card_type = SdCardType::Type2Hc;
        } else {
            self.sd_card_type = SdCardType::Type2Sc;
        }
    }

    /// Whether the card supports the 4-bit bus (SCR BUS_WIDTH is 1|4).
    pub fn supports_4bit_bus(&self) -> (r: bool)
        ensures
            r == scr_bus_width_1_4(self.scr),
    {
        (self.scr >> 8u64) & 0xf == 5
    }

    /// Argument of SET_BUS_WIDTH selecting the 4-bit bus.
    pub fn bus_width_4_argument(&self) -> (r: u32)
        ensures
            r == self.rca | 2,
    {
        self.rca | 2
    }
}

/// Outcome of waiting for command completion: no completion within 10 ms is
/// a timeout; completion with a command timeout, CRC, end-bit or index error
/// is an error.
pub fn cc_outcome(time_diff: u64, int_status: u32) -> (r: SdResult)
    ensures
        time_diff >= 10000 ==> r == SdResult::SdTimeout,
        time_diff < 10000 && int_status & CMD_ERROR_BITS != 0 ==> r == SdResult::SdError,
        time_diff < 10000 && int_status & CMD_ERROR_BITS == 0 ==> r == SdResult::SdOk,
{
    if time_diff >= 10000 {
        SdResult::SdTimeout
    } else if int_status & CMD_ERROR_BITS != 0 {
        SdResult::SdError
    } else {
        SdResult::SdOk
    }
}

/// Outcome of waiting for the command and data lines: still inhibited after
/// the wait is a busy bus.
pub fn cmd_data_outcome(time_diff: u64) -> (r: SdResult)
    ensures
        r == (if time_diff >= 10000 { SdResult::SdBusy } else { SdResult::SdOk }),
{
    if time_diff >= 10000 {
        SdResult::SdBusy
    } else {
        SdResult::SdOk
    }
}

/// The SDCLKFS prescalers the controller offers: powers of two up to 256.
pub open spec fn is_prescaler(p: u32) -> bool {
    p == 1 || p == 2 || p == 4 || p == 8 || p == 16 || p == 32 || p == 64 || p == 128 || p == 256
}

/// Clock divider settings for an SD clock frequency.
#[derive(Clone, Copy, PartialEq, Eq, Structural)]
pub struct ClockDividers {
    /// The prescaler (a power of two, 1 to 256).
    pub prescaler: u32,
    /// The divisor (1 to 16).
    pub divisor: u32,
    /// SYS_CTRL.SDCLKFS field value (prescaler / 2).
    pub sdclkfs: u32,
    /// SYS_CTRL.DVS field value (divisor - 1).
    pub dvs: u32,
}

/// The prescaler is the smallest power of two (up to 256) that brings
/// BASE_CLOCK / (16 x prescaler) down to `freq`; the divisor the smallest
/// value (up to 16) that brings BASE_CLOCK / (divisor x prescaler) down to it.
pub open spec fn dividers_for(freq: u32, c: ClockDividers) -> bool {
    &&& is_prescaler(c.prescaler)
    &&& (c.prescaler == 256 || (BASE_CLOCK as int) / (16 * c.prescaler) <= freq)
    &&& (c.prescaler == 1 || (BASE_CLOCK as int) / (16 * (c.prescaler / 2)) > freq)
    &&& 1 <= c.divisor <= 16
    &&& (c.divisor == 16 || (BASE_CLOCK as int) / (c.divisor * c.prescaler) <= freq)
    &&& (c.divisor == 1 || (BASE_CLOCK as int) / ((c.divisor - 1) * c.prescaler) > freq)
    &&& c.sdclkfs == c.prescaler / 2
    &&& c.dvs == c.divisor - 1
}

/// Computes the dividers that set the SD clock to (at most) `freq`.
pub fn clock_dividers(freq: u32) -> (c: ClockDividers)
    requires
        0 < freq <= BASE_CLOCK,
    ensures
        dividers_for(freq, c),
{
    let mut pre_div: u32 = 1;
    while BASE_CLOCK / (16 * pre_div) > freq && pre_div < 256
        invariant
            is_prescaler(pre_div),
            pre_div == 1 || (BASE_CLOCK as int) / (16 * (pre_div / 2)) > freq,
        decreases 256 - pre_div,
    {
        pre_div = pre_div * 2;
    }
    let mut div: u32 = 1;
    assert(0 < div * pre_div <= 16 * pre_div) by (nonlinear_arith)
        requires
            div == 1,
            pre_div >= 1,
    ;
    while BASE_CLOCK / (div * pre_div) > freq && div < 16
        invariant
            is_prescaler(pre_div),
            1 <= div <= 16,
            div == 1 || (BASE_CLOCK as int) / ((div - 1) * pre_div) > freq,
            0 < div * pre_div <= 16 * pre_div,
            pre_div <= 256,
        decreases 16 - div,
    {
        assert(0 < (div + 1) * pre_div <= 16 * pre_div) by (nonlinear_arith)
            requires
                div < 16,
                pre_div >= 1,
        ;
        div = div + 1;
    }
    let sdclkfs = pre_div >> 1u32;
    assert(sdclkfs == pre_div / 2) by (bit_vector)
        requires
            sdclkfs == pre_div >> 1u32,
    ;
    assert(pre_div == 256 || (BASE_CLOCK as int) / (16 * pre_div) <= freq);
    assert(div == 16 || (BASE_CLOCK as int) / (div * pre_div) <= freq);
    ClockDividers { prescaler: pre_div, divisor: div, sdclkfs, dvs: div - 1 }
}

/// The SD clock the dividers produce.
pub fn divided_clock(c: &ClockDividers) -> (f: u32)
    requires
        is_prescaler(c.prescaler),
        1 <= c.divisor <= 16,
    ensures
        f == (BASE_CLOCK as int) / (c.divisor * c.prescaler),
{
    BASE_CLOCK / (c.divisor * c.prescaler)
}

/// SYS_CTRL with the DVS (7:4) and SDCLKFS (15:8) fields set.
pub fn sys_ctrl_with_dividers(sys_ctrl: u32, c: &ClockDividers) -> (r: u32)
    ensures
        r == crate::sdcard::set_field(crate::sdcard::set_field(sys_ctrl, 4, 0xf, c.dvs), 8, 0xff, c.sdclkfs),
{
    let a = crate::sdcard::field_set(sys_ctrl, 4, 0xf, c.dvs);
    crate::sdcard::field_set(a, 8, 0xff, c.sdclkfs)
}

/// Where a change of the SD clock stands.
#[derive(Clone, Copy, PartialEq, Eq, Structural, Debug)]
pub enum ClockState {
    Start,
    AwaitStable,
    AwaitEnable,
    Done,
}

/// What the driver does next to change the SD clock.
#[derive(Clone, Copy, PartialEq, Eq, Structural, Debug)]
pub enum ClockAction {
    /// Write `vend_spec` to VEND_SPEC (the SD clock gated off), then
    /// `sys_ctrl` to SYS_CTRL (the new dividers), then wait (up to 100 us)
    /// for the clock to be stable: the event is `clock_stable_outcome`.
    SetDividers { vend_spec: u32, sys_ctrl: u32 },
    /// Write `vend_spec` to VEND_SPEC (peripheral and SD clocks enabled).
    EnableClocks { vend_spec: u32 },
    /// The change is over with this result.
    Finish(SdResult),
}

/// The transition table of changing the SD clock to the dividers `c`: the
/// next state and action from `state` when the previous action ended with
/// `event`; `vend_spec` and `sys_ctrl` are the registers' current values.
/// The clock is gated off while the dividers change, an unstable clock is
/// an error, and a stable one gets its clocks enabled.
pub open spec fn clock_change_next(
    c: ClockDividers,
    state: ClockState,
    event: SdResult,
    vend_spec: u32,
    sys_ctrl: u32,
) -> (ClockState, ClockAction) {
    match state {
        ClockState::Start => (
            ClockState::AwaitStable,
            ClockAction::SetDividers {
                vend_spec: vend_spec & !VEND_SPEC_CKEN,
                sys_ctrl: crate::sdcard::set_field(
                    crate::sdcard::set_field(sys_ctrl, 4, 0xf, c.dvs),
                    8,
                    0xff,
                    c.sdclkfs,
                ),
            },
        ),
        ClockState::AwaitStable => if event != SdResult::SdOk {
            (ClockState::Done, ClockAction::Finish(event))
        } else {
            (
                ClockState::AwaitEnable,
                ClockAction::EnableClocks { vend_spec: vend_spec | VEND_SPEC_PEREN | VEND_SPEC_CKEN },
            )
        },
        ClockState::AwaitEnable => (ClockState::Done, ClockAction::Finish(SdResult::SdOk)),
        ClockState::Done => (ClockState::Done, ClockAction::Finish(SdResult::NotRun)),
    }
}

/// One step of changing the SD clock to the dividers `c` (those of
/// `clock_dividers`), as `clock_change_next` tables it.
pub fn clock_change_step(
    c: &ClockDividers,
    state: ClockState,
    event: SdResult,
    vend_spec: u32,
    sys_ctrl: u32,
) -> (r: (ClockState, ClockAction))
    ensures
        r == clock_change_next(*c, state, event, vend_spec, sys_ctrl),
{
    match state {
        ClockState::Start => (
            ClockState::AwaitStable,
            ClockAction::SetDividers {
                vend_spec: vend_spec_clock_off(vend_spec),
                sys_ctrl: sys_ctrl_with_dividers(sys_ctrl, c),
            },
        ),
        ClockState::AwaitStable => {
            if event != SdResult::SdOk {
                (ClockState::Done, ClockAction::Finish(event))
            } else {
                (ClockState::AwaitEnable, ClockAction::EnableClocks { vend_spec: vend_spec_clock_on(vend_spec) })
            }
        },
        ClockState::AwaitEnable => (ClockState::Done, ClockAction::Finish(SdResult::SdOk)),
        ClockState::Done => (ClockState::Done, ClockAction::Finish(SdResult::NotRun)),
    }
}

/// Whenever the requested frequency is reachable (at least BASE_CLOCK / 4096),
/// the dividers never produce a clock faster than requested.
pub proof fn lemma_clock_not_above_request(freq: u32, c: ClockDividers)
    requires
        dividers_for(freq, c),
        BASE_CLOCK / 4096 <= freq,
    ensures
        (BASE_CLOCK as int) / (c.divisor * c.prescaler) <= freq,
{
}

/// VEND_SPEC bits: the peripheral clock enable PEREN (13) and the SD clock
/// enable CKEN (14).
pub const VEND_SPEC_PEREN: u32 = 1 << 13;
pub const VEND_SPEC_CKEN: u32 = 1 << 14;

/// VEND_SPEC before the dividers change: the SD clock gated off (CKEN
/// clear), every other bit kept.
pub fn vend_spec_clock_off(vend_spec: u32) -> (r: u32)
    ensures
        r == vend_spec & !VEND_SPEC_CKEN,
{
    vend_spec & !VEND_SPEC_CKEN
}

/// VEND_SPEC once the clock is stable: the peripheral and SD clocks enabled
/// (PEREN and CKEN set), every other bit kept.
pub fn vend_spec_clock_on(vend_spec: u32) -> (r: u32)
    ensures
        r == vend_spec | VEND_SPEC_PEREN | VEND_SPEC_CKEN,
{
    vend_spec | VEND_SPEC_PEREN | VEND_SPEC_CKEN
}

/// MIXCTRL's data transfer direction bit DTDSEL (4): set, data moves from
/// the card to the host.
pub const MIXCTRL_DTDSEL: u32 = 1 << 4;
/// Size in bytes of the one block the SCR is read as.
pub const SCR_BLOCK_SIZE: u32 = 8;

/// The MIXCTRL and BLK_ATT values before SEND_SCR: the transfer direction
/// set to card-to-host, and BLKSIZE (bits 11:0) set to 8 bytes; every other
/// bit kept.
pub fn scr_read_setup(mixctrl: u32, blk_att: u32) -> (r: (u32, u32))
    ensures
        r.0 == mixctrl | MIXCTRL_DTDSEL,
        r.1 == (blk_att & !0xFFFu32) | SCR_BLOCK_SIZE,
{
    (mixctrl | MIXCTRL_DTDSEL, (blk_att & !0xFFFu32) | SCR_BLOCK_SIZE)
}

/// Where sending a command stands.
#[derive(Clone, Copy, PartialEq, Eq, Structural, Debug)]
pub enum CommandState {
    Start,
    AwaitLines,
    AwaitDone,
    Done,
}

/// What the driver does next to send a command.
#[derive(Clone, Copy, PartialEq, Eq, Structural, Debug)]
pub enum CommandAction {
    /// Clear the interrupt status and wait (up to 10 ms) for the command and
    /// data lines to be free: the event is `cmd_data_outcome`.
    WaitForLines,
    /// Mask the interrupt signals, wait 1 ms, write `arg` to CMD_ARG and
    /// `cmdtm` to CMD_XFR_TYP, wait `delay_us`, then wait for command
    /// completion (the event is `cc_outcome`) and read CMD_RSP0..3 (and, for
    /// SEND_SCR, the two SCR words).
    Issue { arg: u32, cmdtm: u32, delay_us: u32 },
    /// The command is over with this result.
    Finish(SdResult),
}

/// The transition table of sending `cmd` with `arg`: the next state, the
/// action and the card record, from `state` when the previous action ended
/// with `event` (and, once the command completed, the response words). The
/// command is recorded as the last one sent; lines that stay busy end the
/// send with a busy result; a failed completion ends it with its result;
/// a completed command's response is interpreted by `after_response`.
pub open spec fn command_next(
    card: SdDescriptor,
    cmd: Command,
    arg: u32,
    state: CommandState,
    event: SdResult,
    r0: u32,
    r1: u32,
    r2: u32,
    r3: u32, scr_lo: u32, scr_hi: u32,
) -> (CommandState, CommandAction, SdDescriptor) {
    match state {
        CommandState::Start => (CommandState::AwaitLines, CommandAction::WaitForLines, SdDescriptor { last_cmd: cmd, ..card }),
        CommandState::AwaitLines => if event != SdResult::SdOk {
            (CommandState::Done, CommandAction::Finish(SdResult::SdBusy), card)
        } else {
            (
                CommandState::AwaitDone,
                CommandAction::Issue { arg: arg, cmdtm: cmd.cmd_code, delay_us: cmd.delay as u32 },
                card,
            )
        },
        CommandState::AwaitDone => if event != SdResult::SdOk {
            (CommandState::Done, CommandAction::Finish(event), card)
        } else {
            let after = after_response(card, cmd, arg, r0, r1, r2, r3, scr_lo, scr_hi);
            (CommandState::Done, CommandAction::Finish(after.1), after.0)
        },
        CommandState::Done => (CommandState::Done, CommandAction::Finish(SdResult::NotRun), card),
    }
}

/// One step of sending `cmd` with `arg`, as `command_next` tables it.
pub fn command_step(
    card: &mut SdDescriptor,
    cmd: Command,
    arg: u32,
    state: CommandState,
    event: SdResult,
    r0: u32,
    r1: u32,
    r2: u32,
    r3: u32,
    scr_lo: u32,
    scr_hi: u32,
) -> (r: (CommandState, CommandAction))
    requires
        state == CommandState::AwaitDone && event == SdResult::SdOk ==> response_acceptable(cmd, r0, r1, r2, r3),
    ensures
        (r.0, r.1, *final(card)) == command_next(*old(card), cmd, arg, state, event, r0, r1, r2, r3, scr_lo, scr_hi),
{
    match state {
        CommandState::Start => {
            card.record_command(cmd);
            (CommandState::AwaitLines, CommandAction::WaitForLines)
        },
        CommandState::AwaitLines => {
            if event != SdResult::SdOk {
                (CommandState::Done, CommandAction::Finish(SdResult::SdBusy))
            } else {
                
                (CommandState::AwaitDone, CommandAction::Issue { arg: arg, cmdtm: cmd.cmd_code, delay_us: cmd.delay as u32 })
            }
        },
        CommandState::AwaitDone => {
            if event != SdResult::SdOk {
                (CommandState::Done, CommandAction::Finish(event))
            } else {
                let res = card.handle_response(cmd, arg, r0, r1, r2, r3, scr_lo, scr_hi);
                (CommandState::Done, CommandAction::Finish(res))
            }
        },
        CommandState::Done => (CommandState::Done, CommandAction::Finish(SdResult::NotRun)),
    }
}

/// Outcome of waiting (up to 100 us) for the SD clock to be stable.
pub fn clock_stable_outcome(td: u64) -> (r: SdResult)
    ensures
        r == (if td >= 100 { SdResult::SdErrorClock } else { SdResult::SdOk }),
{
    if td >= 100 {
        SdResult::SdErrorClock
    } else {
        SdResult::SdOk
    }
}

/// Host capabilities: the controller supports 1.8 V, 3.0 V and 3.3 V
/// (HOST_CTRL_CAP bits 26, 25 and 24).
pub fn host_supports_all_voltages(host_ctrl_cap: u32) -> (r: bool)
    ensures
        r == (host_ctrl_cap & 0x0700_0000 == 0x0700_0000),
{
    host_ctrl_cap & 0x0700_0000 == 0x0700_0000
}

/// Where the card initialisation sequence stands.
#[derive(Clone, Copy, PartialEq, Eq, Structural, Debug)]
pub enum InitState {
    Start,
    AwaitReset,
    AwaitIfCond,
    AwaitOpCondHc,
    AwaitLegacyReset,
    AwaitOpCondSc,
    AwaitCid,
    AwaitRca,
    AwaitCsd,
    AwaitClock,
    AwaitSelect,
    AwaitScr,
    AwaitBusWidth,
    AwaitBusConfigured,
    AwaitBlocklen,
    Done,
}

/// What the driver does next in the initialisation sequence.
#[derive(Clone, Copy, PartialEq, Eq, Structural, Debug)]
pub enum InitAction {
    /// Reset the controller and the card record, then GO_IDLE_STATE.
    ResetCard,
    /// Send a command with the given argument (APP_CMD first if needed).
    SendCommandA(SdCardCommands, u32),
    /// Send a command with its implicit argument (APP_CMD first if needed).
    SendCommand(SdCardCommands),
    /// Run the ACMD41 loop with the given argument.
    AppSendOpCond(u32),
    /// Set the SD clock to the given frequency: gate the SD clock off
    /// (`vend_spec_clock_off`), set the dividers (`clock_dividers`,
    /// `sys_ctrl_with_dividers`), wait for it to be stable, then enable the
    /// peripheral and SD clocks (`vend_spec_clock_on`).
    SetClock(u32),
    /// Read the card's SCR: set MIXCTRL and BLK_ATT with `scr_read_setup`,
    /// send SEND_SCR and read the two SCR words.
    ReadScr,
    /// Switch the controller to the 4-bit data bus.
    UseFourBitBus,
    /// Initialisation is over with this result.
    Finish(SdResult),
}

/// Steps left before the sequence is over, at most.
pub open spec fn init_rank(s: InitState) -> nat {
    match s {
        InitState::Start => 16,
        InitState::AwaitReset => 15,
        InitState::AwaitIfCond => 14,
        InitState::AwaitLegacyReset => 13,
        InitState::AwaitOpCondSc => 12,
        InitState::AwaitOpCondHc => 12,
        InitState::AwaitCid => 11,
        InitState::AwaitRca => 10,
        InitState::AwaitCsd => 9,
        InitState::AwaitClock => 8,
        InitState::AwaitSelect => 7,
        InitState::AwaitScr => 6,
        InitState::AwaitBusWidth => 5,
        InitState::AwaitBusConfigured => 4,
        InitState::AwaitBlocklen => 3,
        InitState::Done => 0,
    }
}

/// The transition table of the card initialisation: the next state and
/// action from `state` when the previous action ended with `event` (and,
/// after the legacy reset, `cmd_inhibit` tells whether a command is still in
/// progress).
///
/// Reset, then SendIfCond: a version 2 card answers and gets ACMD41 with
/// the high capacity argument; a busy controller ends the sequence; any
/// other failure means a version 1 card, which is reset again and gets
/// ACMD41 with the standard capacity argument. Then AllSendCid,
/// SendRelAddr, SendCsd, the normal clock, CardSelect, the SCR read,
/// SetBusWidth when the card supports the 4-bit bus, and SetBlocklen
/// 512. Any failing step ends the sequence with its result.
pub open spec fn init_next(state: InitState, card: SdDescriptor, event: SdResult, cmd_inhibit: bool) -> (
    InitState,
    InitAction,
) {
    let failed = (InitState::Done, InitAction::Finish(event));
    let ok = event == SdResult::SdOk;
    match state {
        InitState::Start => (InitState::AwaitReset, InitAction::ResetCard),
        InitState::AwaitReset => if !ok {
            failed
        } else {
            (InitState::AwaitIfCond, InitAction::SendCommandA(SdCardCommands::SendIfCond, IF_COND_ARG))
        },
        InitState::AwaitIfCond => if ok {
            (InitState::AwaitOpCondHc, InitAction::AppSendOpCond(ACMD41_ARG_HC))
        } else if event == SdResult::SdBusy {
            failed
        } else {
            (InitState::AwaitLegacyReset, InitAction::ResetCard)
        },
        InitState::AwaitOpCondHc => if !ok {
            failed
        } else {
            (InitState::AwaitCid, InitAction::SendCommand(SdCardCommands::AllSendCid))
        },
        InitState::AwaitLegacyReset => if cmd_inhibit && !ok {
            failed
        } else {
            (InitState::AwaitOpCondSc, InitAction::AppSendOpCond(ACMD41_ARG_SC))
        },
        InitState::AwaitOpCondSc => if !ok {
            failed
        } else {
            (InitState::AwaitCid, InitAction::SendCommand(SdCardCommands::AllSendCid))
        },
        InitState::AwaitCid => if !ok {
            failed
        } else {
            (InitState::AwaitRca, InitAction::SendCommand(SdCardCommands::SendRelAddr))
        },
        InitState::AwaitRca => if !ok {
            failed
        } else {
            (InitState::AwaitCsd, InitAction::SendCommand(SdCardCommands::SendCsd))
        },
        InitState::AwaitCsd => if !ok {
            failed
        } else {
            (InitState::AwaitClock, InitAction::SetClock(FREQ_NORMAL))
        },
        InitState::AwaitClock => if !ok {
            failed
        } else {
            (InitState::AwaitSelect, InitAction::SendCommand(SdCardCommands::CardSelect))
        },
        InitState::AwaitSelect => if !ok {
            failed
        } else {
            (InitState::AwaitScr, InitAction::ReadScr)
        },
        InitState::AwaitScr => if !ok {
            failed
        } else if scr_bus_width_1_4(card.scr) {
            (InitState::AwaitBusWidth, InitAction::SendCommandA(SdCardCommands::SetBusWidth, card.rca | 2))
        } else {
            (InitState::AwaitBlocklen, InitAction::SendCommandA(SdCardCommands::SetBlocklen, 512))
        },
        InitState::AwaitBusWidth => if !ok {
            failed
        } else {
            (InitState::AwaitBusConfigured, InitAction::UseFourBitBus)
        },
        InitState::AwaitBusConfigured => (
            InitState::AwaitBlocklen,
            InitAction::SendCommandA(SdCardCommands::SetBlocklen, 512),
        ),
        InitState::AwaitBlocklen => if !ok {
            failed
        } else {
            (InitState::Done, InitAction::Finish(SdResult::SdOk))
        },
        InitState::Done => (InitState::Done, InitAction::Finish(SdResult::NotRun)),
    }
}

/// The card record after an initialisation step: the accepted ACMD41 of a
/// version 2 card records its type from the OCR's capacity bit (high or
/// standard capacity), that of a version 1 card records version 1; every
/// other step leaves the record as it was.
pub open spec fn init_card_after(state: InitState, card: SdDescriptor, event: SdResult) -> SdDescriptor {
    if state == InitState::AwaitOpCondHc && event == SdResult::SdOk {
        SdDescriptor {
            sd_card_type: if ocr_high_capacity(card.ocr) {
                SdCardType::Type2Hc
            } else {
                SdCardType::Type2Sc
            },
            ..card
        }
    } else if state == InitState::AwaitOpCondSc && event == SdResult::SdOk {
        SdDescriptor { sd_card_type: SdCardType::Type1, ..card }
    } else {
        card
    }
}

/// The states the initialisation reaches only once the card's operating
/// conditions are known.
pub open spec fn init_typed(s: InitState) -> bool {
    match s {
        InitState::AwaitCid | InitState::AwaitRca | InitState::AwaitCsd | InitState::AwaitClock
        | InitState::AwaitSelect | InitState::AwaitScr | InitState::AwaitBusWidth
        | InitState::AwaitBusConfigured | InitState::AwaitBlocklen => true,
        _ => false,
    }
}

/// Whether the record names a card type: version 1, or version 2 of high or
/// standard capacity.
pub open spec fn card_typed(c: SdDescriptor) -> bool {
    c.sd_card_type == SdCardType::Type2Hc || c.sd_card_type == SdCardType::Type2Sc || c.sd_card_type == SdCardType::Type1
}

/// The state and card record after the initialisation steps with the
/// outcomes `events` (each with its command-inhibit flag), from the start.
pub open spec fn init_run(card: SdDescriptor, events: Seq<(SdResult, bool)>) -> (InitState, SdDescriptor)
    decreases events.len(),
{
    if events.len() == 0 {
        (InitState::Start, card)
    } else {
        let prev = init_run(card, events.drop_last());
        (
            init_next(prev.0, prev.1, events.last().0, events.last().1).0,
            init_card_after(prev.0, prev.1, events.last().0),
        )
    }
}

proof fn lemma_init_run_typed(card: SdDescriptor, events: Seq<(SdResult, bool)>)
    ensures
        init_typed(init_run(card, events).0) ==> card_typed(init_run(card, events).1),
    decreases events.len(),
{
    if events.len() > 0 {
        lemma_init_run_typed(card, events.drop_last());
    }
}

/// Whatever the card answers along the way, an initialisation that ends
/// with success has passed an accepted ACMD41 and recorded the card's type:
/// version 1, or version 2 of high or standard capacity.
pub proof fn lemma_init_success_types_card(
    card: SdDescriptor,
    events: Seq<(SdResult, bool)>,
    event: SdResult,
    cmd_inhibit: bool,
)
    ensures
        init_next(init_run(card, events).0, init_run(card, events).1, event, cmd_inhibit).1
            == InitAction::Finish(SdResult::SdOk) ==> card_typed(
            init_card_after(init_run(card, events).0, init_run(card, events).1, event),
        ),
{
    lemma_init_run_typed(card, events);
}

/// An accepted ACMD41 records the card's type from what the card said: a
/// version 2 card is high capacity exactly when its OCR has the card
/// capacity status bit (30) set, and a card that only answered the legacy
/// ACMD41 is version 1; the RCA, OCR and SCR stay as they were.
pub proof fn lemma_op_cond_records_capacity(card: SdDescriptor)
    ensures
        init_card_after(InitState::AwaitOpCondHc, card, SdResult::SdOk).sd_card_type == (if card.ocr
            & 0x4000_0000 != 0 {
            SdCardType::Type2Hc
        } else {
            SdCardType::Type2Sc
        }),
        init_card_after(InitState::AwaitOpCondSc, card, SdResult::SdOk).sd_card_type == SdCardType::Type1,
        init_card_after(InitState::AwaitOpCondHc, card, SdResult::SdOk).rca == card.rca,
        init_card_after(InitState::AwaitOpCondHc, card, SdResult::SdOk).ocr == card.ocr,
        init_card_after(InitState::AwaitOpCondHc, card, SdResult::SdOk).scr == card.scr,
{
}

/// One step of the card initialisation: given the outcome `event` of the
/// previous action (and, after the legacy reset, whether a command is still
/// in progress), decide the next state and action, as `init_next` tables
/// them. The card type is recorded in `card` once the operating conditions
/// are known.
pub fn init_step(state: InitState, card: &mut SdDescriptor, event: SdResult, cmd_inhibit: bool) -> (r: (
    InitState,
    InitAction,
))
    ensures
        r == init_next(state, *old(card), event, cmd_inhibit),
        *final(card) == init_card_after(state, *old(card), event),
        state != InitState::Done ==> init_rank(r.0) < init_rank(state),
        (r.0 == InitState::Done) == (r.1 is Finish),
        r.1 == InitAction::Finish(SdResult::SdOk) ==> state == InitState::AwaitBlocklen && event
            == SdResult::SdOk,
{
    match state {
        InitState::Start => (InitState::AwaitReset, InitAction::ResetCard),
        InitState::AwaitReset => {
            if event != SdResult::SdOk {
                (InitState::Done, InitAction::Finish(event))
            } else {
                (InitState::AwaitIfCond, InitAction::SendCommandA(SdCardCommands::SendIfCond, IF_COND_ARG))
            }
        },
        InitState::AwaitIfCond => {
            if event == SdResult::SdOk {
                (InitState::AwaitOpCondHc, InitAction::AppSendOpCond(ACMD41_ARG_HC))
            } else if event == SdResult::SdBusy {
                (InitState::Done, InitAction::Finish(event))
            } else {
                (InitState::AwaitLegacyReset, InitAction::ResetCard)
            }
        },
        InitState::AwaitOpCondHc => {
            if event != SdResult::SdOk {
                (InitState::Done, InitAction::Finish(event))
            } else {
                card.set_type_from_ocr();
                (InitState::AwaitCid, InitAction::SendCommand(SdCardCommands::AllSendCid))
            }
        },
        InitState::AwaitLegacyReset => {
            if cmd_inhibit && event != SdResult::SdOk {
                (InitState::Done, InitAction::Finish(event))
            } else {
                (InitState::AwaitOpCondSc, InitAction::AppSendOpCond(ACMD41_ARG_SC))
            }
        },
        InitState::AwaitOpCondSc => {
            if event != SdResult::SdOk {
                (InitState::Done, InitAction::Finish(event))
            } else {
                card.sd_card_type = SdCardType::Type1;
                (InitState::AwaitCid, InitAction::SendCommand(SdCardCommands::AllSendCid))
            }
        },
        InitState::AwaitCid => {
            if event != SdResult::SdOk {
                (InitState::Done, InitAction::Finish(event))
            } else {
                (InitState::AwaitRca, InitAction::SendCommand(SdCardCommands::SendRelAddr))
            }
        },
        InitState::AwaitRca => {
            if event != SdResult::SdOk {
                (InitState::Done, InitAction::Finish(event))
            } else {
                (InitState::AwaitCsd, InitAction::SendCommand(SdCardCommands::SendCsd))
            }
        },
        InitState::AwaitCsd => {
            if event != SdResult::SdOk {
                (InitState::Done, InitAction::Finish(event))
            } else {
                (InitState::AwaitClock, InitAction::SetClock(FREQ_NORMAL))
            }
        },
        InitState::AwaitClock => {
            if event != SdResult::SdOk {
                (InitState::Done, InitAction::Finish(event))
            } else {
                (InitState::AwaitSelect, InitAction::SendCommand(SdCardCommands::CardSelect))
            }
        },
        InitState::AwaitSelect => {
            if event != SdResult::SdOk {
                (InitState::Done, InitAction::Finish(event))
            } else {
                (InitState::AwaitScr, InitAction::ReadScr)
            }
        },
        InitState::AwaitScr => {
            if event != SdResult::SdOk {
                (InitState::Done, InitAction::Finish(event))
            } else if card.supports_4bit_bus() {
                (
                    InitState::AwaitBusWidth,
                    InitAction::SendCommandA(SdCardCommands::SetBusWidth, card.bus_width_4_argument()),
                )
            } else {
                (InitState::AwaitBlocklen, InitAction::SendCommandA(SdCardCommands::SetBlocklen, 512))
            }
        },
        InitState::AwaitBusWidth => {
            if event != SdResult::SdOk {
                (InitState::Done, InitAction::Finish(event))
            } else {
                (InitState::AwaitBusConfigured, InitAction::UseFourBitBus)
            }
        },
        InitState::AwaitBusConfigured => {
            (InitState::AwaitBlocklen, InitAction::SendCommandA(SdCardCommands::SetBlocklen, 512))
        },
        InitState::AwaitBlocklen => {
            if event != SdResult::SdOk {
                (InitState::Done, InitAction::Finish(event))
            } else {
                (InitState::Done, InitAction::Finish(SdResult::SdOk))
            }
        },
        InitState::Done => (InitState::Done, InitAction::Finish(SdResult::NotRun)),
    }
}

} // verus!
