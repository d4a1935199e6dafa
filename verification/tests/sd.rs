use rustboot_hal::nxp::imx8mn::bsp::drivers::usdhc::{
    cc_outcome, clock_dividers, cmd_data_outcome, divided_clock, host_supports_all_voltages, init_step,
    sys_ctrl_with_dividers, Command, InitAction, InitState, SdCardCommands, SdCardType, SdDescriptor,
    SdResult, ACMD41_ARG_HC, ACMD41_ARG_SC, IF_COND_ARG,
};
use rustboot_hal::nxp::imx8mn::bsp::drivers::usdhc;
use rustboot_hal::rpi::rpi4::bsp::drivers::emmc;
use rustboot_hal::sdcard::{field_get, field_set, response_bytes, status_from_r6, CID, CSD};

#[test]
fn csd_version2_capacity() {
    let mut csd = CSD::new();
    let cap = csd.unpack(0, 0x001D_FF00, 0, 0x0040_0000);
    assert_eq!(cap, 0x1DFF * 512 * 1024);
    assert!(csd.is_version2());
}

#[test]
fn csd_version1_capacity() {
    let mut csd = CSD::new();
    let cap = csd.unpack(0, 0x3C00_0380, 0x0000_0900, 0);
    assert_eq!(cap, 241 * 512 * 512);
    assert!(!csd.is_version2());
}

#[test]
fn response_buffer_order() {
    let b = response_bytes(0x0F0E_0D0C, 0x0B0A_0908, 0x0706_0504, 0x0302_0100);
    assert_eq!(b, (0u8..16).collect::<Vec<u8>>());
}

#[test]
fn cid_fields() {
    let cid = CID::from_response(0x1234_0186, 0xCAFE_BABE, 0x5344_3136, 0x0353_4453);
    assert_eq!(cid.cid0, 0x0353_4453);
    assert_eq!(cid.manufacturer_id(), 0x53);
    assert_eq!(cid.serial_number(), 0xBABE_1234);
    assert_eq!(cid.manufacture_year(), 2000 + 0x18);
    assert_eq!(cid.manufacture_month(), 6);
}

#[test]
fn register_fields() {
    assert_eq!(field_set(0xFFFF_FFFF, 4, 0xF, 0x3), 0xFFFF_FF3F);
    assert_eq!(field_get(0x0000_AB00, 8, 0xFF), 0xAB);
    // R6: bits 15, 14, 13 of the response go to bits 23, 22, 19.
    assert_eq!(status_from_r6(0xABCD_E123), 0x00C8_0123);
}

#[test]
fn usdhc_command_encoding() {
    let c = SdCardCommands::SendIfCond.get_cmd();
    assert_eq!(c.cmd_code, 0x081A_0000);
    assert_eq!(c.index(), 8);
    assert_eq!(c.response_type(), 2);
    assert_eq!(c.delay, 100);
    let c = SdCardCommands::SendScr.get_cmd();
    assert_eq!(c.cmd_code, 0x333A_0000);
    assert!(c.reads_scr());
    assert_eq!(SdCardCommands::GoIdleState.get_cmd().cmd_code, 0);
    assert_eq!(SdCardCommands::AllSendCid.get_cmd().cmd_code, 0x0209_0000);
    assert!(SdCardCommands::AppSendOpCond.needs_app_cmd());
    assert!(!SdCardCommands::SendCsd.needs_app_cmd());
    assert_eq!(SdCardType::Type2Hc.name(), "Type 2 HC");
}

#[test]
fn usdhc_responses_update_the_card() {
    let mut card = SdDescriptor::new();
    let rca_cmd = SdCardCommands::SendRelAddr.get_cmd();
    let r = card.handle_response(rca_cmd, 0, 0xB368_0500, 0, 0, 0, 0, 0);
    assert_eq!(r, SdResult::SdOk);
    assert_eq!(card.rca, 0xB368_0000);
    assert_eq!(card.status, 0x0500);
    // SEND_IF_COND echoes its argument.
    let ifc = SdCardCommands::SendIfCond.get_cmd();
    assert_eq!(card.handle_response(ifc, IF_COND_ARG, IF_COND_ARG, 0, 0, 0, 0, 0), SdResult::SdOk);
    assert_eq!(card.handle_response(ifc, IF_COND_ARG, 0x1AB, 0, 0, 0, 0, 0), SdResult::SdError);
    // An R1 status with error bits reports them.
    let sel = SdCardCommands::CardSelect.get_cmd();
    assert_eq!(card.handle_response(sel, 0, 0x8000_0900, 0, 0, 0, 0, 0), SdResult::SdCardState(0x8000_0000));
    // ACMD41 stores the OCR.
    let op = SdCardCommands::AppSendOpCond.get_cmd();
    assert_eq!(card.handle_response(op, ACMD41_ARG_HC, 0xC0FF_8000, 0, 0, 0, 0, 0), SdResult::SdOk);
    assert_eq!(card.ocr, 0xC0FF_8000);
    card.set_type_from_ocr();
    assert_eq!(card.sd_card_type, SdCardType::Type2Hc);
    assert_eq!(card.op_cond_outcome(), SdResult::SdOk);
    // SEND_SCR stores both SCR words.
    let scr = SdCardCommands::SendScr.get_cmd();
    assert_eq!(card.handle_response(scr, 0, 0, 0, 0, 0, 0x0235_8500, 0x1), SdResult::SdOk);
    assert_eq!(card.scr, 0x1_0235_8500);
    assert!(card.supports_4bit_bus());
    assert_eq!(card.bus_width_4_argument(), 0xB368_0002);
    // ALL_SEND_CID stores the CID.
    let cid = SdCardCommands::AllSendCid.get_cmd();
    assert_eq!(card.handle_response(cid, 0, 1, 2, 3, 4, 0, 0), SdResult::SdOk);
    assert!(card.cid == CID { cid0: 4, cid1: 3, cid2: 2, cid3: 1 });
}

#[test]
fn usdhc_app_commands() {
    let mut card = SdDescriptor::new();
    let (c, arg) = card.app_command();
    assert_eq!((c.cmd_code, arg), (SdCardCommands::AppCmd.get_cmd().cmd_code, 0));
    assert_eq!(card.app_command_outcome(false, SdResult::SdError), SdResult::SdOk);
    card.rca = 0x1234_0000;
    let (c, arg) = card.app_command();
    assert_eq!((c.cmd_code, arg), (SdCardCommands::AppCmdRca.get_cmd().cmd_code, 0x1234_0000));
    card.status = 0;
    assert_eq!(card.app_command_outcome(true, SdResult::SdOk), SdResult::SdError);
    assert_eq!(card.check_app_cmd(SdCardCommands::SendScr, SdResult::SdOk), SdResult::SdErrorAppCmd);
    card.status = 0x20;
    assert_eq!(card.app_command_outcome(true, SdResult::SdOk), SdResult::SdOk);
    assert_eq!(card.check_app_cmd(SdCardCommands::SendScr, SdResult::SdOk), SdResult::SdOk);
    assert_eq!(card.command_argument(&SdCardCommands::SendCsd.get_cmd()), 0x1234_0000);
    assert_eq!(card.command_argument(&SdCardCommands::GoIdleState.get_cmd()), 0);
}

#[test]
fn usdhc_op_cond_outcomes() {
    let mut card = SdDescriptor::new();
    card.ocr = 0x00FF_8000;
    assert_eq!(card.op_cond_outcome(), SdResult::SdTimeout);
    assert!(card.op_cond_retry(3));
    assert!(!card.op_cond_retry(0));
    card.ocr = 0x8000_8000;
    assert_eq!(card.op_cond_outcome(), SdResult::SdErrorVoltage);
    assert!(!card.op_cond_retry(3));
}

#[test]
fn usdhc_wait_outcomes() {
    assert_eq!(cc_outcome(10_000, 0), SdResult::SdTimeout);
    assert_eq!(cc_outcome(5, 0x0001_0000), SdResult::SdError);
    assert_eq!(cc_outcome(5, 0x0000_0001), SdResult::SdOk);
    assert_eq!(cmd_data_outcome(10_000), SdResult::SdBusy);
    assert_eq!(cmd_data_outcome(9_999), SdResult::SdOk);
    assert!(host_supports_all_voltages(0x0700_0000));
    assert!(!host_supports_all_voltages(0x0300_0000));
}

#[test]
fn usdhc_clock_dividers() {
    // 400 MHz down to 400 kHz: prescaler 64, divisor 16 gives 390625 Hz.
    let c = clock_dividers(400_000);
    assert_eq!((c.prescaler, c.divisor, c.sdclkfs, c.dvs), (64, 16, 32, 15));
    assert_eq!(divided_clock(&c), 390_625);
    // 50 MHz: no prescaling, divisor 8.
    let c = clock_dividers(50_000_000);
    assert_eq!((c.prescaler, c.divisor), (1, 8));
    assert_eq!(divided_clock(&c), 50_000_000);
    assert_eq!(sys_ctrl_with_dividers(0x0000_000F, &c), 0x0000_007F);
}

#[test]
fn usdhc_init_sequence() {
    let mut card = SdDescriptor::new();
    let (s, a) = init_step(InitState::Start, &mut card, SdResult::NotRun, false);
    assert_eq!((s, a), (InitState::AwaitReset, InitAction::ResetCard));
    let (s, a) = init_step(s, &mut card, SdResult::SdOk, false);
    assert_eq!(a, InitAction::SendCommandA(SdCardCommands::SendIfCond, IF_COND_ARG));
    let (s, a) = init_step(s, &mut card, SdResult::SdOk, false);
    assert_eq!(a, InitAction::AppSendOpCond(ACMD41_ARG_HC));
    card.ocr = 0xC0FF_8000;
    let (s, a) = init_step(s, &mut card, SdResult::SdOk, false);
    assert_eq!(a, InitAction::SendCommand(SdCardCommands::AllSendCid));
    assert_eq!(card.sd_card_type, SdCardType::Type2Hc);
    let (s, a) = init_step(s, &mut card, SdResult::SdOk, false);
    assert_eq!(a, InitAction::SendCommand(SdCardCommands::SendRelAddr));
    let (s, a) = init_step(s, &mut card, SdResult::SdOk, false);
    assert_eq!(a, InitAction::SendCommand(SdCardCommands::SendCsd));
    let (s, a) = init_step(s, &mut card, SdResult::SdOk, false);
    assert!(matches!(a, InitAction::SetClock(_)));
    let (s, a) = init_step(s, &mut card, SdResult::SdOk, false);
    assert_eq!(a, InitAction::SendCommand(SdCardCommands::CardSelect));
    let (s, a) = init_step(s, &mut card, SdResult::SdOk, false);
    assert_eq!(a, InitAction::ReadScr);
    card.scr = 0x0500;
    card.rca = 0x1000_0000;
    let (s, a) = init_step(s, &mut card, SdResult::SdOk, false);
    assert_eq!(a, InitAction::SendCommandA(SdCardCommands::SetBusWidth, 0x1000_0002));
    let (s, a) = init_step(s, &mut card, SdResult::SdOk, false);
    assert_eq!(a, InitAction::UseFourBitBus);
    let (s, a) = init_step(s, &mut card, SdResult::SdOk, false);
    assert_eq!(a, InitAction::SendCommandA(SdCardCommands::SetBlocklen, 512));
    let (s, a) = init_step(s, &mut card, SdResult::SdOk, false);
    assert_eq!((s, a), (InitState::Done, InitAction::Finish(SdResult::SdOk)));
}

#[test]
fn usdhc_init_falls_back_to_version1() {
    let mut card = SdDescriptor::new();
    let (s, a) = init_step(InitState::AwaitIfCond, &mut card, SdResult::SdTimeout, false);
    assert_eq!((s, a), (InitState::AwaitLegacyReset, InitAction::ResetCard));
    let (s, a) = init_step(s, &mut card, SdResult::SdOk, false);
    assert_eq!(a, InitAction::AppSendOpCond(ACMD41_ARG_SC));
    let (_, a) = init_step(s, &mut card, SdResult::SdOk, false);
    assert_eq!(a, InitAction::SendCommand(SdCardCommands::AllSendCid));
    assert_eq!(card.sd_card_type, SdCardType::Type1);
    // A failure stops the sequence with that failure.
    let (s, a) = init_step(InitState::AwaitCsd, &mut card, SdResult::SdTimeout, false);
    assert_eq!((s, a), (InitState::Done, InitAction::Finish(SdResult::SdTimeout)));
    let (_, a) = init_step(InitState::AwaitIfCond, &mut card, SdResult::SdBusy, false);
    assert_eq!(a, InitAction::Finish(SdResult::SdBusy));
}

#[test]
fn command_record_default() {
    let c = Command::new();
    assert_eq!((c.cmd_code, c.use_rca, c.delay), (0, 0, 0));
}

#[test]
fn emmc_clock_setting() {
    let ctrl = emmc::EMMCController::new(0xFE34_0000);
    let s = ctrl.emmc_set_clock2(400_000);
    assert_eq!(s.divisor, 63);
    assert_eq!(s.control1, 0x000E_3F05);
    let s = ctrl.emmc_set_clock2(25_000_000);
    assert_eq!(s.divisor, 1);
    assert_eq!(s.control1, 0x000E_0105);
    let s = ctrl.emmc_set_clock2(24_437);
    assert_eq!(s.divisor, 1024 - 1);
    assert_eq!(ctrl.emmc_get_clock_divider2(0x3FF), 0xFFC0);
    assert_eq!(ctrl.emmc_get_clock_divider2(0x102), 0x0240);
}

#[test]
fn emmc_command_encoding() {
    let c = emmc::SdCardCommands::READ_MULTI.get_cmd();
    assert_eq!(c.cmd_code, 0x1222_0032);
    let c = emmc::SdCardCommands::WRITE_SINGLE.get_cmd();
    assert_eq!(c.cmd_code, 0x1822_0000);
    assert_eq!(c.index(), 0x18);
}

#[test]
fn emmc_wait_outcomes() {
    assert_eq!(emmc::wait_mask(0x1), 0x017E_8001);
    assert_eq!(emmc::wait_for_interrupt_outcome(0x1, 1_000_000, 0), (emmc::SdResult::EMMC_TIMEOUT, 0));
    assert_eq!(
        emmc::wait_for_interrupt_outcome(0x1, 10, 0x0001_0001),
        (emmc::SdResult::EMMC_TIMEOUT, 0x0001_0001)
    );
    assert_eq!(emmc::wait_for_interrupt_outcome(0x1, 10, 0x0000_8001), (emmc::SdResult::EMMC_ERROR, 0x8001));
    assert_eq!(emmc::wait_for_interrupt_outcome(0x1, 10, 0x0000_0001), (emmc::SdResult::EMMC_OK, 0x1));
    assert_eq!(emmc::wait_for_command_outcome(1_000_000, 0), emmc::SdResult::EMMC_BUSY);
    assert_eq!(emmc::wait_for_data_outcome(499_999, 0), emmc::SdResult::EMMC_OK);
    assert_eq!(emmc::wait_for_data_outcome(500_000, 0), emmc::SdResult::EMMC_BUSY);
    assert_eq!(emmc::erase_wait_outcome(0, true), emmc::SdResult::EMMC_TIMEOUT);
    assert_eq!(emmc::erase_wait_outcome(0, false), emmc::SdResult::EMMC_OK);
}

#[test]
fn emmc_data_words() {
    assert_eq!(emmc::pack_word(1, 2, 3, 4), 0x0403_0201);
    assert_eq!(emmc::unpack_word(0x0403_0201, true), (1, 2, 3, 4));
    assert_eq!(emmc::unpack_word(0x0403_0201, false), (1, 2, 3, 4));
}

#[test]
fn emmc_block_addresses() {
    let mut card = emmc::SdDescriptor::new();
    card.emmc_card_type = emmc::SdCardType::EMMC_TYPE_2_SC;
    assert_eq!(emmc::erase_range(&card, 3, 2), Some((3 << 9, 4 << 9)));
    card.emmc_card_type = emmc::SdCardType::EMMC_TYPE_1;
    assert_eq!(emmc::erase_range(&card, 3, 1), Some((3 << 9, 3 << 9)));
    card.emmc_card_type = emmc::SdCardType::EMMC_TYPE_2_HC;
    assert_eq!(emmc::erase_range(&card, 3, 2), Some((3, 4)));
    assert_eq!(emmc::erase_range(&card, 3, 0), None);
}

#[test]
fn emmc_read_transfer() {
    let mut card = emmc::SdDescriptor::new();
    card.emmc_card_type = emmc::SdCardType::EMMC_TYPE_2_HC;
    card.scr = 0;
    let t = emmc::Transfer { start_block: 10, num_blocks: 2, write: false };
    let (s, a) = emmc::transfer_step(&t, &card, emmc::TransferState::Start, emmc::SdResult::NONE);
    assert_eq!(a, emmc::TransferAction::WaitForData);
    let (s, a) = emmc::transfer_step(&t, &card, s, emmc::SdResult::EMMC_OK);
    assert_eq!(a, emmc::TransferAction::StartTransfer(2, emmc::SdCardCommands::READ_MULTI, 10));
    let (s, a) = emmc::transfer_step(&t, &card, s, emmc::SdResult::EMMC_OK);
    assert_eq!(a, emmc::TransferAction::MoveBlock(emmc::INT_READ_RDY, 0));
    let (s, a) = emmc::transfer_step(&t, &card, s, emmc::SdResult::EMMC_OK);
    assert_eq!(a, emmc::TransferAction::MoveBlock(emmc::INT_READ_RDY, 1));
    let (s, a) = emmc::transfer_step(&t, &card, s, emmc::SdResult::EMMC_OK);
    assert_eq!(a, emmc::TransferAction::SendCommand(emmc::SdCardCommands::STOP_TRANS));
    let (s, a) = emmc::transfer_step(&t, &card, s, emmc::SdResult::EMMC_OK);
    assert_eq!((s, a), (emmc::TransferState::Done, emmc::TransferAction::Finish(emmc::SdResult::EMMC_OK)));
}

#[test]
fn emmc_write_transfer_with_block_count() {
    let mut card = emmc::SdDescriptor::new();
    card.emmc_card_type = emmc::SdCardType::EMMC_TYPE_2_SC;
    card.scr = 0x0200_0000;
    let t = emmc::Transfer { start_block: 4, num_blocks: 3, write: true };
    let (s, _) = emmc::transfer_step(&t, &card, emmc::TransferState::Start, emmc::SdResult::NONE);
    let (s, a) = emmc::transfer_step(&t, &card, s, emmc::SdResult::EMMC_OK);
    assert_eq!(a, emmc::TransferAction::SendCommandA(emmc::SdCardCommands::SET_BLOCKCNT, 3));
    let (s, a) = emmc::transfer_step(&t, &card, s, emmc::SdResult::EMMC_OK);
    assert_eq!(a, emmc::TransferAction::StartTransfer(3, emmc::SdCardCommands::WRITE_MULTI, 4 << 9));
    let (s, a) = emmc::transfer_step(&t, &card, s, emmc::SdResult::EMMC_OK);
    assert_eq!(a, emmc::TransferAction::MoveBlock(emmc::INT_WRITE_RDY, 0));
    let (s, _) = emmc::transfer_step(&t, &card, s, emmc::SdResult::EMMC_OK);
    let (s, a) = emmc::transfer_step(&t, &card, s, emmc::SdResult::EMMC_OK);
    assert_eq!(a, emmc::TransferAction::MoveBlock(emmc::INT_WRITE_RDY, 2));
    let (s, a) = emmc::transfer_step(&t, &card, s, emmc::SdResult::EMMC_OK);
    assert_eq!(a, emmc::TransferAction::WaitInterrupt(emmc::INT_DATA_DONE));
    let (s, a) = emmc::transfer_step(&t, &card, s, emmc::SdResult::EMMC_OK);
    assert_eq!((s, a), (emmc::TransferState::Done, emmc::TransferAction::Finish(emmc::SdResult::EMMC_OK)));
}

#[test]
fn emmc_transfer_failures() {
    let card = emmc::SdDescriptor::new();
    let t = emmc::Transfer { start_block: 0, num_blocks: 1, write: false };
    let (_, a) = emmc::transfer_step(&t, &card, emmc::TransferState::Start, emmc::SdResult::NONE);
    assert_eq!(a, emmc::TransferAction::Finish(emmc::SdResult::EMMC_NO_RESP));
    let (_, a) = emmc::transfer_step(&t, &card, emmc::TransferState::AwaitDataIdle, emmc::SdResult::EMMC_BUSY);
    assert_eq!(a, emmc::TransferAction::Finish(emmc::SdResult::EMMC_TIMEOUT));
    let none = emmc::Transfer { start_block: 0, num_blocks: 0, write: false };
    let (_, a) = emmc::transfer_step(&none, &card, emmc::TransferState::AwaitTransferCommand, emmc::SdResult::EMMC_OK);
    assert_eq!(a, emmc::TransferAction::Finish(emmc::SdResult::EMMC_TIMEOUT));
}

#[test]
fn host_wait_outcomes() {
    assert_eq!(emmc::reset_outcome(100_000), emmc::SdResult::EMMC_ERROR_RESET);
    assert_eq!(emmc::reset_outcome(99_999), emmc::SdResult::EMMC_OK);
    assert_eq!(emmc::clock_stable_outcome(100_000), emmc::SdResult::EMMC_ERROR_CLOCK);
    assert_eq!(emmc::scr_read_outcome(1), emmc::SdResult::EMMC_TIMEOUT);
    assert_eq!(emmc::scr_read_outcome(2), emmc::SdResult::EMMC_OK);
    assert_eq!(rustboot_hal::nxp::imx8mn::bsp::drivers::usdhc::clock_stable_outcome(100), SdResult::SdErrorClock);
    assert_eq!(rustboot_hal::nxp::imx8mn::bsp::drivers::usdhc::clock_stable_outcome(99), SdResult::SdOk);
}

#[test]
fn emmc_version1_cards_are_byte_addressed() {
    let mut card = emmc::SdDescriptor::new();
    card.emmc_card_type = emmc::SdCardType::EMMC_TYPE_1;
    card.scr = 0;
    let t = emmc::Transfer { start_block: 10, num_blocks: 1, write: false };
    let (s, _) = emmc::transfer_step(&t, &card, emmc::TransferState::Start, emmc::SdResult::NONE);
    let (_, a) = emmc::transfer_step(&t, &card, s, emmc::SdResult::EMMC_OK);
    assert_eq!(a, emmc::TransferAction::StartTransfer(1, emmc::SdCardCommands::READ_SINGLE, 10 << 9));
}

#[test]
fn emmc_block_size_and_count() {
    assert_eq!(emmc::scr_blksizecnt(0), 0x0001_0008);
    assert_eq!(emmc::scr_blksizecnt(0xFFFF_FFFF), 0x0001_FC08);
    assert_eq!(emmc::transfer_blksizecnt(0, 3), 0x0003_0200);
}

#[test]
fn emmc_op_cond_loop() {
    let mut card = emmc::SdDescriptor::new();
    card.ocr = 0;
    assert_eq!(card.op_cond_step(emmc::OP_COND_RETRIES, emmc::SdResult::EMMC_TIMEOUT), emmc::OpCondAction::Retry(5));
    assert_eq!(card.op_cond_step(0, emmc::SdResult::EMMC_TIMEOUT), emmc::OpCondAction::Finish(emmc::SdResult::EMMC_TIMEOUT));
    assert_eq!(card.op_cond_step(3, emmc::SdResult::EMMC_ERROR), emmc::OpCondAction::Finish(emmc::SdResult::EMMC_ERROR));
    card.ocr = 0x8030_0000;
    assert_eq!(card.op_cond_step(3, emmc::SdResult::EMMC_OK), emmc::OpCondAction::Finish(emmc::SdResult::EMMC_OK));
    card.ocr = 0x8000_0000;
    assert_eq!(card.op_cond_step(3, emmc::SdResult::EMMC_OK), emmc::OpCondAction::Finish(emmc::SdResult::EMMC_ERROR_VOLTAGE));
    // Six retries after the first ACMD41, then the loop stops.
    card.ocr = 0;
    let mut left = emmc::OP_COND_RETRIES;
    let mut sends = 1;
    while let emmc::OpCondAction::Retry(n) = card.op_cond_step(left, emmc::SdResult::EMMC_TIMEOUT) {
        left = n;
        sends += 1;
    }
    assert_eq!(sends, 7);
}

#[test]
fn emmc_version1_card_initialisation() {
    let mut card = emmc::SdDescriptor::new();
    let (s, a) = emmc::init_step(emmc::InitState::Start, &mut card, emmc::SdResult::NONE, false);
    assert_eq!(a, emmc::InitAction::ResetCard);
    let (s, _) = emmc::init_step(s, &mut card, emmc::SdResult::EMMC_OK, false);
    let (s, a) = emmc::init_step(s, &mut card, emmc::SdResult::EMMC_TIMEOUT, false);
    assert_eq!(a, emmc::InitAction::ResetCard);
    let (s, a) = emmc::init_step(s, &mut card, emmc::SdResult::EMMC_OK, false);
    assert_eq!(a, emmc::InitAction::AppSendOpCond(emmc::ACMD41_ARG_SC));
    let (_, a) = emmc::init_step(s, &mut card, emmc::SdResult::EMMC_OK, false);
    assert_eq!(a, emmc::InitAction::SendCommand(emmc::SdCardCommands::ALL_SEND_CID));
    assert_eq!(card.emmc_card_type, emmc::SdCardType::EMMC_TYPE_1);
}

#[test]
fn usdhc_clock_enables() {
    assert_eq!(usdhc::vend_spec_clock_off(0xFFFF_FFFF), 0xFFFF_BFFF);
    assert_eq!(usdhc::vend_spec_clock_on(0), 0x6000);
}

#[test]
fn usdhc_scr_read_setup() {
    assert_eq!(usdhc::scr_read_setup(0, 0xFFFF_FFFF), (0x10, 0xFFFF_F008));
}

#[test]
fn emmc_read_reasons() {
    assert!(emmc::read_reason_ok("read_fat"));
    assert!(emmc::read_reason_ok("read"));
    assert!(emmc::read_reason_ok("fat_read"));
    assert!(!emmc::read_reason_ok("write"));
    assert!(!emmc::read_reason_ok("read_"));
}

#[test]
fn emmc_command_send_steps() {
    let mut card = emmc::SdDescriptor::new();
    let cmd = emmc::SdCardCommands::SEND_IF_COND.get_cmd();
    let (s, a) = emmc::command_step(&mut card, cmd, 0x1AA, emmc::CommandState::Start, emmc::SdResult::NONE, 0, 0, 0, 0);
    assert_eq!(a, emmc::CommandAction::WaitForCommandLine);
    let (s2, a) = emmc::command_step(&mut card, cmd, 0x1AA, s, emmc::SdResult::EMMC_BUSY, 0, 0, 0, 0);
    assert_eq!((s2, a), (emmc::CommandState::Done, emmc::CommandAction::Finish(emmc::SdResult::EMMC_BUSY)));
    let (s, a) = emmc::command_step(&mut card, cmd, 0x1AA, s, emmc::SdResult::EMMC_OK, 0, 0, 0, 0);
    assert_eq!(a, emmc::CommandAction::Issue { arg: 0x1AA, cmdtm: cmd.cmd_code, delay_us: cmd.delay as u32 });
    let (_, a) = emmc::command_step(&mut card, cmd, 0x1AA, s, emmc::SdResult::EMMC_OK, 0x1AA, 0, 0, 0);
    assert_eq!(a, emmc::CommandAction::Finish(emmc::SdResult::EMMC_OK));
    let (_, a) = emmc::command_step(&mut card, cmd, 0x1AA, s, emmc::SdResult::EMMC_OK, 0x1AB, 0, 0, 0);
    assert_eq!(a, emmc::CommandAction::Finish(emmc::SdResult::EMMC_ERROR));
}

#[test]
fn emmc_scr_read_steps() {
    let mut card = emmc::SdDescriptor::new();
    let (s, a) = emmc::scr_step(&mut card, emmc::ScrState::Start, emmc::SdResult::NONE, 0, 0, 0);
    assert_eq!(a, emmc::ScrAction::WaitForData);
    let (s, a) = emmc::scr_step(&mut card, s, emmc::SdResult::EMMC_OK, 0, 0, 0);
    assert_eq!(a, emmc::ScrAction::SendScr(0x0001_0008));
    let (s, a) = emmc::scr_step(&mut card, s, emmc::SdResult::EMMC_OK, 0, 0, 0);
    assert_eq!(a, emmc::ScrAction::WaitInterrupt(emmc::INT_READ_RDY));
    let (s, a) = emmc::scr_step(&mut card, s, emmc::SdResult::EMMC_OK, 0, 0, 0);
    assert_eq!(a, emmc::ScrAction::ReadWords);
    let (_, a) = emmc::scr_step(&mut card, s, emmc::SdResult::EMMC_OK, 0, 0x0205_0000, 0x1);
    assert_eq!(a, emmc::ScrAction::Finish(emmc::SdResult::EMMC_OK));
    assert_eq!(card.scr, 0x1_0205_0000);
    let (_, a) = emmc::scr_step(&mut card, emmc::ScrState::AwaitDataIdle, emmc::SdResult::EMMC_BUSY, 0, 0, 0);
    assert_eq!(a, emmc::ScrAction::Finish(emmc::SdResult::EMMC_TIMEOUT));
}

#[test]
fn usdhc_clock_change_steps() {
    let c = clock_dividers(400_000);
    let (s, a) = usdhc::clock_change_step(&c, usdhc::ClockState::Start, SdResult::NotRun, 0xFFFF_FFFF, 0);
    assert_eq!(
        a,
        usdhc::ClockAction::SetDividers {
            vend_spec: 0xFFFF_BFFF,
            sys_ctrl: sys_ctrl_with_dividers(0, &c),
        }
    );
    let (_, a) = usdhc::clock_change_step(&c, s, SdResult::SdErrorClock, 0, 0);
    assert_eq!(a, usdhc::ClockAction::Finish(SdResult::SdErrorClock));
    let (s, a) = usdhc::clock_change_step(&c, s, SdResult::SdOk, 0, 0);
    assert_eq!(a, usdhc::ClockAction::EnableClocks { vend_spec: 0x6000 });
    let (_, a) = usdhc::clock_change_step(&c, s, SdResult::SdOk, 0, 0);
    assert_eq!(a, usdhc::ClockAction::Finish(SdResult::SdOk));
}

#[test]
fn checked_csd_responses() {
    // A version 2.0 CSD always decodes.
    assert!(rustboot_hal::sdcard::csd_capacity_ok(0, 0, 0, 0x0040_0000));
    // A version 1.0 CSD whose capacity does not fit 32 bits is refused.
    assert!(rustboot_hal::sdcard::csd_capacity_ok(0, 0, 0, 0));
    assert!(!rustboot_hal::sdcard::csd_capacity_ok(0, 0xFFFF_FF80, 0x0000_0F03, 0));
}
