use rustboot_hal::bootloaders::rpi4::boot::relocate_image;
use rustboot_hal::bootloaders::rpi4::dtb::{checked_propval_list, get_propval_list, DtError};
use rustboot_hal::bootloaders::rpi4::exception::{
    current_privilege_level, is_local_irq_masked, is_masked, local_irq_mask, local_irq_mask_save,
    local_irq_restore, local_irq_unmask, print_state, to_mask_str, DaifField, IRQNumber, PrivilegeLevel,
};
use rustboot_hal::bootloaders::rpi4::fit::{
    select_fit, to_dotted_sfn, verify_authenticity, ActiveConfig, AuthError, PassiveConfig, UpdateStatus,
};
use rustboot_hal::bootloaders::rpi4::kernel::{
    after_fallback_verification, after_verification, clear_image_tree, BootStep,
};
use rustboot_hal::firmware::nrf9160::nvic_systemreset;
use rustboot_hal::rpi::rpi4::arch::time::{GenericTimer, WaitSkip};
use rustboot_hal::rpi::rpi4::bsp::global::board_name;

fn active() -> ActiveConfig {
    ActiveConfig { image_name: (b"signed".to_vec(), b".itb".to_vec()), image_version: 1654 }
}

fn passive(version: u32, status: UpdateStatus, ready: bool) -> PassiveConfig {
    PassiveConfig {
        image_name: Some((b"update".to_vec(), b".itb".to_vec())),
        image_version: Some(version),
        update_status: Some(status),
        ready_for_update_flag: ready,
    }
}

#[test]
fn dotted_short_file_name() {
    assert_eq!(&to_dotted_sfn(*b"SIGNED  ITB"), b"SIGNED  .ITB");
    assert_eq!(&to_dotted_sfn(*b"ABCDEFGHXYZ"), b"ABCDEFGH.XYZ");
}

#[test]
fn newer_ready_update_is_booted() {
    let c = select_fit(&active(), &passive(1655, UpdateStatus::Updating, true), false);
    assert!(c.passive_selected);
    assert_eq!(c.file_name, b"update.itb".to_vec());
    assert_eq!(c.version, 1655);
    let c = select_fit(&active(), &passive(1655, UpdateStatus::Success, true), false);
    assert!(c.passive_selected);
}

#[test]
fn active_image_is_booted_otherwise() {
    for p in [
        passive(1655, UpdateStatus::Testing, true),
        passive(1655, UpdateStatus::Updating, false),
        passive(1654, UpdateStatus::Updating, true),
        passive(1600, UpdateStatus::Success, true),
    ] {
        let c = select_fit(&active(), &p, false);
        assert!(!c.passive_selected);
        assert_eq!(c.file_name, b"signed.itb".to_vec());
        assert_eq!(c.version, 1654);
    }
    // A requested fall-back wins over a ready update.
    let c = select_fit(&active(), &passive(1700, UpdateStatus::Updating, true), true);
    assert!(!c.passive_selected);
    // The update must be a fit-image.
    let mut p = passive(1700, UpdateStatus::Updating, true);
    p.image_name = Some((b"update".to_vec(), b".bin".to_vec()));
    assert!(!select_fit(&active(), &p, false).passive_selected);
    let p = PassiveConfig { image_name: None, image_version: Some(1700), update_status: None, ready_for_update_flag: true };
    assert!(!select_fit(&active(), &p, false).passive_selected);
}

#[test]
fn authentication_outcomes() {
    assert_eq!(verify_authenticity(Ok(true)), Ok(true));
    assert_eq!(verify_authenticity(Ok(false)), Ok(false));
    assert_eq!(verify_authenticity(Err(AuthError::BadVersion)), Err(AuthError::BadVersion));
    assert_eq!(verify_authenticity(Err(AuthError::Invalid)), Err(AuthError::FwAuthFailed));
}

#[test]
fn boot_steps() {
    assert!(after_verification(Ok(true), false) == BootStep::Relocate);
    assert!(after_verification(Ok(false), true) == BootStep::Halt);
    assert!(after_verification(Err(AuthError::BadVersion), true) == BootStep::FallBackToActive);
    assert!(after_verification(Err(AuthError::BadVersion), false) == BootStep::Halt);
    assert!(after_verification(Err(AuthError::FwAuthFailed), true) == BootStep::Halt);
    assert!(after_fallback_verification(Ok(true)) == BootStep::Relocate);
    assert!(after_fallback_verification(Err(AuthError::BadVersion)) == BootStep::Halt);
}

#[test]
fn fall_back_clears_the_image_tree() {
    let mut itb = vec![0xAB; 64];
    clear_image_tree(&mut itb);
    assert_eq!(itb, vec![0; 64]);
}

#[test]
fn relocation_copies_the_image() {
    let mut area = vec![0xEE; 8];
    relocate_image(&mut area, &[1, 2, 3]);
    assert_eq!(area, vec![1, 2, 3, 0xEE, 0xEE, 0xEE, 0xEE, 0xEE]);
}

#[test]
fn chosen_node_properties() {
    let cmd = b"bootargs=\"console=ttyS0 root=/dev/mmcblk0p2\"";
    let v = get_propval_list(cmd, 0x0200_0000, 0x10).unwrap();
    assert_eq!(v.bootargs, b"console=ttyS0 root=/dev/mmcblk0p2".to_vec());
    assert_eq!(v.initrd_start, [0x02, 0x00, 0x00, 0x00]);
    assert_eq!(v.initrd_end, [0x02, 0x00, 0x00, 0x10]);
    assert!(matches!(get_propval_list(&[0xFF, 0xFE], 0, 0), Err(DtError::BadStrEncoding)));
    assert!(checked_propval_list(b"console=ttyS0", 0, 0).is_none());
    assert!(checked_propval_list(cmd, 0xFFFF_FFF0, 0x20).is_none());
    assert!(matches!(checked_propval_list(&[0xC3, 0x28], 0, 0), Some(Err(DtError::BadStrEncoding))));
    assert!(matches!(checked_propval_list(cmd, 0, 1), Some(Ok(_))));
}

#[test]
fn privilege_levels() {
    assert!(current_privilege_level(2).0 == PrivilegeLevel::Hypervisor);
    assert_eq!(current_privilege_level(2).1, "EL2");
    assert!(current_privilege_level(1).0 == PrivilegeLevel::Kernel);
    assert!(current_privilege_level(0).0 == PrivilegeLevel::User);
    assert!(current_privilege_level(3).0 == PrivilegeLevel::Unknown);
}

#[test]
fn irq_masking() {
    let daif = 0x3C0;
    assert!(is_local_irq_masked(daif));
    let unmasked = local_irq_unmask(daif);
    assert_eq!(unmasked, 0x340);
    assert!(!is_local_irq_masked(unmasked));
    assert!(is_masked(unmasked, DaifField::Debug));
    let (saved, masked) = local_irq_mask_save(unmasked);
    assert_eq!(saved, 0x340);
    assert_eq!(masked, 0x3C0);
    assert_eq!(local_irq_mask(0), 0x80);
    assert_eq!(local_irq_restore(saved), 0x340);
    assert_eq!(print_state(0x240), vec![true, false, false, true]);
    assert_eq!(to_mask_str(true), "Masked");
    assert_eq!(to_mask_str(false), "Unmasked");
    let n = IRQNumber::<63>::new(12);
    assert_eq!(n.get(), 12);
}

#[test]
fn timer_arithmetic() {
    let t = GenericTimer;
    assert_eq!(t.resolution(54_000_000), 18);
    assert_eq!(t.uptime(54_000_000, 54_000_000), 1_000_000_000);
    assert_eq!(t.wait_for(54_000_000, 1_000_000), Ok(54_000));
    assert_eq!(t.wait_for(54_000_000, 0), Err(WaitSkip::Zero));
    assert_eq!(t.wait_for(54_000_000, 10), Err(WaitSkip::Smaller));
    assert_eq!(t.wait_for(54_000_000, 100_000_000_000), Err(WaitSkip::Bigger));
    assert_eq!(t.wait_for(u64::MAX, 2), Err(WaitSkip::TooLong));
}

#[test]
fn system_reset_request() {
    assert_eq!(nvic_systemreset(0xFA05_0300), 0x05FA_0304);
    assert_eq!(nvic_systemreset(0), 0x05FA_0004);
}

#[test]
fn board_names() {
    assert_eq!(board_name(), "Raspberry Pi 4");
}
