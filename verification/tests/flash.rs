use std::collections::HashMap;

use rustboot_hal::flash::{FlashInterface, FlashOp};
use rustboot_hal::nrf::nrf52840;
use rustboot_hal::nrf::nrf9160;
use rustboot_hal::pico::rp2040;
use rustboot_hal::stm::stm32f334;
use rustboot_hal::stm::stm32f746;
use rustboot_hal::stm::stm32h723;

/// A flash memory for the tests: bytes not yet touched read as `fill`.
struct Flash {
    bytes: HashMap<u64, u8>,
    fill: u8,
}

impl Flash {
    fn new(fill: u8) -> Self {
        Flash { bytes: HashMap::new(), fill }
    }

    fn get(&self, a: u64) -> u8 {
        *self.bytes.get(&a).unwrap_or(&self.fill)
    }

    fn program(&mut self, a: u64, v: u8) {
        let old = self.get(a);
        self.bytes.insert(a, old & v);
    }

    fn erase(&mut self, start: u64, size: u64) {
        for a in start..start + size {
            self.bytes.insert(a, 0xFF);
        }
    }

    fn run(&mut self, ops: &[FlashOp]) {
        for op in ops {
            match op {
                FlashOp::ProgramWord { addr, word } => {
                    for k in 0..4u64 {
                        self.program(*addr as u64 + k, (word >> (8 * k)) as u8);
                    }
                }
                FlashOp::ProgramHalfWord { addr, half } => {
                    self.program(*addr as u64, *half as u8);
                    self.program(*addr as u64 + 1, (half >> 8) as u8);
                }
                FlashOp::ProgramByte { addr, byte } => self.program(*addr as u64, *byte),
                FlashOp::ProgramBytes { addr, bytes } => {
                    for (k, b) in bytes.iter().enumerate() {
                        self.program(*addr as u64 + k as u64, *b);
                    }
                }
                FlashOp::UpdateBlock { base, size, off, bytes, erase } => {
                    let mut copy: Vec<u8> = (0..*size as u64).map(|k| self.get(*base as u64 + k)).collect();
                    for (k, b) in bytes.iter().enumerate() {
                        copy[*off as usize + k] = *b;
                    }
                    if let Some((s, n)) = erase {
                        self.erase(*s as u64, *n as u64);
                    }
                    for (k, b) in copy.iter().enumerate() {
                        self.program(*base as u64 + k as u64, *b);
                    }
                }
                FlashOp::ErasePage { addr, size } => {
                    let base = *addr as u64 - (*addr as u64 % *size as u64);
                    self.erase(base, *size as u64);
                }
                FlashOp::EraseSector { start, size, .. } => self.erase(*start as u64, *size as u64),
            }
        }
    }
}

fn sample(len: usize) -> Vec<u8> {
    (0..len).map(|i| (i as u8).wrapping_mul(37).wrapping_add(11)).collect()
}

#[test]
fn nrf52840_write_reads_back_on_erased_flash() {
    let f = nrf52840::FlashWriterEraser::new();
    for address in [0x2f000usize, 0x2f001, 0x2f002, 0x2f003] {
        for len in [0usize, 1, 3, 4, 7, 9, 16] {
            let data = sample(len);
            let ops = f.hal_flash_write(address, &data, 0x2000_0000);
            let mut flash = Flash::new(0xFF);
            flash.run(&ops);
            for i in 0..len {
                assert_eq!(flash.get(address as u64 + i as u64), data[i]);
            }
            assert_eq!(flash.get(address as u64 + len as u64), 0xFF);
            assert_eq!(flash.get(address as u64 - 1), 0xFF);
        }
    }
}

#[test]
fn nrf52840_write_uses_words_when_aligned() {
    let f = nrf52840::FlashWriterEraser::new();
    let data = sample(9);
    let ops = f.hal_flash_write(0x3000, &data, 0x2000_0000);
    assert_eq!(ops.len(), 3);
    assert!(matches!(ops[0], FlashOp::ProgramWord { addr: 0x3000, word } if word == u32::from_le_bytes([data[0], data[1], data[2], data[3]])));
    assert!(matches!(ops[1], FlashOp::ProgramWord { addr: 0x3004, .. }));
    assert!(matches!(ops[2], FlashOp::ProgramByte { addr: 0x3008, byte } if byte == data[8]));
    // A buffer that is not word-aligned is written a byte at a time.
    let ops = f.hal_flash_write(0x3000, &data, 0x2000_0001);
    assert_eq!(ops.len(), 9);
    assert!(ops.iter().all(|op| matches!(op, FlashOp::ProgramByte { .. })));
}

#[test]
fn nrf52840_write_programs_over_existing_bytes() {
    let f = nrf52840::FlashWriterEraser::new();
    let data = vec![0x0F, 0xF0];
    let ops = f.hal_flash_write(0x4000, &data, 0);
    let mut flash = Flash::new(0x3C);
    flash.run(&ops);
    assert_eq!(flash.get(0x4000), 0x0C);
    assert_eq!(flash.get(0x4001), 0x30);
}

#[test]
fn nrf52840_erase_steps_a_page_at_a_time() {
    let f = nrf52840::FlashWriterEraser::new();
    let ops = f.hal_flash_erase(0x2f000, 0x2001);
    assert_eq!(ops.len(), 3);
    for (k, op) in ops.iter().enumerate() {
        assert!(matches!(op, FlashOp::ErasePage { addr, size: 4096 } if *addr == 0x2f000 + 0x1000 * k as u32));
    }
    assert_eq!(f.hal_flash_erase(0x2f000, 0).len(), 0);
}

#[test]
fn erase_then_write_reads_back() {
    let f = nrf52840::FlashWriterEraser::new();
    let mut flash = Flash::new(0x00);
    flash.run(&f.hal_flash_erase(0x30000, 0x1000));
    let data = sample(13);
    flash.run(&f.hal_flash_write(0x30005, &data, 1));
    for i in 0..13 {
        assert_eq!(flash.get(0x30005 + i as u64), data[i]);
    }
    assert_eq!(flash.get(0x30004), 0xFF);
    assert_eq!(flash.get(0x31000), 0x00);
}

#[test]
fn nrf9160_erase_covers_every_page_of_the_range() {
    let f = nrf9160::FlashWriterEraser::new(true);
    let ops = f.hal_flash_erase(0x41000, 0x1800);
    assert_eq!(ops.len(), 2);
    assert!(matches!(ops[0], FlashOp::ErasePage { addr: 0x41000, size: 4096 }));
    assert!(matches!(ops[1], FlashOp::ErasePage { addr: 0x42000, size: 4096 }));
    let mut flash = Flash::new(0);
    flash.run(&ops);
    assert_eq!(flash.get(0x427FF), 0xFF);
    assert_eq!(flash.get(0x40FFF), 0);
    assert_eq!(flash.get(0x43000), 0);
    assert_eq!(f.hal_flash_erase(0x41000, 0).len(), 0);
    assert_eq!(f.hal_flash_erase(0x41800, 0x10).len(), 1);
}

#[test]
fn nrf9160_write_reads_back() {
    let f = nrf9160::FlashWriterEraser::new(false);
    let data = sample(11);
    let mut flash = Flash::new(0xFF);
    flash.run(&f.hal_flash_write(0x40102, &data, 2));
    for i in 0..11 {
        assert_eq!(flash.get(0x40102 + i as u64), data[i]);
    }
}

#[test]
fn nrf9160_nsc_region_registers() {
    // A region starting 0x7000 into its 32 KiB flash region is 0x1000 long:
    // the top bit of 0x1000 is bit 12, so SIZE is 8.
    assert_eq!(nrf9160::set_nsc_region(0x0003_F000), (8, 7));
    assert_eq!(nrf9160::set_nsc_region(0x0004_0000), (11, 8));
    assert_eq!(nrf9160::set_nsc_region(0x0000_7FE0), (1, 0));
    assert_eq!(nrf9160::set_nsc_region(0x0000_7FF0), (0, 0));
}

fn rwx(secattr: nrf9160::SecAttr) -> nrf9160::RegionPerm {
    nrf9160::RegionPerm { read: true, write: true, execute: true, secattr }
}

#[test]
fn nrf9160_nvmc_selection() {
    assert_eq!(nrf9160::FlashWriterEraser::new(true).nvmc(), nrf9160::Nvmc::Secure);
    assert_eq!(nrf9160::FlashWriterEraser::new(false).nvmc(), nrf9160::Nvmc::NonSecure);
}

#[test]
fn nrf9160_initialize_splits_regions() {
    let layout = nrf9160::MemoryLayout {
        s_flash: (0x0000_0000, 0x0003_0000),
        nsc_flash: (0x0003_0000, 0x0004_0000),
        ns_flash: (0x0004_0000, 0x0010_0000),
        s_ram: (0x2000_0000, 0x2002_0000),
        ns_ram: (0x2002_0000, 0x2004_0000),
    };
    let periph = [nrf9160::NonSecurePeripheral { id: 8 }, nrf9160::NonSecurePeripheral { id: 21 }];
    let pins = [(0usize, 0u32), (0, 31)];
    let dppi = [(0usize, 3u32)];
    let c = nrf9160::initialize(&layout, &periph, &pins, &dppi);
    assert_eq!(c.flash_regions.len(), 32);
    assert!(c.flash_regions[0] == Some(rwx(nrf9160::SecAttr::Secure)));
    assert!(c.flash_regions[7] == Some(rwx(nrf9160::SecAttr::Secure)));
    assert!(c.flash_regions[8] == Some(rwx(nrf9160::SecAttr::NonSecure)));
    assert!(c.flash_regions[31] == Some(rwx(nrf9160::SecAttr::NonSecure)));
    assert!(c.ram_regions[15] == Some(rwx(nrf9160::SecAttr::Secure)));
    assert!(c.ram_regions[16] == Some(rwx(nrf9160::SecAttr::NonSecure)));
    assert_eq!(c.nsc, (11, 6));
    let non_secure = |id: usize| nrf9160::PeripheralPerm {
        id,
        secattr: nrf9160::SecAttr::NonSecure,
        dmasec: nrf9160::SecAttr::NonSecure,
    };
    assert_eq!(c.peripherals, vec![non_secure(8), non_secure(21)]);
    assert_eq!(c.pins, vec![(0, 0xFFFF_FFFE), (0, 0x7FFF_FFFF)]);
    assert_eq!(c.dppi, vec![(0, 0xFFFF_FFF7)]);
    assert_eq!(c.sau_ctrl, 0b10);
    assert_eq!(c.ns_stack, 0x2004_0000);
}

#[test]
fn nrf9160_initialize_leaves_unmapped_regions() {
    let layout = nrf9160::MemoryLayout {
        s_flash: (0, 0x8000),
        nsc_flash: (0x8000, 0x9000),
        ns_flash: (0x10000, 0x18000),
        s_ram: (0x2000_0000, 0x2000_2000),
        ns_ram: (0x2000_4000, 0x2000_6000),
    };
    let c = nrf9160::initialize(&layout, &[], &[], &[]);
    assert!(c.flash_regions[1] == Some(rwx(nrf9160::SecAttr::Secure)));
    assert!(c.flash_regions[2] == Some(rwx(nrf9160::SecAttr::NonSecure)));
    assert!(c.flash_regions[3].is_none());
    assert!(c.ram_regions[1].is_none());
    assert!(c.ram_regions[2] == Some(rwx(nrf9160::SecAttr::NonSecure)));
}

#[test]
fn stm32f334_write_by_half_words() {
    let f = stm32f334::FlashWriterEraser::new();
    let data = sample(5);
    let ops = f.hal_flash_write(0x0800_C000, &data, 0);
    assert_eq!(ops.len(), 3);
    assert!(matches!(ops[0], FlashOp::ProgramHalfWord { addr: 0x0800_C000, half } if half == u16::from_le_bytes([data[0], data[1]])));
    assert!(matches!(ops[2], FlashOp::ProgramByte { addr: 0x0800_C004, byte } if byte == data[4]));
    let mut flash = Flash::new(0xFF);
    flash.run(&ops);
    for i in 0..5 {
        assert_eq!(flash.get(0x0800_C000 + i as u64), data[i]);
    }
}

#[test]
fn stm32f334_single_byte_rewrites_its_page() {
    let f = stm32f334::FlashWriterEraser::new();
    let ops = f.hal_flash_write(0x0800_C803, &[0xA5], 0);
    assert_eq!(ops.len(), 1);
    match &ops[0] {
        FlashOp::UpdateBlock { base, size, off, bytes, erase } => {
            assert_eq!((*base, *size, *off), (0x0800_C800, 2048, 3));
            assert_eq!(bytes, &vec![0xA5]);
            assert_eq!(*erase, Some((0x0800_C800, 2048)));
        }
        _ => panic!("expected a page rewrite"),
    }
    // The byte lands even over programmed flash; the rest of the page stays.
    let mut flash = Flash::new(0x12);
    flash.run(&ops);
    assert_eq!(flash.get(0x0800_C803), 0xA5);
    assert_eq!(flash.get(0x0800_C802), 0x12);
    assert_eq!(flash.get(0x0800_D000), 0x12);
}

#[test]
fn stm32f334_erase_skips_pages_outside_flash() {
    let f = stm32f334::FlashWriterEraser::new();
    let ops = f.hal_flash_erase(0x0800_F900, 2049);
    assert_eq!(ops.len(), 1);
    assert!(matches!(ops[0], FlashOp::ErasePage { addr: 0x0800_F800, size: 2048 }));
    let ops = f.hal_flash_erase(0x0800_0000, 4096);
    assert_eq!(ops.len(), 2);
    assert_eq!(f.hal_flash_erase(0x0800_0000, 0).len(), 0);
}

#[test]
fn stm32f334_page_halfwords() {
    assert_eq!(stm32f334::page_halfwords(&[0x34, 0x12, 0xcd, 0xab]), vec![0x1234, 0xabcd]);
}

#[test]
fn stm32f746_sector_table() {
    assert_eq!(stm32f746::sector_lookup(0x0800_0000), Some((0, 0x0800_0000, 0x8000)));
    assert_eq!(stm32f746::sector_lookup(0x0801_8004), Some((3, 0x0801_8000, 0x8000)));
    assert_eq!(stm32f746::sector_lookup(0x0802_1000), Some((4, 0x0802_0000, 0x2_0000)));
    assert_eq!(stm32f746::sector_lookup(0x0804_0000), Some((5, 0x0804_0000, 0x4_0000)));
    assert_eq!(stm32f746::sector_lookup(0x080F_FFFF), Some((7, 0x080C_0000, 0x4_0000)));
    assert_eq!(stm32f746::sector_lookup(0x0810_0000), None);
    let f = stm32f746::FlashWriterEraser::new();
    let ops = f.hal_flash_erase(0x0804_0100, 10);
    assert!(matches!(ops[..], [FlashOp::EraseSector { sector: 5, start: 0x0804_0000, size: 0x4_0000 }]));
    assert!(f.hal_flash_erase(0x0700_0000, 10).is_empty());
}

#[test]
fn stm32f746_write_repeats_last_byte() {
    let f = stm32f746::FlashWriterEraser::new();
    let data = sample(3);
    let ops = f.hal_flash_write(0x0804_0000, &data, 0);
    assert_eq!(ops.len(), 4);
    assert!(matches!(ops[3], FlashOp::ProgramByte { addr: 0x0804_0002, byte } if byte == data[2]));
    let mut flash = Flash::new(0xFF);
    flash.run(&ops);
    for i in 0..3 {
        assert_eq!(flash.get(0x0804_0000 + i as u64), data[i]);
    }
}

#[test]
fn stm32h723_flag_pages() {
    assert_eq!(stm32h723::STM32H7_PART_BOOT_FLAGS_PAGE_ADDRESS, 0x0804_0000);
    assert_eq!(stm32h723::STM32H7_PART_UPDATE_FLAGS_PAGE_ADDRESS, 0x0808_0000);
    assert!(stm32h723::stm32h7_boot_flag_page(0x0805_FFFF));
    assert!(!stm32h723::stm32h7_boot_flag_page(0x0806_0000));
    assert!(!stm32h723::stm32h7_boot_flag_page(0x0803_FFFF));
    assert!(stm32h723::stm32h7_update_flag_page(0x0808_0000));
    assert!(!stm32h723::stm32h7_update_flag_page(0x080A_0000));
}

#[test]
fn stm32h723_short_flag_write_erases_flag_sector() {
    let f = stm32h723::FlashWriterEraser::new();
    let mut flash = Flash::new(0x00);
    let ops = f.hal_flash_write(0x0805_FFE4, &[1, 2, 3, 4], 0);
    assert_eq!(ops.len(), 1);
    flash.run(&ops);
    assert_eq!(flash.get(0x0805_FFE4), 1);
    assert_eq!(flash.get(0x0805_FFE7), 4);
    assert_eq!(flash.get(0x0805_FFE0), 0x00);
    assert_eq!(flash.get(0x0804_0000), 0xFF);
    assert_eq!(flash.get(0x0806_0000), 0x00);
}

#[test]
fn stm32h723_long_write_reads_back() {
    let f = stm32h723::FlashWriterEraser::new();
    let data = sample(70);
    let ops = f.hal_flash_write(0x0802_0000, &data, 0);
    assert_eq!(ops.len(), 3);
    assert!(matches!(ops[0], FlashOp::ProgramBytes { addr: 0x0802_0000, .. }));
    assert!(matches!(ops[2], FlashOp::UpdateBlock { base: 0x0802_0040, off: 0, erase: None, .. }));
    let mut flash = Flash::new(0xFF);
    flash.run(&ops);
    for i in 0..70 {
        assert_eq!(flash.get(0x0802_0000 + i as u64), data[i]);
    }
    // A short write across a flash-word boundary, away from the flags.
    let data = sample(6);
    let ops = f.hal_flash_write(0x0802_001D, &data, 0);
    assert_eq!(ops.len(), 2);
    let mut flash = Flash::new(0xFF);
    flash.run(&ops);
    for i in 0..6 {
        assert_eq!(flash.get(0x0802_001D + i as u64), data[i]);
    }
}

#[test]
fn stm32h723_erase_sector() {
    let f = stm32h723::FlashWriterEraser::new();
    let ops = f.hal_flash_erase(0x0806_1234, 1);
    assert!(matches!(ops[..], [FlashOp::EraseSector { sector: 3, start: 0x0806_0000, size: 0x2_0000 }]));
    assert_eq!(stm32h723::sector_lookup(0x080E_0000), Some((7, 0x080E_0000, 0x2_0000)));
    assert_eq!(stm32h723::sector_lookup(0x0810_0000), None);
}

#[test]
fn rp2040_page_position() {
    let p = rp2040::page_position(0x0002_3456);
    assert_eq!((p.block, p.sector, p.page, p.byte), (2, 3, 4, 0x56));
}

#[test]
fn rp2040_short_write_rewrites_its_page() {
    let f = rp2040::FlashWriterEraser::new();
    let ops = f.hal_flash_write(0x1002_3456, &[9, 8, 7], 0);
    assert_eq!(ops.len(), 1);
    assert!(matches!(&ops[0], FlashOp::UpdateBlock { base: 0x2_3400, size: 256, off: 0x56, erase: None, .. }));
    let mut flash = Flash::new(0xFF);
    flash.run(&ops);
    assert_eq!(flash.get(0x2_3456), 9);
    assert_eq!(flash.get(0x2_3458), 7);
    assert_eq!(flash.get(0x2_3459), 0xFF);
}

#[test]
fn rp2040_long_write_programs_pages() {
    let f = rp2040::FlashWriterEraser::new();
    let data = sample(300);
    let ops = f.hal_flash_write(0x1002_0000, &data, 0);
    assert_eq!(ops.len(), 2);
    match &ops[1] {
        FlashOp::ProgramBytes { addr, bytes } => {
            assert_eq!(*addr, 0x2_0100);
            assert_eq!(bytes.len(), 256);
            assert_eq!(bytes[43], data[299]);
            assert_eq!(bytes[44], 0xFF);
        }
        _ => panic!("expected a page program"),
    }
    let mut flash = Flash::new(0xFF);
    flash.run(&ops);
    for i in 0..300 {
        assert_eq!(flash.get(0x2_0000 + i as u64), data[i]);
    }
}

#[test]
fn rp2040_erase_by_sectors() {
    let f = rp2040::FlashWriterEraser::new();
    let ops = f.hal_flash_erase(0x1002_0000, 0x2000);
    assert_eq!(ops.len(), 2);
    assert!(matches!(ops[1], FlashOp::ErasePage { addr: 0x2_1000, size: 4096 }));
}

#[test]
fn vector_table_checks() {
    assert_eq!(nrf52840::FW_RESET_VTR, 0x2f201);
    assert_eq!(nrf52840::check_vector_table(0x2002_0000, 0x2f201), Some((0x2002_0000, 0x2f201)));
    assert_eq!(nrf52840::check_vector_table(0x2004_0001, 0x2f201), None);
    assert_eq!(nrf52840::check_vector_table(0x2002_0000, 0x2f200), None);
    assert_eq!(stm32f334::check_vector_table(0x2000_0000, 0x0800_BA89), Some((0x2000_0000, 0x0800_BA89)));
    assert_eq!(stm32f746::check_vector_table(0x1FFF_FFFF, stm32f746::FW_RESET_VTR), None);
    assert_eq!(stm32h723::FW_RESET_VTR, 0x0802_039D);
    assert_eq!(rp2040::FW_RESET_VTR, 0x1002_01c1);
    assert_eq!(rp2040::check_vector_table(0x2004_2000, 0x1002_01c1), Some((0x2004_2000, 0x1002_01c1)));
}

#[test]
fn refined_integers() {
    let r = nrf52840::RefinedUsize::<1, 5, 3>::bounded_int(4);
    assert_eq!(r.0, 4);
    let r = stm32h723::RefinedUsize::<0, 0, 7>::single_valued_int(7);
    assert_eq!(r.0, 7);
}

#[test]
fn stm32f746_empty_write_programs_nothing() {
    let f = stm32f746::FlashWriterEraser::new();
    assert!(f.hal_flash_write(0x0804_0000, &[], 0x2000_0000).is_empty());
}

#[test]
fn stm32h723_flags_write_across_flash_words() {
    let f = stm32h723::FlashWriterEraser::new();
    let data = [1u8, 2, 3, 4];
    let ops = f.hal_flash_write(0x0805_FFFE, &data, 0x2000_0000);
    assert_eq!(ops.len(), 2);
    match &ops[0] {
        FlashOp::UpdateBlock { base, size, off, bytes, erase } => {
            assert_eq!((*base, *size, *off), (0x0805_FFE0, 32, 30));
            assert_eq!(bytes, &vec![1, 2]);
            assert_eq!(*erase, Some((0x0804_0000, 0x2_0000)));
        }
        _ => panic!("expected a flash-word update"),
    }
    match &ops[1] {
        FlashOp::UpdateBlock { base, size, off, bytes, erase } => {
            assert_eq!((*base, *size, *off), (0x0806_0000, 32, 0));
            assert_eq!(bytes, &vec![3, 4]);
            assert_eq!(*erase, Some((0x0804_0000, 0x2_0000)));
        }
        _ => panic!("expected a flash-word update"),
    }
}
