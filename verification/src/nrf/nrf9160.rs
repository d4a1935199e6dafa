//! Flash (NVMC) driver, TrustZone set-up and boot checks of the nRF9160.
use vstd::prelude::*;
use vstd::std_specs::bits::u32_leading_zeros;
use crate::flash::{after_ops, data_written, lemma_after_push, pages_erased, FlashInterface, FlashOp};
use crate::nrf::nvmc_write_plan;

verus! {

pub const FLASH_REGION_SIZE: u32 = 32 * 1024;
pub const RAM_REGION_SIZE: u32 = 8 * 1024;
/// The number of flash regions the SPU divides the 1 MiB flash into.
pub const FLASH_REGION_COUNT: u32 = 32;
/// The number of RAM regions the SPU divides the 256 KiB RAM into.
pub const RAM_REGION_COUNT: u32 = 32;
/// Where the RAM regions start.
pub const RAM_START: u32 = 0x2000_0000;
/// The SAU control value that disables the SAU and sets ALLNS.
pub const SAU_CTRL_ALLNS: u32 = 0b10;

pub const FLASH_PAGE_SIZE: u32 = 4096;
pub const STACK_LOW: u32 = 0x20_000_000;
pub const STACK_UP: u32 = 0x20_040_000;
pub const RB_HDR_SIZE: u32 = 0x100;
pub const BASE_ADDR: u32 = 0x40000;
pub const VTR_TABLE_SIZE: u32 = 0x100;
pub const FW_RESET_VTR: u32 = BASE_ADDR + RB_HDR_SIZE + VTR_TABLE_SIZE + 1;

/// The NVMC flash writer and eraser; `secure` selects the secure or the
/// non-secure NVMC interface.
pub struct FlashWriterEraser {
    pub secure: bool,
}

/// The two NVMC interfaces of the nRF9160.
#[derive(Clone, Copy, PartialEq, Eq, Structural, Debug)]
pub enum Nvmc {
    /// NVMC_S, driven from the secure world.
    Secure,
    /// NVMC_NS, driven from the non-secure world.
    NonSecure,
}

impl FlashWriterEraser {
    pub fn new(secure: bool) -> (f: Self)
        ensures
            f.secure == secure,
    {
        FlashWriterEraser { secure: secure }
    }

    /// The NVMC interface that carries out this writer's write and erase
    /// plans: NVMC_S when `secure`, NVMC_NS otherwise; the other one is not
    /// driven.
    pub fn nvmc(&self) -> (n: Nvmc)
        ensures
            n == (if self.secure { Nvmc::Secure } else { Nvmc::NonSecure }),
    {
        if self.secure {
            Nvmc::Secure
        } else {
            Nvmc::NonSecure
        }
    }
}

/// The first page past the `len` bytes from `addr`, counting a page that
/// holds only part of them.
pub open spec fn end_page(addr: int, len: int) -> int {
    (addr + len + FLASH_PAGE_SIZE - 1) / (FLASH_PAGE_SIZE as int)
}

impl FlashInterface for FlashWriterEraser {
    open spec fn write_ok(&self, address: int, len: int, data_addr: int) -> bool {
        address + len <= u32::MAX
    }

    open spec fn erase_ok(&self, addr: int, len: int) -> bool {
        addr + len + FLASH_PAGE_SIZE <= u32::MAX
    }

    /// Writes `data` at `address`, a word at a time where the flash address
    /// and the buffer are both word-aligned and a byte at a time elsewhere;
    /// the plan is carried out through the NVMC that `nvmc` names.
    fn hal_flash_write(&self, address: usize, data: &[u8], data_addr: usize) -> (ops: Vec<FlashOp>)
        ensures
            forall|a: int, init: u8|
                #[trigger] after_ops(ops@, a, init) == data_written(address as int, data@, a, init),
            forall|k: int|
                0 <= k < ops@.len() ==> (#[trigger] ops@[k] matches FlashOp::ProgramWord { addr, .. } ==> addr
                    % 4 == 0 && (data_addr + (addr - address)) % 4 == 0),
    {
        nvmc_write_plan(address, data, data_addr)
    }

    /// Erases every 4 KiB page that holds one of the `len` bytes from
    /// `addr`, one page at a time from the lowest, through the NVMC that
    /// `nvmc` names.
    fn hal_flash_erase(&self, addr: usize, len: usize) -> (ops: Vec<FlashOp>)
        ensures
            len == 0 ==> ops@.len() == 0,
            len > 0 ==> ops@.len() == end_page(addr as int, len as int) - addr / (FLASH_PAGE_SIZE as usize),
            forall|k: int|
                0 <= k < ops@.len() ==> #[trigger] ops@[k] == (FlashOp::ErasePage {
                    addr: ((addr / (FLASH_PAGE_SIZE as usize) + k) * FLASH_PAGE_SIZE) as u32,
                    size: FLASH_PAGE_SIZE,
                }),
            forall|a: int, init: u8|
                addr <= a < addr + len ==> #[trigger] after_ops(ops@, a, init) == 0xFFu8,
            forall|a: int, init: u8|
                (a < (addr / (FLASH_PAGE_SIZE as usize)) * FLASH_PAGE_SIZE || a >= end_page(
                    addr as int,
                    len as int,
                ) * FLASH_PAGE_SIZE) ==> #[trigger] after_ops(ops@, a, init) == init,
    {
        let mut ops: Vec<FlashOp> = Vec::new();
        if len == 0 {
            return ops;
        }
        let starting_page = (addr / 0x1000) as u32;
        let ending_page = ((addr + len + 0xFFF) / 0x1000) as u32;
        let mut page = starting_page;
        while page < ending_page
            invariant
                starting_page <= page <= ending_page,
                starting_page == addr / 4096,
                ending_page == end_page(addr as int, len as int),
                ending_page * 4096 <= u32::MAX + 1,
                ops@.len() == page - starting_page,
                forall|k: int|
                    0 <= k < ops@.len() ==> #[trigger] ops@[k] == (FlashOp::ErasePage {
                        addr: ((addr / (FLASH_PAGE_SIZE as usize) + k) * FLASH_PAGE_SIZE) as u32,
                        size: FLASH_PAGE_SIZE,
                    }),
                forall|a: int, init: u8|
                    #[trigger] after_ops(ops@, a, init) == pages_erased(
                        starting_page * 4096,
                        page * 4096,
                        a,
                        init,
                    ),
            decreases ending_page - page,
        {
            assert(page * 4096 < u32::MAX) by (nonlinear_arith)
                requires
                    page < ending_page,
                    ending_page * 4096 <= u32::MAX + 1,
            ;
            let op = FlashOp::ErasePage { addr: page * 0x1000, size: FLASH_PAGE_SIZE };
            let ghost old_ops = ops@;
            proof {
                assert forall|a: int, init: u8|
                    #[trigger] after_ops(old_ops.push(op), a, init) == pages_erased(
                        starting_page * 4096,
                        (page + 1) * 4096,
                        a,
                        init,
                    ) by {
                    lemma_after_push(old_ops, op, a, init);
                }
            }
            ops.push(op);
            page = page + 1;
        }
        proof {
            assert(starting_page * 4096 <= addr) by (nonlinear_arith)
                requires
                    starting_page == addr / 4096,
            ;
            assert(addr + len <= ending_page * 4096) by (nonlinear_arith)
                requires
                    ending_page == (addr + len + 4095) / 4096,
            ;
        }
        ops
    }
}

pub fn preboot() {
}

/// An integer known to lie in `MIN..=MAX`, or to equal `VAL`.
pub struct RefinedUsize<const MIN: u32, const MAX: u32, const VAL: u32>(pub u32);

impl<const MIN: u32, const MAX: u32, const VAL: u32> RefinedUsize<MIN, MAX, VAL> {
    /// Wraps a value within `MIN..=MAX`, the address bound of a stack pointer.
    pub fn bounded_int(i: u32) -> (r: Self)
        requires
            MIN <= i <= MAX,
        ensures
            r.0 == i,
    {
        RefinedUsize(i)
    }

    /// Wraps a value equal to `VAL`, the address of a reset handler.
    pub fn single_valued_int(i: u32) -> (r: Self)
        requires
            i == VAL,
        ensures
            r.0 == i,
    {
        RefinedUsize(i)
    }
}

/// The security attribute the SPU gives a memory region.
#[derive(Clone, Copy, PartialEq, Eq, Structural, Debug)]
pub enum SecAttr {
    Secure,
    NonSecure,
}

/// The permissions the SPU gives a flash or RAM region: read, write and
/// execute enables and the security attribute.
#[derive(Clone, Copy, PartialEq, Eq, Structural, Debug)]
pub struct RegionPerm {
    pub read: bool,
    pub write: bool,
    pub execute: bool,
    pub secattr: SecAttr,
}

/// The permissions of a region that belongs to a world: read, write and
/// execute enabled, with that world's attribute.
pub open spec fn region_perm(attr: SecAttr) -> RegionPerm {
    RegionPerm { read: true, write: true, execute: true, secattr: attr }
}

/// The permissions of a region with the attribute `attr`, if it gets one.
pub open spec fn perm_of(attr: Option<SecAttr>) -> Option<RegionPerm> {
    match attr {
        Some(a) => Some(region_perm(a)),
        None => None,
    }
}

fn perm_for(attr: SecAttr) -> (p: RegionPerm)
    ensures
        p == region_perm(attr),
{
    RegionPerm { read: true, write: true, execute: true, secattr: attr }
}

/// The SPU permissions of a peripheral: its own security attribute and that
/// of its DMA.
#[derive(Clone, Copy, PartialEq, Eq, Structural, Debug)]
pub struct PeripheralPerm {
    /// The peripheral's SPU id.
    pub id: usize,
    pub secattr: SecAttr,
    pub dmasec: SecAttr,
}

/// The linker's memory layout: each region as a start and an end address.
#[derive(Clone, Copy)]
pub struct MemoryLayout {
    pub s_flash: (u32, u32),
    pub nsc_flash: (u32, u32),
    pub ns_flash: (u32, u32),
    pub s_ram: (u32, u32),
    pub ns_ram: (u32, u32),
}

/// Whether `a` lies in the range `r` (start included, end excluded).
pub open spec fn in_range(r: (u32, u32), a: int) -> bool {
    r.0 <= a < r.1
}

/// The attribute of the flash region at `address`: secure in the secure or
/// non-secure-callable flash, non-secure in the non-secure flash, left as
/// it is elsewhere.
pub open spec fn flash_attr(l: MemoryLayout, address: int) -> Option<SecAttr> {
    if in_range(l.s_flash, address) || in_range(l.nsc_flash, address) {
        Some(SecAttr::Secure)
    } else if in_range(l.ns_flash, address) {
        Some(SecAttr::NonSecure)
    } else {
        None
    }
}

/// The attribute of the RAM region at `address`.
pub open spec fn ram_attr(l: MemoryLayout, address: int) -> Option<SecAttr> {
    if in_range(l.s_ram, address) {
        Some(SecAttr::Secure)
    } else if in_range(l.ns_ram, address) {
        Some(SecAttr::NonSecure)
    } else {
        None
    }
}

fn range_contains(r: (u32, u32), a: u32) -> (b: bool)
    ensures
        b == in_range(r, a as int),
{
    r.0 <= a && a < r.1
}

/// A peripheral that is handed to the non-secure world, by its SPU id.
pub struct NonSecurePeripheral {
    pub id: usize,
}

/// The SPU and SAU settings that split the device into its secure and
/// non-secure worlds.
pub struct SpuConfig {
    /// For each flash region, the permissions to write, if any.
    pub flash_regions: Vec<Option<RegionPerm>>,
    /// For each RAM region, the permissions to write, if any.
    pub ram_regions: Vec<Option<RegionPerm>>,
    /// The FLASHNSC SIZE and REGION register values.
    pub nsc: (u32, u32),
    /// The permissions to write for each peripheral made non-secure.
    pub peripherals: Vec<PeripheralPerm>,
    /// For each GPIO port index, the mask its PERM register is ANDed with.
    pub pins: Vec<(usize, u32)>,
    /// For each DPPI index, the mask its PERM register is ANDed with.
    pub dppi: Vec<(usize, u32)>,
    /// The SAU CTRL value.
    pub sau_ctrl: u32,
    /// The non-secure main stack pointer.
    pub ns_stack: u32,
}

/// The FLASHNSC SIZE register value for a non-secure-callable region that
/// starts at `sg_start`: it runs to the end of its flash region, and SIZE is
/// the position of the top bit of that length, less four.
pub open spec fn nsc_size_reg(sg_start: u32) -> int {
    31 - u32_leading_zeros((FLASH_REGION_SIZE - sg_start % FLASH_REGION_SIZE) as u32) - 4
}

/// The FLASHNSC REGION register value: the flash region that holds `sg_start`.
pub open spec fn nsc_region_reg(sg_start: u32) -> int {
    ((sg_start / FLASH_REGION_SIZE) & 0x3F) as int
}

proof fn lemma_top_bit_at_least_four(i: u32, s: u32)
    by (bit_vector)
    requires
        i >= 16,
        s <= 4,
    ensures
        i >> s != 0,
{
}

/// The FLASHNSC SIZE and REGION register values for a non-secure-callable
/// region starting at `sg_start`.
pub fn set_nsc_region(sg_start: u32) -> (r: (u32, u32))
    requires
        sg_start % FLASH_REGION_SIZE <= FLASH_REGION_SIZE - 16,
    ensures
        r.0 == nsc_size_reg(sg_start),
        r.1 == nsc_region_reg(sg_start),
{
    let nsc_size = FLASH_REGION_SIZE - (sg_start % FLASH_REGION_SIZE);
    let lz = nsc_size.leading_zeros();
    proof {
        vstd::std_specs::bits::axiom_u32_leading_zeros(nsc_size);
        if lz >= 28 {
            lemma_top_bit_at_least_four(nsc_size, (32 - lz) as u32);
        }
    }
    let size_reg = (31 - lz) - 4;
    let region_reg = (sg_start / FLASH_REGION_SIZE) & 0x3F;
    (size_reg, region_reg)
}

/// The SPU, SAU and stack settings for a memory layout and the peripherals,
/// GPIO pins and DPPI channels to hand to the non-secure world: each flash
/// and RAM region that starts in a part of the layout gets read, write and
/// execute enabled with that part's attribute; each listed peripheral and
/// its DMA become non-secure; each pin and channel has its bit cleared in
/// its port's PERM mask; the SAU is disabled with everything non-secure and
/// the non-secure stack starts at the end of the non-secure RAM.
pub fn initialize(
    layout: &MemoryLayout,
    nonsecure_peripherals: &[NonSecurePeripheral],
    nonsecure_pins: &[(usize, u32)],
    nonsecure_dppi: &[(usize, u32)],
) -> (c: SpuConfig)
    requires
        layout.nsc_flash.0 % FLASH_REGION_SIZE <= FLASH_REGION_SIZE - 16,
        forall|i: int| 0 <= i < nonsecure_pins@.len() ==> #[trigger] nonsecure_pins@[i].1 < 32,
        forall|i: int| 0 <= i < nonsecure_dppi@.len() ==> #[trigger] nonsecure_dppi@[i].1 < 32,
    ensures
        c.flash_regions@.len() == FLASH_REGION_COUNT,
        forall|i: int|
            0 <= i < FLASH_REGION_COUNT ==> #[trigger] c.flash_regions@[i] == perm_of(
                flash_attr(*layout, i * FLASH_REGION_SIZE),
            ),
        c.ram_regions@.len() == RAM_REGION_COUNT,
        forall|i: int|
            0 <= i < RAM_REGION_COUNT ==> #[trigger] c.ram_regions@[i] == perm_of(
                ram_attr(*layout, RAM_START + i * RAM_REGION_SIZE),
            ),
        c.nsc.0 == nsc_size_reg(layout.nsc_flash.0),
        c.nsc.1 == nsc_region_reg(layout.nsc_flash.0),
        c.peripherals@.len() == nonsecure_peripherals@.len(),
        forall|i: int|
            0 <= i < c.peripherals@.len() ==> #[trigger] c.peripherals@[i] == (PeripheralPerm {
                id: nonsecure_peripherals@[i].id,
                secattr: SecAttr::NonSecure,
                dmasec: SecAttr::NonSecure,
            }),
        c.pins@.len() == nonsecure_pins@.len(),
        forall|i: int|
            0 <= i < c.pins@.len() ==> #[trigger] c.pins@[i] == (
                nonsecure_pins@[i].0,
                !(1u32 << nonsecure_pins@[i].1),
            ),
        c.dppi@.len() == nonsecure_dppi@.len(),
        forall|i: int|
            0 <= i < c.dppi@.len() ==> #[trigger] c.dppi@[i] == (
                nonsecure_dppi@[i].0,
                !(1u32 << nonsecure_dppi@[i].1),
            ),
        c.sau_ctrl == SAU_CTRL_ALLNS,
        c.ns_stack == layout.ns_ram.1,
{
    let mut flash_regions: Vec<Option<RegionPerm>> = Vec::new();
    let mut index: u32 = 0;
    while index < FLASH_REGION_COUNT
        invariant
            index <= FLASH_REGION_COUNT,
            flash_regions@.len() == index,
            forall|i: int|
                0 <= i < index ==> #[trigger] flash_regions@[i] == perm_of(
                    flash_attr(*layout, i * FLASH_REGION_SIZE),
                ),
        decreases FLASH_REGION_COUNT - index,
    {
        let address = index * FLASH_REGION_SIZE;
        let attr = if range_contains(layout.s_flash, address) || range_contains(layout.nsc_flash, address) {
            Some(perm_for(SecAttr::Secure))
        } else if range_contains(layout.ns_flash, address) {
            Some(perm_for(SecAttr::NonSecure))
        } else {
            None
        };
        flash_regions.push(attr);
        index = index + 1;
    }
    let nsc = set_nsc_region(layout.nsc_flash.0);
    let mut ram_regions: Vec<Option<RegionPerm>> = Vec::new();
    let mut index: u32 = 0;
    while index < RAM_REGION_COUNT
        invariant
            index <= RAM_REGION_COUNT,
            ram_regions@.len() == index,
            forall|i: int|
                0 <= i < index ==> #[trigger] ram_regions@[i] == perm_of(
                    ram_attr(*layout, RAM_START + i * RAM_REGION_SIZE),
                ),
        decreases RAM_REGION_COUNT - index,
    {
        let address = RAM_START + index * RAM_REGION_SIZE;
        let attr = if range_contains(layout.s_ram, address) {
            Some(perm_for(SecAttr::Secure))
        } else if range_contains(layout.ns_ram, address) {
            Some(perm_for(SecAttr::NonSecure))
        } else {
            None
        };
        ram_regions.push(attr);
        index = index + 1;
    }
    let mut peripherals: Vec<PeripheralPerm> = Vec::new();
    let mut i: usize = 0;
    while i < nonsecure_peripherals.len()
        invariant
            i <= nonsecure_peripherals@.len(),
            peripherals@.len() == i,
            forall|j: int|
                0 <= j < i ==> #[trigger] peripherals@[j] == (PeripheralPerm {
                    id: nonsecure_peripherals@[j].id,
                    secattr: SecAttr::NonSecure,
                    dmasec: SecAttr::NonSecure,
                }),
        decreases nonsecure_peripherals@.len() - i,
    {
        peripherals.push(
            PeripheralPerm {
                id: nonsecure_peripherals[i].id,
                secattr: SecAttr::NonSecure,
                dmasec: SecAttr::NonSecure,
            },
        );
        i = i + 1;
    }
    let pins = perm_masks(nonsecure_pins);
    let dppi = perm_masks(nonsecure_dppi);
    SpuConfig {
        flash_regions,
        ram_regions,
        nsc,
        peripherals,
        pins,
        dppi,
        sau_ctrl: SAU_CTRL_ALLNS,
        ns_stack: layout.ns_ram.1,
    }
}

/// For each (port, bit) pair, the port and the mask that clears the bit.
fn perm_masks(bits: &[(usize, u32)]) -> (m: Vec<(usize, u32)>)
    requires
        forall|i: int| 0 <= i < bits@.len() ==> #[trigger] bits@[i].1 < 32,
    ensures
        m@.len() == bits@.len(),
        forall|i: int| 0 <= i < m@.len() ==> #[trigger] m@[i] == (bits@[i].0, !(1u32 << bits@[i].1)),
{
    let mut m: Vec<(usize, u32)> = Vec::new();
    let mut i: usize = 0;
    while i < bits.len()
        invariant
            i <= bits@.len(),
            m@.len() == i,
            forall|j: int| 0 <= j < bits@.len() ==> #[trigger] bits@[j].1 < 32,
            forall|j: int| 0 <= j < i ==> #[trigger] m@[j] == (bits@[j].0, !(1u32 << bits@[j].1)),
        decreases bits@.len() - i,
    {
        let (port, bit) = bits[i];
        m.push((port, !(1u32 << bit)));
        i = i + 1;
    }
    m
}

} // verus!
