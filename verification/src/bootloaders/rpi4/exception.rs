//! Privilege levels and the masking of asynchronous exceptions.
use vstd::prelude::*;

verus! {

/// Kernel privilege levels.
#[derive(Clone, Copy, PartialEq, Eq, Structural)]
pub enum PrivilegeLevel {
    User,
    Kernel,
    Hypervisor,
    Unknown,
}

/// The privilege level of an exception level and its name.
pub fn current_privilege_level(el: u64) -> (r: (PrivilegeLevel, &'static str))
    ensures
        r.0 == (if el == 2 {
            PrivilegeLevel::Hypervisor
        } else if el == 1 {
            PrivilegeLevel::Kernel
        } else if el == 0 {
            PrivilegeLevel::User
        } else {
            PrivilegeLevel::Unknown
        }),
{
    if el == 2 {
        (PrivilegeLevel::Hypervisor, "EL2")
    } else if el == 1 {
        (PrivilegeLevel::Kernel, "EL1")
    } else if el == 0 {
        (PrivilegeLevel::User, "EL0")
    } else {
        (PrivilegeLevel::Unknown, "Unknown")
    }
}

/// The four exception masks of the DAIF register.
#[derive(Clone, Copy, PartialEq, Eq, Structural)]
pub enum DaifField {
    Debug,
    SError,
    Irq,
    Fiq,
}

/// The DAIF bit of a mask: D is bit 9, A bit 8, I bit 7, F bit 6.
pub open spec fn daif_bit(f: DaifField) -> u64 {
    match f {
        DaifField::Debug => 1u64 << 9u64,
        DaifField::SError => 1u64 << 8u64,
        DaifField::Irq => 1u64 << 7u64,
        DaifField::Fiq => 1u64 << 6u64,
    }
}

fn daif_field_bit(f: DaifField) -> (b: u64)
    ensures
        b == daif_bit(f),
{
    match f {
        DaifField::Debug => 1u64 << 9u64,
        DaifField::SError => 1u64 << 8u64,
        DaifField::Irq => 1u64 << 7u64,
        DaifField::Fiq => 1u64 << 6u64,
    }
}

/// Whether the exceptions of `f` are masked in `daif`.
pub fn is_masked(daif: u64, f: DaifField) -> (b: bool)
    ensures
        b == (daif & daif_bit(f) != 0),
{
    daif & daif_field_bit(f) != 0
}

/// Whether IRQs are masked in `daif`.
pub fn is_local_irq_masked(daif: u64) -> (b: bool)
    ensures
        b == (daif & daif_bit(DaifField::Irq) != 0),
{
    is_masked(daif, DaifField::Irq)
}

/// DAIF once IRQs are unmasked (`msr DAIFClr, #2`).
pub fn local_irq_unmask(daif: u64) -> (r: u64)
    ensures
        r == daif & !daif_bit(DaifField::Irq),
{
    daif & !(1u64 << 7u64)
}

/// DAIF once IRQs are masked (`msr DAIFSet, #2`).
pub fn local_irq_mask(daif: u64) -> (r: u64)
    ensures
        r == daif | daif_bit(DaifField::Irq),
{
    daif | (1u64 << 7u64)
}

/// Masks IRQs and keeps the DAIF value from before: the saved value and the
/// new DAIF value.
pub fn local_irq_mask_save(daif: u64) -> (r: (u64, u64))
    ensures
        r.0 == daif,
        r.1 == daif | daif_bit(DaifField::Irq),
{
    (daif, local_irq_mask(daif))
}

/// DAIF restored to a saved value.
pub fn local_irq_restore(saved: u64) -> (r: u64)
    ensures
        r == saved,
{
    saved
}

/// "Masked" or "Unmasked".
pub fn to_mask_str(x: bool) -> (s: &'static str)
    ensures
        x ==> s@ == "Masked"@,
        !x ==> s@ == "Unmasked"@,
{
    if x {
        "Masked"
    } else {
        "Unmasked"
    }
}

/// The mask state of Debug, SError, IRQ and FIQ, in that order.
pub fn print_state(daif: u64) -> (r: Vec<bool>)
    ensures
        r@ == seq![
            daif & daif_bit(DaifField::Debug) != 0,
            daif & daif_bit(DaifField::SError) != 0,
            daif & daif_bit(DaifField::Irq) != 0,
            daif & daif_bit(DaifField::Fiq) != 0,
        ],
{
    let mut r: Vec<bool> = Vec::new();
    r.push(is_masked(daif, DaifField::Debug));
    r.push(is_masked(daif, DaifField::SError));
    r.push(is_masked(daif, DaifField::Irq));
    r.push(is_masked(daif, DaifField::Fiq));
    assert(r@ =~= seq![
        daif & daif_bit(DaifField::Debug) != 0,
        daif & daif_bit(DaifField::SError) != 0,
        daif & daif_bit(DaifField::Irq) != 0,
        daif & daif_bit(DaifField::Fiq) != 0,
    ]);
    r
}

/// Masking IRQs masks them and leaves the other masks as they were;
/// unmasking unmasks them and leaves the others as they were too.
pub proof fn lemma_irq_mask_unmask(daif: u64)
    ensures
        (daif | daif_bit(DaifField::Irq)) & daif_bit(DaifField::Irq) != 0,
        (daif & !daif_bit(DaifField::Irq)) & daif_bit(DaifField::Irq) == 0,
        (daif | daif_bit(DaifField::Irq)) & daif_bit(DaifField::Debug) == daif & daif_bit(DaifField::Debug),
        (daif & !daif_bit(DaifField::Irq)) & daif_bit(DaifField::Debug) == daif & daif_bit(DaifField::Debug),
        (daif | daif_bit(DaifField::Irq)) & daif_bit(DaifField::SError) == daif & daif_bit(DaifField::SError),
        (daif & !daif_bit(DaifField::Irq)) & daif_bit(DaifField::SError) == daif & daif_bit(DaifField::SError),
        (daif | daif_bit(DaifField::Irq)) & daif_bit(DaifField::Fiq) == daif & daif_bit(DaifField::Fiq),
        (daif & !daif_bit(DaifField::Irq)) & daif_bit(DaifField::Fiq) == daif & daif_bit(DaifField::Fiq),
{
    assert(
        (daif | (1u64 << 7u64)) & (1u64 << 7u64) != 0
        && (daif & !(1u64 << 7u64)) & (1u64 << 7u64) == 0
        && (daif | (1u64 << 7u64)) & (1u64 << 9u64) == daif & (1u64 << 9u64)
        && (daif & !(1u64 << 7u64)) & (1u64 << 9u64) == daif & (1u64 << 9u64)
        && (daif | (1u64 << 7u64)) & (1u64 << 8u64) == daif & (1u64 << 8u64)
        && (daif & !(1u64 << 7u64)) & (1u64 << 8u64) == daif & (1u64 << 8u64)
        && (daif | (1u64 << 7u64)) & (1u64 << 6u64) == daif & (1u64 << 6u64)
        && (daif & !(1u64 << 7u64)) & (1u64 << 6u64) == daif & (1u64 << 6u64)
    ) by (bit_vector);
}

/// An IRQ number no greater than `MAX_INCLUSIVE`.
#[derive(Clone, Copy)]
pub struct IRQNumber<const MAX_INCLUSIVE: usize>(pub usize);

impl<const MAX_INCLUSIVE: usize> IRQNumber<MAX_INCLUSIVE> {
    /// Wraps an IRQ number within the bound.
    pub fn new(number: usize) -> (n: Self)
        requires
            number <= MAX_INCLUSIVE,
        ensures
            n.0 == number,
    {
        IRQNumber(number)
    }

    /// The wrapped number.
    pub fn get(self) -> (n: usize)
        ensures
            n == self.0,
    {
        self.0
    }
}

} // verus!
