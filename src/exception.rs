use vstd::prelude::*;

use core::marker::PhantomData;

verus! {

/// DAIF.D (bit 9): debug exceptions masked.
pub const DAIF_D: u64 = 0x200;

/// DAIF.A (bit 8): SError interrupts masked.
pub const DAIF_A: u64 = 0x100;

/// DAIF.I (bit 7): IRQs masked.
pub const DAIF_I: u64 = 0x80;

/// DAIF.F (bit 6): FIQs masked.
pub const DAIF_F: u64 = 0x40;

/// The privilege level the core runs at.
#[derive(Clone, Copy, Debug, PartialEq, Eq, Structural)]
pub enum PrivilegeLevel {
    User,
    Kernel,
    Hypervisor,
    Unknown,
}

/// The exception level in a CurrentEL value (bits 2..4).
pub open spec fn current_el_field(current_el: u64) -> u64 {
    (current_el >> 2u64) & 0b11u64
}

/// The privilege level, and its architectural name, that a CurrentEL value reports.
pub fn current_privillege_level(current_el: u64) -> (r: (PrivilegeLevel, &'static str))
    ensures
        current_el_field(current_el) == 2 ==> r.0 == PrivilegeLevel::Hypervisor && r.1@ == "EL2"@,
        current_el_field(current_el) == 1 ==> r.0 == PrivilegeLevel::Kernel && r.1@ == "EL1"@,
        current_el_field(current_el) == 0 ==> r.0 == PrivilegeLevel::User && r.1@ == "EL0"@,
        current_el_field(current_el) == 3 ==> r.0 == PrivilegeLevel::Unknown && r.1@ == "Unknown"@,
{
    let el = (current_el >> 2u64) & 0b11u64;
    if el == 2 {
        (PrivilegeLevel::Hypervisor, "EL2")
    } else if el == 1 {
        (PrivilegeLevel::Kernel, "EL1")
    } else if el == 0 {
        (PrivilegeLevel::User, "EL0")
    } else {
        (PrivilegeLevel::Unknown, "Unknown")
    }
}

/// The DAIF value with IRQs masked and every other bit kept.
pub open spec fn irq_masked(daif: u64) -> u64 {
    daif | DAIF_I
}

/// The DAIF value with IRQs unmasked and every other bit kept.
pub open spec fn irq_unmasked(daif: u64) -> u64 {
    daif & !DAIF_I
}

/// IRQs are masked in this DAIF value.
pub open spec fn is_irq_masked(daif: u64) -> bool {
    daif & DAIF_I == DAIF_I
}

/// Whether IRQs are masked in the DAIF value.
pub fn is_local_irq_masked(daif: u64) -> (r: bool)
    ensures
        r == is_irq_masked(daif),
{
    daif & DAIF_I == DAIF_I
}

/// Unmasks IRQs, leaving the debug, SError and FIQ masks as they are.
pub fn local_irq_unmask(daif: &mut u64)
    ensures
        *final(daif) == irq_unmasked(*old(daif)),
{
    *daif = *daif & !DAIF_I;
}

/// Masks IRQs, leaving the debug, SError and FIQ masks as they are.
pub fn local_irq_mask(daif: &mut u64)
    ensures
        *final(daif) == irq_masked(*old(daif)),
{
    *daif = *daif | DAIF_I;
}

/// Masking with save: the new DAIF value and the snapshot handed back.
pub open spec fn mask_save(daif: u64) -> (u64, u64) {
    (irq_masked(daif), daif)
}

/// Restoring a snapshot: the new DAIF value.
pub open spec fn restore(daif: u64, saved: u64) -> u64 {
    saved
}

/// Masks IRQs and returns the whole DAIF value from before.
pub fn local_irq_mask_save(daif: &mut u64) -> (saved: u64)
    ensures
        (*final(daif), saved) == mask_save(*old(daif)),
{
    let saved = *daif;
    local_irq_mask(daif);
    saved
}

/// Writes a saved DAIF value back as it is.
pub fn local_irq_restore(daif: &mut u64, saved: u64)
    ensures
        *final(daif) == restore(*old(daif), saved),
{
    *daif = saved;
}

/// Runs `f` with IRQs masked and then restores the DAIF value from before,
/// returning what `f` returned. `f` receives the DAIF value it runs under.
pub fn exec_with_irq_masked<T, F: FnOnce(u64) -> T>(daif: &mut u64, f: F) -> (r: T)
    requires
        f.requires((irq_masked(*old(daif)),)),
    ensures
        f.ensures((irq_masked(*old(daif)),), r),
        *final(daif) == *old(daif),
{
    let saved = local_irq_mask_save(daif);
    let ret = f(*daif);
    local_irq_restore(daif, saved);
    ret
}

/// Masking with save and restoring the snapshot at once leaves DAIF bit for
/// bit as it was, for every initial value; in between IRQs are masked and the
/// other mask bits are untouched.
pub proof fn lemma_mask_save_restore(daif: u64)
    ensures
        restore(mask_save(daif).0, mask_save(daif).1) == daif,
        is_irq_masked(mask_save(daif).0),
        mask_save(daif).0 & !DAIF_I == daif & !DAIF_I,
{
    assert((daif | 0x80u64) & 0x80u64 == 0x80u64) by (bit_vector);
    assert((daif | 0x80u64) & !0x80u64 == daif & !0x80u64) by (bit_vector);
}

/// A closure run under `exec_with_irq_masked` sees IRQs masked, whatever the
/// mask state was before.
pub proof fn lemma_masked_during_closure(daif: u64)
    ensures
        is_irq_masked(irq_masked(daif)),
{
    assert((daif | 0x80u64) & 0x80u64 == 0x80u64) by (bit_vector);
}

/// An IRQ number no greater than `MAX_INCLUSIVE`.
#[derive(Clone, Copy, Debug)]
pub struct IRQNumber<const MAX_INCLUSIVE: usize> {
    number: usize,
}

impl<const MAX_INCLUSIVE: usize> IRQNumber<MAX_INCLUSIVE> {
    pub closed spec fn value(self) -> usize {
        self.number
    }

    pub fn new(number: usize) -> (r: Self)
        requires
            number <= MAX_INCLUSIVE,
        ensures
            r.value() == number,
    {
        IRQNumber { number }
    }

    pub fn get(self) -> (r: usize)
        ensures
            r == self.value(),
    {
        self.number
    }
}

/// Evidence that the core runs an interrupt vector, with interrupts masked by
/// the hardware. Only interrupt vector code creates one, and it must not
/// outlive the vector.
#[derive(Clone, Copy)]
pub struct IRQContext<'ctxt> {
    _0: PhantomData<&'ctxt ()>,
}

impl<'ctxt> IRQContext<'ctxt> {
    /// Creates the token; to be called from interrupt vector code only.
    pub fn new() -> (r: Self) {
        IRQContext { _0: PhantomData }
    }
}

} // verus!
