use vstd::prelude::*;

verus! {

/// CNTHCTL_EL2 with EL1PCEN (bit 1) and EL1PCTEN (bit 0): EL1 may use the
/// physical timer and counter.
pub const CNTHCTL_EL1_ACCESS: u64 = 0b11;

/// HCR_EL2.RW (bit 31): EL1 runs in AArch64 state.
pub const HCR_RW_AARCH64: u64 = 0x8000_0000;

/// SPSR_EL2 with debug, SError, IRQ and FIQ masked (bits 9..6) and M = EL1h
/// (0b0101): return to EL1 on its own stack pointer.
pub const SPSR_EL1H_ALL_MASKED: u64 = 0x3C5;

/// The register values that an exception return from EL2 needs to land in
/// the kernel at EL1.
#[derive(Clone, Copy, Debug, PartialEq, Eq, Structural)]
pub struct El2ToEl1Transition {
    pub cnthctl_el2: u64,
    pub cntvoff_el2: u64,
    pub hcr_el2: u64,
    pub spsr_el2: u64,
    pub elr_el2: u64,
    pub sp_el1: u64,
}

/// The values to program before leaving EL2: timers and counters handed to
/// EL1 with no virtual offset, EL1 in AArch64 state, a saved state with every
/// interrupt class masked and EL1's own stack pointer, a return address at
/// the kernel's entry, and EL1's stack pointer at the end of the boot stack.
/// Touches no memory.
pub fn prepare_el2_to_el1_transition(phys_boot_core_stack_end_exclusive_addr: u64, kernel_entry: u64) -> (r: El2ToEl1Transition)
    ensures
        r == (El2ToEl1Transition {
            cnthctl_el2: CNTHCTL_EL1_ACCESS,
            cntvoff_el2: 0,
            hcr_el2: HCR_RW_AARCH64,
            spsr_el2: SPSR_EL1H_ALL_MASKED,
            elr_el2: kernel_entry,
            sp_el1: phys_boot_core_stack_end_exclusive_addr,
        }),
{
    El2ToEl1Transition {
        cnthctl_el2: CNTHCTL_EL1_ACCESS,
        cntvoff_el2: 0,
        hcr_el2: HCR_RW_AARCH64,
        spsr_el2: SPSR_EL1H_ALL_MASKED,
        elr_el2: kernel_entry,
        sp_el1: phys_boot_core_stack_end_exclusive_addr,
    }
}

} // verus!
