use vstd::prelude::*;

use crate::bsp::{KERNEL_ADDR_SPACE_SHIFT, NUM_LVL2_TABLES, NUM_MEM_RANGES};
use crate::mmu::{KernelVirtualLayout, MMUEnableError};
use crate::translation_table::{FixedSizeTranslationTable, LVL3_TABLE_BYTES};

verus! {

/// The kernel's translation table, covering its 4 GiB address space.
pub type KernelTranslationTable = FixedSizeTranslationTable<NUM_LVL2_TABLES>;

/// SCTLR_EL1.M (bit 0): stage 1 translation on.
pub const SCTLR_M: u64 = 1;

/// SCTLR_EL1.C (bit 2): data caching on.
pub const SCTLR_C: u64 = 0x4;

/// SCTLR_EL1.I (bit 12): instruction caching on.
pub const SCTLR_I: u64 = 0x1000;

/// ID_AA64MMFR0_EL1.TGran64 (bits 24..28); zero means the 64 KiB granule is supported.
pub const TGRAN64_MASK: u64 = 0x0F00_0000;

/// MAIR_EL1 with attribute 0 device nGnRE (0x04) and attribute 1 normal
/// memory, inner and outer write-back non-transient read/write-allocate (0xFF).
pub const MAIR_VALUE: u64 = 0xFF04;

/// TTBR0_EL1.BADDR (bits 1..48).
pub const TTBR_BADDR_MASK: u64 = 0x0000_FFFF_FFFF_FFFE;

/// TCR_EL1 without T0SZ: IPS 40 bits (0b010, bits 32..35), TTBR1 walks off
/// (EPD1, bit 23), ASID from TTBR0 (A1 = 0), 64 KiB granule (TG0 = 0b01, bits
/// 14..16), inner shareable walks (SH0 = 0b11, bits 12..14), outer and inner
/// write-back read/write-allocate cacheable walks (ORGN0 = IRGN0 = 0b01, bits
/// 10..12 and 8..10), TTBR0 walks on (EPD0 = 0), top byte used (TBI0 = 0).
pub const TCR_BASE: u64 = 0x2_0080_7500;

/// T0SZ (bits 0..6) for an address space of `2^shift` bytes.
pub open spec fn t0sz(shift: u64) -> u64 {
    (64 - shift) as u64
}

/// The translation control the kernel programs for an address space of `2^shift` bytes.
pub open spec fn tcr_value(shift: u64) -> u64 {
    TCR_BASE | (t0sz(shift) & 0x3F)
}

/// TTBR0_EL1 for a table whose level 2 entries lie at `addr`.
pub open spec fn ttbr0_value(addr: u64) -> u64 {
    addr & TTBR_BADDR_MASK
}

/// The EL1 registers that the MMU enable sequence reads or programs, as values.
#[derive(Clone, Copy, Debug, PartialEq, Eq, Structural)]
pub struct MemoryManagementUnit {
    pub sctlr_el1: u64,
    pub mair_el1: u64,
    pub ttbr0_el1: u64,
    pub tcr_el1: u64,
    pub id_aa64mmfr0_el1: u64,
}

/// The MMU as its system control and memory model feature registers read
/// now; the registers it programs start cleared.
pub fn mmu(sctlr_el1: u64, id_aa64mmfr0_el1: u64) -> (r: MemoryManagementUnit)
    ensures
        r == (MemoryManagementUnit { sctlr_el1, mair_el1: 0, ttbr0_el1: 0, tcr_el1: 0, id_aa64mmfr0_el1 }),
{
    MemoryManagementUnit { sctlr_el1, mair_el1: 0, ttbr0_el1: 0, tcr_el1: 0, id_aa64mmfr0_el1 }
}

impl MemoryManagementUnit {
    /// Translation is on.
    pub open spec fn enabled(&self) -> bool {
        self.sctlr_el1 & SCTLR_M == SCTLR_M
    }

    /// The hardware supports the 64 KiB granule.
    pub open spec fn granule_supported(&self) -> bool {
        self.id_aa64mmfr0_el1 & TGRAN64_MASK == 0
    }

    pub fn is_enabled(&self) -> (r: bool)
        ensures
            r == self.enabled(),
    {
        self.sctlr_el1 & SCTLR_M == SCTLR_M
    }

    /// What enabling the MMU gives on these registers, for a layout whose last
    /// address is `max_addr`.
    pub open spec fn enable_result(&self, max_addr: usize) -> Result<(), MMUEnableError> {
        if self.enabled() {
            Err(MMUEnableError::AlreadyEnabled)
        } else if !self.granule_supported() {
            Err(MMUEnableError::UnsupportedGranule)
        } else if KernelTranslationTable::last_virt_addr() > max_addr {
            Err(MMUEnableError::Other("Address out of range"))
        } else {
            Ok(())
        }
    }

    /// The registers after a successful enable, with the table at `phys_start`.
    pub open spec fn enabled_registers(&self, phys_start: usize) -> MemoryManagementUnit {
        MemoryManagementUnit {
            sctlr_el1: self.sctlr_el1 | SCTLR_M | SCTLR_C | SCTLR_I,
            mair_el1: MAIR_VALUE,
            ttbr0_el1: ttbr0_value((phys_start + NUM_LVL2_TABLES * LVL3_TABLE_BYTES) as u64),
            tcr_el1: tcr_value(KERNEL_ADDR_SPACE_SHIFT),
            id_aa64mmfr0_el1: self.id_aa64mmfr0_el1,
        }
    }

    /// Builds the kernel's translation table at physical address `phys_start`
    /// from `layout` and switches translation and caching on: MAIR_EL1 gets
    /// the two memory attributes, TTBR0_EL1 the table's base, TCR_EL1 the
    /// translation control for the 4 GiB space, and SCTLR_EL1 the M, C and I
    /// bits. Fails, changing no register, when translation is already on, when
    /// the 64 KiB granule is missing, or when the table reaches beyond the
    /// layout. The registers are to be written to hardware in that order, with
    /// an instruction barrier before and after the SCTLR_EL1 write.
    pub fn enable_mmu_and_caching(
        &mut self,
        tables: &mut KernelTranslationTable,
        layout: &KernelVirtualLayout<NUM_MEM_RANGES>,
        phys_start: usize,
    ) -> (r: Result<(), MMUEnableError>)
        requires
            old(tables).wf(),
            layout.wf(),
            phys_start % LVL3_TABLE_BYTES == 0,
            phys_start + NUM_LVL2_TABLES * LVL3_TABLE_BYTES <= usize::MAX,
        ensures
            r == old(self).enable_result(layout.max_addr()),
            r is Ok ==> *final(self) == old(self).enabled_registers(phys_start),
            r is Ok ==> final(tables).populated_from(layout) && final(tables).phys_start() == phys_start,
            r is Err ==> *final(self) == *old(self),
            r is Err && (old(self).enabled() || !old(self).granule_supported()) ==> *final(tables) == *old(tables),
            final(tables).wf(),
    {
        if self.is_enabled() {
            return Err(MMUEnableError::AlreadyEnabled);
        }
        if self.id_aa64mmfr0_el1 & TGRAN64_MASK != 0 {
            return Err(MMUEnableError::UnsupportedGranule);
        }
        match tables.populate_tt_entries(layout, phys_start) {
            Ok(()) => {},
            Err(e) => {
                return Err(MMUEnableError::Other(e));
            },
        }
        let base = tables.phys_base_address();
        let t0sz = 64 - KERNEL_ADDR_SPACE_SHIFT;
        let old_sctlr = self.sctlr_el1;
        let sctlr = old_sctlr | SCTLR_M | SCTLR_C | SCTLR_I;
        self.mair_el1 = MAIR_VALUE;
        self.ttbr0_el1 = base & TTBR_BADDR_MASK;
        self.tcr_el1 = TCR_BASE | (t0sz & 0x3F);
        self.sctlr_el1 = sctlr;
        Ok(())
    }
}

/// Enabling succeeds on registers that allow it and leaves translation on, so
/// that enabling again fails with `AlreadyEnabled`.
pub proof fn lemma_enable_twice(mmu: MemoryManagementUnit, max_addr: usize, phys_start: usize)
    requires
        !mmu.enabled(),
        mmu.granule_supported(),
        KernelTranslationTable::last_virt_addr() <= max_addr,
    ensures
        mmu.enable_result(max_addr) is Ok,
        mmu.enabled_registers(phys_start).enabled(),
        mmu.enabled_registers(phys_start).enable_result(max_addr)
            == Err::<(), MMUEnableError>(MMUEnableError::AlreadyEnabled),
{
    let x = mmu.sctlr_el1;
    assert((x | 1u64 | 0x4u64 | 0x1000u64) & 1u64 == 1u64) by (bit_vector);
}

} // verus!
