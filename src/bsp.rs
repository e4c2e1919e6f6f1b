use vstd::prelude::*;

use crate::mmu::{
    exp2, is_pow2, log2, AccessPermissions, AddressRange, AttributeFields, KernelVirtualLayout,
    MemAttributes, Translation, TranslationDescriptor, LVL2_GRANULE_SIZE, MAX_ADDRESS_SPACE_SIZE,
};
use crate::translation_table::{FixedSizeTranslationTable, LVL2_SPAN};

verus! {

/// Offset of the GPIO block within the peripheral window.
pub const GPIO_OFFSET: usize = 0x0020_0000;

/// Offset of the PL011 UART within the peripheral window.
pub const UART_OFFSET: usize = 0x0020_1000;

/// Offset of the power management reset control register.
pub const PM_RSTC_OFFSET: usize = 0x0010_001c;

/// Offset of the power management reset status register.
pub const PM_RSTS_OFFSET: usize = 0x0010_0020;

/// Offset of the power management watchdog register.
pub const PM_WDOG_OFFSET: usize = 0x0010_0024;

/// Last address of the kernel's virtual address space (4 GiB).
pub const END_INCLUSIVE: usize = 0xFFFF_FFFF;

/// First address of the peripheral (MMIO) window.
pub const MMIO_START: usize = 0x3F00_0000;

/// Last address of the peripheral (MMIO) window.
pub const MMIO_END_INCLUSIVE: usize = 0x4000_FFFF;

/// Start of the GPIO registers.
pub const GPIO_START: usize = MMIO_START + GPIO_OFFSET;

/// Start of the PL011 UART registers.
pub const PL011_UART_START: usize = MMIO_START + UART_OFFSET;

/// Number of special regions in the kernel's layout.
pub const NUM_MEM_RANGES: usize = 2;

/// Base 2 logarithm of the kernel's address space size (4 GiB).
pub const KERNEL_ADDR_SPACE_SHIFT: u64 = 32;

/// Level 2 entries needed to cover the kernel's address space.
pub const NUM_LVL2_TABLES: usize = 8;

/// The kernel's address space constants agree: eight 512 MiB level 2 entries
/// span exactly the 2^32 bytes up to `END_INCLUSIVE`, the table's last page
/// lies within the layout, and the size meets the architecture's restrictions.
pub proof fn lemma_kernel_address_space()
    ensures
        NUM_LVL2_TABLES * LVL2_SPAN == exp2(KERNEL_ADDR_SPACE_SHIFT as nat),
        END_INCLUSIVE + 1 == exp2(KERNEL_ADDR_SPACE_SHIFT as nat),
        FixedSizeTranslationTable::<NUM_LVL2_TABLES>::last_virt_addr() <= END_INCLUSIVE,
        is_pow2(END_INCLUSIVE + 1),
        log2(END_INCLUSIVE + 1) == KERNEL_ADDR_SPACE_SHIFT,
        (END_INCLUSIVE + 1) % (LVL2_GRANULE_SIZE as int) == 0,
        END_INCLUSIVE + 1 <= MAX_ADDRESS_SPACE_SIZE,
{
    reveal_with_fuel(exp2, 33);
    reveal_with_fuel(is_pow2, 33);
    reveal_with_fuel(log2, 33);
}

pub fn board_name() -> (r: &'static str)
    ensures
        r@ == "Raspberry Pi 3"@,
{
    "Raspberry Pi 3"
}

/// Address of the power management reset control register.
pub fn board_pm_rstc() -> (r: usize)
    ensures
        r == MMIO_START + PM_RSTC_OFFSET,
{
    MMIO_START + PM_RSTC_OFFSET
}

/// Address of the power management reset status register.
pub fn board_pm_rsts() -> (r: usize)
    ensures
        r == MMIO_START + PM_RSTS_OFFSET,
{
    MMIO_START + PM_RSTS_OFFSET
}

/// Address of the power management watchdog register.
pub fn board_pm_wdog() -> (r: usize)
    ensures
        r == MMIO_START + PM_WDOG_OFFSET,
{
    MMIO_START + PM_WDOG_OFFSET
}

/// Password the power management block requires in the top byte of each write.
pub const PM_WDOG_MAGIC: u32 = 0x5A00_0000;

/// Full reset in the reset control register.
pub const PM_RSTC_FULLRST: u32 = 0x0000_0020;

/// Bits of the reset status register kept across a reset request.
pub const PM_RSTS_KEEP: u32 = !0xFFFF_FAAAu32;

/// Watchdog ticks until the reset fires.
pub const PM_WDOG_TICKS: u32 = 10;

/// The three writes that reset the board, in order.
#[derive(Clone, Copy, Debug, PartialEq, Eq, Structural)]
pub struct BoardResetWrites {
    /// To the reset status register.
    pub rsts: u32,
    /// To the watchdog register.
    pub wdog: u32,
    /// To the reset control register.
    pub rstc: u32,
}

/// The values that reset the board, given the reset status register's current
/// value: the status keeps only its partition bits, the watchdog fires after
/// ten ticks, and the control requests a full reset, each with the password.
pub fn board_reset_writes(rsts: u32) -> (r: BoardResetWrites)
    ensures
        r.rsts == PM_WDOG_MAGIC | (rsts & PM_RSTS_KEEP),
        r.wdog == PM_WDOG_MAGIC | PM_WDOG_TICKS,
        r.rstc == PM_WDOG_MAGIC | PM_RSTC_FULLRST,
{
    let mut r = rsts;
    r = r & PM_RSTS_KEEP;
    BoardResetWrites {
        rsts: PM_WDOG_MAGIC | r,
        wdog: PM_WDOG_MAGIC | PM_WDOG_TICKS,
        rstc: PM_WDOG_MAGIC | PM_RSTC_FULLRST,
    }
}

/// The kernel's code and read-only data: from `code_start` up to the byte
/// before `code_end_exclusive`.
pub fn code_range_inclusive(code_start: usize, code_end_exclusive: usize) -> (r: AddressRange)
    requires
        code_end_exclusive >= 1,
    ensures
        r.start == code_start,
        r.end == code_end_exclusive - 1,
{
    AddressRange::new(code_start, code_end_exclusive - 1)
}

/// The peripheral window.
pub fn mmio_range_inclusive() -> (r: AddressRange)
    ensures
        r.start == MMIO_START,
        r.end == MMIO_END_INCLUSIVE,
{
    AddressRange::new(MMIO_START, MMIO_END_INCLUSIVE)
}

/// The descriptor of the kernel's code: identity mapped, cacheable, read-only, executable.
pub open spec fn code_descriptor_spec(code_start: usize, code_end_exclusive: usize) -> TranslationDescriptor {
    TranslationDescriptor {
        name: "Kernel code and RO data",
        virtual_range: AddressRange { start: code_start, end: (code_end_exclusive - 1) as usize },
        physical_range_translation: Translation::Identity,
        attribute_fields: AttributeFields {
            mem_attributes: MemAttributes::CacheableDRAM,
            acc_perms: AccessPermissions::ReadOnly,
            execute_never: false,
        },
    }
}

/// The descriptor of the peripheral window: identity mapped, device memory,
/// writable, never executable.
pub open spec fn mmio_descriptor_spec() -> TranslationDescriptor {
    TranslationDescriptor {
        name: "Device MMIO",
        virtual_range: AddressRange { start: MMIO_START, end: MMIO_END_INCLUSIVE },
        physical_range_translation: Translation::Identity,
        attribute_fields: AttributeFields {
            mem_attributes: MemAttributes::Device,
            acc_perms: AccessPermissions::ReadWrite,
            execute_never: true,
        },
    }
}

/// The kernel's virtual memory layout: its code, then the peripheral window,
/// over a 4 GiB address space. Normal memory is not listed and takes the
/// default attributes. The code's bounds come from the linker.
pub fn virt_mem_layout(code_start: usize, code_end_exclusive: usize) -> (r: KernelVirtualLayout<NUM_MEM_RANGES>)
    requires
        code_end_exclusive >= 1,
    ensures
        r.wf(),
        r.max_addr() == END_INCLUSIVE,
        r.descriptors() == seq![code_descriptor_spec(code_start, code_end_exclusive), mmio_descriptor_spec()],
{
    let code = TranslationDescriptor {
        name: "Kernel code and RO data",
        virtual_range: code_range_inclusive(code_start, code_end_exclusive),
        physical_range_translation: Translation::Identity,
        attribute_fields: AttributeFields {
            mem_attributes: MemAttributes::CacheableDRAM,
            acc_perms: AccessPermissions::ReadOnly,
            execute_never: false,
        },
    };
    let mmio = TranslationDescriptor {
        name: "Device MMIO",
        virtual_range: mmio_range_inclusive(),
        physical_range_translation: Translation::Identity,
        attribute_fields: AttributeFields {
            mem_attributes: MemAttributes::Device,
            acc_perms: AccessPermissions::ReadWrite,
            execute_never: true,
        },
    };
    let r = KernelVirtualLayout::new(END_INCLUSIVE, [code, mmio]);
    assert(r.descriptors() =~= seq![code_descriptor_spec(code_start, code_end_exclusive), mmio_descriptor_spec()]);
    r
}

} // verus!
