use libkernel::bsp::{
    board_name, board_pm_rstc, board_pm_rsts, board_pm_wdog, code_range_inclusive,
    mmio_range_inclusive, virt_mem_layout, END_INCLUSIVE,
};
use libkernel::mmu::{
    AccessPermissions, AddressRange, AddressSpace, AttributeFields, KernelVirtualLayout,
    MMUEnableError, MemAttributes, Translation, TranslationDescriptor, TranslationGranule,
};

fn attrs(m: MemAttributes, p: AccessPermissions, xn: bool) -> AttributeFields {
    AttributeFields { mem_attributes: m, acc_perms: p, execute_never: xn }
}

fn desc(name: &'static str, start: usize, end: usize, t: Translation, a: AttributeFields) -> TranslationDescriptor {
    TranslationDescriptor {
        name,
        virtual_range: AddressRange::new(start, end),
        physical_range_translation: t,
        attribute_fields: a,
    }
}

fn default_attrs() -> AttributeFields {
    attrs(MemAttributes::CacheableDRAM, AccessPermissions::ReadWrite, true)
}

#[test]
fn default_attributes_are_safe() {
    assert_eq!(AttributeFields::default(), default_attrs());
}

#[test]
fn resolve_rejects_addresses_beyond_bound() {
    let layout = KernelVirtualLayout::new(0xFFFF, [desc("a", 0, 0xFF, Translation::Identity, default_attrs())]);
    assert_eq!(layout.virt_addr_properties(0x1_0000), Err("Address out of range"));
    assert_eq!(layout.virt_addr_properties(usize::MAX), Err("Address out of range"));
    assert!(layout.virt_addr_properties(0xFFFF).is_ok());
    assert!(layout.virt_addr_properties(0).is_ok());
}

#[test]
fn resolve_identity_keeps_address() {
    let ro = attrs(MemAttributes::CacheableDRAM, AccessPermissions::ReadOnly, false);
    let layout = KernelVirtualLayout::new(0xFFFF_FFFF, [desc("code", 0x8_0000, 0x8_FFFF, Translation::Identity, ro)]);
    assert_eq!(layout.virt_addr_properties(0x8_1234), Ok((0x8_1234, ro)));
    assert_eq!(layout.virt_addr_properties(0x8_FFFF), Ok((0x8_FFFF, ro)));
}

#[test]
fn resolve_offset_shifts_address() {
    let dev = attrs(MemAttributes::Device, AccessPermissions::ReadWrite, true);
    let layout = KernelVirtualLayout::new(
        0xFFFF_FFFF,
        [desc("remap", 0x1000_0000, 0x1000_FFFF, Translation::Offset(0x3F00_0000), dev)],
    );
    assert_eq!(layout.virt_addr_properties(0x1000_0000), Ok((0x3F00_0000, dev)));
    assert_eq!(layout.virt_addr_properties(0x1000_0123), Ok((0x3F00_0123, dev)));
}

#[test]
fn resolve_unlisted_gets_default() {
    let dev = attrs(MemAttributes::Device, AccessPermissions::ReadWrite, true);
    let layout = KernelVirtualLayout::new(0xFFFF_FFFF, [desc("mmio", 0x3F20_0000, 0x3F20_0FFF, Translation::Identity, dev)]);
    assert_eq!(layout.virt_addr_properties(0x3F20_1000), Ok((0x3F20_1000, default_attrs())));
    assert_eq!(layout.virt_addr_properties(0x3F1F_FFFF), Ok((0x3F1F_FFFF, default_attrs())));
    let empty: KernelVirtualLayout<0> = KernelVirtualLayout::new(0xFFFF, []);
    assert_eq!(empty.virt_addr_properties(0x10), Ok((0x10, default_attrs())));
}

#[test]
fn resolve_overlap_takes_first_listed() {
    let ro = attrs(MemAttributes::CacheableDRAM, AccessPermissions::ReadOnly, false);
    let dev = attrs(MemAttributes::Device, AccessPermissions::ReadWrite, true);
    let first_ro = KernelVirtualLayout::new(
        0xFFFF_FFFF,
        [
            desc("small", 0x1000, 0x1FFF, Translation::Identity, ro),
            desc("large", 0x0, 0xFFFF, Translation::Offset(0x10_0000), dev),
        ],
    );
    assert_eq!(first_ro.virt_addr_properties(0x1800), Ok((0x1800, ro)));
    assert_eq!(first_ro.virt_addr_properties(0x2000), Ok((0x10_2000, dev)));
    let first_dev = KernelVirtualLayout::new(
        0xFFFF_FFFF,
        [
            desc("large", 0x0, 0xFFFF, Translation::Offset(0x10_0000), dev),
            desc("small", 0x1000, 0x1FFF, Translation::Identity, ro),
        ],
    );
    assert_eq!(first_dev.virt_addr_properties(0x1800), Ok((0x10_1800, dev)));
}

#[test]
fn board_values() {
    assert_eq!(board_name(), "Raspberry Pi 3");
    assert_eq!(board_pm_rstc(), 0x3F10_001c);
    assert_eq!(board_pm_rsts(), 0x3F10_0020);
    assert_eq!(board_pm_wdog(), 0x3F10_0024);
    assert_eq!(mmio_range_inclusive(), AddressRange::new(0x3F00_0000, 0x4000_FFFF));
    assert_eq!(code_range_inclusive(0x8_0000, 0x9_0000), AddressRange::new(0x8_0000, 0x8_FFFF));
}

#[test]
fn kernel_layout_resolves_code_mmio_and_dram() {
    let layout = virt_mem_layout(0x8_0000, 0x9_0000);
    assert_eq!(layout.max_virt_addr_inclusive(), END_INCLUSIVE);
    let ro_exec = attrs(MemAttributes::CacheableDRAM, AccessPermissions::ReadOnly, false);
    let dev = attrs(MemAttributes::Device, AccessPermissions::ReadWrite, true);
    assert_eq!(layout.virt_addr_properties(0x8_0000), Ok((0x8_0000, ro_exec)));
    assert_eq!(layout.virt_addr_properties(0x3F20_1000), Ok((0x3F20_1000, dev)));
    assert_eq!(layout.virt_addr_properties(0x20_0000), Ok((0x20_0000, default_attrs())));
    assert_eq!(layout.virt_addr_properties(0xFFFF_FFFF), Ok((0xFFFF_FFFF, default_attrs())));
}

#[test]
fn layout_summaries() {
    let layout = virt_mem_layout(0x8_0000, 0x9_0000);
    let lines = layout.print_layout();
    assert_eq!(lines.len(), 2);
    assert_eq!((lines[0].start, lines[0].end), (0x8_0000, 0x8_FFFF));
    assert_eq!((lines[0].size, lines[0].unit), (64, "KiB"));
    assert_eq!((lines[0].attr, lines[0].acc_p, lines[0].xn), ("C", "RO", "PX"));
    assert_eq!(lines[0].name, "Kernel code and RO data");
    assert_eq!((lines[1].size, lines[1].unit), (16, "MiB"));
    assert_eq!((lines[1].attr, lines[1].acc_p, lines[1].xn), ("Dev", "RW", "PXN"));
    assert_eq!(lines[1].name, "Device MMIO");
    let tiny = desc("tiny", 0x100, 0x163, Translation::Identity, default_attrs()).summary();
    assert_eq!((tiny.size, tiny.unit), (100, "Byte"));
}

#[test]
fn granule_and_address_space_sizes() {
    assert_eq!(TranslationGranule::<0x1_0000>::size_checked(), 0x1_0000);
    assert_eq!(TranslationGranule::<0x1_0000>::shift(), 16);
    assert_eq!(TranslationGranule::<0x2000_0000>::shift(), 29);
    assert_eq!(AddressSpace::<0x4000_0000>::size_checked(), 0x4000_0000);
    assert_eq!(AddressSpace::<0x4000_0000>::shift(), 30);
    AddressSpace::<0x4000_0000>::arch_address_space_size_sanity_check();
    AddressSpace::<0x2000_0000>::arch_address_space_size_sanity_check();
}

#[test]
fn mmu_error_messages() {
    assert_eq!(MMUEnableError::AlreadyEnabled.message(), "MMU is already enabled");
    assert_eq!(MMUEnableError::UnsupportedGranule.message(), "Translation granule not supported in HW");
    assert_eq!(MMUEnableError::Other("Address out of range").message(), "Address out of range");
}
