use libkernel::arch_mmu::{mmu, KernelTranslationTable, MAIR_VALUE};
use libkernel::bsp::virt_mem_layout;
use libkernel::mmu::{
    AccessPermissions, AddressRange, AttributeFields, KernelVirtualLayout, MMUEnableError,
    MemAttributes, Translation, TranslationDescriptor,
};
use libkernel::translation_table::{FixedSizeTranslationTable, PageDescriptor, TableDescriptor};

fn attrs(m: MemAttributes, p: AccessPermissions, xn: bool) -> AttributeFields {
    AttributeFields { mem_attributes: m, acc_perms: p, execute_never: xn }
}

fn desc(name: &'static str, start: usize, end: usize, a: AttributeFields) -> TranslationDescriptor {
    TranslationDescriptor {
        name,
        virtual_range: AddressRange::new(start, end),
        physical_range_translation: Translation::Identity,
        attribute_fields: a,
    }
}

fn scenario_layout() -> KernelVirtualLayout<2> {
    KernelVirtualLayout::new(
        0x3FFF_FFFF,
        [
            desc("code", 0x8_0000, 0x8_FFFF, attrs(MemAttributes::CacheableDRAM, AccessPermissions::ReadOnly, false)),
            desc("mmio", 0x3F20_0000, 0x3F20_0FFF, attrs(MemAttributes::Device, AccessPermissions::ReadWrite, true)),
        ],
    )
}

#[test]
fn zeroed_descriptors() {
    assert_eq!(PageDescriptor::new_zeroed().value, 0);
    assert_eq!(TableDescriptor::new_zeroed().value, 0);
    let t = FixedSizeTranslationTable::<1>::new();
    assert_eq!(t.page_entry(0, 8191).value, 0);
    assert_eq!(t.table_entry(0).value, 0);
}

#[test]
fn page_descriptor_bits() {
    let code = PageDescriptor::from_output_addr(
        0x8_0000,
        &attrs(MemAttributes::CacheableDRAM, AccessPermissions::ReadOnly, false),
    );
    assert_eq!(code.value, 0x0040_0000_0008_0787);
    let dev = PageDescriptor::from_output_addr(
        0x3F20_0000,
        &attrs(MemAttributes::Device, AccessPermissions::ReadWrite, true),
    );
    assert_eq!(dev.value, 0x0060_0000_3F20_0603);
    assert_eq!(dev.output_addr(), 0x3F20_0000);
    assert_eq!(dev.attribute_fields(), attrs(MemAttributes::Device, AccessPermissions::ReadWrite, true));
}

#[test]
fn table_descriptor_bits() {
    let t = TableDescriptor::from_next_lvl_table_addr(0x12_0000);
    assert_eq!(t.value, 0x12_0003);
    assert_eq!(t.next_lvl_table_addr(), 0x12_0000);
}

#[test]
fn populate_one_gib_scenario() {
    let layout = scenario_layout();
    let mut table = FixedSizeTranslationTable::<2>::new();
    assert_eq!(table.populate_tt_entries(&layout, 0x20_0000), Ok(()));

    // 0x8_0000 is entry 8 of the first level 3 table.
    let code = table.page_entry(0, 8);
    assert_eq!(code.output_addr(), 0x8_0000);
    assert_eq!(code.value & (0b111 << 2), 1 << 2);
    assert_eq!(code.attribute_fields(), attrs(MemAttributes::CacheableDRAM, AccessPermissions::ReadOnly, false));

    // The 64 KiB page that holds the MMIO range is device memory.
    let mmio = table.page_entry(1, 0x1F20);
    assert_eq!(mmio.output_addr(), 0x3F20_0000);
    assert_eq!(mmio.attribute_fields(), attrs(MemAttributes::Device, AccessPermissions::ReadWrite, true));

    // The page after it takes the default attributes.
    let after = table.page_entry(1, 0x1F21);
    assert_eq!(after.output_addr(), 0x3F21_0000);
    assert_eq!(after.attribute_fields(), AttributeFields::default());
    assert_eq!(
        layout.virt_addr_properties(0x3F20_1000),
        Ok((0x3F20_1000, AttributeFields::default()))
    );

    assert_eq!(table.table_entry(0).next_lvl_table_addr(), 0x20_0000);
    assert_eq!(table.table_entry(1).next_lvl_table_addr(), 0x21_0000);
    assert_eq!(table.phys_base_address(), 0x22_0000);
}

#[test]
fn populate_round_trips_every_entry() {
    let layout = scenario_layout();
    let mut table = FixedSizeTranslationTable::<2>::new();
    assert_eq!(table.populate_tt_entries(&layout, 0), Ok(()));
    for l2 in 0..2usize {
        for l3 in 0..8192usize {
            let va = (l2 << 29) + (l3 << 16);
            let (out, a) = layout.virt_addr_properties(va).unwrap();
            let e = table.page_entry(l2, l3);
            assert_eq!(e.output_addr(), out as u64);
            assert_eq!(e.attribute_fields(), a);
        }
    }
}

#[test]
fn populate_fails_when_layout_is_too_small() {
    let layout = KernelVirtualLayout::new(0x1FFF_FFFF, [desc("x", 0, 0xFFFF, AttributeFields::default())]);
    let mut table = FixedSizeTranslationTable::<2>::new();
    assert_eq!(table.populate_tt_entries(&layout, 0), Err("Address out of range"));
}

#[test]
fn enable_twice_fails_second_time() {
    let layout = virt_mem_layout(0x8_0000, 0x9_0000);
    let mut tables = KernelTranslationTable::new();
    let mut m = mmu(0, 0);
    assert!(!m.is_enabled());
    assert_eq!(m.enable_mmu_and_caching(&mut tables, &layout, 0x100_0000), Ok(()));
    assert!(m.is_enabled());
    assert_eq!(m.mair_el1, MAIR_VALUE);
    assert_eq!(m.mair_el1, 0xFF04);
    assert_eq!(m.tcr_el1, 0x2_0080_7520);
    assert_eq!(m.ttbr0_el1, 0x108_0000);
    assert_eq!(m.sctlr_el1, 0x1005);
    let before = m;
    assert_eq!(m.enable_mmu_and_caching(&mut tables, &layout, 0x100_0000), Err(MMUEnableError::AlreadyEnabled));
    assert_eq!(m, before);
}

#[test]
fn enable_needs_64k_granule() {
    let layout = virt_mem_layout(0x8_0000, 0x9_0000);
    let mut tables = KernelTranslationTable::new();
    let mut m = mmu(0x30D0_0800, 0x0F00_0000);
    assert_eq!(m.enable_mmu_and_caching(&mut tables, &layout, 0), Err(MMUEnableError::UnsupportedGranule));
    assert!(!m.is_enabled());
    assert_eq!(m, mmu(0x30D0_0800, 0x0F00_0000));
}

#[test]
fn enable_reports_table_failure() {
    let small = KernelVirtualLayout::new(0x3FFF_FFFF, [
        desc("a", 0, 0xFFFF, AttributeFields::default()),
        desc("b", 0x10_0000, 0x10_FFFF, AttributeFields::default()),
    ]);
    let mut tables = KernelTranslationTable::new();
    let mut m = mmu(0, 0);
    assert_eq!(
        m.enable_mmu_and_caching(&mut tables, &small, 0),
        Err(MMUEnableError::Other("Address out of range"))
    );
    assert!(!m.is_enabled());
}
