use vstd::prelude::*;

use crate::mmu::{
    first_match, lemma_first_match_in_range, AccessPermissions, AttributeFields,
    KernelVirtualLayout, MemAttributes, Translation,
};

verus! {

/// Index of the device memory attribute in MAIR_EL1.
pub const MAIR_DEVICE: u64 = 0;

/// Index of the normal cacheable memory attribute in MAIR_EL1.
pub const MAIR_NORMAL: u64 = 1;

/// Bits 16..48 of a descriptor: a 64 KiB aligned physical address.
pub const ADDR_64KIB_MASK: u64 = 0x0000_FFFF_FFFF_0000;

/// Descriptor field value of the memory attributes: shareability (bits 8..10)
/// and the MAIR index (bits 2..5).
pub open spec fn mem_attr_bits(m: MemAttributes) -> u64 {
    match m {
        MemAttributes::CacheableDRAM => (0b11u64 << 8u64) | (1u64 << 2u64),
        MemAttributes::Device => (0b10u64 << 8u64) | (0u64 << 2u64),
    }
}

/// Descriptor field value of the access permissions (AP, bits 6..8), for EL1 only.
pub open spec fn acc_perm_bits(p: AccessPermissions) -> u64 {
    match p {
        AccessPermissions::ReadOnly => 0b10u64 << 6u64,
        AccessPermissions::ReadWrite => 0b00u64 << 6u64,
    }
}

/// Privileged execute-never (PXN, bit 53).
pub open spec fn pxn_bits(execute_never: bool) -> u64 {
    if execute_never { 1u64 << 53u64 } else { 0u64 }
}

/// The attribute fields of a page descriptor; unprivileged execute-never (UXN,
/// bit 54) is always set.
pub open spec fn attribute_bits(a: AttributeFields) -> u64 {
    mem_attr_bits(a.mem_attributes) | acc_perm_bits(a.acc_perms) | pxn_bits(a.execute_never) | (1u64 << 54u64)
}

/// A valid level 3 page descriptor for the 64 KiB page at `addr`: output address
/// in bits 16..48, access flag (bit 10), page type (bit 1), valid (bit 0).
pub open spec fn page_descriptor_bits(addr: u64, a: AttributeFields) -> u64 {
    ((addr >> 16u64) & 0xFFFF_FFFFu64) << 16u64 | (1u64 << 10u64) | (1u64 << 1u64) | 1u64 | attribute_bits(a)
}

/// A valid level 2 table descriptor pointing at the 64 KiB aligned table at
/// `addr`: address in bits 16..48, table type (bit 1), valid (bit 0).
pub open spec fn table_descriptor_bits(addr: u64) -> u64 {
    ((addr >> 16u64) & 0xFFFF_FFFFu64) << 16u64 | (1u64 << 1u64) | 1u64
}

/// The output address a descriptor value holds.
pub open spec fn decoded_output_addr(value: u64) -> u64 {
    value & ADDR_64KIB_MASK
}

/// The attributes a page descriptor value holds.
pub open spec fn decoded_attributes(value: u64) -> AttributeFields {
    AttributeFields {
        mem_attributes: if (value >> 2u64) & 0b111u64 == MAIR_NORMAL {
            MemAttributes::CacheableDRAM
        } else {
            MemAttributes::Device
        },
        acc_perms: if (value >> 7u64) & 1u64 == 1u64 {
            AccessPermissions::ReadOnly
        } else {
            AccessPermissions::ReadWrite
        },
        execute_never: (value >> 53u64) & 1u64 == 1u64,
    }
}

/// A level 2 entry of the translation table.
#[derive(Clone, Copy, Debug, PartialEq, Eq, Structural)]
pub struct TableDescriptor {
    pub value: u64,
}

/// A level 3 entry of the translation table, covering one 64 KiB page.
#[derive(Clone, Copy, Debug, PartialEq, Eq, Structural)]
pub struct PageDescriptor {
    pub value: u64,
}

impl TableDescriptor {
    /// An invalid descriptor.
    pub fn new_zeroed() -> (r: Self)
        ensures
            r.value == 0,
    {
        TableDescriptor { value: 0 }
    }

    /// A descriptor pointing at the next level table at the given physical address.
    pub fn from_next_lvl_table_addr(phys_next_lvl_table_addr: usize) -> (r: Self)
        ensures
            r.value == table_descriptor_bits(phys_next_lvl_table_addr as u64),
    {
        let shifted = (phys_next_lvl_table_addr as u64) >> 16u64;
        TableDescriptor { value: (shifted & 0xFFFF_FFFFu64) << 16u64 | (1u64 << 1u64) | 1u64 }
    }

    /// The physical address of the next level table.
    pub fn next_lvl_table_addr(&self) -> (r: u64)
        ensures
            r == decoded_output_addr(self.value),
    {
        self.value & ADDR_64KIB_MASK
    }
}

/// The descriptor bits that carry a mapping's attributes.
fn attribute_field_value(a: &AttributeFields) -> (r: u64)
    ensures
        r == attribute_bits(*a),
{
    let mem = match a.mem_attributes {
        MemAttributes::CacheableDRAM => (0b11u64 << 8u64) | (MAIR_NORMAL << 2u64),
        MemAttributes::Device => (0b10u64 << 8u64) | (MAIR_DEVICE << 2u64),
    };
    let ap = match a.acc_perms {
        AccessPermissions::ReadOnly => 0b10u64 << 6u64,
        AccessPermissions::ReadWrite => 0b00u64 << 6u64,
    };
    let pxn = if a.execute_never { 1u64 << 53u64 } else { 0u64 };
    mem | ap | pxn | (1u64 << 54u64)
}

impl PageDescriptor {
    /// An invalid descriptor.
    pub fn new_zeroed() -> (r: Self)
        ensures
            r.value == 0,
    {
        PageDescriptor { value: 0 }
    }

    /// A valid page descriptor for the page at `phys_output_addr` with the given attributes.
    pub fn from_output_addr(phys_output_addr: usize, attribute_fields: &AttributeFields) -> (r: Self)
        ensures
            r.value == page_descriptor_bits(phys_output_addr as u64, *attribute_fields),
    {
        let shifted = (phys_output_addr as u64) >> 16u64;
        let attrs = attribute_field_value(attribute_fields);
        PageDescriptor {
            value: (shifted & 0xFFFF_FFFFu64) << 16u64 | (1u64 << 10u64) | (1u64 << 1u64) | 1u64 | attrs,
        }
    }

    /// The physical address of the page.
    pub fn output_addr(&self) -> (r: u64)
        ensures
            r == decoded_output_addr(self.value),
    {
        self.value & ADDR_64KIB_MASK
    }

    /// The attributes the descriptor carries.
    pub fn attribute_fields(&self) -> (r: AttributeFields)
        ensures
            r == decoded_attributes(self.value),
    {
        AttributeFields {
            mem_attributes: if (self.value >> 2u64) & 0b111u64 == MAIR_NORMAL {
                MemAttributes::CacheableDRAM
            } else {
                MemAttributes::Device
            },
            acc_perms: if (self.value >> 7u64) & 1u64 == 1u64 {
                AccessPermissions::ReadOnly
            } else {
                AccessPermissions::ReadWrite
            },
            execute_never: (self.value >> 53u64) & 1u64 == 1u64,
        }
    }
}

/// A page descriptor decodes to the page address it was built from, when that
/// address is 64 KiB aligned and below 2^48, and to the attributes it was built with.
pub proof fn lemma_page_descriptor_round_trip(addr: u64, a: AttributeFields)
    requires
        addr % 0x1_0000 == 0,
        addr < 0x1_0000_0000_0000,
    ensures
        decoded_output_addr(page_descriptor_bits(addr, a)) == addr,
        decoded_attributes(page_descriptor_bits(addr, a)) == a,
{
    let m: u64 = mem_attr_bits(a.mem_attributes);
    let p: u64 = acc_perm_bits(a.acc_perms);
    let x: u64 = pxn_bits(a.execute_never);
    assert(addr & 0xFFFFu64 == 0) by (bit_vector)
        requires addr % 0x1_0000 == 0;
    assert(m == 0x304u64 || m == 0x200u64) by (bit_vector)
        requires m == (0b11u64 << 8u64) | (1u64 << 2u64) || m == (0b10u64 << 8u64) | (0u64 << 2u64);
    assert(p == 0x80u64 || p == 0u64) by (bit_vector)
        requires p == 0b10u64 << 6u64 || p == 0b00u64 << 6u64;
    assert(x == 0x20_0000_0000_0000u64 || x == 0u64) by (bit_vector)
        requires x == 1u64 << 53u64 || x == 0u64;
    let v = page_descriptor_bits(addr, a);
    assert(v == ((addr >> 16u64) & 0xFFFF_FFFFu64) << 16u64 | (1u64 << 10u64) | (1u64 << 1u64) | 1u64
        | (m | p | x | (1u64 << 54u64)));
    assert(
        (v & 0x0000_FFFF_FFFF_0000u64) == addr
        && (((v >> 2u64) & 0b111u64 == 1u64) <==> m == 0x304u64)
        && (((v >> 7u64) & 1u64 == 1u64) <==> p == 0x80u64)
        && (((v >> 53u64) & 1u64 == 1u64) <==> x == 0x20_0000_0000_0000u64)
    ) by (bit_vector)
        requires
            addr & 0xFFFFu64 == 0,
            addr < 0x1_0000_0000_0000u64,
            m == 0x304u64 || m == 0x200u64,
            p == 0x80u64 || p == 0u64,
            x == 0x20_0000_0000_0000u64 || x == 0u64,
            v == ((addr >> 16u64) & 0xFFFF_FFFFu64) << 16u64 | (1u64 << 10u64) | (1u64 << 1u64) | 1u64
                | (m | p | x | (1u64 << 54u64));
    assert(0x304u64 == (0b11u64 << 8u64) | (1u64 << 2u64)) by (bit_vector);
    assert(0x200u64 == (0b10u64 << 8u64) | (0u64 << 2u64)) by (bit_vector);
    assert(0x80u64 == 0b10u64 << 6u64) by (bit_vector);
    assert(0u64 == 0b00u64 << 6u64) by (bit_vector);
    assert(0x20_0000_0000_0000u64 == 1u64 << 53u64) by (bit_vector);
    assert((m == 0x304u64) <==> (a.mem_attributes == MemAttributes::CacheableDRAM));
    assert((p == 0x80u64) <==> (a.acc_perms == AccessPermissions::ReadOnly));
    assert((x == 0x20_0000_0000_0000u64) <==> a.execute_never);
}


/// Entries of one level 3 table.
pub const ENTRIES_PER_TABLE: usize = 8192;

/// Bytes covered by one level 2 entry: 512 MiB.
pub const LVL2_SPAN: usize = 0x2000_0000;

/// Bytes covered by one level 3 entry: 64 KiB.
pub const LVL3_SPAN: usize = 0x1_0000;

/// Bytes taken by one level 3 table: 8192 entries of 8 bytes.
pub const LVL3_TABLE_BYTES: usize = 0x1_0000;

/// The virtual address that entry `l3` of level 3 table `l2` maps.
pub open spec fn entry_virt_addr(l2: int, l3: int) -> int {
    l2 * LVL2_SPAN + l3 * LVL3_SPAN
}

/// The kernel's translation tables: `NUM_TABLES` level 2 entries, each
/// pointing at a level 3 table of 8192 page entries. In memory the level 3
/// tables come first, one after the other from the table's physical start, and
/// the level 2 entries follow them.
pub struct FixedSizeTranslationTable<const NUM_TABLES: usize> {
    lvl3: Vec<Vec<PageDescriptor>>,
    lvl2: Vec<TableDescriptor>,
    phys_start: usize,
}

impl<const NUM_TABLES: usize> FixedSizeTranslationTable<NUM_TABLES> {
    pub closed spec fn pages(&self) -> Seq<Seq<PageDescriptor>> {
        self.lvl3@.map_values(|t: Vec<PageDescriptor>| t@)
    }

    pub closed spec fn tables(&self) -> Seq<TableDescriptor> {
        self.lvl2@
    }

    /// The physical address at which the table lies.
    pub closed spec fn phys_start(&self) -> usize {
        self.phys_start
    }

    pub open spec fn wf(&self) -> bool {
        &&& self.phys_start() % LVL3_TABLE_BYTES == 0
        &&& self.pages().len() == NUM_TABLES
        &&& self.tables().len() == NUM_TABLES
        &&& forall|i: int| 0 <= i < NUM_TABLES ==> (#[trigger] self.pages()[i]).len() == ENTRIES_PER_TABLE
    }

    /// The physical address of level 3 table `l2`.
    pub open spec fn lvl3_table_addr(&self, l2: int) -> int {
        self.phys_start() + l2 * LVL3_TABLE_BYTES
    }

    /// Entry `l3` of level 3 table `l2` maps its virtual address as the layout resolves it.
    pub open spec fn page_matches<const M: usize>(&self, layout: &KernelVirtualLayout<M>, l2: int, l3: int) -> bool {
        let (out, attrs) = layout.resolve(entry_virt_addr(l2, l3) as usize);
        self.pages()[l2][l3].value == page_descriptor_bits(out as u64, attrs)
    }

    /// Level 2 entry `l2` points at level 3 table `l2`.
    pub open spec fn table_matches(&self, l2: int) -> bool {
        self.tables()[l2].value == table_descriptor_bits(self.lvl3_table_addr(l2) as u64)
    }

    /// Every entry of the table holds what the layout gives it.
    pub open spec fn populated_from<const M: usize>(&self, layout: &KernelVirtualLayout<M>) -> bool {
        &&& self.wf()
        &&& Self::last_virt_addr() <= usize::MAX
        &&& forall|l2: int| 0 <= l2 < NUM_TABLES ==> #[trigger] self.table_matches(l2)
        &&& forall|l2: int, l3: int| 0 <= l2 < NUM_TABLES && 0 <= l3 < ENTRIES_PER_TABLE
            ==> #[trigger] self.page_matches(layout, l2, l3)
    }

    /// A table with every entry invalid.
    pub fn new() -> (r: Self)
        requires
            NUM_TABLES > 0,
        ensures
            r.wf(),
            r.phys_start() == 0,
            forall|l2: int| 0 <= l2 < NUM_TABLES ==> (#[trigger] r.tables()[l2]).value == 0,
            forall|l2: int, l3: int| 0 <= l2 < NUM_TABLES && 0 <= l3 < ENTRIES_PER_TABLE
                ==> (#[trigger] r.pages()[l2][l3]).value == 0,
    {
        let mut lvl3: Vec<Vec<PageDescriptor>> = Vec::new();
        let mut lvl2: Vec<TableDescriptor> = Vec::new();
        let mut i: usize = 0;
        while i < NUM_TABLES
            invariant
                0 <= i <= NUM_TABLES,
                lvl3@.len() == i,
                lvl2@.len() == i,
                forall|l2: int| 0 <= l2 < i ==> (#[trigger] lvl2@[l2]).value == 0,
                forall|l2: int| 0 <= l2 < i ==> (#[trigger] lvl3@[l2])@.len() == ENTRIES_PER_TABLE,
                forall|l2: int, l3: int| 0 <= l2 < i && 0 <= l3 < ENTRIES_PER_TABLE
                    ==> (#[trigger] lvl3@[l2]@[l3]).value == 0,
            decreases NUM_TABLES - i,
        {
            let mut table: Vec<PageDescriptor> = Vec::new();
            let mut j: usize = 0;
            while j < ENTRIES_PER_TABLE
                invariant
                    0 <= j <= ENTRIES_PER_TABLE,
                    table@.len() == j,
                    forall|l3: int| 0 <= l3 < j ==> (#[trigger] table@[l3]).value == 0,
                decreases ENTRIES_PER_TABLE - j,
            {
                table.push(PageDescriptor::new_zeroed());
                j = j + 1;
            }
            lvl3.push(table);
            lvl2.push(TableDescriptor::new_zeroed());
            i = i + 1;
        }
        FixedSizeTranslationTable { lvl3, lvl2, phys_start: 0 }
    }

    /// The virtual address of the table's last entry.
    pub open spec fn last_virt_addr() -> int {
        entry_virt_addr(NUM_TABLES - 1, ENTRIES_PER_TABLE - 1)
    }

    /// Fills every entry at once, placing the table at physical address
    /// `phys_start`: each level 2 entry points at its level 3 table, and each
    /// level 3 entry maps its virtual address as `layout` resolves it. Fails when
    /// the table reaches beyond the layout's last address.
    pub fn populate_tt_entries<const M: usize>(
        &mut self,
        layout: &KernelVirtualLayout<M>,
        phys_start: usize,
    ) -> (r: Result<(), &'static str>)
        requires
            old(self).wf(),
            layout.wf(),
            Self::last_virt_addr() <= usize::MAX,
            phys_start % LVL3_TABLE_BYTES == 0,
            phys_start + NUM_TABLES * LVL3_TABLE_BYTES <= usize::MAX,
        ensures
            final(self).wf(),
            final(self).phys_start() == phys_start,
            r is Ok <==> Self::last_virt_addr() <= layout.max_addr(),
            r is Err ==> r == Err::<(), &'static str>("Address out of range"),
            r is Ok ==> final(self).populated_from(layout),
    {
        self.phys_start = phys_start;
        let mut l2_nr: usize = 0;
        while l2_nr < NUM_TABLES
            invariant
                self.wf(),
                layout.wf(),
                self.phys_start() == phys_start,
                Self::last_virt_addr() <= usize::MAX,
                phys_start + NUM_TABLES * LVL3_TABLE_BYTES <= usize::MAX,
                0 <= l2_nr <= NUM_TABLES,
                forall|l2: int| 0 <= l2 < l2_nr ==> #[trigger] self.table_matches(l2),
                forall|l2: int, l3: int| 0 <= l2 < l2_nr && 0 <= l3 < ENTRIES_PER_TABLE
                    ==> #[trigger] self.page_matches(layout, l2, l3),
                l2_nr > 0 ==> entry_virt_addr(l2_nr - 1, ENTRIES_PER_TABLE - 1) <= layout.max_addr(),
            decreases NUM_TABLES - l2_nr,
        {
            assert(l2_nr * LVL3_TABLE_BYTES <= NUM_TABLES * LVL3_TABLE_BYTES) by (nonlinear_arith)
                requires l2_nr < NUM_TABLES;
            let table_addr = phys_start + l2_nr * LVL3_TABLE_BYTES;
            let ghost before = *self;
            self.lvl2.set(l2_nr, TableDescriptor::from_next_lvl_table_addr(table_addr));
            assert(self.pages() == before.pages());
            assert forall|l2: int| 0 <= l2 <= l2_nr implies #[trigger] self.table_matches(l2) by {
                if l2 < l2_nr {
                    assert(before.table_matches(l2));
                }
            }
            assert forall|l2: int, l3: int| 0 <= l2 < l2_nr && 0 <= l3 < ENTRIES_PER_TABLE
                implies #[trigger] self.page_matches(layout, l2, l3) by {
                assert(before.page_matches(layout, l2, l3));
            }

            let mut table: Vec<PageDescriptor> = Vec::new();
            let mut l3_nr: usize = 0;
            while l3_nr < ENTRIES_PER_TABLE
                invariant
                    self.wf(),
                    layout.wf(),
                    self.phys_start() == phys_start,
                    Self::last_virt_addr() <= usize::MAX,
                    phys_start + NUM_TABLES * LVL3_TABLE_BYTES <= usize::MAX,
                    forall|l2: int| 0 <= l2 <= l2_nr ==> #[trigger] self.table_matches(l2),
                    forall|l2: int, l3: int| 0 <= l2 < l2_nr && 0 <= l3 < ENTRIES_PER_TABLE
                        ==> #[trigger] self.page_matches(layout, l2, l3),
                    l3_nr > 0 ==> entry_virt_addr(l2_nr as int, l3_nr - 1) <= layout.max_addr(),
                    0 <= l2_nr < NUM_TABLES,
                    0 <= l3_nr <= ENTRIES_PER_TABLE,
                    table@.len() == l3_nr,
                    forall|l3: int| 0 <= l3 < l3_nr ==> {
                        let (out, attrs) = layout.resolve(entry_virt_addr(l2_nr as int, l3) as usize);
                        (#[trigger] table@[l3]).value == page_descriptor_bits(out as u64, attrs)
                    },
                decreases ENTRIES_PER_TABLE - l3_nr,
            {
                assert(entry_virt_addr(l2_nr as int, l3_nr as int) <= Self::last_virt_addr()) by (nonlinear_arith)
                    requires l2_nr < NUM_TABLES, l3_nr < ENTRIES_PER_TABLE;
                let virt_addr = l2_nr * LVL2_SPAN + l3_nr * LVL3_SPAN;
                match layout.virt_addr_properties(virt_addr) {
                    Ok((phys_output_addr, attribute_fields)) => {
                        table.push(PageDescriptor::from_output_addr(phys_output_addr, &attribute_fields));
                    },
                    Err(e) => {
                        return Err(e);
                    },
                }
                l3_nr = l3_nr + 1;
            }
            let ghost before = *self;
            self.lvl3.set(l2_nr, table);
            assert(self.pages() =~= before.pages().update(l2_nr as int, table@));
            assert(self.tables() == before.tables());
            assert forall|l2: int| 0 <= l2 <= l2_nr implies #[trigger] self.table_matches(l2) by {
                assert(before.table_matches(l2));
            }
            assert forall|l2: int, l3: int| 0 <= l2 <= l2_nr && 0 <= l3 < ENTRIES_PER_TABLE
                implies #[trigger] self.page_matches(layout, l2, l3) by {
                if l2 < l2_nr {
                    assert(before.page_matches(layout, l2, l3));
                } else {
                    assert(self.pages()[l2] == table@);
                }
            }
            l2_nr = l2_nr + 1;
        }
        Ok(())
    }

    /// Level 3 entry `l3` of table `l2`.
    pub fn page_entry(&self, l2: usize, l3: usize) -> (r: PageDescriptor)
        requires
            self.wf(),
            l2 < NUM_TABLES,
            l3 < ENTRIES_PER_TABLE,
        ensures
            r == self.pages()[l2 as int][l3 as int],
    {
        assert(self.pages()[l2 as int] == self.lvl3@[l2 as int]@);
        self.lvl3[l2][l3]
    }

    /// Level 2 entry `l2`.
    pub fn table_entry(&self, l2: usize) -> (r: TableDescriptor)
        requires
            self.wf(),
            l2 < NUM_TABLES,
        ensures
            r == self.tables()[l2 as int],
    {
        self.lvl2[l2]
    }

    /// The physical address of the level 2 entries, which follow the level 3
    /// tables; the MMU's translation table base register takes it.
    pub fn phys_base_address(&self) -> (r: u64)
        requires
            self.wf(),
            self.phys_start() + NUM_TABLES * LVL3_TABLE_BYTES <= usize::MAX,
        ensures
            r == self.phys_start() + NUM_TABLES * LVL3_TABLE_BYTES,
            r % 0x1_0000 == 0,
    {
        let r = self.phys_start + NUM_TABLES * LVL3_TABLE_BYTES;
        assert(r % 0x1_0000 == 0) by (nonlinear_arith)
            requires r == self.phys_start + NUM_TABLES * 0x1_0000, self.phys_start % 0x1_0000 == 0;
        r as u64
    }
}

/// After population, every page entry decodes back to the output address and
/// attributes that the layout resolves for its virtual address, provided that
/// output address is 64 KiB aligned and below 2^48, as a page descriptor needs.
pub proof fn lemma_populated_entry_round_trip<const NUM_TABLES: usize, const M: usize>(
    table: &FixedSizeTranslationTable<NUM_TABLES>,
    layout: &KernelVirtualLayout<M>,
    l2: int,
    l3: int,
)
    requires
        table.populated_from(layout),
        0 <= l2 < NUM_TABLES,
        0 <= l3 < ENTRIES_PER_TABLE,
        layout.resolve(entry_virt_addr(l2, l3) as usize).0 % 0x1_0000 == 0,
        layout.resolve(entry_virt_addr(l2, l3) as usize).0 < 0x1_0000_0000_0000,
    ensures
        decoded_output_addr(table.pages()[l2][l3].value) == layout.resolve(entry_virt_addr(l2, l3) as usize).0,
        decoded_attributes(table.pages()[l2][l3].value) == layout.resolve(entry_virt_addr(l2, l3) as usize).1,
{
    assert(table.page_matches(layout, l2, l3));
    let (out, attrs) = layout.resolve(entry_virt_addr(l2, l3) as usize);
    lemma_page_descriptor_round_trip(out as u64, attrs);
}

/// For a layout that maps every region one to one, as the kernel's does,
/// every page entry of a populated table below 2^48 decodes back to its own
/// virtual address and the attributes the layout resolves for it.
pub proof fn lemma_identity_layout_round_trip<const NUM_TABLES: usize, const M: usize>(
    table: &FixedSizeTranslationTable<NUM_TABLES>,
    layout: &KernelVirtualLayout<M>,
    l2: int,
    l3: int,
)
    requires
        table.populated_from(layout),
        forall|i: int| 0 <= i < layout.descriptors().len()
            ==> (#[trigger] layout.descriptors()[i]).physical_range_translation == Translation::Identity,
        NUM_TABLES * LVL2_SPAN <= 0x1_0000_0000_0000,
        0 <= l2 < NUM_TABLES,
        0 <= l3 < ENTRIES_PER_TABLE,
    ensures
        decoded_output_addr(table.pages()[l2][l3].value) == entry_virt_addr(l2, l3),
        decoded_attributes(table.pages()[l2][l3].value) == layout.resolve(entry_virt_addr(l2, l3) as usize).1,
{
    let va = entry_virt_addr(l2, l3);
    assert(0 <= va < NUM_TABLES * LVL2_SPAN) by (nonlinear_arith)
        requires va == l2 * 0x2000_0000 + l3 * 0x1_0000, 0 <= l2 < NUM_TABLES, 0 <= l3 < 8192;
    assert(va % 0x1_0000 == 0) by (nonlinear_arith)
        requires va == l2 * 0x2000_0000 + l3 * 0x1_0000;
    assert(table.pages()[l2].len() == ENTRIES_PER_TABLE);
    assert(va <= FixedSizeTranslationTable::<NUM_TABLES>::last_virt_addr()) by (nonlinear_arith)
        requires va == l2 * 0x2000_0000 + l3 * 0x1_0000, 0 <= l2 < NUM_TABLES, 0 <= l3 < 8192;
    lemma_resolve_identity_layout(layout, va as usize);
    lemma_populated_entry_round_trip(table, layout, l2, l3);
}

/// Under a layout of identity mappings every address resolves to itself.
proof fn lemma_resolve_identity_layout<const M: usize>(layout: &KernelVirtualLayout<M>, addr: usize)
    requires
        forall|i: int| 0 <= i < layout.descriptors().len()
            ==> (#[trigger] layout.descriptors()[i]).physical_range_translation == Translation::Identity,
    ensures
        layout.resolve(addr).0 == addr,
{
    match first_match(layout.descriptors(), addr) {
        Some(i) => {
            lemma_first_match_in_range(layout.descriptors(), addr, 0);
            assert(layout.descriptors()[i].physical_range_translation == Translation::Identity);
        },
        None => {},
    }
}

/// After population, every level 2 entry decodes to the physical address of its
/// level 3 table, provided the table lies below 2^48.
pub proof fn lemma_populated_table_entry<const NUM_TABLES: usize, const M: usize>(
    table: &FixedSizeTranslationTable<NUM_TABLES>,
    layout: &KernelVirtualLayout<M>,
    l2: int,
)
    requires
        table.populated_from(layout),
        0 <= l2 < NUM_TABLES,
        table.phys_start() + NUM_TABLES * LVL3_TABLE_BYTES <= 0x1_0000_0000_0000,
    ensures
        decoded_output_addr(table.tables()[l2].value) == table.lvl3_table_addr(l2),
{
    assert(table.table_matches(l2));
    let a = table.lvl3_table_addr(l2);
    assert(l2 * LVL3_TABLE_BYTES < NUM_TABLES * LVL3_TABLE_BYTES) by (nonlinear_arith)
        requires 0 <= l2 < NUM_TABLES;
    assert(a % 0x1_0000 == 0) by (nonlinear_arith)
        requires a == table.phys_start() + l2 * 0x1_0000, table.phys_start() % 0x1_0000 == 0;
    let v = a as u64;
    assert((((v >> 16u64) & 0xFFFF_FFFFu64) << 16u64 | (1u64 << 1u64) | 1u64) & 0x0000_FFFF_FFFF_0000u64 == v)
        by (bit_vector)
        requires v % 0x1_0000 == 0, v < 0x1_0000_0000_0000u64;
}

} // verus!
