use vstd::prelude::*;

verus! {

/// Why the MMU could not be switched on.
#[derive(Clone, Copy, Debug, PartialEq, Eq)]
pub enum MMUEnableError {
    /// Translation was already active.
    AlreadyEnabled,
    /// The hardware lacks the 64 KiB translation granule.
    UnsupportedGranule,
    /// Building the translation tables failed for the given reason.
    Other(&'static str),
}

impl MMUEnableError {
    /// The text that describes the error.
    pub fn message(&self) -> (r: &'static str)
        ensures
            *self == MMUEnableError::AlreadyEnabled ==> r@ == "MMU is already enabled"@,
            *self == MMUEnableError::UnsupportedGranule ==> r@ == "Translation granule not supported in HW"@,
            forall|m: &'static str| *self == MMUEnableError::Other(m) ==> r == m,
    {
        match self {
            MMUEnableError::AlreadyEnabled => "MMU is already enabled",
            MMUEnableError::UnsupportedGranule => "Translation granule not supported in HW",
            MMUEnableError::Other(x) => x,
        }
    }
}

/// `n` is a power of two.
pub open spec fn is_pow2(n: int) -> bool
    decreases n,
{
    if n <= 0 {
        false
    } else if n == 1 {
        true
    } else {
        n % 2 == 0 && is_pow2(n / 2)
    }
}

/// The base 2 logarithm of a power of two.
pub open spec fn log2(n: int) -> nat
    decreases n,
{
    if n <= 1 {
        0
    } else {
        1 + log2(n / 2)
    }
}

/// Two to the power `k`.
pub open spec fn exp2(k: nat) -> int
    decreases k,
{
    if k == 0 {
        1
    } else {
        2 * exp2((k - 1) as nat)
    }
}

proof fn lemma_exp2_above(k: nat)
    ensures
        exp2(k) > k,
    decreases k,
{
    if k > 0 {
        lemma_exp2_above((k - 1) as nat);
    }
}

/// Whether `n` is a power of two, and its base 2 logarithm when it is.
fn pow2_shift(n: usize) -> (r: Option<usize>)
    ensures
        r is Some <==> is_pow2(n as int),
        r is Some ==> r.unwrap() == log2(n as int),
{
    if n == 0 {
        return None;
    }
    let mut s: usize = n;
    let mut k: usize = 0;
    while s > 1
        invariant
            1 <= s <= n,
            is_pow2(n as int) <==> is_pow2(s as int),
            log2(n as int) == k + log2(s as int),
            s * exp2(k as nat) == n,
        decreases s,
    {
        if s % 2 != 0 {
            return None;
        }
        proof {
            lemma_exp2_above(k as nat);
            let e = exp2(k as nat);
            assert(s * e >= e) by (nonlinear_arith)
                requires s >= 1, e >= 1;
            assert((s / 2) * (2 * e) == s * e) by (nonlinear_arith)
                requires s % 2 == 0;
        }
        s = s / 2;
        k = k + 1;
    }
    Some(k)
}

/// Size of one translation granule, a page of the given size in bytes.
pub struct TranslationGranule<const GRANULE_SIZE: usize>;

/// The size of the virtual address space in bytes.
pub struct AddressSpace<const AS_SIZE: usize>;

impl<const GRANULE_SIZE: usize> TranslationGranule<GRANULE_SIZE> {
    /// The granule size, which must be a power of two.
    pub fn size_checked() -> (r: usize)
        requires
            is_pow2(GRANULE_SIZE as int),
        ensures
            r == GRANULE_SIZE,
    {
        GRANULE_SIZE
    }

    /// The base 2 logarithm of the granule size.
    pub fn shift() -> (r: usize)
        requires
            is_pow2(GRANULE_SIZE as int),
        ensures
            r == log2(GRANULE_SIZE as int),
    {
        pow2_shift(GRANULE_SIZE).unwrap()
    }
}

/// Largest address space the architecture supports: 48 bits.
pub const MAX_ADDRESS_SPACE_SIZE: u64 = 0x1_0000_0000_0000;

/// Span of one level 2 table entry: 512 MiB.
pub const LVL2_GRANULE_SIZE: usize = 0x2000_0000;

impl<const AS_SIZE: usize> AddressSpace<AS_SIZE> {
    /// The architecture's restrictions: a whole number of 512 MiB level 2
    /// entries, and no more than 48 bits of virtual address.
    pub open spec fn arch_ok() -> bool {
        AS_SIZE % LVL2_GRANULE_SIZE == 0 && AS_SIZE as u64 <= MAX_ADDRESS_SPACE_SIZE
    }

    /// The architecture's restrictions on the address space size; only a size
    /// that meets them may be used.
    pub fn arch_address_space_size_sanity_check()
        requires
            Self::arch_ok(),
    {
    }

    /// The address space size, which must be a power of two within the
    /// architecture's restrictions.
    pub fn size_checked() -> (r: usize)
        requires
            is_pow2(AS_SIZE as int),
            Self::arch_ok(),
        ensures
            r == AS_SIZE,
    {
        AS_SIZE
    }

    /// The base 2 logarithm of the address space size.
    pub fn shift() -> (r: usize)
        requires
            is_pow2(AS_SIZE as int),
        ensures
            r == log2(AS_SIZE as int),
    {
        pow2_shift(AS_SIZE).unwrap()
    }
}

/// The range of virtual addresses a descriptor covers, both ends included.
/// A range whose `start` lies above its `end` covers nothing.
#[derive(Clone, Copy, Debug, PartialEq, Eq, Structural)]
pub struct AddressRange {
    pub start: usize,
    pub end: usize,
}

impl AddressRange {
    pub open spec fn spec_contains(self, addr: usize) -> bool {
        self.start <= addr && addr <= self.end
    }

    pub fn new(start: usize, end: usize) -> (r: AddressRange)
        ensures
            r.start == start,
            r.end == end,
    {
        AddressRange { start, end }
    }

    pub fn contains(&self, addr: usize) -> (r: bool)
        ensures
            r == self.spec_contains(addr),
    {
        self.start <= addr && addr <= self.end
    }
}

/// How a virtual range is translated to physical addresses.
#[derive(Clone, Copy, Debug, PartialEq, Eq, Structural)]
pub enum Translation {
    /// The physical address equals the virtual one.
    Identity,
    /// The range's first address maps to the given physical base.
    Offset(usize),
}

/// Architecture agnostic memory attributes.
#[derive(Clone, Copy, Debug, PartialEq, Eq, Structural)]
pub enum MemAttributes {
    CacheableDRAM,
    Device,
}

/// Architecture agnostic access permissions.
#[derive(Clone, Copy, Debug, PartialEq, Eq, Structural)]
pub enum AccessPermissions {
    ReadOnly,
    ReadWrite,
}

/// The attributes a mapping carries.
#[derive(Clone, Copy, Debug, PartialEq, Eq, Structural)]
pub struct AttributeFields {
    pub mem_attributes: MemAttributes,
    pub acc_perms: AccessPermissions,
    pub execute_never: bool,
}

/// Attributes of every address that no descriptor lists: normal cacheable
/// memory, writable, never executable.
pub open spec fn default_attributes() -> AttributeFields {
    AttributeFields {
        mem_attributes: MemAttributes::CacheableDRAM,
        acc_perms: AccessPermissions::ReadWrite,
        execute_never: true,
    }
}

impl Default for AttributeFields {
    fn default() -> (r: AttributeFields)
        ensures
            r == default_attributes(),
    {
        AttributeFields {
            mem_attributes: MemAttributes::CacheableDRAM,
            acc_perms: AccessPermissions::ReadWrite,
            execute_never: true,
        }
    }
}

/// A named region of the virtual address space with its translation and attributes.
#[derive(Clone, Copy, Debug)]
pub struct TranslationDescriptor {
    pub name: &'static str,
    pub virtual_range: AddressRange,
    pub physical_range_translation: Translation,
    pub attribute_fields: AttributeFields,
}

/// What a line of the printed layout shows of a descriptor.
#[derive(Clone, Copy, Debug, PartialEq, Eq)]
pub struct DescriptorSummary {
    pub start: usize,
    pub end: usize,
    /// The range's size in `unit`s, rounded down.
    pub size: usize,
    /// "MiB", "KiB" or "Byte".
    pub unit: &'static str,
    /// "C" for cacheable memory, "Dev" for device memory.
    pub attr: &'static str,
    /// "RO" or "RW".
    pub acc_p: &'static str,
    /// "PXN" when execution is forbidden, else "PX".
    pub xn: &'static str,
    pub name: &'static str,
}

/// The size in whole units, and the unit, that a summary shows for a range of
/// `bytes` bytes: MiB from one MiB on, KiB from one KiB on, else bytes.
pub open spec fn size_in_units(bytes: int) -> (int, Seq<char>) {
    if bytes / 0x10_0000 > 0 {
        (bytes / 0x10_0000, "MiB"@)
    } else if bytes / 0x400 > 0 {
        (bytes / 0x400, "KiB"@)
    } else {
        (bytes, "Byte"@)
    }
}

impl TranslationDescriptor {
    /// The range is not empty and its size fits in a `usize`.
    pub open spec fn printable(self) -> bool {
        self.virtual_range.start <= self.virtual_range.end
            && self.virtual_range.end - self.virtual_range.start < usize::MAX
    }

    /// `r` shows this descriptor: its range, its size in the largest unit
    /// that fits once, and its attributes in short form.
    pub open spec fn summarized_by(self, r: DescriptorSummary) -> bool {
        &&& r.start == self.virtual_range.start
        &&& r.end == self.virtual_range.end
        &&& (r.size as int, r.unit@) == size_in_units(self.virtual_range.end - self.virtual_range.start + 1)
        &&& r.attr@ == (if self.attribute_fields.mem_attributes == MemAttributes::CacheableDRAM { "C"@ } else { "Dev"@ })
        &&& r.acc_p@ == (if self.attribute_fields.acc_perms == AccessPermissions::ReadOnly { "RO"@ } else { "RW"@ })
        &&& r.xn@ == (if self.attribute_fields.execute_never { "PXN"@ } else { "PX"@ })
        &&& r.name == self.name
    }

    /// What a printed layout line shows of this descriptor.
    pub fn summary(&self) -> (r: DescriptorSummary)
        requires
            self.printable(),
        ensures
            self.summarized_by(r),
    {
        let start = self.virtual_range.start;
        let end = self.virtual_range.end;
        let bytes = end - start + 1;
        let (size, unit) = if bytes / 0x10_0000 > 0 {
            (bytes / 0x10_0000, "MiB")
        } else if bytes / 0x400 > 0 {
            (bytes / 0x400, "KiB")
        } else {
            (bytes, "Byte")
        };
        let attr = match self.attribute_fields.mem_attributes {
            MemAttributes::CacheableDRAM => "C",
            MemAttributes::Device => "Dev",
        };
        let acc_p = match self.attribute_fields.acc_perms {
            AccessPermissions::ReadOnly => "RO",
            AccessPermissions::ReadWrite => "RW",
        };
        let xn = if self.attribute_fields.execute_never { "PXN" } else { "PX" };
        DescriptorSummary { start, end, size, unit, attr, acc_p, xn, name: self.name }
    }

    /// The physical address this descriptor gives to `addr`.
    pub open spec fn output_addr(self, addr: usize) -> int {
        match self.physical_range_translation {
            Translation::Identity => addr as int,
            Translation::Offset(base) => base + (addr - self.virtual_range.start),
        }
    }

    /// Every address of the range translates to an address that fits in a `usize`.
    pub open spec fn fits(self) -> bool {
        match self.physical_range_translation {
            Translation::Identity => true,
            Translation::Offset(base) => self.virtual_range.start <= self.virtual_range.end
                ==> base + (self.virtual_range.end - self.virtual_range.start) <= usize::MAX,
        }
    }
}


/// Index of the first descriptor, at or after `i`, whose range holds `addr`.
pub open spec fn first_match_from(descs: Seq<TranslationDescriptor>, addr: usize, i: int) -> Option<int>
    decreases descs.len() - i,
{
    if i < 0 || i >= descs.len() {
        None
    } else if descs[i].virtual_range.spec_contains(addr) {
        Some(i)
    } else {
        first_match_from(descs, addr, i + 1)
    }
}

/// Index of the first descriptor whose range holds `addr`.
pub open spec fn first_match(descs: Seq<TranslationDescriptor>, addr: usize) -> Option<int> {
    first_match_from(descs, addr, 0)
}

/// The physical address and attributes that a list of descriptors gives to `addr`:
/// those of the first descriptor that holds it, or `addr` itself with the
/// default attributes where none does.
pub open spec fn resolve_in(descs: Seq<TranslationDescriptor>, addr: usize) -> (int, AttributeFields) {
    match first_match(descs, addr) {
        Some(i) => (descs[i].output_addr(addr), descs[i].attribute_fields),
        None => (addr as int, default_attributes()),
    }
}

/// The kernel's virtual memory layout: the special regions, in order of
/// precedence, and the last valid virtual address.
pub struct KernelVirtualLayout<const NUM_SPECIAL_RANGES: usize> {
    max_virt_addr_inclusive: usize,
    inner: [TranslationDescriptor; NUM_SPECIAL_RANGES],
}

impl<const NUM_SPECIAL_RANGES: usize> KernelVirtualLayout<NUM_SPECIAL_RANGES> {
    pub closed spec fn max_addr(&self) -> usize {
        self.max_virt_addr_inclusive
    }

    pub closed spec fn descriptors(&self) -> Seq<TranslationDescriptor> {
        self.inner@
    }

    /// Every descriptor translates its whole range within `usize`.
    pub open spec fn wf(&self) -> bool {
        forall|i: int| 0 <= i < self.descriptors().len() ==> #[trigger] self.descriptors()[i].fits()
    }

    /// What `virt_addr_properties` reports for an address within the bound.
    pub open spec fn resolve(&self, addr: usize) -> (usize, AttributeFields) {
        let (out, attrs) = resolve_in(self.descriptors(), addr);
        (out as usize, attrs)
    }

    pub fn new(max: usize, layout: [TranslationDescriptor; NUM_SPECIAL_RANGES]) -> (r: Self)
        ensures
            r.max_addr() == max,
            r.descriptors() == layout@,
    {
        KernelVirtualLayout { max_virt_addr_inclusive: max, inner: layout }
    }

    pub fn max_virt_addr_inclusive(&self) -> (r: usize)
        ensures
            r == self.max_addr(),
    {
        self.max_virt_addr_inclusive
    }

    /// The physical output address and attributes of `virt_addr`: those of the
    /// first descriptor whose range holds it, else the address itself with the
    /// default attributes. Fails for an address above the layout's bound.
    pub fn virt_addr_properties(&self, virt_addr: usize) -> (r: Result<(usize, AttributeFields), &'static str>)
        requires
            self.wf(),
        ensures
            virt_addr > self.max_addr() ==> r == Err::<(usize, AttributeFields), &'static str>("Address out of range"),
            virt_addr <= self.max_addr() ==> r == Ok::<(usize, AttributeFields), &'static str>(self.resolve(virt_addr)),
    {
        if virt_addr > self.max_virt_addr_inclusive {
            return Err("Address out of range");
        }
        let mut i: usize = 0;
        while i < NUM_SPECIAL_RANGES
            invariant
                self.wf(),
                virt_addr <= self.max_virt_addr_inclusive,
                self.inner@.len() == NUM_SPECIAL_RANGES,
                0 <= i <= NUM_SPECIAL_RANGES,
                first_match(self.inner@, virt_addr) == first_match_from(self.inner@, virt_addr, i as int),
            decreases NUM_SPECIAL_RANGES - i,
        {
            let d = &self.inner[i];
            if d.virtual_range.contains(virt_addr) {
                assert(self.descriptors()[i as int].fits());
                let output_addr = match d.physical_range_translation {
                    Translation::Identity => virt_addr,
                    Translation::Offset(a) => a + (virt_addr - d.virtual_range.start),
                };
                return Ok((output_addr, d.attribute_fields));
            }
            i = i + 1;
        }
        Ok((virt_addr, AttributeFields::default()))
    }

    /// The summaries of the layout's descriptors, in order, one per printed line.
    pub fn print_layout(&self) -> (r: Vec<DescriptorSummary>)
        requires
            forall|i: int| 0 <= i < self.descriptors().len() ==> (#[trigger] self.descriptors()[i]).printable(),
        ensures
            r@.len() == self.descriptors().len(),
            forall|i: int| 0 <= i < r@.len() ==> self.descriptors()[i].summarized_by(#[trigger] r@[i]),
    {
        let mut lines: Vec<DescriptorSummary> = Vec::new();
        let mut i: usize = 0;
        while i < NUM_SPECIAL_RANGES
            invariant
                self.inner@.len() == NUM_SPECIAL_RANGES,
                0 <= i <= NUM_SPECIAL_RANGES,
                forall|k: int| 0 <= k < self.descriptors().len() ==> (#[trigger] self.descriptors()[k]).printable(),
                lines@.len() == i,
                forall|k: int| 0 <= k < i ==> self.descriptors()[k].summarized_by(#[trigger] lines@[k]),
            decreases NUM_SPECIAL_RANGES - i,
        {
            assert(self.descriptors()[i as int].printable());
            lines.push(self.inner[i].summary());
            i = i + 1;
        }
        lines
    }
}


/// Descriptor `i` holds `addr` and no descriptor before it does.
pub open spec fn is_first_match(descs: Seq<TranslationDescriptor>, addr: usize, i: int) -> bool {
    &&& 0 <= i < descs.len()
    &&& descs[i].virtual_range.spec_contains(addr)
    &&& forall|k: int| 0 <= k < i ==> !(#[trigger] descs[k].virtual_range.spec_contains(addr))
}

proof fn lemma_first_match_from_is(descs: Seq<TranslationDescriptor>, addr: usize, j: int, i: int)
    requires
        0 <= j <= i,
        is_first_match(descs, addr, i),
    ensures
        first_match_from(descs, addr, j) == Some(i),
    decreases i - j,
{
    if j < i {
        assert(!descs[j].virtual_range.spec_contains(addr));
        lemma_first_match_from_is(descs, addr, j + 1, i);
    }
}

/// A first match found from index `j` on lies within the list.
pub proof fn lemma_first_match_in_range(descs: Seq<TranslationDescriptor>, addr: usize, j: int)
    ensures
        first_match_from(descs, addr, j) matches Some(i) ==> j <= i < descs.len()
            && descs[i].virtual_range.spec_contains(addr),
    decreases descs.len() - j,
{
    if 0 <= j < descs.len() && !descs[j].virtual_range.spec_contains(addr) {
        lemma_first_match_in_range(descs, addr, j + 1);
    }
}

proof fn lemma_first_match_from_none(descs: Seq<TranslationDescriptor>, addr: usize, j: int)
    requires
        0 <= j <= descs.len(),
        forall|k: int| 0 <= k < descs.len() ==> !(#[trigger] descs[k].virtual_range.spec_contains(addr)),
    ensures
        first_match_from(descs, addr, j) == None::<int>,
    decreases descs.len() - j,
{
    if j < descs.len() {
        assert(!descs[j].virtual_range.spec_contains(addr));
        lemma_first_match_from_none(descs, addr, j + 1);
    }
}

/// The first descriptor that holds an address decides its attributes, whatever
/// later descriptors also hold it.
pub proof fn lemma_first_match_precedence<const N: usize>(layout: &KernelVirtualLayout<N>, addr: usize, i: int)
    requires
        is_first_match(layout.descriptors(), addr, i),
    ensures
        layout.resolve(addr).1 == layout.descriptors()[i].attribute_fields,
        first_match(layout.descriptors(), addr) == Some(i),
{
    lemma_first_match_from_is(layout.descriptors(), addr, 0, i);
}

/// An address whose deciding descriptor is an identity mapping maps to itself.
pub proof fn lemma_identity_output<const N: usize>(layout: &KernelVirtualLayout<N>, addr: usize, i: int)
    requires
        is_first_match(layout.descriptors(), addr, i),
        layout.descriptors()[i].physical_range_translation == Translation::Identity,
    ensures
        layout.resolve(addr).0 == addr,
{
    lemma_first_match_from_is(layout.descriptors(), addr, 0, i);
}

/// An address whose deciding descriptor is an offset mapping to `base` maps to
/// `base` plus its distance from the start of the descriptor's range.
pub proof fn lemma_offset_output<const N: usize>(layout: &KernelVirtualLayout<N>, addr: usize, i: int, base: usize)
    requires
        layout.wf(),
        is_first_match(layout.descriptors(), addr, i),
        layout.descriptors()[i].physical_range_translation == Translation::Offset(base),
    ensures
        layout.resolve(addr).0 == base + (addr - layout.descriptors()[i].virtual_range.start),
{
    lemma_first_match_from_is(layout.descriptors(), addr, 0, i);
    assert(layout.descriptors()[i].fits());
}

/// An address that no descriptor holds maps to itself with the default attributes.
pub proof fn lemma_unlisted_default<const N: usize>(layout: &KernelVirtualLayout<N>, addr: usize)
    requires
        forall|k: int| 0 <= k < layout.descriptors().len()
            ==> !(#[trigger] layout.descriptors()[k].virtual_range.spec_contains(addr)),
    ensures
        layout.resolve(addr) == (addr, default_attributes()),
{
    lemma_first_match_from_none(layout.descriptors(), addr, 0);
}

} // verus!
