//! Mapping of the PCI memory BARs that hold the virtio capability regions,
//! and bounds-checked register addresses inside them.
use crate::net_device::VirtioFault;
use vstd::prelude::*;

verus! {

/// Virtual address at which the first BAR is mapped.
pub const MMIO_VIRTUAL_BASE: u64 = 0x0000_6200_0000_0000;
/// Distance between the virtual windows of consecutive BARs.
pub const MMIO_BAR_SPACING: u64 = 0x0200_0000;
/// Largest BAR the driver maps.
pub const MAX_MAPPED_BAR_SIZE: u64 = 0x0100_0000;
/// Page size of the mappings.
pub const PAGE_SIZE: u64 = 0x1000;
/// Number of BARs of a PCI function.
pub const BAR_SLOTS: usize = 6;

/// A BAR as probed from the configuration space.
#[derive(Clone, Copy, Debug, PartialEq, Eq, Structural)]
pub struct PciBar {
    pub index: u8,
    pub address: u64,
    pub size: u64,
    pub is_io: bool,
}

/// Where a BAR is mapped into the driver's address space.
#[derive(Clone, Copy, Debug, PartialEq, Eq, Structural)]
pub struct Mapping {
    /// Start of the mapped pages.
    pub virtual_start: u64,
    /// Address of the first register of the BAR.
    pub register_base: u64,
    /// Length of the mapped pages.
    pub mapped_size: u64,
    /// Length of the BAR.
    pub register_size: u64,
}

/// A mapping to set up: the physical pages to map, and where.
#[derive(Clone, Copy, Debug, PartialEq, Eq, Structural)]
pub struct MappingPlan {
    pub physical: u64,
    pub mapping: Mapping,
}

/// `v` rounded up to a whole number of pages; none when that overflows.
pub open spec fn page_align(v: u64) -> Option<u64> {
    if v + 0xfff > u64::MAX {
        None
    } else {
        Some(((v + 0xfff) as u64) & !0xfffu64)
    }
}

/// Rounds `v` up to a whole number of pages.
pub fn align(v: u64) -> (r: Result<u64, VirtioFault>)
    ensures
        page_align(v) is None <==> r is Err,
        r is Err ==> r == Err::<u64, VirtioFault>(VirtioFault::RegionOverflow),
        r matches Ok(a) ==> page_align(v) == Some(a) && a % PAGE_SIZE == 0 && v <= a < v
            + PAGE_SIZE,
{
    match v.checked_add(0xfff) {
        Some(x) => {
            let a = x & !0xfffu64;
            assert(a == x & !0xfffu64 && x == v + 0xfff ==> a % 0x1000 == 0 && v <= a && a < v
                + 0x1000) by (bit_vector);
            Ok(a)
        },
        None => Err(VirtioFault::RegionOverflow),
    }
}

/// The first BAR of `bars` with `index`, if any.
pub open spec fn find_bar(bars: Seq<PciBar>, index: u8) -> Option<PciBar> {
    if exists|i: int| 0 <= i < bars.len() && bars[i].index == index {
        let i = choose|i: int|
            0 <= i < bars.len() && bars[i].index == index && forall|j: int|
                0 <= j < i ==> bars[j].index != index;
        Some(bars[i])
    } else {
        None
    }
}

/// A BAR the driver can map: memory space, nonzero and not too large.
pub open spec fn mappable(bar: PciBar) -> bool {
    !bar.is_io && 0 < bar.size <= MAX_MAPPED_BAR_SIZE
}

/// The mapping of `bar`, which holds the registers of BAR slot `slot`:
/// the pages that cover the BAR, in the window of that slot.
pub open spec fn mapping_of(bar: PciBar, slot: u8) -> MappingPlan {
    let physical = bar.address & !0xfffu64;
    let page_offset = (bar.address - physical) as u64;
    let virtual_start = (MMIO_VIRTUAL_BASE + slot * MMIO_BAR_SPACING) as u64;
    MappingPlan {
        physical,
        mapping: Mapping {
            virtual_start,
            register_base: (virtual_start + page_offset) as u64,
            mapped_size: page_align((bar.size + page_offset) as u64).unwrap(),
            register_size: bar.size,
        },
    }
}

fn find_bar_exec(bars: &[PciBar], index: u8) -> (r: Option<PciBar>)
    ensures
        r == find_bar(bars@, index),
{
    let mut i: usize = 0;
    while i < bars.len()
        invariant
            i <= bars@.len(),
            forall|j: int| 0 <= j < i ==> bars@[j].index != index,
        decreases bars@.len() - i,
    {
        if bars[i].index == index {
            proof {
                let k = choose|k: int|
                    0 <= k < bars@.len() && bars@[k].index == index && forall|j: int|
                        0 <= j < k ==> bars@[j].index != index;
                assert(0 <= i < bars@.len() && bars@[i as int].index == index && forall|j: int|
                    0 <= j < i ==> bars@[j].index != index);
                if k < i {
                } else if k > i {
                    assert(bars@[i as int].index != index);
                }
                assert(k == i);
            }
            return Some(bars[i]);
        }
        i = i + 1;
    }
    None
}

/// The BAR windows of the device, by BAR slot.
pub struct BarMappings {
    mappings: [Option<Mapping>; 6],
}

/// A mapping lies in the window of its slot.
pub open spec fn mapping_in_window(m: Mapping, slot: int) -> bool {
    &&& m.virtual_start == MMIO_VIRTUAL_BASE + slot * MMIO_BAR_SPACING
    &&& m.virtual_start <= m.register_base < m.virtual_start + PAGE_SIZE
    &&& m.register_size <= MAX_MAPPED_BAR_SIZE
}

impl BarMappings {
    pub closed spec fn slots(&self) -> Seq<Option<Mapping>> {
        self.mappings@
    }

    pub closed spec fn wf(&self) -> bool {
        forall|i: int|
            0 <= i < 6 ==> (#[trigger] self.mappings@[i] matches Some(m) ==> mapping_in_window(m, i))
    }

    /// No BAR mapped yet.
    pub fn new() -> (r: Self)
        ensures
            r.wf(),
            r.slots() == Seq::new(6, |i: int| None::<Mapping>),
    {
        let r = BarMappings { mappings: [None, None, None, None, None, None] };
        assert(r.slots() =~= Seq::new(6, |i: int| None::<Mapping>));
        r
    }

    /// What the BAR that holds a capability region in BAR slot `region_bar`
    /// needs: nothing when that slot is mapped already, else the mapping to
    /// set up.  A slot out of range, a missing BAR or a BAR that cannot be
    /// mapped is an invalid BAR.
    pub fn plan(&self, bars: &[PciBar], region_bar: u8) -> (r: Result<
        Option<MappingPlan>,
        VirtioFault,
    >)
        requires
            self.wf(),
        ensures
            region_bar >= 6 ==> r == Err::<Option<MappingPlan>, VirtioFault>(
                VirtioFault::InvalidBar,
            ),
            region_bar < 6 && self.slots()[region_bar as int] is Some ==> r == Ok::<
                Option<MappingPlan>,
                VirtioFault,
            >(None),
            region_bar < 6 && self.slots()[region_bar as int] is None ==> match find_bar(
                bars@,
                region_bar,
            ) {
                Some(bar) => if mappable(bar) {
                    r == Ok::<Option<MappingPlan>, VirtioFault>(
                        Some(mapping_of(bar, region_bar)),
                    )
                } else {
                    r == Err::<Option<MappingPlan>, VirtioFault>(VirtioFault::InvalidBar)
                },
                None => r == Err::<Option<MappingPlan>, VirtioFault>(VirtioFault::InvalidBar),
            },
            r matches Ok(Some(p)) ==> mapping_in_window(p.mapping, region_bar as int)
                && p.physical % PAGE_SIZE == 0 && p.mapping.mapped_size % PAGE_SIZE == 0,
    {
        let i = region_bar as usize;
        if i >= BAR_SLOTS {
            return Err(VirtioFault::InvalidBar);
        }
        if self.mappings[i].is_some() {
            return Ok(None);
        }
        let bar = match find_bar_exec(bars, region_bar) {
            Some(b) => b,
            None => return Err(VirtioFault::InvalidBar),
        };
        if bar.is_io || bar.size == 0 || bar.size > MAX_MAPPED_BAR_SIZE {
            return Err(VirtioFault::InvalidBar);
        }
        let physical = bar.address & !0xfffu64;
        let address = bar.address;
        assert(address & !0xfffu64 <= address && address - (address & !0xfffu64) < 0x1000
            && (address & !0xfffu64) % 0x1000 == 0) by (bit_vector);
        let page_offset = bar.address - physical;
        let mapped = match align(bar.size + page_offset) {
            Ok(m) => m,
            Err(e) => return Err(e),
        };
        let virtual_start = MMIO_VIRTUAL_BASE + (region_bar as u64) * MMIO_BAR_SPACING;
        Ok(
            Some(
                MappingPlan {
                    physical,
                    mapping: Mapping {
                        virtual_start,
                        register_base: virtual_start + page_offset,
                        mapped_size: mapped,
                        register_size: bar.size,
                    },
                },
            ),
        )
    }

    /// Records that BAR slot `slot` is now mapped by `mapping`.
    pub fn record(&mut self, slot: u8, mapping: Mapping)
        requires
            old(self).wf(),
            slot < 6,
            mapping_in_window(mapping, slot as int),
        ensures
            final(self).wf(),
            final(self).slots() == old(self).slots().update(slot as int, Some(mapping)),
    {
        self.mappings[slot as usize] = Some(mapping);
    }

    /// The mapping of BAR slot `slot`, if any.
    pub fn mapping(&self, slot: usize) -> (r: Option<Mapping>)
        requires
            slot < 6,
        ensures
            r == self.slots()[slot as int],
    {
        self.mappings[slot]
    }

    /// The address of `size` bytes of registers at `offset` in BAR `bar`:
    /// the BAR must be mapped and the registers must lie inside it.
    pub fn register_address(&self, bar: u8, offset: u32, size: u64) -> (r: Result<
        u64,
        VirtioFault,
    >)
        requires
            self.wf(),
        ensures
            (bar >= 6 || self.slots()[bar as int] is None) ==> r == Err::<u64, VirtioFault>(
                VirtioFault::InvalidBar,
            ),
            bar < 6 ==> (self.slots()[bar as int] matches Some(m) ==> {
                if offset + size > u64::MAX {
                    r == Err::<u64, VirtioFault>(VirtioFault::RegionOverflow)
                } else if offset + size > m.register_size {
                    r == Err::<u64, VirtioFault>(VirtioFault::RegisterOutOfBounds)
                } else {
                    r == Ok::<u64, VirtioFault>((m.register_base + offset) as u64)
                }
            }),
    {
        if bar as usize >= BAR_SLOTS {
            return Err(VirtioFault::InvalidBar);
        }
        let m = match self.mappings[bar as usize] {
            Some(m) => m,
            None => return Err(VirtioFault::InvalidBar),
        };
        let end = match (offset as u64).checked_add(size) {
            Some(e) => e,
            None => return Err(VirtioFault::RegionOverflow),
        };
        if end > m.register_size {
            return Err(VirtioFault::RegisterOutOfBounds);
        }
        Ok(m.register_base + offset as u64)
    }
}

} // verus!
