//! Guest physical addresses and the map of the guest's memory regions.

use vstd::prelude::*;

verus! {

/// A guest physical address.
#[derive(Clone, Copy, Debug, PartialEq, Eq, Structural)]
pub struct GuestAddress(pub u64);

/// What a guest memory region is used for.
#[derive(Clone, Copy, Debug, PartialEq, Eq, Structural)]
pub enum GuestRegionType {
    /// Memory that is present from boot on.
    Dram,
    /// Memory that can be plugged into a running guest.
    Hotpluggable,
}

/// A contiguous range of guest physical memory.
#[derive(Clone, Copy, Debug, PartialEq, Eq, Structural)]
pub struct GuestRegion {
    /// The lowest address of the region.
    pub start: GuestAddress,
    /// The number of bytes in the region.
    pub size: usize,
    /// What the region is used for.
    pub region_type: GuestRegionType,
}

impl GuestRegion {
    /// A region has at least one byte and its last address is representable.
    pub open spec fn wf(self) -> bool {
        &&& 0 < self.size
        &&& self.start.0 + self.size - 1 <= u64::MAX
    }

    /// The highest address of the region.
    pub open spec fn last(self) -> int {
        self.start.0 + self.size - 1
    }

    /// Whether `addr` lies in the region.
    pub open spec fn holds(self, addr: u64) -> bool {
        self.start.0 <= addr <= self.last()
    }

    /// Returns the highest address of the region.
    pub fn last_addr(&self) -> (addr: GuestAddress)
        requires
            self.wf(),
        ensures
            addr.0 == self.last(),
    {
        GuestAddress(self.start.0 + (self.size as u64 - 1))
    }
}

/// The serializable description of a guest memory region.
#[derive(Clone, Copy, Debug, PartialEq, Eq, Structural)]
pub struct GuestMemoryRegionState {
    /// The lowest address of the region.
    pub base_address: u64,
    /// The number of bytes in the region.
    pub size: usize,
    /// What the region is used for.
    pub region_type: GuestRegionType,
}

/// The serializable description of the guest's memory.
#[derive(Debug, PartialEq, Eq)]
pub struct GuestMemoryState {
    /// The regions, in the order in which the guest memory holds them.
    pub regions: Vec<GuestMemoryRegionState>,
}

/// The description of one region.
pub open spec fn region_state(region: GuestRegion) -> GuestMemoryRegionState {
    GuestMemoryRegionState {
        base_address: region.start.0,
        size: region.size,
        region_type: region.region_type,
    }
}

/// The descriptions of regions, in order.
pub open spec fn description(regions: Seq<GuestRegion>) -> Seq<GuestMemoryRegionState> {
    regions.map_values(|region: GuestRegion| region_state(region))
}

/// The memory of a guest, as the list of its regions.
#[derive(Debug, PartialEq, Eq)]
pub struct GuestMemory {
    /// The regions, ordered by address.
    pub regions: Vec<GuestRegion>,
}

/// Every region is a proper range, and each one lies above those before it.
pub open spec fn regions_wf(regions: Seq<GuestRegion>) -> bool {
    &&& forall|i: int| 0 <= i < regions.len() ==> (#[trigger] regions[i]).wf()
    &&& forall|i: int, j: int|
        0 <= i < j < regions.len() ==> (#[trigger] regions[i]).last() < (
        #[trigger] regions[j]).start.0
}

/// Whether some region holds `addr`.
pub open spec fn in_range(regions: Seq<GuestRegion>, addr: u64) -> bool {
    exists|i: int| 0 <= i < regions.len() && (#[trigger] regions[i]).holds(addr)
}

/// Whether region `i` is the first one of DRAM.
pub open spec fn is_first_dram(regions: Seq<GuestRegion>, i: int) -> bool {
    &&& 0 <= i < regions.len()
    &&& regions[i].region_type == GuestRegionType::Dram
    &&& forall|j: int| 0 <= j < i ==> (#[trigger] regions[j]).region_type != GuestRegionType::Dram
}

/// Whether the guest has DRAM.
pub open spec fn has_dram(regions: Seq<GuestRegion>) -> bool {
    exists|i: int|
        0 <= i < regions.len() && (#[trigger] regions[i]).region_type == GuestRegionType::Dram
}

/// The DRAM regions that `ranges` describe, in order.
pub open spec fn dram_regions(ranges: Seq<(GuestAddress, usize)>) -> Seq<GuestRegion> {
    ranges.map_values(
        |range: (GuestAddress, usize)|
            GuestRegion { start: range.0, size: range.1, region_type: GuestRegionType::Dram },
    )
}

impl View for GuestMemory {
    type V = Seq<GuestRegion>;

    open spec fn view(&self) -> Seq<GuestRegion> {
        self.regions@
    }
}

impl GuestMemory {
    /// Builds guest memory made of DRAM alone from its ranges.
    pub fn from_dram_ranges(ranges: &[(GuestAddress, usize)]) -> (memory: GuestMemory)
        ensures
            memory@ == dram_regions(ranges@),
    {
        let mut regions: Vec<GuestRegion> = Vec::new();
        let mut i: usize = 0;
        while i < ranges.len()
            invariant
                i <= ranges@.len(),
                regions@ == dram_regions(ranges@).take(i as int),
            decreases ranges@.len() - i,
        {
            let range = ranges[i];
            regions.push(
                GuestRegion { start: range.0, size: range.1, region_type: GuestRegionType::Dram },
            );
            i += 1;
        }
        assert(dram_regions(ranges@).take(i as int) == dram_regions(ranges@));
        GuestMemory { regions }
    }

    /// Returns whether `addr` lies in the memory of the guest.
    pub fn address_in_range(&self, addr: GuestAddress) -> (found: bool)
        requires
            regions_wf(self@),
        ensures
            found == in_range(self@, addr.0),
            found == exists|i: int|
                0 <= i < self@.len() && (#[trigger] self@[i]).start.0 <= addr.0 < self@[i].start.0
                    + self@[i].size,
    {
        let mut i: usize = 0;
        while i < self.regions.len()
            invariant
                i <= self@.len(),
                regions_wf(self@),
                forall|j: int| 0 <= j < i ==> !(#[trigger] self@[j]).holds(addr.0),
            decreases self@.len() - i,
        {
            let region = self.regions[i];
            if region.start.0 <= addr.0 && addr.0 <= region.last_addr().0 {
                return true;
            }
            i += 1;
        }
        false
    }

    /// Returns the first region of DRAM.
    pub fn first_dram(&self) -> (region: GuestRegion)
        requires
            has_dram(self@),
        ensures
            exists|i: int| #[trigger] is_first_dram(self@, i) && region == self@[i],
    {
        let count: usize = self.regions.len();
        let mut i: usize = 0;
        loop
            invariant
                i < count == self@.len(),
                has_dram(self@),
                forall|j: int|
                    0 <= j < i ==> (#[trigger] self@[j]).region_type != GuestRegionType::Dram,
            decreases count - i,
        {
            let region = self.regions[i];
            if region.region_type == GuestRegionType::Dram {
                assert(is_first_dram(self@, i as int));
                return region;
            }
            assert(i + 1 < count);
            i += 1;
        }
    }

    /// Describes the memory for a snapshot.
    pub fn describe(&self) -> (state: GuestMemoryState)
        ensures
            state.regions@ == self@.map_values(|region: GuestRegion| region_state(region)),
            state.regions@.len() == self@.len(),
            forall|i: int|
                0 <= i < self@.len() ==> (#[trigger] state.regions@[i]).base_address
                    == self@[i].start.0 && state.regions@[i].size == self@[i].size
                    && state.regions@[i].region_type == self@[i].region_type,
    {
        let mut regions: Vec<GuestMemoryRegionState> = Vec::new();
        let ghost all = description(self@);
        let mut i: usize = 0;
        while i < self.regions.len()
            invariant
                i <= self@.len(),
                all == description(self@),
                regions@ == all.take(i as int),
            decreases self@.len() - i,
        {
            let region = self.regions[i];
            regions.push(
                GuestMemoryRegionState {
                    base_address: region.start.0,
                    size: region.size,
                    region_type: region.region_type,
                },
            );
            i += 1;
        }
        assert(all.take(i as int) == all);
        GuestMemoryState { regions }
    }
}

/// A region has the `size` addresses from its start on, and is well-formed if there is at least one
/// and all of them are 64-bit numbers.
pub proof fn law_a_region_holds_its_addresses(region: GuestRegion, addr: u64)
    ensures
        region.last() == region.start.0 + region.size - 1,
        region.holds(addr) <==> region.start.0 <= addr < region.start.0 + region.size,
        region.wf() <==> 1 <= region.size && region.start.0 + region.size
            <= 0x1_0000_0000_0000_0000,
{
}

/// An address is in range exactly if it is one of the addresses of some region.
pub proof fn law_an_address_in_range_is_in_a_region(regions: Seq<GuestRegion>, addr: u64)
    ensures
        in_range(regions, addr) <==> exists|i: int|
            0 <= i < regions.len() && (#[trigger] regions[i]).start.0 <= addr
                < regions[i].start.0 + regions[i].size,
{
    if in_range(regions, addr) {
        let i = choose|i: int| 0 <= i < regions.len() && (#[trigger] regions[i]).holds(addr);
        assert(regions[i].start.0 <= addr < regions[i].start.0 + regions[i].size);
    }
    if exists|i: int|
        0 <= i < regions.len() && (#[trigger] regions[i]).start.0 <= addr < regions[i].start.0
            + regions[i].size {
        let i = choose|i: int|
            0 <= i < regions.len() && (#[trigger] regions[i]).start.0 <= addr < regions[i].start.0
                + regions[i].size;
        assert(regions[i].holds(addr));
    }
}

/// Regions are well-formed exactly if none is empty, none goes past the last 64-bit address, and
/// each ends before every later one starts.
pub proof fn law_well_formed_regions_are_in_order(regions: Seq<GuestRegion>)
    ensures
        regions_wf(regions) <==> {
            &&& forall|i: int|
                0 <= i < regions.len() ==> 1 <= (#[trigger] regions[i]).size && regions[i].start.0
                    + regions[i].size <= 0x1_0000_0000_0000_0000
            &&& forall|i: int, j: int|
                0 <= i < j < regions.len() ==> (#[trigger] regions[i]).start.0 + regions[i].size
                    <= (#[trigger] regions[j]).start.0
        },
{
    if forall|i: int|
        0 <= i < regions.len() ==> 1 <= (#[trigger] regions[i]).size && regions[i].start.0
            + regions[i].size <= 0x1_0000_0000_0000_0000 {
        assert forall|i: int| 0 <= i < regions.len() implies (#[trigger] regions[i]).wf() by {}
    }
    if regions_wf(regions) {
        assert forall|i: int| 0 <= i < regions.len() implies 1 <= (#[trigger] regions[i]).size
            && regions[i].start.0 + regions[i].size <= 0x1_0000_0000_0000_0000 by {
            assert(regions[i].wf());
        }
        assert forall|i: int, j: int| 0 <= i < j < regions.len() implies (
        #[trigger] regions[i]).start.0 + regions[i].size <= (#[trigger] regions[j]).start.0 by {
            assert(regions[i].last() < regions[j].start.0);
        }
    }
}

/// The first region of DRAM is DRAM and no region before it is, and there is DRAM exactly if some
/// region is DRAM.
pub proof fn law_first_dram(regions: Seq<GuestRegion>, i: int)
    ensures
        is_first_dram(regions, i) <==> {
            &&& 0 <= i < regions.len()
            &&& regions[i].region_type is Dram
            &&& forall|j: int| 0 <= j < i ==> (#[trigger] regions[j]).region_type is Hotpluggable
        },
        has_dram(regions) <==> exists|k: int|
            0 <= k < regions.len() && (#[trigger] regions[k]).region_type is Dram,
{
    if is_first_dram(regions, i) {
        assert forall|j: int| 0 <= j < i implies (#[trigger] regions[j]).region_type is Hotpluggable
            by {
            assert(regions[j].region_type != GuestRegionType::Dram);
        }
    }
    if has_dram(regions) {
        let k = choose|k: int|
            0 <= k < regions.len() && (#[trigger] regions[k]).region_type == GuestRegionType::Dram;
        assert(regions[k].region_type is Dram);
    }
    if exists|k: int| 0 <= k < regions.len() && (#[trigger] regions[k]).region_type is Dram {
        let k = choose|k: int|
            0 <= k < regions.len() && (#[trigger] regions[k]).region_type is Dram;
        assert(regions[k].region_type == GuestRegionType::Dram);
    }
}

/// Guest memory is its list of regions.
pub proof fn law_guest_memory_is_its_regions(memory: GuestMemory)
    ensures
        memory@ == memory.regions@,
{
}

/// Memory that is made from ranges has one region for each, in order, and all of it is DRAM.
pub proof fn law_dram_regions_are_the_ranges(ranges: Seq<(GuestAddress, usize)>)
    ensures
        dram_regions(ranges).len() == ranges.len(),
        forall|i: int|
            0 <= i < ranges.len() ==> (#[trigger] dram_regions(ranges)[i]).start == ranges[i].0
                && dram_regions(ranges)[i].size == ranges[i].1
                && dram_regions(ranges)[i].region_type == GuestRegionType::Dram,
{
}

/// The description of memory is faithful: it has one entry for each region, in order, with the
/// start, the size and the type of that region.
pub proof fn law_a_description_lists_the_regions(regions: Seq<GuestRegion>)
    ensures
        description(regions).len() == regions.len(),
        forall|i: int|
            0 <= i < regions.len() ==> (#[trigger] description(regions)[i]).base_address
                == regions[i].start.0 && description(regions)[i].size == regions[i].size
                && description(regions)[i].region_type == regions[i].region_type,
{
}

/// The regions can be rebuilt from their description: two memories with the same description have
/// the same regions.
pub proof fn law_regions_can_be_rebuilt(regions: Seq<GuestRegion>, other: Seq<GuestRegion>)
    requires
        description(regions) == description(other),
    ensures
        regions == other,
{
    law_a_description_lists_the_regions(regions);
    law_a_description_lists_the_regions(other);
    assert forall|i: int| 0 <= i < regions.len() implies #[trigger] regions[i] == other[i] by {
        let GuestRegion { start: GuestAddress(start), size, region_type } = regions[i];
        let GuestRegion {
            start: GuestAddress(other_start),
            size: other_size,
            region_type: other_type,
        } = other[i];
        assert(description(regions)[i] == region_state(regions[i]));
        assert(description(other)[i] == region_state(other[i]));
        assert(start == other_start && size == other_size && region_type == other_type);
    }
    assert(regions =~= other);
}

/// What [`GuestMemory::describe`] returns has one entry for each region, in order, with the start,
/// the size and the type of that region.
pub proof fn law_describe_lists_every_region(memory: GuestMemory, state: GuestMemoryState, i: int)
    requires
        call_ensures(GuestMemory::describe, (&memory,), state),
    ensures
        state.regions@.len() == memory.regions@.len(),
        0 <= i < memory.regions@.len() ==> {
            &&& state.regions@[i].base_address == memory.regions@[i].start.0
            &&& state.regions@[i].size == memory.regions@[i].size
            &&& state.regions@[i].region_type == memory.regions@[i].region_type
        },
{
}

/// Two guest memories for which [`GuestMemory::describe`] returns the same have the same regions.
pub proof fn law_describe_tells_memories_apart(
    memory: GuestMemory,
    state: GuestMemoryState,
    other: GuestMemory,
    other_state: GuestMemoryState,
)
    requires
        call_ensures(GuestMemory::describe, (&memory,), state),
        call_ensures(GuestMemory::describe, (&other,), other_state),
        state.regions@ == other_state.regions@,
    ensures
        memory.regions@ == other.regions@,
{
    law_regions_can_be_rebuilt(memory@, other@);
}

/// What [`GuestMemory::from_dram_ranges`] returns has one region of DRAM for each range, in order.
pub proof fn law_memory_is_made_of_its_ranges(
    ranges: &[(GuestAddress, usize)],
    memory: GuestMemory,
    i: int,
)
    requires
        call_ensures(GuestMemory::from_dram_ranges, (ranges,), memory),
    ensures
        memory.regions@.len() == ranges@.len(),
        0 <= i < ranges@.len() ==> {
            &&& memory.regions@[i].start == ranges@[i].0
            &&& memory.regions@[i].size == ranges@[i].1
            &&& memory.regions@[i].region_type is Dram
        },
{
}

/// [`GuestMemory::address_in_range`] finds an address exactly if some region has it.
pub proof fn law_addresses_of_regions_are_found(
    memory: GuestMemory,
    addr: GuestAddress,
    found: bool,
)
    requires
        call_ensures(GuestMemory::address_in_range, (&memory, addr), found),
    ensures
        found <==> exists|i: int|
            0 <= i < memory.regions@.len() && (#[trigger] memory.regions@[i]).start.0 <= addr.0
                < memory.regions@[i].start.0 + memory.regions@[i].size,
{
    law_an_address_in_range_is_in_a_region(memory@, addr.0);
}

/// [`GuestMemory::first_dram`] returns the region of DRAM before which there is none.
pub proof fn law_first_dram_has_none_before_it(memory: GuestMemory, region: GuestRegion, i: int)
    requires
        call_ensures(GuestMemory::first_dram, (&memory,), region),
        0 <= i < memory.regions@.len(),
        memory.regions@[i].region_type is Dram,
        forall|j: int| 0 <= j < i ==> (#[trigger] memory.regions@[j]).region_type is Hotpluggable,
    ensures
        region == memory.regions@[i],
{
    let k = choose|k: int| #[trigger] is_first_dram(memory@, k) && region == memory@[k];
    law_first_dram(memory@, i);
    law_first_dram(memory@, k);
    if i < k {
        assert(memory@[i].region_type is Hotpluggable);
    }
    if k < i {
        assert(memory@[k].region_type is Hotpluggable);
    }
}

/// The last address of a region is the one before the address at which the next could start.
pub proof fn law_the_last_address_is_the_last(region: GuestRegion, addr: GuestAddress)
    requires
        call_ensures(GuestRegion::last_addr, (&region,), addr),
    ensures
        addr.0 + 1 == region.start.0 + region.size,
{
}

} // verus!
