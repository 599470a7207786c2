//! Where the guest's memory, kernel, initrd and device tree are placed.

use vstd::prelude::*;

use crate::layout::{
    DRAM_MEM_MAX_SIZE, DRAM_MEM_START, FDT_MAX_SIZE, FIRST_ADDR_PAST_64BITS_MMIO, GUEST_PAGE_SIZE,
    MMIO64_MEM_SIZE, MMIO64_MEM_START, SYSTEM_MEM_SIZE, SYSTEM_MEM_START,
};
use crate::memory::{
    dram_regions, has_dram, in_range, is_first_dram, law_an_address_in_range_is_in_a_region,
    law_first_dram, regions_wf, GuestAddress, GuestMemory, GuestRegion, GuestRegionType,
};

verus! {

/// The amount of DRAM that a guest gets when `size` bytes are asked for.
pub open spec fn dram_size(size: int) -> int {
    if size <= DRAM_MEM_MAX_SIZE {
        size
    } else {
        DRAM_MEM_MAX_SIZE as int
    }
}

/// The number of bytes of DRAM that fit below the 64-bit MMIO gap.
pub open spec fn dram_below_gap() -> int {
    MMIO64_MEM_START - DRAM_MEM_START
}

/// The memory ranges, as start and length, of a guest that asks for `size` bytes.
pub open spec fn memory_ranges(size: int) -> Seq<(int, int)> {
    let dram = dram_size(size);
    if dram <= dram_below_gap() {
        seq![(DRAM_MEM_START as int, dram)]
    } else {
        seq![
            (DRAM_MEM_START as int, dram_below_gap()),
            (FIRST_ADDR_PAST_64BITS_MMIO as int, dram - dram_below_gap()),
        ]
    }
}

/// The mathematical start and length of each of `ranges`.
pub open spec fn range_values(ranges: Seq<(GuestAddress, usize)>) -> Seq<(int, int)> {
    ranges.map_values(|range: (GuestAddress, usize)| (range.0.0 as int, range.1 as int))
}

/// Places a region of `region_size` bytes that starts at `region_start` around a gap.
///
/// Appends to `regions` the part that lies below the gap, if any. Returns where the rest starts
/// and how long it is, if there is a rest: it starts past the gap.
fn arch_memory_regions_with_gap(
    regions: &mut Vec<(GuestAddress, usize)>,
    region_start: u64,
    region_size: usize,
    gap_start: u64,
    gap_size: u64,
) -> (rest: Option<(u64, usize)>)
    requires
        0 < gap_size,
        gap_start + gap_size <= u64::MAX,
        region_start + region_size <= u64::MAX,
    ensures
        region_start + region_size <= gap_start ==> {
            &&& rest is None
            &&& final(regions)@ == old(regions)@.push((GuestAddress(region_start), region_size))
        },
        region_start < gap_start < region_start + region_size ==> {
            &&& final(regions)@ == old(regions)@.push(
                (GuestAddress(region_start), (gap_start - region_start) as usize),
            )
            &&& rest == Some(
                (
                    (gap_start + gap_size) as u64,
                    (region_start + region_size - gap_start) as usize,
                ),
            )
        },
        gap_start <= region_start && gap_start < region_start + region_size ==> {
            &&& final(regions)@ == old(regions)@
            &&& rest == Some(
                (
                    if gap_start + gap_size <= region_start {
                        region_start
                    } else {
                        (gap_start + gap_size) as u64
                    },
                    region_size,
                ),
            )
        },
{
    let first_addr_past_gap: u64 = gap_start + gap_size;
    let region_end: u64 = region_start + region_size as u64;
    if region_end <= gap_start {
        regions.push((GuestAddress(region_start), region_size));
        None
    } else if region_start < gap_start {
        regions.push((GuestAddress(region_start), (gap_start - region_start) as usize));
        Some((first_addr_past_gap, (region_end - gap_start) as usize))
    } else if first_addr_past_gap <= region_start {
        Some((region_start, region_size))
    } else {
        Some((first_addr_past_gap, region_size))
    }
}

/// Returns the memory ranges of a guest that asks for `size` bytes, as start and length.
///
/// The guest gets at most [`DRAM_MEM_MAX_SIZE`] bytes. See [`crate::layout`] for a drawing of the
/// memory model.
pub fn arch_memory_regions(size: usize) -> (regions: Vec<(GuestAddress, usize)>)
    requires
        0 < size,
    ensures
        range_values(regions@) == memory_ranges(size as int),
        1 <= regions@.len() <= 2,
        regions@[0].0.0 == DRAM_MEM_START,
        regions@.len() == 1 ==> regions@[0].1 == size,
        regions@.len() == 2 ==> {
            &&& regions@[0].0.0 + regions@[0].1 == MMIO64_MEM_START
            &&& regions@[1].0.0 == FIRST_ADDR_PAST_64BITS_MMIO
            &&& regions@[0].1 + regions@[1].1 == size || (size > DRAM_MEM_MAX_SIZE
                && regions@[0].1 + regions@[1].1 == DRAM_MEM_MAX_SIZE)
        },
{
    let dram_size: usize = if size as u64 <= DRAM_MEM_MAX_SIZE {
        size
    } else {
        DRAM_MEM_MAX_SIZE as usize
    };
    let mut regions: Vec<(GuestAddress, usize)> = Vec::new();
    let rest = arch_memory_regions_with_gap(
        &mut regions,
        DRAM_MEM_START,
        dram_size,
        MMIO64_MEM_START,
        MMIO64_MEM_SIZE,
    );
    if let Some((offset, remaining)) = rest {
        regions.push((GuestAddress(offset), remaining));
    }
    regions
}

/// Returns the address at which the kernel is loaded.
pub fn get_kernel_start() -> (addr: u64)
    ensures
        addr == SYSTEM_MEM_START + SYSTEM_MEM_SIZE,
{
    SYSTEM_MEM_START + SYSTEM_MEM_SIZE
}

/// Where the device tree goes when the first region of DRAM is `dram`: at its end, or, when it
/// is too small for the largest device tree, at the start of DRAM.
pub open spec fn fdt_addr(regions: Seq<GuestRegion>, dram: GuestRegion) -> u64 {
    let addr = dram.last() - (FDT_MAX_SIZE - 1);
    if 0 <= addr && in_range(regions, addr as u64) {
        addr as u64
    } else {
        DRAM_MEM_START
    }
}

/// The index of the first region of DRAM.
pub open spec fn first_dram_index(regions: Seq<GuestRegion>) -> int {
    choose|i: int| is_first_dram(regions, i)
}

/// Where the device tree goes in a guest with the given memory.
pub open spec fn fdt_load_addr(regions: Seq<GuestRegion>) -> u64 {
    fdt_addr(regions, regions[first_dram_index(regions)])
}

/// There is one first region of DRAM.
proof fn lemma_first_dram_is_unique(regions: Seq<GuestRegion>, i: int)
    requires
        is_first_dram(regions, i),
    ensures
        first_dram_index(regions) == i,
{
    let k = first_dram_index(regions);
    assert(is_first_dram(regions, k));
    if k < i {
        assert(regions[k].region_type != GuestRegionType::Dram);
    }
    if i < k {
        assert(regions[i].region_type != GuestRegionType::Dram);
    }
}

/// Returns the address at which the device tree blob is loaded.
///
/// If the first region of DRAM is smaller than the largest device tree, this is the start of
/// DRAM, so that loading the device tree is still tried.
pub fn get_fdt_addr(mem: &GuestMemory) -> (addr: u64)
    requires
        regions_wf(mem@),
        has_dram(mem@),
    ensures
        addr == fdt_load_addr(mem@),
{
    let dram_region = mem.first_dram();
    proof {
        let i = choose|i: int| #[trigger] is_first_dram(mem@, i) && dram_region == mem@[i];
        lemma_first_dram_is_unique(mem@, i);
    }
    match dram_region.last_addr().0.checked_sub(FDT_MAX_SIZE as u64 - 1) {
        Some(addr) => if mem.address_in_range(GuestAddress(addr)) {
            addr
        } else {
            DRAM_MEM_START
        },
        None => DRAM_MEM_START,
    }
}

/// The smallest multiple of the guest page size that is not below `size`.
pub open spec fn page_aligned(size: int) -> int {
    (size + GUEST_PAGE_SIZE - 1) / (GUEST_PAGE_SIZE as int) * GUEST_PAGE_SIZE
}

/// Where an initrd of `initrd_size` bytes goes: right below the device tree, in whole pages, if
/// that address is memory of the guest.
pub open spec fn initrd_addr(regions: Seq<GuestRegion>, initrd_size: int) -> Option<u64> {
    let addr = fdt_load_addr(regions) - page_aligned(initrd_size);
    if 0 <= addr && in_range(regions, addr as u64) {
        Some(addr as u64)
    } else {
        None
    }
}

/// Returns the address at which an initrd of `initrd_size` bytes is loaded, if it fits.
pub fn initrd_load_addr(guest_mem: &GuestMemory, initrd_size: usize) -> (addr: Option<u64>)
    requires
        regions_wf(guest_mem@),
        has_dram(guest_mem@),
        page_aligned(initrd_size as int) <= u64::MAX,
    ensures
        addr == initrd_addr(guest_mem@, initrd_size as int),
        addr is Some <==> exists|i: int|
            0 <= i < guest_mem@.len() && (#[trigger] guest_mem@[i]).start.0 <= fdt_load_addr(
                guest_mem@,
            ) - page_aligned(initrd_size as int) < guest_mem@[i].start.0 + guest_mem@[i].size,
        addr matches Some(start) ==> start + page_aligned(initrd_size as int) == fdt_load_addr(
            guest_mem@,
        ),
{
    let size: u64 = initrd_size as u64;
    let page: u64 = GUEST_PAGE_SIZE as u64;
    let pages: u64 = if size % page == 0 {
        size / page
    } else {
        size / page + 1
    };
    let rounded_size: u64 = pages * page;
    match get_fdt_addr(guest_mem).checked_sub(rounded_size) {
        Some(addr) => if guest_mem.address_in_range(GuestAddress(addr)) {
            Some(addr)
        } else {
            None
        },
        None => None,
    }
}

/// The number of bytes in all of `ranges`.
pub open spec fn total_size(ranges: Seq<(int, int)>) -> int
    decreases ranges.len(),
{
    if ranges.len() == 0 {
        0
    } else {
        total_size(ranges.drop_last()) + ranges.last().1
    }
}

/// The ranges of a guest hold as many bytes as it gets: what it asks for, up to the maximum.
pub proof fn law_ranges_hold_what_is_asked_for(size: int)
    requires
        0 < size,
    ensures
        total_size(memory_ranges(size)) == dram_size(size),
        total_size(memory_ranges(size)) <= DRAM_MEM_MAX_SIZE,
        total_size(memory_ranges(size)) <= size,
        total_size(memory_ranges(size)) < size ==> size > DRAM_MEM_MAX_SIZE,
{
    let ranges = memory_ranges(size);
    reveal_with_fuel(total_size, 3);
    if ranges.len() == 2 {
        assert(ranges.drop_last() == seq![ranges[0]]);
        assert(ranges.drop_last().drop_last() == Seq::<(int, int)>::empty());
    } else {
        assert(ranges.drop_last() == Seq::<(int, int)>::empty());
    }
}

/// A guest has one or two ranges. None is empty, none starts below DRAM and none overlaps the
/// 64-bit MMIO gap; they are in order and do not overlap each other.
pub proof fn law_ranges_avoid_the_gap(size: int)
    requires
        0 < size,
    ensures
        1 <= memory_ranges(size).len() <= 2,
        forall|i: int|
            0 <= i < memory_ranges(size).len() ==> {
                let (start, len) = #[trigger] memory_ranges(size)[i];
                &&& 0 < len
                &&& DRAM_MEM_START <= start
                &&& start + len <= MMIO64_MEM_START || FIRST_ADDR_PAST_64BITS_MMIO <= start
            },
        forall|i: int, j: int|
            0 <= i < j < memory_ranges(size).len() ==> (#[trigger] memory_ranges(size)[i]).0
                + memory_ranges(size)[i].1 <= (#[trigger] memory_ranges(size)[j]).0,
{
}

/// Two ranges enclose the 64-bit MMIO gap: the first one starts where DRAM does and ends where
/// the gap starts, and the second one starts where the gap ends.
pub proof fn law_two_ranges_enclose_the_gap(size: int)
    requires
        0 < size,
        memory_ranges(size).len() == 2,
    ensures
        memory_ranges(size)[0].0 == DRAM_MEM_START,
        memory_ranges(size)[0].0 + memory_ranges(size)[0].1 == MMIO64_MEM_START,
        memory_ranges(size)[1].0 == FIRST_ADDR_PAST_64BITS_MMIO,
{
}

/// The ranges of a guest make up well-formed guest memory with DRAM in it.
pub proof fn law_ranges_are_guest_memory(size: int, ranges: Seq<(GuestAddress, usize)>)
    requires
        0 < size,
        range_values(ranges) == memory_ranges(size),
    ensures
        regions_wf(dram_regions(ranges)),
        has_dram(dram_regions(ranges)),
        is_first_dram(dram_regions(ranges), 0),
{
    law_ranges_avoid_the_gap(size);
    let regions = dram_regions(ranges);
    assert forall|i: int| 0 <= i < regions.len() implies {
        &&& (#[trigger] regions[i]).start.0 == memory_ranges(size)[i].0
        &&& regions[i].size == memory_ranges(size)[i].1
    } by {
        assert(range_values(ranges)[i] == (ranges[i].0.0 as int, ranges[i].1 as int));
    }
    assert(regions[0].region_type == GuestRegionType::Dram);
}

/// In a guest with room for the largest device tree, the device tree ends with the first region
/// of DRAM and lies within it. In a smaller guest it goes to the start of DRAM.
pub proof fn law_fdt_ends_with_the_first_region(size: int, ranges: Seq<(GuestAddress, usize)>)
    requires
        0 < size,
        range_values(ranges) == memory_ranges(size),
    ensures
        FDT_MAX_SIZE <= size ==> {
            &&& DRAM_MEM_START <= fdt_load_addr(dram_regions(ranges))
            &&& fdt_load_addr(dram_regions(ranges)) + FDT_MAX_SIZE == DRAM_MEM_START
                + memory_ranges(size)[0].1
        },
        size <= FDT_MAX_SIZE ==> fdt_load_addr(dram_regions(ranges)) == DRAM_MEM_START,
{
    law_ranges_are_guest_memory(size, ranges);
    law_ranges_avoid_the_gap(size);
    let regions = dram_regions(ranges);
    lemma_first_dram_is_unique(regions, 0);
    assert(range_values(ranges)[0] == (ranges[0].0.0 as int, ranges[0].1 as int));
    let addr = regions[0].last() - (FDT_MAX_SIZE - 1);
    if FDT_MAX_SIZE <= size {
        assert(regions[0].holds(addr as u64));
    } else {
        assert forall|i: int| 0 <= i < regions.len() implies !(#[trigger] regions[i]).holds(
            addr as u64,
        ) by {
            assert(range_values(ranges)[i] == (ranges[i].0.0 as int, ranges[i].1 as int));
        }
    }
}

/// An initrd that has an address ends at or below the device tree, and starts a whole number of
/// pages below it at an address of the guest's memory.
pub proof fn law_initrd_lies_below_the_fdt(regions: Seq<GuestRegion>, initrd_size: int)
    requires
        0 <= initrd_size,
        initrd_addr(regions, initrd_size) is Some,
    ensures
        initrd_addr(regions, initrd_size)->0 + initrd_size <= fdt_load_addr(regions),
        (fdt_load_addr(regions) - initrd_addr(regions, initrd_size)->0) % (GUEST_PAGE_SIZE as int)
            == 0,
        fdt_load_addr(regions) - initrd_addr(regions, initrd_size)->0 < initrd_size
            + GUEST_PAGE_SIZE,
        in_range(regions, initrd_addr(regions, initrd_size)->0),
{
}

/// The ranges of a guest are its DRAM in order of address: the first one starts where DRAM does,
/// and their lengths add up to what was asked for, or to the maximum if that is less. There is
/// a second one only if the first one reaches the 64-bit MMIO gap.
pub proof fn law_ranges_split_the_dram(size: int)
    requires
        0 < size,
    ensures
        memory_ranges(size)[0].0 == DRAM_MEM_START,
        memory_ranges(size).len() == 1 ==> {
            &&& size <= DRAM_MEM_MAX_SIZE
            &&& memory_ranges(size)[0].1 == size
        },
        memory_ranges(size).len() == 2 ==> {
            &&& memory_ranges(size)[0].0 + memory_ranges(size)[0].1 == MMIO64_MEM_START
            &&& size <= DRAM_MEM_MAX_SIZE ==> memory_ranges(size)[0].1 + memory_ranges(size)[1].1
                == size
            &&& size > DRAM_MEM_MAX_SIZE ==> memory_ranges(size)[0].1 + memory_ranges(size)[1].1
                == DRAM_MEM_MAX_SIZE
        },
        memory_ranges(size).len() == 2 <==> DRAM_MEM_START + size > MMIO64_MEM_START,
{
}

/// Asking for more gives no less: each range of the smaller guest is at least as long in the
/// larger one.
pub proof fn law_more_memory_keeps_the_ranges(size: int, larger: int)
    requires
        0 < size <= larger,
    ensures
        memory_ranges(size).len() <= memory_ranges(larger).len(),
        forall|i: int|
            0 <= i < memory_ranges(size).len() ==> (#[trigger] memory_ranges(size)[i]).0
                == memory_ranges(larger)[i].0 && memory_ranges(size)[i].1
                <= memory_ranges(larger)[i].1,
{
}

/// The mathematical ranges are those of the machine: as many, in order, with equal starts and
/// lengths.
pub proof fn law_range_values_are_the_ranges(ranges: Seq<(GuestAddress, usize)>)
    ensures
        range_values(ranges).len() == ranges.len(),
        forall|i: int|
            0 <= i < ranges.len() ==> (#[trigger] range_values(ranges)[i]).0 == ranges[i].0.0
                && range_values(ranges)[i].1 == ranges[i].1,
{
}

/// The device tree goes to the last `FDT_MAX_SIZE` bytes of the first region of DRAM whenever the
/// address at which they start is memory of the guest, and to the start of DRAM if it is not.
pub proof fn law_fdt_goes_to_the_end_of_the_first_dram(
    regions: Seq<GuestRegion>,
    i: int,
    addr: u64,
)
    requires
        0 <= i < regions.len(),
        regions[i].region_type == GuestRegionType::Dram,
        forall|j: int|
            0 <= j < i ==> (#[trigger] regions[j]).region_type == GuestRegionType::Hotpluggable,
    ensures
        addr + FDT_MAX_SIZE == regions[i].start.0 + regions[i].size && (exists|k: int|
            0 <= k < regions.len() && (#[trigger] regions[k]).start.0 <= addr < regions[k].start.0
                + regions[k].size) ==> fdt_load_addr(regions) == addr,
        (forall|k: int|
            0 <= k < regions.len() ==> !((#[trigger] regions[k]).start.0 <= regions[i].start.0
                + regions[i].size - FDT_MAX_SIZE < regions[k].start.0 + regions[k].size))
            ==> fdt_load_addr(regions) == DRAM_MEM_START,
{
    law_first_dram(regions, i);
    lemma_first_dram_is_unique(regions, i);
    let start = regions[i].last() - (FDT_MAX_SIZE - 1);
    law_an_address_in_range_is_in_a_region(regions, addr);
    if 0 <= start <= u64::MAX {
        law_an_address_in_range_is_in_a_region(regions, start as u64);
    }
}

/// An initrd gets an address whenever there is room. If the whole pages that hold it fit between
/// address 0 and the device tree, and they start in some region of guest memory, then it goes
/// there.
pub proof fn law_an_initrd_that_fits_is_placed(
    regions: Seq<GuestRegion>,
    initrd_size: int,
    pages: int,
    addr: u64,
    i: int,
)
    requires
        (pages - 1) * GUEST_PAGE_SIZE < initrd_size <= pages * GUEST_PAGE_SIZE,
        addr + pages * GUEST_PAGE_SIZE == fdt_load_addr(regions),
        0 <= i < regions.len(),
        regions[i].start.0 <= addr < regions[i].start.0 + regions[i].size,
    ensures
        initrd_addr(regions, initrd_size) == Some(addr),
{
    law_pages_hold_a_size(initrd_size, pages);
    assert(regions[i].holds(addr));
}

/// An initrd without an address does not fit: its whole pages would start below address 0, or at
/// an address that no region of guest memory has.
pub proof fn law_an_initrd_without_an_address_does_not_fit(
    regions: Seq<GuestRegion>,
    initrd_size: int,
    pages: int,
    i: int,
)
    requires
        (pages - 1) * GUEST_PAGE_SIZE < initrd_size <= pages * GUEST_PAGE_SIZE,
        0 <= initrd_size,
        initrd_addr(regions, initrd_size) is None,
        0 <= i < regions.len(),
    ensures
        !(0 <= fdt_load_addr(regions) - pages * GUEST_PAGE_SIZE && regions[i].start.0
            <= fdt_load_addr(regions) - pages * GUEST_PAGE_SIZE < regions[i].start.0
            + regions[i].size),
{
    let start = fdt_load_addr(regions) - pages * GUEST_PAGE_SIZE;
    if 0 <= start && regions[i].start.0 <= start < regions[i].start.0 + regions[i].size {
        law_an_initrd_that_fits_is_placed(regions, initrd_size, pages, start as u64, i);
    }
}

/// A size is rounded up to the least number of whole pages that holds it.
pub proof fn law_pages_hold_a_size(size: int, pages: int)
    ensures
        page_aligned(size) == pages * GUEST_PAGE_SIZE <==> (pages - 1) * GUEST_PAGE_SIZE < size
            <= pages * GUEST_PAGE_SIZE,
{
}

/// What [`arch_memory_regions`] returns starts with DRAM, skips the 64-bit MMIO gap and has as many
/// bytes as are asked for, up to the maximum.
pub proof fn law_regions_are_dram_around_the_gap(size: usize, regions: Vec<(GuestAddress, usize)>)
    requires
        0 < size,
        call_ensures(arch_memory_regions, (size,), regions),
    ensures
        0x8000_0000 + size <= 0x40_0000_0000 ==> {
            &&& regions@.len() == 1
            &&& regions@[0].0.0 == 0x8000_0000
            &&& regions@[0].1 == size
        },
        0x8000_0000 + size > 0x40_0000_0000 ==> {
            &&& regions@.len() == 2
            &&& regions@[0].0.0 == 0x8000_0000
            &&& regions@[0].1 == 0x3f_8000_0000
            &&& regions@[1].0.0 == 0x80_0000_0000
            &&& size <= 0xff_8000_0000 ==> regions@[0].1 + regions@[1].1 == size
            &&& size > 0xff_8000_0000 ==> regions@[0].1 + regions@[1].1 == 0xff_8000_0000
        },
{
    law_ranges_split_the_dram(size as int);
    law_ranges_avoid_the_gap(size as int);
    law_range_values_are_the_ranges(regions@);
    assert(range_values(regions@)[0] == memory_ranges(size as int)[0]);
    if regions@.len() == 2 {
        assert(range_values(regions@)[1] == memory_ranges(size as int)[1]);
    }
}

/// The kernel starts right behind the system memory.
pub proof fn law_the_kernel_starts_behind_the_system_memory(addr: u64)
    requires
        call_ensures(get_kernel_start, (), addr),
    ensures
        addr == 0x8000_0000 + 0x20_0000,
{
}

/// [`get_fdt_addr`] returns the address 2 MiB below the end of the first region of DRAM if some
/// region has this address, and else the start of DRAM.
pub proof fn law_fdt_addr_is_below_the_end_of_the_first_dram(mem: GuestMemory, addr: u64, i: int)
    requires
        call_ensures(get_fdt_addr, (&mem,), addr),
        0 <= i < mem.regions@.len(),
        mem.regions@[i].region_type is Dram,
        forall|j: int| 0 <= j < i ==> (#[trigger] mem.regions@[j]).region_type is Hotpluggable,
        mem.regions@[i].start.0 + mem.regions@[i].size <= 0x1_0000_0000_0000_0000,
    ensures
        ({
            let start = mem.regions@[i].start.0 + mem.regions@[i].size - 0x20_0000;
            if exists|k: int|
                0 <= k < mem.regions@.len() && (#[trigger] mem.regions@[k]).start.0 <= start
                    < mem.regions@[k].start.0 + mem.regions@[k].size {
                addr == start
            } else {
                addr == 0x8000_0000
            }
        }),
{
    let start = mem.regions@[i].start.0 + mem.regions@[i].size - 0x20_0000;
    if 0 <= start {
        law_fdt_goes_to_the_end_of_the_first_dram(mem@, i, start as u64);
    } else {
        law_fdt_goes_to_the_end_of_the_first_dram(mem@, i, 0);
    }
}

/// [`initrd_load_addr`] places an initrd right below where [`get_fdt_addr`] places the device tree,
/// in whole pages of 4 KiB, whenever some region has the address at which it would start, and in no
/// other case.
pub proof fn law_initrd_is_placed_where_it_fits(
    guest_mem: GuestMemory,
    initrd_size: usize,
    fdt: u64,
    addr: Option<u64>,
    pages: int,
)
    requires
        call_ensures(get_fdt_addr, (&guest_mem,), fdt),
        call_ensures(initrd_load_addr, (&guest_mem, initrd_size), addr),
        (pages - 1) * 0x1000 < initrd_size <= pages * 0x1000,
    ensures
        ({
            let start = fdt - pages * 0x1000;
            if exists|i: int|
                0 <= i < guest_mem.regions@.len() && (#[trigger] guest_mem.regions@[i]).start.0
                    <= start < guest_mem.regions@[i].start.0 + guest_mem.regions@[i].size {
                addr matches Some(placed) && placed == start
            } else {
                addr is None
            }
        }),
{
    law_pages_hold_a_size(initrd_size as int, pages);
}

} // verus!
