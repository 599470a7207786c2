use vmm_aarch64::layout::{
    DRAM_MEM_MAX_SIZE, DRAM_MEM_START, FDT_MAX_SIZE, FIRST_ADDR_PAST_64BITS_MMIO, MMIO64_MEM_START,
};
use vmm_aarch64::memory::{GuestAddress, GuestMemory, GuestRegion, GuestRegionType};
use vmm_aarch64::regions::{arch_memory_regions, get_fdt_addr, get_kernel_start, initrd_load_addr};

fn arch_mem(size: usize) -> GuestMemory {
    GuestMemory::from_dram_ranges(&arch_memory_regions(size))
}

#[test]
fn test_regions_lt_1024gb() {
    let regions = arch_memory_regions(1usize << 29);
    assert_eq!(1, regions.len());
    assert_eq!(GuestAddress(DRAM_MEM_START), regions[0].0);
    assert_eq!(1usize << 29, regions[0].1);
}

#[test]
fn test_regions_gt_1024gb() {
    let regions = arch_memory_regions(1usize << 41);
    assert_eq!(2, regions.len());
    assert_eq!(GuestAddress(DRAM_MEM_START), regions[0].0);
    assert_eq!(MMIO64_MEM_START - DRAM_MEM_START, regions[0].1 as u64);
    assert_eq!(GuestAddress(FIRST_ADDR_PAST_64BITS_MMIO), regions[1].0);
    assert_eq!(
        DRAM_MEM_MAX_SIZE as u64 - MMIO64_MEM_START + DRAM_MEM_START,
        regions[1].1 as u64
    );
}

#[test]
fn test_get_fdt_addr() {
    let mem = arch_mem(FDT_MAX_SIZE - 0x1000);
    assert_eq!(get_fdt_addr(&mem), DRAM_MEM_START);

    let mem = arch_mem(FDT_MAX_SIZE);
    assert_eq!(get_fdt_addr(&mem), DRAM_MEM_START);

    let mem = arch_mem(FDT_MAX_SIZE + 0x1000);
    assert_eq!(get_fdt_addr(&mem), 0x1000 + DRAM_MEM_START);
}

#[test]
fn the_gap_is_left_out_exactly() {
    let below = (MMIO64_MEM_START - DRAM_MEM_START) as usize;
    assert_eq!(
        arch_memory_regions(below),
        [(GuestAddress(DRAM_MEM_START), below)]
    );
    assert_eq!(
        arch_memory_regions(below + 1),
        [
            (GuestAddress(DRAM_MEM_START), below),
            (GuestAddress(FIRST_ADDR_PAST_64BITS_MMIO), 1)
        ]
    );
    assert_eq!(
        arch_memory_regions(usize::MAX),
        arch_memory_regions(DRAM_MEM_MAX_SIZE as usize)
    );
    assert_eq!(arch_memory_regions(1), [(GuestAddress(DRAM_MEM_START), 1)]);
}

#[test]
fn the_kernel_follows_the_system_memory() {
    assert_eq!(get_kernel_start(), 0x8020_0000);
}

#[test]
fn the_initrd_lies_below_the_device_tree_in_whole_pages() {
    let mem = arch_mem(1 << 28);
    let fdt = get_fdt_addr(&mem);
    assert_eq!(fdt, DRAM_MEM_START + (1 << 28) - FDT_MAX_SIZE as u64);
    assert_eq!(initrd_load_addr(&mem, 0), Some(fdt));
    assert_eq!(initrd_load_addr(&mem, 1), Some(fdt - 4096));
    assert_eq!(initrd_load_addr(&mem, 4096), Some(fdt - 4096));
    assert_eq!(initrd_load_addr(&mem, 4097), Some(fdt - 8192));
    // Everything between the start of DRAM and the device tree.
    let all = (fdt - DRAM_MEM_START) as usize;
    assert_eq!(initrd_load_addr(&mem, all), Some(DRAM_MEM_START));
    assert_eq!(initrd_load_addr(&mem, all + 1), None);
    assert_eq!(initrd_load_addr(&mem, 1 << 40), None);
}

#[test]
fn only_dram_holds_the_device_tree() {
    let mem = GuestMemory {
        regions: vec![
            GuestRegion {
                start: GuestAddress(0x1000),
                size: 0x1000,
                region_type: GuestRegionType::Hotpluggable,
            },
            GuestRegion {
                start: GuestAddress(DRAM_MEM_START),
                size: 1 << 24,
                region_type: GuestRegionType::Dram,
            },
        ],
    };
    assert_eq!(
        get_fdt_addr(&mem),
        DRAM_MEM_START + (1 << 24) - FDT_MAX_SIZE as u64
    );
    assert!(mem.address_in_range(GuestAddress(0x1fff)));
    assert!(!mem.address_in_range(GuestAddress(0x2000)));
}
