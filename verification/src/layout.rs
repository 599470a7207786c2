//! Guest physical memory layout of an aarch64 micro virtual machine.
//!
//! ```text
//!  0x80_0000_0000  +-------------------+  FIRST_ADDR_PAST_64BITS_MMIO
//!                  |  64-bit MMIO gap  |
//!  0x40_0000_0000  +-------------------+  MMIO64_MEM_START
//!                  |       DRAM        |
//!     0x8020_0000  +-------------------+  kernel load address
//!                  |   system memory   |
//!     0x8000_0000  +-------------------+  DRAM_MEM_START
//! ```
//!
//! DRAM starts at 2 GiB and continues past the 64-bit MMIO gap when the guest has more memory
//! than fits below the gap.

use vstd::prelude::*;

verus! {

/// Start of DRAM (2 GiB).
pub const DRAM_MEM_START: u64 = 0x8000_0000;

/// The maximum amount of DRAM, in bytes (1022 GiB).
pub const DRAM_MEM_MAX_SIZE: u64 = 0xff_8000_0000;

/// Start of the memory reserved for the system, at the bottom of DRAM.
pub const SYSTEM_MEM_START: u64 = DRAM_MEM_START;

/// Size of the memory reserved for the system; the kernel image follows it, aligned to 2 MiB.
pub const SYSTEM_MEM_SIZE: u64 = 0x20_0000;

/// The maximum size of the flattened device tree blob.
pub const FDT_MAX_SIZE: usize = 0x20_0000;

/// Start of the address range reserved for 64-bit MMIO accesses (256 GiB).
pub const MMIO64_MEM_START: u64 = 0x40_0000_0000;

/// Size of the address range reserved for 64-bit MMIO accesses (256 GiB).
pub const MMIO64_MEM_SIZE: u64 = 0x40_0000_0000;

/// The first address past the 64-bit MMIO gap.
pub const FIRST_ADDR_PAST_64BITS_MMIO: u64 = MMIO64_MEM_START + MMIO64_MEM_SIZE;

/// Size of a guest page.
pub const GUEST_PAGE_SIZE: usize = 4096;

/// The memory map as numbers: DRAM starts at 2 GiB and has at most 1022 GiB, the 64-bit MMIO gap
/// covers the 256 GiB from 256 GiB on, and the system memory and the device tree have 2 MiB each.
pub proof fn law_memory_map()
    ensures
        DRAM_MEM_START == 2 * 0x4000_0000,
        DRAM_MEM_MAX_SIZE == 1022 * 0x4000_0000,
        MMIO64_MEM_START == 256 * 0x4000_0000,
        FIRST_ADDR_PAST_64BITS_MMIO == 512 * 0x4000_0000,
        FIRST_ADDR_PAST_64BITS_MMIO - MMIO64_MEM_START == MMIO64_MEM_SIZE,
        SYSTEM_MEM_START == DRAM_MEM_START,
        SYSTEM_MEM_SIZE == 2 * 0x10_0000,
        FDT_MAX_SIZE == 2 * 0x10_0000,
        GUEST_PAGE_SIZE == 4 * 0x400,
{
}

} // verus!
