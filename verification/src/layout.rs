//! Fixed layout constants shared by the loader and the kernel.

use vstd::prelude::*;

verus! {

/// Size in bytes of the smallest page and of one physical frame.
pub const PAGE_SIZE: u64 = 0x1000;

/// Size in bytes of a 2 MiB page.
pub const LARGE_PAGE_SIZE: u64 = 0x20_0000;

/// Size in bytes of a 1 GiB page.
pub const HUGE_PAGE_SIZE: u64 = 0x4000_0000;

/// Virtual address at which physical address 0 is visible: every physical
/// address `p` is also reachable at `p + PHYS_MAP_OFFSET`.
pub const PHYS_MAP_OFFSET: u64 = 0x1000_0000_0000;

/// Virtual address of the page the kernel stack starts at; the stack grows
/// downward from here.
pub const KERNEL_STACK_BOTTOM: u64 = 0x2000_0000_0000;

/// Number of 4 KiB pages mapped for the kernel stack.
pub const KERNEL_STACK_SIZE_PAGES: u64 = 64;

/// Memory-region tag of frames the loader allocated for page tables.
pub const PTE_MEM_TYPE: u32 = 0x8000_0001;

/// Memory-region tag of frames the loader allocated for the kernel stack.
pub const KERNEL_STACK_MEM_TYPE: u32 = 0x8000_0002;

/// Memory-region tag of frames the loader allocated for the kernel arguments.
pub const KERNEL_ARGS_MEM_TYPE: u32 = 0x8000_0003;

/// First address above the lower canonical half of the virtual address space.
pub const LOWER_HALF_END: u64 = 0x0000_8000_0000_0000;

/// First address of the upper canonical half of the virtual address space.
pub const UPPER_HALF_START: u64 = 0xffff_8000_0000_0000;

/// First value that is too wide for a physical address.
pub const PHYS_ADDR_LIMIT: u64 = 0x10_0000_0000_0000;

/// Whether `addr` is a canonical virtual address: bits 48 to 63 repeat bit 47.
pub open spec fn is_canonical(addr: u64) -> bool {
    addr < LOWER_HALF_END || addr >= UPPER_HALF_START
}

/// Whether `addr` fits the 52 bits of a physical address.
pub open spec fn is_physical(addr: u64) -> bool {
    addr < PHYS_ADDR_LIMIT
}

} // verus!
