//! Planning of page-table mappings.
//!
//! The mapper turns a request for a run of 4 KiB pages into the list of
//! mappings that covers it with the largest page sizes alignment allows. The
//! caller installs each mapping in the page tables; nothing here touches them.

use vstd::prelude::*;
use crate::addr::{phys_addr_is_valid, virt_addr_is_valid};
use crate::layout::{
    is_canonical, is_physical, HUGE_PAGE_SIZE, LARGE_PAGE_SIZE, LOWER_HALF_END, PAGE_SIZE,
    PHYS_ADDR_LIMIT,
};

verus! {

/// The three page sizes of the architecture.
#[derive(Clone, Copy, Debug, PartialEq, Eq, Structural)]
pub enum PageSize {
    Size4KiB,
    Size2MiB,
    Size1GiB,
}

impl PageSize {
    /// Size of one page in bytes.
    pub open spec fn spec_bytes(self) -> u64 {
        match self {
            PageSize::Size4KiB => PAGE_SIZE,
            PageSize::Size2MiB => LARGE_PAGE_SIZE,
            PageSize::Size1GiB => HUGE_PAGE_SIZE,
        }
    }

    /// Size of one page in bytes.
    #[verifier::when_used_as_spec(spec_bytes)]
    pub fn bytes(self) -> (bytes: u64)
        ensures
            bytes == self.spec_bytes(),
    {
        match self {
            PageSize::Size4KiB => PAGE_SIZE,
            PageSize::Size2MiB => LARGE_PAGE_SIZE,
            PageSize::Size1GiB => HUGE_PAGE_SIZE,
        }
    }

    /// Number of 4 KiB pages that one page of this size stands for.
    pub open spec fn spec_small_pages(self) -> u64 {
        match self {
            PageSize::Size4KiB => 1,
            PageSize::Size2MiB => 512,
            PageSize::Size1GiB => 262144,
        }
    }

    /// Number of 4 KiB pages that one page of this size stands for.
    #[verifier::when_used_as_spec(spec_small_pages)]
    pub fn small_pages(self) -> (count: u64)
        ensures
            count == self.spec_small_pages(),
    {
        match self {
            PageSize::Size4KiB => 1,
            PageSize::Size2MiB => 512,
            PageSize::Size1GiB => 262144,
        }
    }

    /// Whether `addr` is a multiple of this page size.
    pub open spec fn aligns(self, addr: u64) -> bool {
        match self {
            PageSize::Size4KiB => addr % PAGE_SIZE == 0,
            PageSize::Size2MiB => addr % LARGE_PAGE_SIZE == 0,
            PageSize::Size1GiB => addr % HUGE_PAGE_SIZE == 0,
        }
    }

    /// Number of whole pages of this size in a run of `pages` 4 KiB pages.
    pub open spec fn whole_pages(self, pages: int) -> int {
        match self {
            PageSize::Size4KiB => pages,
            PageSize::Size2MiB => pages / 512,
            PageSize::Size1GiB => pages / 262144,
        }
    }

    /// Number of 4 KiB pages in `count` pages of this size.
    pub open spec fn to_small_pages(self, count: int) -> int {
        match self {
            PageSize::Size4KiB => count,
            PageSize::Size2MiB => count * 512,
            PageSize::Size1GiB => count * 262144,
        }
    }

    /// Number of bytes in `count` pages of this size.
    pub open spec fn to_bytes(self, count: int) -> int {
        match self {
            PageSize::Size4KiB => count * 0x1000,
            PageSize::Size2MiB => count * 0x20_0000,
            PageSize::Size1GiB => count * 0x4000_0000,
        }
    }

    /// Tells whether `addr` is a multiple of this page size.
    pub fn is_aligned(self, addr: u64) -> (aligned: bool)
        ensures
            aligned == self.aligns(addr),
    {
        match self {
            PageSize::Size4KiB => x86_64::addr::align_down(addr, PAGE_SIZE) == addr,
            PageSize::Size2MiB => x86_64::addr::align_down(addr, LARGE_PAGE_SIZE) == addr,
            PageSize::Size1GiB => x86_64::addr::align_down(addr, HUGE_PAGE_SIZE) == addr,
        }
    }
}

/// Access flags of a page-table entry, as the bits the hardware reads.
#[derive(Clone, Copy, Debug, PartialEq, Eq, Structural)]
pub struct PageFlags {
    pub bits: u64,
}

/// The entry is valid.
pub const FLAG_PRESENT: u64 = 0x1;

/// Writes through the entry are allowed.
pub const FLAG_WRITABLE: u64 = 0x2;

/// The translation survives an address-space switch.
pub const FLAG_GLOBAL: u64 = 0x100;

/// Instruction fetches through the entry are forbidden.
pub const FLAG_NO_EXECUTE: u64 = 0x8000_0000_0000_0000;

impl PageFlags {
    /// The flags with no bit set.
    pub fn empty() -> (flags: PageFlags)
        ensures
            flags.bits == 0,
    {
        PageFlags { bits: 0 }
    }

    /// The flags with exactly the bits of `bits` set.
    pub fn from_bits(bits: u64) -> (flags: PageFlags)
        ensures
            flags.bits == bits,
    {
        PageFlags { bits }
    }

    /// Whether every bit of `other` is set in `self`.
    pub open spec fn spec_contains(self, other: PageFlags) -> bool {
        self.bits & other.bits == other.bits
    }

    /// Tells whether every bit of `other` is set in `self`.
    #[verifier::when_used_as_spec(spec_contains)]
    pub fn contains(self, other: PageFlags) -> (all: bool)
        ensures
            all == self.spec_contains(other),
    {
        self.bits & other.bits == other.bits
    }

    /// The flags set in `self` or in `other`.
    pub fn union(self, other: PageFlags) -> (flags: PageFlags)
        ensures
            flags.bits == self.bits | other.bits,
    {
        PageFlags { bits: self.bits | other.bits }
    }

    /// Flags of the offset mapping of physical memory: present, writable,
    /// global and not executable.
    pub fn kernel_data() -> (flags: PageFlags)
        ensures
            flags.bits == FLAG_PRESENT | FLAG_WRITABLE | FLAG_GLOBAL | FLAG_NO_EXECUTE,
    {
        PageFlags { bits: FLAG_PRESENT | FLAG_WRITABLE | FLAG_GLOBAL | FLAG_NO_EXECUTE }
    }

    /// Flags of the kernel stack: present, writable and not executable.
    pub fn kernel_stack() -> (flags: PageFlags)
        ensures
            flags.bits == FLAG_PRESENT | FLAG_WRITABLE | FLAG_NO_EXECUTE,
    {
        PageFlags { bits: FLAG_PRESENT | FLAG_WRITABLE | FLAG_NO_EXECUTE }
    }

    /// Flags of the intermediate tables above a mapping: present and writable.
    pub fn table() -> (flags: PageFlags)
        ensures
            flags.bits == FLAG_PRESENT | FLAG_WRITABLE,
    {
        PageFlags { bits: FLAG_PRESENT | FLAG_WRITABLE }
    }
}

/// One mapping for the caller to install: the page at `virt` is backed by the
/// frame at `phys`, both of size `size`.
#[derive(Clone, Copy, Debug, PartialEq, Eq, Structural)]
pub struct MapRequest {
    pub virt: u64,
    pub phys: u64,
    pub size: PageSize,
    pub flags: PageFlags,
    pub parent_flags: PageFlags,
}

impl MapRequest {
    /// Whether `addr` lies in the page this request maps.
    pub open spec fn covers(self, addr: u64) -> bool {
        self.virt <= addr < self.virt + self.size.spec_bytes()
    }

    /// The physical address that `addr` is translated to by this request.
    pub open spec fn resolve(self, addr: u64) -> int {
        self.phys + (addr - self.virt)
    }
}

/// Why a mapping cannot be planned.
#[derive(Clone, Copy, Debug, PartialEq, Eq, Structural)]
pub enum MapError {
    /// The virtual base is not a canonical address.
    InvalidVirtualAddress,
    /// The physical base does not fit in 52 bits.
    InvalidPhysicalAddress,
    /// The virtual base is not a multiple of 4 KiB.
    UnalignedVirtualAddress,
    /// The length of the run, or its end address, does not fit in 64 bits.
    RangeOverflow,
    /// The run leaves the canonical half its base lies in, or ends at an
    /// address that is not canonical.
    VirtualRangeNotCanonical,
    /// The run ends at or above 2^52 in physical memory.
    PhysicalRangeOutOfBounds,
    /// The three passes mapped fewer pages than were asked for.
    IncompleteMapping { mapped: u64, requested: u64 },
    /// A stack of no pages was asked for.
    EmptyStack,
}

/// The `index`-th mapping of a pass with pages of `size` over a run that
/// starts at `virt` and `phys`.
pub open spec fn pass_request(
    size: PageSize,
    virt: u64,
    phys: u64,
    flags: PageFlags,
    parent_flags: PageFlags,
    index: int,
) -> MapRequest {
    MapRequest {
        virt: (virt + size.to_bytes(index)) as u64,
        phys: (phys + size.to_bytes(index)) as u64,
        size,
        flags,
        parent_flags,
    }
}

/// Number of mappings one pass makes: every whole page of `size` in the run,
/// if both bases are multiples of `size`, and none otherwise.
pub open spec fn pass_count(size: PageSize, virt: u64, phys: u64, pages: u64) -> int {
    if size.aligns(virt) && size.aligns(phys) {
        size.whole_pages(pages as int)
    } else {
        0
    }
}

/// Number of 4 KiB pages one pass maps.
pub open spec fn pass_pages(size: PageSize, virt: u64, phys: u64, pages: u64) -> int {
    size.to_small_pages(pass_count(size, virt, phys, pages))
}

/// The mappings one pass makes, in ascending order of address.
pub open spec fn pass_requests(
    size: PageSize,
    virt: u64,
    phys: u64,
    pages: u64,
    flags: PageFlags,
    parent_flags: PageFlags,
) -> Seq<MapRequest> {
    Seq::new(
        pass_count(size, virt, phys, pages) as nat,
        |index: int| pass_request(size, virt, phys, flags, parent_flags, index),
    )
}

/// Maps as many whole pages of `size` as fit in a run of `pages` 4 KiB pages
/// that starts at `virt` and `phys`, provided both are multiples of `size`.
/// The mappings are appended to `plan`; the result is the number of 4 KiB
/// pages they cover.
pub fn map_sized(
    size: PageSize,
    virt: u64,
    phys: u64,
    pages: u64,
    flags: PageFlags,
    parent_flags: PageFlags,
    plan: &mut Vec<MapRequest>,
) -> (done: u64)
    requires
        virt + pages * PAGE_SIZE <= u64::MAX,
        phys + pages * PAGE_SIZE <= u64::MAX,
    ensures
        done == pass_pages(size, virt, phys, pages),
        done <= pages,
        final(plan)@ == old(plan)@ + pass_requests(size, virt, phys, pages, flags, parent_flags),
{
    let small_pages = size.small_pages();
    if size.is_aligned(virt) && size.is_aligned(phys) {
        let mut left = pages;
        let ghost mut made: int = 0;
        while left >= small_pages
            invariant
                small_pages == size.spec_small_pages(),
                size.aligns(virt) && size.aligns(phys),
                virt + pages * PAGE_SIZE <= u64::MAX,
                phys + pages * PAGE_SIZE <= u64::MAX,
                left <= pages,
                0 <= made <= size.whole_pages(pages as int),
                pages - left == size.to_small_pages(made),
                plan@ == old(plan)@ + pass_requests(
                    size,
                    virt,
                    phys,
                    pages,
                    flags,
                    parent_flags,
                ).take(made),
            decreases left,
        {
            let offset = (pages - left) * PAGE_SIZE;
            assert(offset == size.to_bytes(made));
            plan.push(MapRequest { virt: virt + offset, phys: phys + offset, size, flags, parent_flags });
            left -= small_pages;
            proof {
                let all = pass_requests(size, virt, phys, pages, flags, parent_flags);
                assert(made < all.len());
                assert(all.take(made + 1) == all.take(made).push(all[made]));
                made = made + 1;
            }
        }
        proof {
            let all = pass_requests(size, virt, phys, pages, flags, parent_flags);
            assert(made == all.len());
            assert(all.take(made) == all);
        }
        pages - left
    } else {
        proof {
            let all = pass_requests(size, virt, phys, pages, flags, parent_flags);
            assert(old(plan)@ + all == old(plan)@);
        }
        0
    }
}

/// The first reason, if any, for which a run of `pages` 4 KiB pages from
/// `virt` to `phys` cannot be mapped. Both ends of the run must be addresses
/// of their kind: the virtual run stays inside one canonical half and the
/// physical run below 2^52, each with the address one past its last byte.
pub open spec fn map_check(virt: u64, phys: u64, pages: u64) -> Option<MapError> {
    let length = pages * PAGE_SIZE;
    if !is_canonical(virt) {
        Some(MapError::InvalidVirtualAddress)
    } else if !is_physical(phys) {
        Some(MapError::InvalidPhysicalAddress)
    } else if !PageSize::Size4KiB.aligns(virt) {
        Some(MapError::UnalignedVirtualAddress)
    } else if virt + length > u64::MAX {
        Some(MapError::RangeOverflow)
    } else if !is_canonical((virt + length) as u64) || (virt < LOWER_HALF_END && virt + length
        >= LOWER_HALF_END) {
        Some(MapError::VirtualRangeNotCanonical)
    } else if phys + length >= PHYS_ADDR_LIMIT {
        Some(MapError::PhysicalRangeOutOfBounds)
    } else if pages > 0 && !PageSize::Size4KiB.aligns(phys) {
        Some(MapError::IncompleteMapping { mapped: 0, requested: pages })
    } else {
        None
    }
}

/// Number of 4 KiB pages the pass with 1 GiB pages maps.
pub open spec fn huge_pages_mapped(virt: u64, phys: u64, pages: u64) -> int {
    pass_pages(PageSize::Size1GiB, virt, phys, pages)
}

/// Number of 4 KiB pages the pass with 2 MiB pages maps, after the pass with
/// 1 GiB pages.
pub open spec fn large_pages_mapped(virt: u64, phys: u64, pages: u64) -> int {
    let done = huge_pages_mapped(virt, phys, pages);
    pass_pages(
        PageSize::Size2MiB,
        (virt + done * PAGE_SIZE) as u64,
        (phys + done * PAGE_SIZE) as u64,
        (pages - done) as u64,
    )
}

/// Number of 4 KiB pages the last pass maps, after the two passes with larger
/// pages.
pub open spec fn small_pages_mapped(virt: u64, phys: u64, pages: u64) -> int {
    let done = huge_pages_mapped(virt, phys, pages) + large_pages_mapped(virt, phys, pages);
    pass_pages(
        PageSize::Size4KiB,
        (virt + done * PAGE_SIZE) as u64,
        (phys + done * PAGE_SIZE) as u64,
        (pages - done) as u64,
    )
}

/// The mappings that cover a run of `pages` 4 KiB pages from `virt` to `phys`:
/// 1 GiB pages while both addresses are multiples of 1 GiB and enough pages
/// remain, then 2 MiB pages in the same way, then 4 KiB pages for the rest.
pub open spec fn offset_plan(
    virt: u64,
    phys: u64,
    pages: u64,
    flags: PageFlags,
    parent_flags: PageFlags,
) -> Seq<MapRequest> {
    let huge = huge_pages_mapped(virt, phys, pages);
    let large = large_pages_mapped(virt, phys, pages);
    pass_requests(PageSize::Size1GiB, virt, phys, pages, flags, parent_flags) + pass_requests(
        PageSize::Size2MiB,
        (virt + huge * PAGE_SIZE) as u64,
        (phys + huge * PAGE_SIZE) as u64,
        (pages - huge) as u64,
        flags,
        parent_flags,
    ) + pass_requests(
        PageSize::Size4KiB,
        (virt + (huge + large) * PAGE_SIZE) as u64,
        (phys + (huge + large) * PAGE_SIZE) as u64,
        (pages - huge - large) as u64,
        flags,
        parent_flags,
    )
}

/// Plans the mapping of `pages` 4 KiB pages from `virt` to `phys` with the
/// largest page sizes that alignment allows. The run is refused for the first
/// reason `map_check` finds; otherwise the plan is `offset_plan`, and the three
/// passes together map exactly `pages` pages.
pub fn map_offset(
    virt: u64,
    phys: u64,
    pages: u64,
    flags: PageFlags,
    parent_flags: PageFlags,
) -> (result: Result<Vec<MapRequest>, MapError>)
    ensures
        match map_check(virt, phys, pages) {
            Some(error) => result == Err::<Vec<MapRequest>, MapError>(error),
            None => result is Ok && result->Ok_0@ == offset_plan(
                virt,
                phys,
                pages,
                flags,
                parent_flags,
            ),
        },
{
    if !virt_addr_is_valid(virt) {
        return Err(MapError::InvalidVirtualAddress);
    }
    if !phys_addr_is_valid(phys) {
        return Err(MapError::InvalidPhysicalAddress);
    }
    if !PageSize::Size4KiB.is_aligned(virt) {
        return Err(MapError::UnalignedVirtualAddress);
    }
    let end = match pages.checked_mul(PAGE_SIZE) {
        Some(length) => virt.checked_add(length),
        None => None,
    };
    let end = match end {
        Some(end) => end,
        None => {
            return Err(MapError::RangeOverflow);
        },
    };
    if !virt_addr_is_valid(end) || (virt < LOWER_HALF_END && end >= LOWER_HALF_END) {
        return Err(MapError::VirtualRangeNotCanonical);
    }
    if end - virt >= PHYS_ADDR_LIMIT - phys {
        return Err(MapError::PhysicalRangeOutOfBounds);
    }
    let mut plan: Vec<MapRequest> = Vec::new();
    let mut done: u64 = 0;
    done += map_sized(PageSize::Size1GiB, virt, phys, pages, flags, parent_flags, &mut plan);
    done += map_sized(
        PageSize::Size2MiB,
        virt + done * PAGE_SIZE,
        phys + done * PAGE_SIZE,
        pages - done,
        flags,
        parent_flags,
        &mut plan,
    );
    done += map_sized(
        PageSize::Size4KiB,
        virt + done * PAGE_SIZE,
        phys + done * PAGE_SIZE,
        pages - done,
        flags,
        parent_flags,
        &mut plan,
    );
    if done != pages {
        return Err(MapError::IncompleteMapping { mapped: done, requested: pages });
    }
    Ok(plan)
}

/// The physical address that `addr` is translated to once every mapping of
/// `plan` is installed: the translation of the first mapping that covers it.
pub fn translate(plan: &Vec<MapRequest>, addr: u64) -> (result: Option<u64>)
    requires
        forall|i: int|
            0 <= i < plan@.len() ==> (#[trigger] plan@[i]).phys + plan@[i].size.spec_bytes()
                <= u64::MAX,
    ensures
        match result {
            Some(phys) => exists|i: int|
                0 <= i < plan@.len() && (#[trigger] plan@[i]).covers(addr) && phys
                    == plan@[i].resolve(addr) && forall|j: int|
                    0 <= j < i ==> !(#[trigger] plan@[j]).covers(addr),
            None => forall|i: int| 0 <= i < plan@.len() ==> !(#[trigger] plan@[i]).covers(addr),
        },
{
    let mut index: usize = 0;
    while index < plan.len()
        invariant
            index <= plan@.len(),
            forall|i: int|
                0 <= i < plan@.len() ==> (#[trigger] plan@[i]).phys + plan@[i].size.spec_bytes()
                    <= u64::MAX,
            forall|j: int| 0 <= j < index ==> !(#[trigger] plan@[j]).covers(addr),
        decreases plan@.len() - index,
    {
        let request = plan[index];
        if request.virt <= addr && addr - request.virt < request.size.bytes() {
            assert(plan@[index as int].covers(addr));
            return Some(request.phys + (addr - request.virt));
        }
        index += 1;
    }
    None
}

/// The three passes together map exactly the pages that were asked for,
/// whenever both addresses are multiples of 4 KiB.
pub proof fn lemma_passes_map_every_page(virt: u64, phys: u64, pages: u64)
    requires
        PageSize::Size4KiB.aligns(virt),
        PageSize::Size4KiB.aligns(phys),
        virt + pages * PAGE_SIZE <= u64::MAX,
        phys + pages * PAGE_SIZE <= u64::MAX,
    ensures
        huge_pages_mapped(virt, phys, pages) + large_pages_mapped(virt, phys, pages)
            + small_pages_mapped(virt, phys, pages) == pages,
        0 <= huge_pages_mapped(virt, phys, pages),
        0 <= large_pages_mapped(virt, phys, pages),
        0 <= small_pages_mapped(virt, phys, pages),
{
    let huge = huge_pages_mapped(virt, phys, pages);
    assert(0 <= huge <= pages);
    let large = large_pages_mapped(virt, phys, pages);
    assert(0 <= large <= pages - huge);
    let done = huge + large;
    lemma_page_multiple_keeps_alignment(virt, done);
    lemma_page_multiple_keeps_alignment(phys, done);
}

/// Adding whole 4 KiB pages to a multiple of 4 KiB gives a multiple of 4 KiB.
proof fn lemma_page_multiple_keeps_alignment(base: u64, pages: int)
    requires
        base % PAGE_SIZE == 0,
        0 <= pages,
    ensures
        (base + pages * PAGE_SIZE) % (PAGE_SIZE as int) == 0,
{
    vstd::arithmetic::div_mod::lemma_mod_multiples_vanish(pages, base as int, PAGE_SIZE as int);
}

/// Every mapping of a plan starts at a virtual and a physical address that are
/// multiples of its page size, lies inside the run, and carries the flags
/// that were asked for.
#[verifier::spinoff_prover]
pub proof fn lemma_plan_is_aligned(
    virt: u64,
    phys: u64,
    pages: u64,
    flags: PageFlags,
    parent_flags: PageFlags,
    index: int,
)
    requires
        map_check(virt, phys, pages) is None,
        0 <= index < offset_plan(virt, phys, pages, flags, parent_flags).len(),
    ensures
        ({
            let request = offset_plan(virt, phys, pages, flags, parent_flags)[index];
            &&& request.size.aligns(request.virt)
            &&& request.size.aligns(request.phys)
            &&& request.flags == flags
            &&& request.parent_flags == parent_flags
            &&& virt <= request.virt
            &&& request.virt + request.size.spec_bytes() <= virt + pages * PAGE_SIZE
        }),
{
}

/// Once a plan is installed, every byte of the run is reached through exactly
/// one mapping, and is translated to the byte at the same distance from the
/// physical base.
#[verifier::spinoff_prover]
pub proof fn lemma_plan_translates(
    virt: u64,
    phys: u64,
    pages: u64,
    flags: PageFlags,
    parent_flags: PageFlags,
    offset: int,
)
    requires
        map_check(virt, phys, pages) is None,
        0 <= offset < pages * PAGE_SIZE,
    ensures
        ({
            let plan = offset_plan(virt, phys, pages, flags, parent_flags);
            let addr = (virt + offset) as u64;
            exists|i: int|
                0 <= i < plan.len() && (#[trigger] plan[i]).covers(addr) && plan[i].resolve(addr)
                    == phys + offset && forall|j: int|
                    0 <= j < plan.len() && j != i ==> !(#[trigger] plan[j]).covers(addr)
        }),
{
    let plan = offset_plan(virt, phys, pages, flags, parent_flags);
    let addr = (virt + offset) as u64;
    let huge = huge_pages_mapped(virt, phys, pages);
    let large = large_pages_mapped(virt, phys, pages);
    let huge_count = pass_count(PageSize::Size1GiB, virt, phys, pages);
    let large_count = pass_count(
        PageSize::Size2MiB,
        (virt + huge * PAGE_SIZE) as u64,
        (phys + huge * PAGE_SIZE) as u64,
        (pages - huge) as u64,
    );
    let witness = if offset < huge * PAGE_SIZE {
        offset / (HUGE_PAGE_SIZE as int)
    } else if offset < (huge + large) * PAGE_SIZE {
        huge_count + (offset - huge * PAGE_SIZE) / (LARGE_PAGE_SIZE as int)
    } else {
        huge_count + large_count + (offset - (huge + large) * PAGE_SIZE) / (PAGE_SIZE as int)
    };
    assert(0 <= witness < plan.len());
    assert(plan[witness].covers(addr));
    assert(plan[witness].resolve(addr) == phys + offset);
    assert forall|j: int| 0 <= j < plan.len() && j != witness implies !(#[trigger] plan[j]).covers(
        addr,
    ) by {
        lemma_plan_is_aligned(virt, phys, pages, flags, parent_flags, j);
    }
}

/// A plan maps nothing outside the run it was made for.
pub proof fn lemma_plan_stays_in_range(
    virt: u64,
    phys: u64,
    pages: u64,
    flags: PageFlags,
    parent_flags: PageFlags,
    addr: u64,
    index: int,
)
    requires
        map_check(virt, phys, pages) is None,
        0 <= index < offset_plan(virt, phys, pages, flags, parent_flags).len(),
        offset_plan(virt, phys, pages, flags, parent_flags)[index].covers(addr),
    ensures
        virt <= addr < virt + pages * PAGE_SIZE,
{
    lemma_plan_is_aligned(virt, phys, pages, flags, parent_flags, index);
}

/// The start of the 4 KiB page or frame that holds `addr`.
pub open spec fn page_base(addr: u64) -> u64 {
    (addr - addr % PAGE_SIZE) as u64
}

/// The first reason, if any, for which a stack of `size_pages` pages that
/// grows downward from `bottom` cannot be mapped onto the block at `mem`.
pub open spec fn stack_check(bottom: u64, size_pages: u64, mem: u64) -> Option<MapError> {
    if size_pages == 0 {
        Some(MapError::EmptyStack)
    } else if !is_canonical(bottom) {
        Some(MapError::InvalidVirtualAddress)
    } else if (size_pages - 1) * PAGE_SIZE > bottom {
        Some(MapError::RangeOverflow)
    } else if !is_canonical((bottom - (size_pages - 1) * PAGE_SIZE) as u64) || (bottom
        >= LOWER_HALF_END && bottom - (size_pages - 1) * PAGE_SIZE < LOWER_HALF_END) {
        Some(MapError::VirtualRangeNotCanonical)
    } else if mem + size_pages * PAGE_SIZE >= PHYS_ADDR_LIMIT {
        Some(MapError::PhysicalRangeOutOfBounds)
    } else {
        None
    }
}

/// The `index`-th mapping of the kernel stack, counted downward from `bottom`:
/// the page that holds `bottom - index * 4096` is backed by the frame `index`
/// frames below the last frame of the block at `mem`, so the highest page has
/// the highest frame of the block and the lowest page the frame at `mem`.
pub open spec fn stack_request(bottom: u64, size_pages: u64, mem: u64, index: int) -> MapRequest {
    MapRequest {
        virt: page_base((bottom - index * PAGE_SIZE) as u64),
        phys: page_base((mem + (size_pages - 1 - index) * PAGE_SIZE) as u64),
        size: PageSize::Size4KiB,
        flags: PageFlags { bits: FLAG_PRESENT | FLAG_WRITABLE | FLAG_NO_EXECUTE },
        parent_flags: PageFlags { bits: FLAG_PRESENT | FLAG_WRITABLE },
    }
}

/// The mappings of the kernel stack, from `bottom` downward.
pub open spec fn stack_plan(bottom: u64, size_pages: u64, mem: u64) -> Seq<MapRequest> {
    Seq::new(size_pages as nat, |index: int| stack_request(bottom, size_pages, mem, index))
}

/// Plans the mapping of the kernel stack: `size_pages` pages of 4 KiB, page by
/// page downward from `bottom`, onto the block of frames that was allocated at
/// `mem`, writable and not executable. The request is refused for the first
/// reason `stack_check` finds; otherwise the plan is `stack_plan`.
pub fn map_stack(bottom: u64, size_pages: u64, mem: u64) -> (result: Result<
    Vec<MapRequest>,
    MapError,
>)
    ensures
        match stack_check(bottom, size_pages, mem) {
            Some(error) => result == Err::<Vec<MapRequest>, MapError>(error),
            None => result is Ok && result->Ok_0@ == stack_plan(bottom, size_pages, mem),
        },
{
    if size_pages == 0 {
        return Err(MapError::EmptyStack);
    }
    if !virt_addr_is_valid(bottom) {
        return Err(MapError::InvalidVirtualAddress);
    }
    let lowest = match (size_pages - 1).checked_mul(PAGE_SIZE) {
        Some(depth) => bottom.checked_sub(depth),
        None => None,
    };
    let lowest = match lowest {
        Some(lowest) => lowest,
        None => {
            return Err(MapError::RangeOverflow);
        },
    };
    if !virt_addr_is_valid(lowest) || (bottom >= LOWER_HALF_END && lowest < LOWER_HALF_END) {
        return Err(MapError::VirtualRangeNotCanonical);
    }
    let fits = match size_pages.checked_mul(PAGE_SIZE) {
        Some(length) => mem < PHYS_ADDR_LIMIT && length < PHYS_ADDR_LIMIT - mem,
        None => false,
    };
    if !fits {
        return Err(MapError::PhysicalRangeOutOfBounds);
    }
    let flags = PageFlags::kernel_stack();
    let parent_flags = PageFlags::table();
    let mut plan: Vec<MapRequest> = Vec::new();
    let mut index: u64 = 0;
    while index < size_pages
        invariant
            index <= size_pages,
            stack_check(bottom, size_pages, mem) is None,
            flags.bits == FLAG_PRESENT | FLAG_WRITABLE | FLAG_NO_EXECUTE,
            parent_flags.bits == FLAG_PRESENT | FLAG_WRITABLE,
            plan@ == stack_plan(bottom, size_pages, mem).take(index as int),
        decreases size_pages - index,
    {
        let virt = x86_64::addr::align_down(bottom - PAGE_SIZE * index, PAGE_SIZE);
        let phys = x86_64::addr::align_down(mem + PAGE_SIZE * (size_pages - 1 - index), PAGE_SIZE);
        plan.push(MapRequest { virt, phys, size: PageSize::Size4KiB, flags, parent_flags });
        proof {
            let all = stack_plan(bottom, size_pages, mem);
            assert(all.take(index + 1) == all.take(index as int).push(all[index as int]));
        }
        index += 1;
    }
    proof {
        let all = stack_plan(bottom, size_pages, mem);
        assert(all.take(size_pages as int) == all);
    }
    Ok(plan)
}

/// The kernel stack is mapped onto the block that was allocated for it, and
/// onto nothing else: each page lies one page below the one before it and
/// has the frame one frame below, every frame lies in the block of
/// `size_pages` frames that starts with the frame of `mem`, and no two
/// mappings share a page or a frame. A higher page has a higher frame.
pub proof fn lemma_stack_plan_descends(bottom: u64, size_pages: u64, mem: u64, index: int)
    requires
        stack_check(bottom, size_pages, mem) is None,
        0 <= index < size_pages,
    ensures
        ({
            let plan = stack_plan(bottom, size_pages, mem);
            &&& plan.len() == size_pages
            &&& plan[index].virt == page_base(bottom) - index * PAGE_SIZE
            &&& plan[index].phys == page_base(mem) + (size_pages - 1 - index) * PAGE_SIZE
            &&& page_base(mem) <= plan[index].phys
            &&& plan[index].phys + PAGE_SIZE <= page_base(mem) + size_pages * PAGE_SIZE
            &&& forall|other: int|
                0 <= other < size_pages && other != index ==> (#[trigger] plan[other]).virt
                    != plan[index].virt && plan[other].phys != plan[index].phys
            &&& forall|other: int|
                0 <= other < size_pages && (#[trigger] plan[other]).virt > plan[index].virt
                    ==> plan[other].phys > plan[index].phys
        }),
{
    let plan = stack_plan(bottom, size_pages, mem);
    lemma_page_base_shifts(bottom, -index);
    lemma_page_base_shifts(mem, size_pages - 1 - index);
    assert forall|other: int| 0 <= other < size_pages implies (#[trigger] plan[other]).virt
        == page_base(bottom) - other * PAGE_SIZE && plan[other].phys == page_base(mem) + (size_pages
        - 1 - other) * PAGE_SIZE by {
        lemma_page_base_shifts(bottom, -other);
        lemma_page_base_shifts(mem, size_pages - 1 - other);
    }
}

/// Moving an address by whole pages moves the start of its page by as much.
proof fn lemma_page_base_shifts(addr: u64, pages: int)
    requires
        0 <= addr + pages * PAGE_SIZE <= u64::MAX,
    ensures
        page_base((addr + pages * PAGE_SIZE) as u64) == page_base(addr) + pages * PAGE_SIZE,
{
    vstd::arithmetic::div_mod::lemma_mod_multiples_vanish(pages, addr as int, PAGE_SIZE as int);
}

} // verus!
