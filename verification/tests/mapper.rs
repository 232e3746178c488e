use tyto::layout::{KERNEL_STACK_BOTTOM, KERNEL_STACK_SIZE_PAGES, PHYS_MAP_OFFSET};
use tyto::paging::{
    map_offset, map_sized, map_stack, translate, MapError, MapRequest, PageFlags, PageSize,
    FLAG_GLOBAL, FLAG_NO_EXECUTE, FLAG_PRESENT, FLAG_WRITABLE,
};

const GIB_PAGES: u64 = 262144;
const MIB2_PAGES: u64 = 512;

fn pages_of(plan: &[MapRequest]) -> u64 {
    plan.iter().map(|request| request.size.small_pages()).sum()
}

#[test]
fn ten_pages_are_mapped_at_the_offset() {
    let plan = map_offset(PHYS_MAP_OFFSET, 0, 10, PageFlags::kernel_data(), PageFlags::table())
        .expect("a ten-page run at the offset is valid");
    assert_eq!(plan.len(), 10);
    for (index, request) in plan.iter().enumerate() {
        let expected = MapRequest {
            virt: 0x1000_0000_0000 + 0x1000 * index as u64,
            phys: 0x1000 * index as u64,
            size: PageSize::Size4KiB,
            flags: PageFlags::kernel_data(),
            parent_flags: PageFlags::table(),
        };
        assert_eq!(*request, expected);
    }
    assert_eq!(translate(&plan, 0x1000_0000_0000), Some(0x0));
    assert_eq!(translate(&plan, 0x1000_0000_0001), Some(0x1));
    assert_eq!(translate(&plan, 0x1000_0000_5123), Some(0x5123));
    assert_eq!(translate(&plan, 0x1000_0000_9fff), Some(0x9fff));
    assert_eq!(translate(&plan, 0x1000_0000_a000), None);
    assert_eq!(translate(&plan, 0x0fff_ffff_ffff), None);
}

#[test]
fn page_sizes_and_alignment() {
    assert_eq!(PageSize::Size4KiB.bytes(), 0x1000);
    assert_eq!(PageSize::Size2MiB.bytes(), 0x20_0000);
    assert_eq!(PageSize::Size1GiB.bytes(), 0x4000_0000);
    assert_eq!(PageSize::Size4KiB.small_pages(), 1);
    assert_eq!(PageSize::Size2MiB.small_pages(), 512);
    assert_eq!(PageSize::Size1GiB.small_pages(), 262144);
    assert!(PageSize::Size4KiB.is_aligned(0));
    assert!(PageSize::Size4KiB.is_aligned(0x3000));
    assert!(!PageSize::Size4KiB.is_aligned(0x3001));
    assert!(!PageSize::Size4KiB.is_aligned(0xfff));
    assert!(PageSize::Size2MiB.is_aligned(0x40_0000));
    assert!(!PageSize::Size2MiB.is_aligned(0x10_0000));
    assert!(PageSize::Size1GiB.is_aligned(0x8000_0000));
    assert!(!PageSize::Size1GiB.is_aligned(0x20_0000));
}

#[test]
fn flags_are_the_hardware_bits() {
    assert_eq!(FLAG_PRESENT, 1);
    assert_eq!(FLAG_WRITABLE, 2);
    assert_eq!(FLAG_GLOBAL, 1 << 8);
    assert_eq!(FLAG_NO_EXECUTE, 1 << 63);
    assert_eq!(PageFlags::empty().bits, 0);
    assert_eq!(PageFlags::kernel_data().bits, 0x8000_0000_0000_0103);
    assert_eq!(PageFlags::kernel_stack().bits, 0x8000_0000_0000_0003);
    assert_eq!(PageFlags::table().bits, 0x3);
    assert!(PageFlags::kernel_data().contains(PageFlags::from_bits(FLAG_GLOBAL)));
    assert!(!PageFlags::kernel_stack().contains(PageFlags::from_bits(FLAG_GLOBAL)));
    assert_eq!(
        PageFlags::from_bits(FLAG_PRESENT).union(PageFlags::from_bits(FLAG_NO_EXECUTE)).bits,
        0x8000_0000_0000_0001
    );
}

#[test]
fn largest_pages_are_used_first() {
    let pages = GIB_PAGES + 3 * MIB2_PAGES + 7;
    let plan = map_offset(PHYS_MAP_OFFSET, 0, pages, PageFlags::kernel_data(), PageFlags::table())
        .expect("valid run");
    assert_eq!(plan.len(), 1 + 3 + 7);
    assert_eq!(plan[0].size, PageSize::Size1GiB);
    assert_eq!(plan[0].virt, PHYS_MAP_OFFSET);
    assert_eq!(plan[0].phys, 0);
    for index in 1..4 {
        assert_eq!(plan[index].size, PageSize::Size2MiB);
        assert_eq!(plan[index].phys, 0x4000_0000 + (index as u64 - 1) * 0x20_0000);
        assert_eq!(plan[index].virt, PHYS_MAP_OFFSET + plan[index].phys);
    }
    for index in 4..11 {
        assert_eq!(plan[index].size, PageSize::Size4KiB);
        assert_eq!(plan[index].phys, 0x4060_0000 + (index as u64 - 4) * 0x1000);
        assert_eq!(plan[index].virt, PHYS_MAP_OFFSET + plan[index].phys);
    }
    assert_eq!(pages_of(&plan), pages);
    assert_eq!(translate(&plan, PHYS_MAP_OFFSET + 0x4060_6fff), Some(0x4060_6fff));
    assert_eq!(translate(&plan, PHYS_MAP_OFFSET + 0x4060_7000), None);
    assert_eq!(translate(&plan, PHYS_MAP_OFFSET + 0x1234_5678), Some(0x1234_5678));
}

#[test]
fn the_passes_map_every_page() {
    for pages in [0, 1, 511, 512, 513, 1024, 262143, 262144, 262145, 262144 + 512 + 1, 600000] {
        for (virt, phys) in [
            (PHYS_MAP_OFFSET, 0u64),
            (PHYS_MAP_OFFSET + 0x1000, 0x1000),
            (PHYS_MAP_OFFSET + 0x20_0000, 0x20_0000),
            (PHYS_MAP_OFFSET, 0x20_0000),
            (PHYS_MAP_OFFSET + 0x1000, 0x40_0000),
        ] {
            let plan = map_offset(virt, phys, pages, PageFlags::kernel_data(), PageFlags::table())
                .expect("valid run");
            assert_eq!(pages_of(&plan), pages);
            let mut offset = 0;
            for request in &plan {
                assert_eq!(request.virt, virt + offset);
                assert_eq!(request.phys, phys + offset);
                assert_eq!(request.virt % request.size.bytes(), 0);
                assert_eq!(request.phys % request.size.bytes(), 0);
                offset += request.size.bytes();
            }
        }
    }
}

#[test]
fn misaligned_bases_fall_back_to_smaller_pages() {
    let plan = map_offset(
        PHYS_MAP_OFFSET + 0x20_0000,
        0x20_0000,
        GIB_PAGES,
        PageFlags::kernel_data(),
        PageFlags::table(),
    )
    .expect("valid run");
    assert_eq!(plan.len(), 512);
    assert!(plan.iter().all(|request| request.size == PageSize::Size2MiB));
    let plan = map_offset(PHYS_MAP_OFFSET, 0x1000, 1024, PageFlags::kernel_data(), PageFlags::table())
        .expect("valid run");
    assert_eq!(plan.len(), 1024);
    assert!(plan.iter().all(|request| request.size == PageSize::Size4KiB));
}

#[test]
fn map_sized_maps_whole_pages_only() {
    let mut plan = Vec::new();
    let done = map_sized(
        PageSize::Size2MiB,
        0x40_0000,
        0x80_0000,
        1300,
        PageFlags::kernel_data(),
        PageFlags::table(),
        &mut plan,
    );
    assert_eq!(done, 1024);
    assert_eq!(plan.len(), 2);
    assert_eq!(plan[1].virt, 0x60_0000);
    assert_eq!(plan[1].phys, 0xa0_0000);
    let done = map_sized(
        PageSize::Size2MiB,
        0x40_1000,
        0x80_0000,
        1300,
        PageFlags::kernel_data(),
        PageFlags::table(),
        &mut plan,
    );
    assert_eq!(done, 0);
    assert_eq!(plan.len(), 2);
    let done = map_sized(
        PageSize::Size1GiB,
        0,
        0,
        262143,
        PageFlags::kernel_data(),
        PageFlags::table(),
        &mut plan,
    );
    assert_eq!(done, 0);
    assert_eq!(plan.len(), 2);
}

#[test]
fn invalid_runs_are_refused() {
    let flags = PageFlags::kernel_data();
    let table = PageFlags::table();
    assert_eq!(
        map_offset(0x0000_8000_0000_0000, 0, 1, flags, table),
        Err(MapError::InvalidVirtualAddress)
    );
    assert_eq!(
        map_offset(0xffff_7fff_ffff_f000, 0, 1, flags, table),
        Err(MapError::InvalidVirtualAddress)
    );
    assert_eq!(
        map_offset(PHYS_MAP_OFFSET, 0x10_0000_0000_0000, 1, flags, table),
        Err(MapError::InvalidPhysicalAddress)
    );
    assert_eq!(
        map_offset(PHYS_MAP_OFFSET + 0x800, 0, 1, flags, table),
        Err(MapError::UnalignedVirtualAddress)
    );
    assert_eq!(
        map_offset(0xffff_ffff_ffff_f000, 0, 1, flags, table),
        Err(MapError::RangeOverflow)
    );
    assert_eq!(map_offset(PHYS_MAP_OFFSET, 0, u64::MAX, flags, table), Err(MapError::RangeOverflow));
    assert_eq!(
        map_offset(0x0000_7fff_ffff_f000, 0, 1, flags, table),
        Err(MapError::VirtualRangeNotCanonical)
    );
    assert_eq!(
        map_offset(PHYS_MAP_OFFSET, 0xf_ffff_ffff_f000, 1, flags, table),
        Err(MapError::PhysicalRangeOutOfBounds)
    );
    assert_eq!(
        map_offset(PHYS_MAP_OFFSET, 0x800, 3, flags, table),
        Err(MapError::IncompleteMapping { mapped: 0, requested: 3 })
    );
    assert_eq!(map_offset(PHYS_MAP_OFFSET, 0x800, 0, flags, table), Ok(Vec::new()));
    assert_eq!(map_offset(0xffff_8000_0000_0000, 0, 2, flags, table).map(|plan| plan.len()), Ok(2));
}

#[test]
fn the_stack_is_mapped_downward() {
    let mem = 0x7_0000;
    let plan = map_stack(KERNEL_STACK_BOTTOM, KERNEL_STACK_SIZE_PAGES, mem).expect("valid stack");
    assert_eq!(plan.len() as u64, KERNEL_STACK_SIZE_PAGES);
    for (index, request) in plan.iter().enumerate() {
        let index = index as u64;
        assert_eq!(request.virt, KERNEL_STACK_BOTTOM - 0x1000 * index);
        assert_eq!(request.phys, mem + 0x1000 * (KERNEL_STACK_SIZE_PAGES - 1 - index));
        assert!(mem <= request.phys && request.phys + 0x1000 <= mem + 0x1000 * KERNEL_STACK_SIZE_PAGES);
        assert_eq!(request.size, PageSize::Size4KiB);
        assert_eq!(request.flags, PageFlags::kernel_stack());
        assert_eq!(request.parent_flags, PageFlags::table());
    }
    assert_eq!(plan[0].phys, mem + 0x1000 * (KERNEL_STACK_SIZE_PAGES - 1));
    assert_eq!(plan[plan.len() - 1].phys, mem);
    let plan = map_stack(0x5432, 2, 0x1234).expect("valid stack");
    assert_eq!(plan[0].virt, 0x5000);
    assert_eq!(plan[0].phys, 0x2000);
    assert_eq!(plan[1].virt, 0x4000);
    assert_eq!(plan[1].phys, 0x1000);
    let plan = map_stack(0x9000, 1, 0x4000).expect("valid stack");
    assert_eq!(plan.len(), 1);
    assert_eq!((plan[0].virt, plan[0].phys), (0x9000, 0x4000));
}

#[test]
fn invalid_stacks_are_refused() {
    assert_eq!(map_stack(KERNEL_STACK_BOTTOM, 0, 0), Err(MapError::EmptyStack));
    assert_eq!(map_stack(0x0000_8000_0000_0000, 1, 0), Err(MapError::InvalidVirtualAddress));
    assert_eq!(map_stack(0x3000, 5, 0), Err(MapError::RangeOverflow));
    assert_eq!(map_stack(0x3000, u64::MAX, 0), Err(MapError::RangeOverflow));
    assert_eq!(
        map_stack(0xffff_8000_0000_1000, 3, 0),
        Err(MapError::VirtualRangeNotCanonical)
    );
    assert_eq!(
        map_stack(KERNEL_STACK_BOTTOM, 4, 0xf_ffff_ffff_c000),
        Err(MapError::PhysicalRangeOutOfBounds)
    );
    assert_eq!(map_stack(KERNEL_STACK_BOTTOM, 3, 0xf_ffff_ffff_c000).map(|plan| plan.len()), Ok(3));
    assert_eq!(map_stack(0x3000, 4, 0).map(|plan| plan.len()), Ok(4));
}
