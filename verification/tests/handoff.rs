use tyto::display::{ModeInfo, PixelFormat};
use tyto::handoff::{
    check_entry, offset_address, plan_framebuffer_run, Action, Event, Framebuffer, Handoff,
    HandoffError, Phase, Translation,
};
use tyto::layout::{KERNEL_STACK_BOTTOM, KERNEL_STACK_SIZE_PAGES, PHYS_MAP_OFFSET};
use tyto::memory_map::{MemoryMapEntry, MemoryMapError};
use tyto::paging::{
    translate, MapError, PageFlags, PageSize, FLAG_NO_EXECUTE, FLAG_PRESENT, FLAG_WRITABLE,
};

fn region(phys_start: u64, page_count: u64) -> MemoryMapEntry {
    MemoryMapEntry { region_type: 7, phys_start, virt_start: 0, page_count, attributes: 0 }
}

fn modes() -> Vec<ModeInfo> {
    vec![
        ModeInfo { width: 800, height: 600, stride: 800, format: PixelFormat::Bgr },
        ModeInfo { width: 1920, height: 1080, stride: 1920, format: PixelFormat::Bgr },
        ModeInfo { width: 640, height: 480, stride: 640, format: PixelFormat::Bgr },
    ]
}

fn executable() -> Translation {
    Translation::Mapped { flags: PageFlags::from_bits(FLAG_PRESENT) }
}

fn run_until_stack(handoff: &mut Handoff) {
    assert!(matches!(handoff.advance(Event::InterruptsDisabled), Action::QueryDisplayModes));
    assert!(matches!(handoff.advance(Event::DisplayModes(modes())), Action::SetDisplayMode(1)));
    let framebuffer = Framebuffer { base: 0x8000_0000, size: 1920 * 1080 * 4 };
    assert!(matches!(handoff.advance(Event::DisplayModeSet(framebuffer)), Action::ReadMemoryMap));
    assert!(matches!(
        handoff.advance(Event::MemoryMapRead(vec![region(0, 10)])),
        Action::CloneRootTable
    ));
}

#[test]
fn the_handoff_runs_its_ten_steps_in_order() {
    let (mut handoff, first) = Handoff::begin();
    assert!(matches!(first, Action::DisableInterrupts));
    assert_eq!(handoff.current_phase(), Phase::DisablingInterrupts);
    run_until_stack(&mut handoff);
    assert_eq!(handoff.current_phase(), Phase::CloningRootTable);

    let plan = match handoff.advance(Event::RootTableCloned) {
        Action::MapPages(plan) => plan,
        _ => panic!("the physical memory is mapped next"),
    };
    assert_eq!(handoff.current_phase(), Phase::MappingPhysicalMemory);
    assert_eq!(plan.len(), 10);
    for (index, request) in plan.iter().enumerate() {
        assert_eq!(request.virt, 0x1000_0000_0000 + 0x1000 * index as u64);
        assert_eq!(request.phys, 0x1000 * index as u64);
        assert_eq!(request.size, PageSize::Size4KiB);
        assert_eq!(request.flags, PageFlags::kernel_data());
        assert_eq!(request.parent_flags, PageFlags::table());
    }
    assert_eq!(translate(&plan, 0x1000_0000_0000), Some(0));
    assert_eq!(translate(&plan, 0x1000_0000_9fff), Some(0x9fff));
    assert_eq!(translate(&plan, 0x1000_0000_a000), None);

    let plan = match handoff.advance(Event::PagesMapped) {
        Action::MapPages(plan) => plan,
        _ => panic!("the framebuffer is mapped next"),
    };
    assert_eq!(handoff.current_phase(), Phase::MappingFramebuffer);
    assert_eq!(translate(&plan, PHYS_MAP_OFFSET + 0x8000_0000), Some(0x8000_0000));
    assert_eq!(
        translate(&plan, PHYS_MAP_OFFSET + 0x8000_0000 + 1920 * 1080 * 4 - 1),
        Some(0x8000_0000 + 1920 * 1080 * 4 - 1)
    );
    assert_eq!(translate(&plan, PHYS_MAP_OFFSET + 0x7fff_ffff), None);

    assert!(matches!(handoff.advance(Event::PagesMapped), Action::ReadMemoryMap));
    assert_eq!(handoff.current_phase(), Phase::RereadingMemoryMap);
    let regions = vec![region(0, 10), region(0x10_0000, 0x100)];
    match handoff.advance(Event::MemoryMapRead(regions.clone())) {
        Action::AllocateStack(pages) => assert_eq!(pages, KERNEL_STACK_SIZE_PAGES),
        _ => panic!("the stack is allocated next"),
    }
    let plan = match handoff.advance(Event::StackAllocated(0x10_0000)) {
        Action::MapPages(plan) => plan,
        _ => panic!("the stack is mapped next"),
    };
    assert_eq!(plan.len() as u64, KERNEL_STACK_SIZE_PAGES);
    assert_eq!(plan[0].virt, KERNEL_STACK_BOTTOM);
    assert_eq!(plan[0].phys, 0x10_0000 + 0x1000 * (KERNEL_STACK_SIZE_PAGES - 1));
    assert_eq!(plan[plan.len() - 1].phys, 0x10_0000);
    assert_eq!(plan[0].flags, PageFlags::kernel_stack());

    assert!(matches!(handoff.advance(Event::PagesMapped), Action::TranslateEntryPoint));
    assert!(matches!(handoff.advance(Event::EntryTranslated(executable())), Action::ExitBootServices));
    assert_eq!(handoff.current_phase(), Phase::ExitingBootServices);
    match handoff.advance(Event::BootServicesExited { system_table: 0x7000 }) {
        Action::SetVirtualAddressMap { entries, system_table } => {
            assert_eq!(system_table, 0x1000_0000_7000);
            assert_eq!(entries.len(), 2);
            for (before, after) in regions.iter().zip(entries.iter()) {
                assert_eq!(after.virt_start, before.phys_start + PHYS_MAP_OFFSET);
                assert_eq!(after.phys_start, before.phys_start);
                assert_eq!(after.page_count, before.page_count);
            }
        },
        _ => panic!("the address map is handed to the firmware next"),
    }
    assert_eq!(handoff.current_phase(), Phase::SettingVirtualAddressMap);
    match handoff.advance(Event::VirtualAddressMapSet { system_table: 0x1000_0000_7000 }) {
        Action::Transfer { args, stack_pointer } => {
            assert_eq!(stack_pointer, KERNEL_STACK_BOTTOM);
            assert_eq!(args.framebuffer_addr, 0x1000_8000_0000);
            assert_eq!(args.framebuffer_info, modes()[1]);
            assert_eq!(args.runtime_services, 0x1000_0000_7000);
            let entries = args.mmap.entries();
            assert_eq!(entries.len(), 2);
            assert_eq!(entries[0].virt_start, 0x1000_0000_0000);
            assert_eq!(entries[1].virt_start, 0x1000_0010_0000);
        },
        _ => panic!("control is transferred last"),
    }
    assert_eq!(handoff.current_phase(), Phase::Transferring);
    assert!(matches!(
        handoff.advance(Event::PagesMapped),
        Action::Halt(HandoffError::UnexpectedEvent)
    ));
}

#[test]
fn a_failed_operation_halts_the_handoff_for_good() {
    let (mut handoff, _) = Handoff::begin();
    assert!(matches!(handoff.advance(Event::Failed), Action::Halt(HandoffError::OperationFailed)));
    assert_eq!(handoff.current_phase(), Phase::Halted(HandoffError::OperationFailed));
    assert!(matches!(
        handoff.advance(Event::InterruptsDisabled),
        Action::Halt(HandoffError::OperationFailed)
    ));
    assert_eq!(handoff.current_phase(), Phase::Halted(HandoffError::OperationFailed));
}

#[test]
fn no_step_is_skipped() {
    let (mut handoff, _) = Handoff::begin();
    assert!(matches!(
        handoff.advance(Event::RootTableCloned),
        Action::Halt(HandoffError::UnexpectedEvent)
    ));
    let (mut handoff, _) = Handoff::begin();
    run_until_stack(&mut handoff);
    assert!(matches!(
        handoff.advance(Event::EntryTranslated(executable())),
        Action::Halt(HandoffError::UnexpectedEvent)
    ));
    assert_eq!(handoff.current_phase(), Phase::Halted(HandoffError::UnexpectedEvent));
}

#[test]
fn refused_modes_are_followed_by_the_next_preference() {
    let (mut handoff, _) = Handoff::begin();
    handoff.advance(Event::InterruptsDisabled);
    assert!(matches!(handoff.advance(Event::DisplayModes(modes())), Action::SetDisplayMode(1)));
    assert!(matches!(handoff.advance(Event::DisplayModeRefused), Action::SetDisplayMode(2)));
    assert_eq!(handoff.current_phase(), Phase::SettingDisplayMode);
    assert!(matches!(
        handoff.advance(Event::DisplayModeRefused),
        Action::Halt(HandoffError::NoDisplayMode)
    ));
    let (mut handoff, _) = Handoff::begin();
    handoff.advance(Event::InterruptsDisabled);
    assert!(matches!(
        handoff.advance(Event::DisplayModes(vec![modes()[0]])),
        Action::Halt(HandoffError::NoDisplayMode)
    ));
}

#[test]
fn an_unusable_memory_map_halts_the_handoff() {
    let (mut handoff, _) = Handoff::begin();
    handoff.advance(Event::InterruptsDisabled);
    handoff.advance(Event::DisplayModes(modes()));
    handoff.advance(Event::DisplayModeSet(Framebuffer { base: 0x8000_0000, size: 0x1000 }));
    let over: Vec<MemoryMapEntry> = (0..513).map(|index| region(index * 0x1000, 1)).collect();
    assert!(matches!(
        handoff.advance(Event::MemoryMapRead(over)),
        Action::Halt(HandoffError::MemoryMap(MemoryMapError::TooManyEntries))
    ));

    let (mut handoff, _) = Handoff::begin();
    handoff.advance(Event::InterruptsDisabled);
    handoff.advance(Event::DisplayModes(modes()));
    handoff.advance(Event::DisplayModeSet(Framebuffer { base: 0x8000_0000, size: 0x1000 }));
    handoff.advance(Event::MemoryMapRead(Vec::new()));
    assert!(matches!(
        handoff.advance(Event::RootTableCloned),
        Action::Halt(HandoffError::MemoryMap(MemoryMapError::Empty))
    ));

    let (mut handoff, _) = Handoff::begin();
    handoff.advance(Event::InterruptsDisabled);
    handoff.advance(Event::DisplayModes(modes()));
    handoff.advance(Event::DisplayModeSet(Framebuffer { base: 0x8000_0000, size: 0x1000 }));
    handoff.advance(Event::MemoryMapRead(vec![region(0, 0x1_0000_0000_0000)]));
    assert!(matches!(
        handoff.advance(Event::RootTableCloned),
        Action::Halt(HandoffError::Mapping(MapError::VirtualRangeNotCanonical))
    ));
}

#[test]
fn the_entry_point_must_be_mapped_and_executable() {
    assert_eq!(check_entry(executable()), Ok(()));
    let flags = PageFlags::from_bits(FLAG_PRESENT | FLAG_WRITABLE | FLAG_NO_EXECUTE);
    assert_eq!(
        check_entry(Translation::Mapped { flags }),
        Err(HandoffError::EntryNotExecutable { flags })
    );
    assert_eq!(check_entry(Translation::NotMapped), Err(HandoffError::EntryNotMapped));
    assert_eq!(check_entry(Translation::InvalidFrameAddress), Err(HandoffError::EntryNotMapped));
}

#[test]
fn addresses_move_to_the_offset_mapping() {
    assert_eq!(offset_address(0), Some(0x1000_0000_0000));
    assert_eq!(offset_address(0x8000_0000), Some(0x1000_8000_0000));
    assert_eq!(offset_address(u64::MAX - PHYS_MAP_OFFSET), Some(u64::MAX));
    assert_eq!(offset_address(u64::MAX - PHYS_MAP_OFFSET + 1), None);
}

#[test]
fn the_framebuffer_run_skips_what_is_mapped_already() {
    let framebuffer = Framebuffer { base: 0x8000_0000, size: 0x2800 };
    assert_eq!(
        plan_framebuffer_run(framebuffer, 10),
        Some((0x1000_8000_0000, 0x8000_0000, 3))
    );
    assert_eq!(
        plan_framebuffer_run(framebuffer, 0x8_0001),
        Some((0x1000_8000_1000, 0x8000_1000, 2))
    );
    assert_eq!(
        plan_framebuffer_run(framebuffer, 0x9_0000),
        Some((0x1000_9000_0000, 0x9000_0000, 0))
    );
    assert_eq!(plan_framebuffer_run(Framebuffer { base: u64::MAX, size: 1 }, 0), None);
    assert_eq!(
        plan_framebuffer_run(Framebuffer { base: 0xffff_f000_0000_0000, size: 0x1000 }, 0),
        None
    );
}
