//! The handoff from the loader to the kernel: a strictly ordered sequence of
//! firmware and hardware operations, every one of them fatal on failure.
//!
//! The sequencer decides what is done next and with which values; the caller
//! performs each action and reports what came of it.

use vstd::prelude::*;
use crate::display::{
    is_next_candidate, next_candidate, no_candidate, Candidate, ModeInfo, PixelFormat,
    PREFERENCE_COUNT,
};
use crate::layout::{
    KERNEL_STACK_BOTTOM, KERNEL_STACK_SIZE_PAGES, PAGE_SIZE, PHYS_MAP_OFFSET,
};
use crate::memory_map::{
    can_relocate, ends_are_countable, lemma_page_span_is_unique, page_span, relocated,
    MemoryMap, MemoryMapEntry, MemoryMapError, MEMORY_MAP_CAPACITY,
};
use crate::paging::{
    map_check, map_offset, map_stack, offset_plan, stack_check, stack_plan, MapError, MapRequest,
    PageFlags, FLAG_GLOBAL, FLAG_NO_EXECUTE, FLAG_PRESENT, FLAG_WRITABLE,
};

verus! {

/// What the page tables say about one virtual address.
#[derive(Clone, Copy, Debug, PartialEq, Eq, Structural)]
pub enum Translation {
    /// The address is mapped, with these flags on its entry.
    Mapped { flags: PageFlags },
    /// No entry maps the address.
    NotMapped,
    /// An entry on the way holds a frame address that is not valid.
    InvalidFrameAddress,
}

/// Why the handoff stopped. Every one of these halts the system.
#[derive(Clone, Copy, Debug, PartialEq, Eq, Structural)]
pub enum HandoffError {
    /// The caller reported that the pending operation failed.
    OperationFailed,
    /// The caller reported something other than the outcome of the pending
    /// operation.
    UnexpectedEvent,
    /// No display mode matches a preferred resolution, or every one that does
    /// was refused.
    NoDisplayMode,
    /// The memory map cannot be used.
    MemoryMap(MemoryMapError),
    /// A mapping cannot be planned.
    Mapping(MapError),
    /// The framebuffer, or the firmware's system table, would lie beyond the
    /// end of the address space once moved to the offset mapping.
    AddressOverflow,
    /// The kernel entry point is mapped, but instruction fetches from it are
    /// forbidden.
    EntryNotExecutable { flags: PageFlags },
    /// The kernel entry point is not mapped.
    EntryNotMapped,
}

/// The framebuffer as the firmware hands it out.
#[derive(Clone, Copy, Debug, PartialEq, Eq, Structural)]
pub struct Framebuffer {
    /// Physical address of the first pixel.
    pub base: u64,
    /// Size in bytes.
    pub size: u64,
}

/// Everything the kernel is given: the whole contract between the loader and
/// the kernel.
pub struct KernelArgs {
    /// Virtual address of the first pixel of the framebuffer, in the offset
    /// mapping of physical memory.
    pub framebuffer_addr: u64,
    /// Geometry of the display mode that was set.
    pub framebuffer_info: ModeInfo,
    /// The memory map, every region relocated to the offset mapping.
    pub mmap: MemoryMap,
    /// Handle to the firmware's runtime services: the virtual address of its
    /// system table.
    pub runtime_services: u64,
}

/// Whether control may be transferred to an entry point with this translation:
/// it must be mapped and executable.
pub open spec fn entry_verdict(translation: Translation) -> Result<(), HandoffError> {
    match translation {
        Translation::Mapped { flags } => if flags.bits & FLAG_NO_EXECUTE == FLAG_NO_EXECUTE {
            Err(HandoffError::EntryNotExecutable { flags })
        } else {
            Ok(())
        },
        _ => Err(HandoffError::EntryNotMapped),
    }
}

/// Checks that the kernel entry point can be jumped to: its address is mapped
/// and its entry does not forbid execution.
pub fn check_entry(translation: Translation) -> (result: Result<(), HandoffError>)
    ensures
        result == entry_verdict(translation),
{
    match translation {
        Translation::Mapped { flags } => {
            if flags.contains(PageFlags::from_bits(FLAG_NO_EXECUTE)) {
                Err(HandoffError::EntryNotExecutable { flags })
            } else {
                Ok(())
            }
        },
        _ => Err(HandoffError::EntryNotMapped),
    }
}

/// The address at which the physical address `phys` is visible in the offset
/// mapping, if it lies within the address space.
pub fn offset_address(phys: u64) -> (result: Option<u64>)
    ensures
        result == if phys + PHYS_MAP_OFFSET <= u64::MAX {
            Some((phys + PHYS_MAP_OFFSET) as u64)
        } else {
            None
        },
{
    phys.checked_add(PHYS_MAP_OFFSET)
}

/// The operation whose outcome the sequencer is waiting for.
#[derive(Clone, Copy, Debug, PartialEq, Eq, Structural)]
pub enum Phase {
    DisablingInterrupts,
    QueryingDisplayModes,
    SettingDisplayMode,
    ReadingMemoryMap,
    CloningRootTable,
    MappingPhysicalMemory,
    MappingFramebuffer,
    RereadingMemoryMap,
    AllocatingStack,
    MappingStack,
    TranslatingEntryPoint,
    ExitingBootServices,
    SettingVirtualAddressMap,
    /// Control has been handed to the kernel; nothing is awaited any more.
    Transferring,
    /// The handoff stopped for this reason; nothing is awaited any more.
    Halted(HandoffError),
}

impl Phase {
    /// The step of the handoff, from 1 to 10, that the phase belongs to; 0 for
    /// a halted handoff.
    pub open spec fn step(self) -> nat {
        match self {
            Phase::DisablingInterrupts => 1,
            Phase::QueryingDisplayModes => 2,
            Phase::SettingDisplayMode => 2,
            Phase::ReadingMemoryMap => 3,
            Phase::CloningRootTable => 4,
            Phase::MappingPhysicalMemory => 5,
            Phase::MappingFramebuffer => 5,
            Phase::RereadingMemoryMap => 6,
            Phase::AllocatingStack => 6,
            Phase::MappingStack => 6,
            Phase::TranslatingEntryPoint => 7,
            Phase::ExitingBootServices => 8,
            Phase::SettingVirtualAddressMap => 9,
            Phase::Transferring => 10,
            Phase::Halted(_) => 0,
        }
    }
}

/// What the caller reports after performing an action.
pub enum Event {
    /// Interrupts are off.
    InterruptsDisabled,
    /// The display modes the firmware offers, in its order.
    DisplayModes(Vec<ModeInfo>),
    /// The mode that was asked for is set; this is its framebuffer.
    DisplayModeSet(Framebuffer),
    /// The firmware refused the mode that was asked for.
    DisplayModeRefused,
    /// The regions of the firmware memory map, in its order.
    MemoryMapRead(Vec<MemoryMapEntry>),
    /// The top-level page table was copied and the copy is active.
    RootTableCloned,
    /// Every mapping of the plan is installed.
    PagesMapped,
    /// The frames of the kernel stack were allocated, starting at this
    /// physical address.
    StackAllocated(u64),
    /// What the page tables say about the kernel entry point.
    EntryTranslated(Translation),
    /// Boot services are gone; the firmware's system table lies at this
    /// physical address.
    BootServicesExited { system_table: u64 },
    /// The firmware moved its runtime services to the new address map; its
    /// system table is now reached through this handle.
    VirtualAddressMapSet { system_table: u64 },
    /// The operation failed.
    Failed,
}

/// What the caller has to do next.
pub enum Action {
    /// Turn interrupts off.
    DisableInterrupts,
    /// Ask the firmware for its display modes.
    QueryDisplayModes,
    /// Set the display mode at this index of the firmware's list.
    SetDisplayMode(usize),
    /// Read the firmware memory map.
    ReadMemoryMap,
    /// Copy the top-level page table into a fresh frame and make the copy
    /// active.
    CloneRootTable,
    /// Install these mappings, in order.
    MapPages(Vec<MapRequest>),
    /// Allocate this many contiguous frames for the kernel stack.
    AllocateStack(u64),
    /// Look the kernel entry point up in the page tables.
    TranslateEntryPoint,
    /// Leave the firmware's boot services.
    ExitBootServices,
    /// Hand the relocated memory map to the firmware, together with the
    /// virtual address of its system table.
    SetVirtualAddressMap { entries: Vec<MemoryMapEntry>, system_table: u64 },
    /// Switch to the stack at `stack_pointer` and enter the kernel with
    /// `args`. This does not return.
    Transfer { args: KernelArgs, stack_pointer: u64 },
    /// Report the error and halt.
    Halt(HandoffError),
}

/// The first frame of the framebuffer that the offset mapping of physical
/// memory does not reach, counted in 4 KiB pages from physical address 0.
pub open spec fn framebuffer_first_page(framebuffer: Framebuffer, mapped_pages: u64) -> int {
    if framebuffer.base / PAGE_SIZE >= mapped_pages {
        (framebuffer.base / PAGE_SIZE) as int
    } else {
        mapped_pages as int
    }
}

/// Number of 4 KiB frames of the framebuffer that the offset mapping of
/// physical memory does not reach.
pub open spec fn framebuffer_pages(framebuffer: Framebuffer, mapped_pages: u64) -> int {
    let end = (framebuffer.base + framebuffer.size + PAGE_SIZE - 1) / (PAGE_SIZE as int);
    let first = framebuffer_first_page(framebuffer, mapped_pages);
    if end >= first {
        end - first
    } else {
        0
    }
}

/// The run that makes the framebuffer visible in the offset mapping, as
/// virtual base, physical base and number of 4 KiB pages; nothing if an
/// address of the run does not fit in 64 bits.
pub open spec fn framebuffer_run(framebuffer: Framebuffer, mapped_pages: u64) -> Option<
    (u64, u64, u64),
> {
    let first = framebuffer_first_page(framebuffer, mapped_pages);
    let pages = framebuffer_pages(framebuffer, mapped_pages);
    if framebuffer.base + framebuffer.size + PAGE_SIZE - 1 > u64::MAX || first * PAGE_SIZE
        + PHYS_MAP_OFFSET > u64::MAX {
        None
    } else {
        Some(
            ((first * PAGE_SIZE + PHYS_MAP_OFFSET) as u64, (first * PAGE_SIZE) as u64, pages as u64),
        )
    }
}

/// Works out the run that makes the framebuffer visible in the offset
/// mapping: the frames it occupies that lie at or above `mapped_pages`, the
/// number of pages the offset mapping of physical memory already reaches.
pub fn plan_framebuffer_run(framebuffer: Framebuffer, mapped_pages: u64) -> (result: Option<
    (u64, u64, u64),
>)
    ensures
        result == framebuffer_run(framebuffer, mapped_pages),
{
    let last = match framebuffer.base.checked_add(framebuffer.size) {
        Some(end) => end.checked_add(PAGE_SIZE - 1),
        None => None,
    };
    let end = match last {
        Some(last) => last / PAGE_SIZE,
        None => {
            return None;
        },
    };
    let base_page = framebuffer.base / PAGE_SIZE;
    let first = if base_page >= mapped_pages {
        base_page
    } else {
        mapped_pages
    };
    let phys = match first.checked_mul(PAGE_SIZE) {
        Some(phys) => phys,
        None => {
            return None;
        },
    };
    let virt = match phys.checked_add(PHYS_MAP_OFFSET) {
        Some(virt) => virt,
        None => {
            return None;
        },
    };
    let pages = if end >= first {
        end - first
    } else {
        0
    };
    Some((virt, phys, pages))
}

/// The handoff sequencer: the phase it is in and what it has learnt so far.
pub struct Handoff {
    phase: Phase,
    modes: Vec<ModeInfo>,
    candidate: Candidate,
    framebuffer: Framebuffer,
    mode: ModeInfo,
    mmap: MemoryMap,
    mapped_pages: u64,
}

impl Handoff {
    /// While a display mode is being set, the candidate is a mode of the list;
    /// once boot services are gone, the memory map is relocated.
    #[verifier::type_invariant]
    closed spec fn inv(self) -> bool {
        &&& self.phase == Phase::SettingDisplayMode ==> self.candidate.mode < self.modes@.len()
            && self.candidate.preference < PREFERENCE_COUNT
        &&& self.phase == Phase::SettingVirtualAddressMap ==> is_offset_mapped(self.mmap@)
    }

    /// The operation whose outcome is awaited.
    pub closed spec fn phase(self) -> Phase {
        self.phase
    }

    /// The display modes the firmware offered.
    pub closed spec fn modes(self) -> Seq<ModeInfo> {
        self.modes@
    }

    /// The display mode that is being tried, or was set.
    pub closed spec fn candidate(self) -> Candidate {
        self.candidate
    }

    /// The framebuffer of the mode that was set.
    pub closed spec fn framebuffer(self) -> Framebuffer {
        self.framebuffer
    }

    /// The geometry of the mode that was set.
    pub closed spec fn mode(self) -> ModeInfo {
        self.mode
    }

    /// The memory map as it was last read.
    pub closed spec fn memory_map(self) -> Seq<MemoryMapEntry> {
        self.mmap@
    }

    /// Number of 4 KiB pages of physical memory the offset mapping reaches.
    pub closed spec fn mapped_pages(self) -> u64 {
        self.mapped_pages
    }

    /// Tells the operation whose outcome is awaited.
    pub fn current_phase(&self) -> (phase: Phase)
        ensures
            phase == self.phase(),
    {
        self.phase
    }
}

/// Whether every region is visible at its physical start plus the offset of
/// the mapping of physical memory.
pub open spec fn is_offset_mapped(entries: Seq<MemoryMapEntry>) -> bool {
    forall|i: int|
        0 <= i < entries.len() ==> (#[trigger] entries[i]).virt_start == entries[i].phys_start
            + PHYS_MAP_OFFSET
}

/// Whether `post` keeps everything `pre` has learnt.
pub open spec fn keeps_data(pre: Handoff, post: Handoff) -> bool {
    &&& post.modes() == pre.modes()
    &&& post.candidate() == pre.candidate()
    &&& post.framebuffer() == pre.framebuffer()
    &&& post.mode() == pre.mode()
    &&& post.memory_map() == pre.memory_map()
    &&& post.mapped_pages() == pre.mapped_pages()
}

/// Whether the handoff stopped for `error`.
pub open spec fn halts(post: Handoff, action: Action, error: HandoffError) -> bool {
    post.phase() == Phase::Halted(error) && action == Action::Halt(error)
}

/// Whether the handoff went on to `phase` with nothing new learnt.
pub open spec fn proceeds(pre: Handoff, post: Handoff, phase: Phase) -> bool {
    post.phase() == phase && keeps_data(pre, post)
}

/// The flags of the offset mapping of physical memory.
pub open spec fn data_flags() -> PageFlags {
    PageFlags { bits: FLAG_PRESENT | FLAG_WRITABLE | FLAG_GLOBAL | FLAG_NO_EXECUTE }
}

/// The flags of the tables above a mapping.
pub open spec fn table_flags() -> PageFlags {
    PageFlags { bits: FLAG_PRESENT | FLAG_WRITABLE }
}

/// What the sequencer does when the display modes arrive, or when the mode it
/// asked for was refused: it asks for the next candidate from preference
/// `from` on, and stops if there is none.
pub open spec fn tries_mode(
    pre: Handoff,
    post: Handoff,
    action: Action,
    modes: Seq<ModeInfo>,
    from: usize,
) -> bool {
    if no_candidate(modes, from) {
        halts(post, action, HandoffError::NoDisplayMode)
    } else {
        &&& post.phase() == Phase::SettingDisplayMode
        &&& post.modes() == modes
        &&& is_next_candidate(modes, from, post.candidate())
        &&& action == Action::SetDisplayMode(post.candidate().mode)
        &&& post.framebuffer() == pre.framebuffer()
        &&& post.mode() == pre.mode()
        &&& post.memory_map() == pre.memory_map()
        &&& post.mapped_pages() == pre.mapped_pages()
    }
}

/// What the sequencer does when a memory map arrives: it keeps the regions, if
/// they fit, and goes on to `phase`.
pub open spec fn keeps_memory_map(
    pre: Handoff,
    post: Handoff,
    action: Action,
    regions: Seq<MemoryMapEntry>,
    phase: Phase,
) -> bool {
    if regions.len() > MEMORY_MAP_CAPACITY {
        halts(post, action, HandoffError::MemoryMap(MemoryMapError::TooManyEntries))
    } else {
        &&& post.phase() == phase
        &&& post.memory_map() == regions
        &&& post.modes() == pre.modes()
        &&& post.candidate() == pre.candidate()
        &&& post.framebuffer() == pre.framebuffer()
        &&& post.mode() == pre.mode()
        &&& post.mapped_pages() == pre.mapped_pages()
    }
}

/// What the sequencer does once the copy of the top-level table is active: it
/// plans the offset mapping of all physical memory the memory map describes.
pub open spec fn maps_physical_memory(pre: Handoff, post: Handoff, action: Action) -> bool {
    let regions = pre.memory_map();
    if regions.len() == 0 {
        halts(post, action, HandoffError::MemoryMap(MemoryMapError::Empty))
    } else if !ends_are_countable(regions) {
        halts(post, action, HandoffError::MemoryMap(MemoryMapError::PageCountOverflow))
    } else {
        let pages = page_span(regions) as u64;
        match map_check(PHYS_MAP_OFFSET, 0, pages) {
            Some(error) => halts(post, action, HandoffError::Mapping(error)),
            None => {
                &&& post.phase() == Phase::MappingPhysicalMemory
                &&& post.mapped_pages() == pages
                &&& action matches Action::MapPages(plan)
                &&& plan@ == offset_plan(PHYS_MAP_OFFSET, 0, pages, data_flags(), table_flags())
                &&& post.modes() == pre.modes()
                &&& post.candidate() == pre.candidate()
                &&& post.framebuffer() == pre.framebuffer()
                &&& post.mode() == pre.mode()
                &&& post.memory_map() == pre.memory_map()
            },
        }
    }
}

/// What the sequencer does once physical memory is mapped: it plans the
/// mapping of the frames of the framebuffer that this mapping does not reach.
pub open spec fn maps_framebuffer(pre: Handoff, post: Handoff, action: Action) -> bool {
    match framebuffer_run(pre.framebuffer(), pre.mapped_pages()) {
        None => halts(post, action, HandoffError::AddressOverflow),
        Some((virt, phys, pages)) => match map_check(virt, phys, pages) {
            Some(error) => halts(post, action, HandoffError::Mapping(error)),
            None => {
                &&& proceeds(pre, post, Phase::MappingFramebuffer)
                &&& action matches Action::MapPages(plan)
                &&& plan@ == offset_plan(virt, phys, pages, data_flags(), table_flags())
            },
        },
    }
}

/// What the sequencer does once the frames of the stack are allocated at
/// `mem`: it plans the mapping of the kernel stack onto them.
pub open spec fn maps_stack(pre: Handoff, post: Handoff, action: Action, mem: u64) -> bool {
    match stack_check(KERNEL_STACK_BOTTOM, KERNEL_STACK_SIZE_PAGES, mem) {
        Some(error) => halts(post, action, HandoffError::Mapping(error)),
        None => {
            &&& proceeds(pre, post, Phase::MappingStack)
            &&& action matches Action::MapPages(plan)
            &&& plan@ == stack_plan(KERNEL_STACK_BOTTOM, KERNEL_STACK_SIZE_PAGES, mem)
        },
    }
}

/// What the sequencer does once boot services are gone: it relocates the
/// memory map to the offset mapping and hands it to the firmware with the
/// virtual address of the system table.
pub open spec fn relocates(pre: Handoff, post: Handoff, action: Action, system_table: u64) -> bool {
    if !can_relocate(pre.memory_map(), PHYS_MAP_OFFSET) {
        halts(post, action, HandoffError::MemoryMap(MemoryMapError::AddressOverflow))
    } else if system_table + PHYS_MAP_OFFSET > u64::MAX {
        halts(post, action, HandoffError::AddressOverflow)
    } else {
        &&& post.phase() == Phase::SettingVirtualAddressMap
        &&& post.memory_map() == relocated(pre.memory_map(), PHYS_MAP_OFFSET)
        &&& action matches Action::SetVirtualAddressMap { entries, system_table: table }
        &&& entries@ == post.memory_map()
        &&& table == system_table + PHYS_MAP_OFFSET
        &&& post.modes() == pre.modes()
        &&& post.candidate() == pre.candidate()
        &&& post.framebuffer() == pre.framebuffer()
        &&& post.mode() == pre.mode()
        &&& post.mapped_pages() == pre.mapped_pages()
    }
}

/// What the sequencer does once the firmware runs on the new address map: it
/// packages the kernel arguments and hands control to the kernel.
pub open spec fn transfers(pre: Handoff, post: Handoff, action: Action, system_table: u64) -> bool {
    if pre.framebuffer().base + PHYS_MAP_OFFSET > u64::MAX {
        halts(post, action, HandoffError::AddressOverflow)
    } else {
        &&& post.phase() == Phase::Transferring
        &&& action matches Action::Transfer { args, stack_pointer }
        &&& stack_pointer == KERNEL_STACK_BOTTOM
        &&& args.framebuffer_addr == pre.framebuffer().base + PHYS_MAP_OFFSET
        &&& args.framebuffer_info == pre.mode()
        &&& args.mmap@ == pre.memory_map()
        &&& args.runtime_services == system_table
    }
}

/// The one step the sequencer takes from `pre` when `event` is reported. Each
/// phase awaits one kind of event; `Failed`, or an event of another kind,
/// stops the handoff, and a handoff that has stopped or has transferred
/// control stays as it is.
pub open spec fn advances(pre: Handoff, event: Event, post: Handoff, action: Action) -> bool {
    match (pre.phase(), event) {
        (Phase::Halted(error), _) => halts(post, action, error),
        (Phase::Transferring, _) => halts(post, action, HandoffError::UnexpectedEvent),
        (_, Event::Failed) => halts(post, action, HandoffError::OperationFailed),
        (Phase::DisablingInterrupts, Event::InterruptsDisabled) => proceeds(
            pre,
            post,
            Phase::QueryingDisplayModes,
        ) && action == Action::QueryDisplayModes,
        (Phase::QueryingDisplayModes, Event::DisplayModes(modes)) => tries_mode(
            pre,
            post,
            action,
            modes@,
            0,
        ),
        (Phase::SettingDisplayMode, Event::DisplayModeRefused) => tries_mode(
            pre,
            post,
            action,
            pre.modes(),
            (pre.candidate().preference + 1) as usize,
        ),
        (Phase::SettingDisplayMode, Event::DisplayModeSet(framebuffer)) => {
            &&& post.phase() == Phase::ReadingMemoryMap
            &&& action == Action::ReadMemoryMap
            &&& post.framebuffer() == framebuffer
            &&& post.mode() == pre.modes()[pre.candidate().mode as int]
            &&& post.modes() == pre.modes()
            &&& post.candidate() == pre.candidate()
            &&& post.memory_map() == pre.memory_map()
            &&& post.mapped_pages() == pre.mapped_pages()
        },
        (Phase::ReadingMemoryMap, Event::MemoryMapRead(regions)) => {
            &&& keeps_memory_map(pre, post, action, regions@, Phase::CloningRootTable)
            &&& regions@.len() <= MEMORY_MAP_CAPACITY ==> action == Action::CloneRootTable
        },
        (Phase::CloningRootTable, Event::RootTableCloned) => maps_physical_memory(pre, post, action),
        (Phase::MappingPhysicalMemory, Event::PagesMapped) => maps_framebuffer(pre, post, action),
        (Phase::MappingFramebuffer, Event::PagesMapped) => proceeds(
            pre,
            post,
            Phase::RereadingMemoryMap,
        ) && action == Action::ReadMemoryMap,
        (Phase::RereadingMemoryMap, Event::MemoryMapRead(regions)) => {
            &&& keeps_memory_map(pre, post, action, regions@, Phase::AllocatingStack)
            &&& regions@.len() <= MEMORY_MAP_CAPACITY ==> action == Action::AllocateStack(
                KERNEL_STACK_SIZE_PAGES,
            )
        },
        (Phase::AllocatingStack, Event::StackAllocated(mem)) => maps_stack(pre, post, action, mem),
        (Phase::MappingStack, Event::PagesMapped) => proceeds(
            pre,
            post,
            Phase::TranslatingEntryPoint,
        ) && action == Action::TranslateEntryPoint,
        (Phase::TranslatingEntryPoint, Event::EntryTranslated(translation)) => match entry_verdict(
            translation,
        ) {
            Err(error) => halts(post, action, error),
            Ok(()) => proceeds(pre, post, Phase::ExitingBootServices) && action
                == Action::ExitBootServices,
        },
        (Phase::ExitingBootServices, Event::BootServicesExited { system_table }) => relocates(
            pre,
            post,
            action,
            system_table,
        ),
        (Phase::SettingVirtualAddressMap, Event::VirtualAddressMapSet { system_table }) => transfers(
            pre,
            post,
            action,
            system_table,
        ),
        _ => halts(post, action, HandoffError::UnexpectedEvent),
    }
}

impl Handoff {
    /// Starts the handoff: interrupts are turned off first, since no handler
    /// table exists yet.
    pub fn begin() -> (start: (Handoff, Action))
        ensures
            start.0.phase() == Phase::DisablingInterrupts,
            start.1 == Action::DisableInterrupts,
            start.0.modes().len() == 0,
            start.0.memory_map().len() == 0,
    {
        let handoff = Handoff {
            phase: Phase::DisablingInterrupts,
            modes: Vec::new(),
            candidate: Candidate { preference: 0, mode: 0 },
            framebuffer: Framebuffer { base: 0, size: 0 },
            mode: ModeInfo { width: 0, height: 0, stride: 0, format: PixelFormat::BltOnly },
            mmap: MemoryMap::new(),
            mapped_pages: 0,
        };
        (handoff, Action::DisableInterrupts)
    }

    /// Stops the handoff for `error`.
    fn halt(&mut self, error: HandoffError) -> (action: Action)
        ensures
            halts(*final(self), action, error),
    {
        self.phase = Phase::Halted(error);
        Action::Halt(error)
    }

    /// Goes on to `phase`, which is neither of the two phases that promise
    /// something about what was learnt.
    fn proceed(&mut self, phase: Phase)
        requires
            phase != Phase::SettingDisplayMode,
            phase != Phase::SettingVirtualAddressMap,
        ensures
            proceeds(*old(self), *final(self), phase),
    {
        self.phase = phase;
    }

    /// Asks for the next display mode from preference `from` on.
    fn try_mode(&mut self, from: usize) -> (action: Action)
        ensures
            tries_mode(*old(self), *final(self), action, old(self).modes(), from),
    {
        match next_candidate(&self.modes, from) {
            Some(candidate) => {
                assert(crate::display::mode_matches(
                    self.modes@[candidate.mode as int],
                    candidate.preference,
                ));
                self.phase = Phase::Halted(HandoffError::NoDisplayMode);
                self.candidate = candidate;
                self.phase = Phase::SettingDisplayMode;
                Action::SetDisplayMode(candidate.mode)
            },
            None => self.halt(HandoffError::NoDisplayMode),
        }
    }

    /// Keeps the regions of a memory map that was read and goes on to `phase`.
    fn keep_memory_map(&mut self, regions: &Vec<MemoryMapEntry>, phase: Phase, then: Action) -> (action:
        Action)
        requires
            phase != Phase::SettingDisplayMode,
            phase != Phase::SettingVirtualAddressMap,
            old(self).phase() != Phase::SettingVirtualAddressMap,
        ensures
            keeps_memory_map(*old(self), *final(self), action, regions@, phase),
            regions@.len() <= MEMORY_MAP_CAPACITY ==> action == then,
    {
        proof {
            use_type_invariant(&*self);
        }
        match MemoryMap::snapshot(regions) {
            Ok(map) => {
                self.mmap = map;
                self.phase = phase;
                then
            },
            Err(_) => self.halt(HandoffError::MemoryMap(MemoryMapError::TooManyEntries)),
        }
    }

    /// Plans the offset mapping of physical memory.
    fn map_physical_memory(&mut self) -> (action: Action)
        requires
            old(self).phase() != Phase::SettingVirtualAddressMap,
        ensures
            maps_physical_memory(*old(self), *final(self), action),
    {
        let pages = match self.mmap.physical_pages() {
            Ok(pages) => pages,
            Err(error) => {
                return self.halt(HandoffError::MemoryMap(error));
            },
        };
        proof {
            lemma_page_span_is_unique(self.mmap@, pages as int, page_span(self.mmap@));
        }
        match map_offset(PHYS_MAP_OFFSET, 0, pages, PageFlags::kernel_data(), PageFlags::table()) {
            Ok(plan) => {
                self.phase = Phase::MappingPhysicalMemory;
                self.mapped_pages = pages;
                Action::MapPages(plan)
            },
            Err(error) => self.halt(HandoffError::Mapping(error)),
        }
    }

    /// Plans the mapping of the part of the framebuffer that the offset
    /// mapping of physical memory does not reach.
    fn map_framebuffer(&mut self) -> (action: Action)
        ensures
            maps_framebuffer(*old(self), *final(self), action),
    {
        let (virt, phys, pages) = match plan_framebuffer_run(self.framebuffer, self.mapped_pages) {
            Some(run) => run,
            None => {
                return self.halt(HandoffError::AddressOverflow);
            },
        };
        match map_offset(virt, phys, pages, PageFlags::kernel_data(), PageFlags::table()) {
            Ok(plan) => {
                self.proceed(Phase::MappingFramebuffer);
                Action::MapPages(plan)
            },
            Err(error) => self.halt(HandoffError::Mapping(error)),
        }
    }

    /// Plans the mapping of the kernel stack onto the frames at `mem`.
    fn map_kernel_stack(&mut self, mem: u64) -> (action: Action)
        ensures
            maps_stack(*old(self), *final(self), action, mem),
    {
        match map_stack(KERNEL_STACK_BOTTOM, KERNEL_STACK_SIZE_PAGES, mem) {
            Ok(plan) => {
                self.proceed(Phase::MappingStack);
                Action::MapPages(plan)
            },
            Err(error) => self.halt(HandoffError::Mapping(error)),
        }
    }

    /// Relocates the memory map and hands it to the firmware.
    fn relocate(&mut self, system_table: u64) -> (action: Action)
        requires
            old(self).phase() != Phase::SettingVirtualAddressMap,
        ensures
            relocates(*old(self), *final(self), action, system_table),
    {
        proof {
            use_type_invariant(&*self);
        }
        let mut mmap = MemoryMap::new();
        core::mem::swap(&mut self.mmap, &mut mmap);
        let moved = mmap.relocate(PHYS_MAP_OFFSET);
        core::mem::swap(&mut self.mmap, &mut mmap);
        if moved.is_err() {
            return self.halt(HandoffError::MemoryMap(MemoryMapError::AddressOverflow));
        }
        let table = match offset_address(system_table) {
            Some(table) => table,
            None => {
                return self.halt(HandoffError::AddressOverflow);
            },
        };
        let entries = self.mmap.entries();
        self.phase = Phase::SettingVirtualAddressMap;
        Action::SetVirtualAddressMap { entries, system_table: table }
    }

    /// Packages the kernel arguments and hands control to the kernel.
    fn transfer(&mut self, system_table: u64) -> (action: Action)
        ensures
            transfers(*old(self), *final(self), action, system_table),
    {
        let framebuffer_addr = match offset_address(self.framebuffer.base) {
            Some(addr) => addr,
            None => {
                return self.halt(HandoffError::AddressOverflow);
            },
        };
        let mut mmap = MemoryMap::new();
        self.phase = Phase::Transferring;
        core::mem::swap(&mut self.mmap, &mut mmap);
        let args = KernelArgs {
            framebuffer_addr,
            framebuffer_info: self.mode,
            mmap,
            runtime_services: system_table,
        };
        Action::Transfer { args, stack_pointer: KERNEL_STACK_BOTTOM }
    }
}

impl Handoff {
    /// Takes the one step that follows from `event`, the outcome of the action
    /// that was handed out last, and hands out the next action.
    pub fn advance(&mut self, event: Event) -> (action: Action)
        ensures
            advances(*old(self), event, *final(self), action),
            action matches Action::Transfer { args, .. } ==> is_offset_mapped(args.mmap@),
    {
        proof {
            use_type_invariant(&*self);
        }
        let phase = self.phase;
        match phase {
            Phase::Halted(error) => {
                return Action::Halt(error);
            },
            Phase::Transferring => {
                return self.halt(HandoffError::UnexpectedEvent);
            },
            _ => {},
        }
        match event {
            Event::Failed => self.halt(HandoffError::OperationFailed),
            Event::InterruptsDisabled => match phase {
                Phase::DisablingInterrupts => {
                    self.proceed(Phase::QueryingDisplayModes);
                    Action::QueryDisplayModes
                },
                _ => self.halt(HandoffError::UnexpectedEvent),
            },
            Event::DisplayModes(modes) => match phase {
                Phase::QueryingDisplayModes => {
                    self.modes = modes;
                    self.try_mode(0)
                },
                _ => self.halt(HandoffError::UnexpectedEvent),
            },
            Event::DisplayModeRefused => match phase {
                Phase::SettingDisplayMode => {
                    let from = self.candidate.preference + 1;
                    self.try_mode(from)
                },
                _ => self.halt(HandoffError::UnexpectedEvent),
            },
            Event::DisplayModeSet(framebuffer) => match phase {
                Phase::SettingDisplayMode => {
                    self.framebuffer = framebuffer;
                    self.mode = self.modes[self.candidate.mode];
                    self.phase = Phase::ReadingMemoryMap;
                    Action::ReadMemoryMap
                },
                _ => self.halt(HandoffError::UnexpectedEvent),
            },
            Event::MemoryMapRead(regions) => match phase {
                Phase::ReadingMemoryMap => self.keep_memory_map(
                    &regions,
                    Phase::CloningRootTable,
                    Action::CloneRootTable,
                ),
                Phase::RereadingMemoryMap => self.keep_memory_map(
                    &regions,
                    Phase::AllocatingStack,
                    Action::AllocateStack(KERNEL_STACK_SIZE_PAGES),
                ),
                _ => self.halt(HandoffError::UnexpectedEvent),
            },
            Event::RootTableCloned => match phase {
                Phase::CloningRootTable => self.map_physical_memory(),
                _ => self.halt(HandoffError::UnexpectedEvent),
            },
            Event::PagesMapped => match phase {
                Phase::MappingPhysicalMemory => self.map_framebuffer(),
                Phase::MappingFramebuffer => {
                    self.proceed(Phase::RereadingMemoryMap);
                    Action::ReadMemoryMap
                },
                Phase::MappingStack => {
                    self.proceed(Phase::TranslatingEntryPoint);
                    Action::TranslateEntryPoint
                },
                _ => self.halt(HandoffError::UnexpectedEvent),
            },
            Event::StackAllocated(mem) => match phase {
                Phase::AllocatingStack => self.map_kernel_stack(mem),
                _ => self.halt(HandoffError::UnexpectedEvent),
            },
            Event::EntryTranslated(translation) => match phase {
                Phase::TranslatingEntryPoint => match check_entry(translation) {
                    Ok(()) => {
                        self.proceed(Phase::ExitingBootServices);
                        Action::ExitBootServices
                    },
                    Err(error) => self.halt(error),
                },
                _ => self.halt(HandoffError::UnexpectedEvent),
            },
            Event::BootServicesExited { system_table } => match phase {
                Phase::ExitingBootServices => self.relocate(system_table),
                _ => self.halt(HandoffError::UnexpectedEvent),
            },
            Event::VirtualAddressMapSet { system_table } => match phase {
                Phase::SettingVirtualAddressMap => self.transfer(system_table),
                _ => self.halt(HandoffError::UnexpectedEvent),
            },
        }
    }
}

/// No step of the handoff is skipped or taken out of order: a step of the
/// sequencer stays in the step of the handoff it is in, goes on to the very
/// next one, or stops the handoff.
pub proof fn lemma_steps_keep_order(pre: Handoff, event: Event, post: Handoff, action: Action)
    requires
        advances(pre, event, post, action),
    ensures
        post.phase() is Halted || post.phase().step() == pre.phase().step() || post.phase().step()
            == pre.phase().step() + 1,
        post.phase() is Halted <==> action is Halt,
{
}

/// Control is handed to the kernel only as the last step, after the firmware
/// has taken the new address map, and a handoff that has stopped stays
/// stopped for the same reason.
pub proof fn lemma_transfer_comes_last(pre: Handoff, event: Event, post: Handoff, action: Action)
    requires
        advances(pre, event, post, action),
    ensures
        action is Transfer ==> pre.phase() == Phase::SettingVirtualAddressMap && post.phase()
            == Phase::Transferring,
        pre.phase() is Halted ==> post.phase() == pre.phase(),
        pre.phase() == Phase::Transferring ==> post.phase() is Halted,
{
}

/// When boot services are left, every region of the memory map becomes
/// visible at its physical start plus the offset of the mapping of physical
/// memory, and this is the map the firmware is given.
pub proof fn lemma_handoff_relocates_memory_map(
    pre: Handoff,
    event: Event,
    post: Handoff,
    action: Action,
)
    requires
        advances(pre, event, post, action),
        post.phase() == Phase::SettingVirtualAddressMap,
    ensures
        is_offset_mapped(post.memory_map()),
        post.memory_map().len() == pre.memory_map().len(),
        action matches Action::SetVirtualAddressMap { entries, .. } && entries@ == post.memory_map(),
{
}

/// The mapping of the framebuffer never overlaps the offset mapping of
/// physical memory, and the two together reach every byte of the
/// framebuffer: a byte that the offset mapping of `mapped_pages` pages does
/// not reach lies in the run that is mapped for the framebuffer, at its
/// physical address plus the offset.
pub proof fn lemma_framebuffer_run_completes_the_offset_mapping(
    framebuffer: Framebuffer,
    mapped_pages: u64,
    byte: u64,
)
    requires
        framebuffer_run(framebuffer, mapped_pages) is Some,
        framebuffer.base <= byte < framebuffer.base + framebuffer.size,
    ensures
        ({
            let (virt, phys, pages) = framebuffer_run(framebuffer, mapped_pages)->0;
            &&& phys >= mapped_pages * PAGE_SIZE
            &&& virt == phys + PHYS_MAP_OFFSET
            &&& phys % PAGE_SIZE == 0
            &&& byte < mapped_pages * PAGE_SIZE || phys <= byte < phys + pages * PAGE_SIZE
        }),
{
}

} // verus!
