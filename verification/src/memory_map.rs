//! The firmware memory map as the loader keeps it: a bounded list of region
//! descriptors, snapshot once and relocated once.

use arrayvec::ArrayVec;
use vstd::prelude::*;
use crate::layout::PAGE_SIZE;

verus! {

/// Number of descriptors the memory map can hold.
pub const MEMORY_MAP_CAPACITY: usize = 512;

/// One region of the firmware memory map.
#[derive(Clone, Copy, Debug, PartialEq, Eq, Structural)]
pub struct MemoryMapEntry {
    /// Tag of the region type, as the firmware numbers it.
    pub region_type: u32,
    /// Physical address of the first byte of the region.
    pub phys_start: u64,
    /// Virtual address of the first byte; meaningful only after relocation.
    pub virt_start: u64,
    /// Length of the region in 4 KiB pages.
    pub page_count: u64,
    /// Attribute bits of the region, carried through unchanged.
    pub attributes: u64,
}

impl MemoryMapEntry {
    /// Index of the first page after the region, counted in 4 KiB pages from
    /// physical address 0.
    pub open spec fn end_page(self) -> int {
        self.phys_start / PAGE_SIZE + self.page_count
    }

    /// The same region, visible at `offset` above its physical address.
    pub open spec fn relocated(self, offset: u64) -> MemoryMapEntry {
        MemoryMapEntry { virt_start: (self.phys_start + offset) as u64, ..self }
    }
}

/// Why the memory map cannot be used.
#[derive(Clone, Copy, Debug, PartialEq, Eq, Structural)]
pub enum MemoryMapError {
    /// The firmware reported more regions than the map can hold.
    TooManyEntries,
    /// The map holds no region.
    Empty,
    /// A region ends beyond the last page that can be counted.
    PageCountOverflow,
    /// A region would be relocated beyond the end of the address space.
    AddressOverflow,
}

#[verifier::external_type_specification]
#[verifier::external_body]
#[verifier::reject_recursive_types(T)]
pub struct ExArrayVec<T, const CAP: usize>(ArrayVec<T, CAP>);

/// The descriptors a bounded vector holds, in order.
pub uninterp spec fn map_entries(entries: ArrayVec<MemoryMapEntry, 512>) -> Seq<MemoryMapEntry>;

/// `ArrayVec::new` makes an empty vector.
#[verifier::external_body]
fn entries_new() -> (entries: ArrayVec<MemoryMapEntry, 512>)
    ensures
        map_entries(entries) == Seq::<MemoryMapEntry>::empty(),
{
    ArrayVec::new()
}

/// `ArrayVec::try_push` appends the element if the vector holds fewer elements
/// than its capacity, and otherwise leaves the vector as it is and fails.
#[verifier::external_body]
fn entries_try_push(entries: &mut ArrayVec<MemoryMapEntry, 512>, entry: MemoryMapEntry) -> (pushed:
    bool)
    ensures
        pushed == (map_entries(*old(entries)).len() < MEMORY_MAP_CAPACITY),
        pushed ==> map_entries(*final(entries)) == map_entries(*old(entries)).push(entry),
        !pushed ==> map_entries(*final(entries)) == map_entries(*old(entries)),
{
    entries.try_push(entry).is_ok()
}

/// `ArrayVec::len` is the number of elements held.
#[verifier::external_body]
fn entries_len(entries: &ArrayVec<MemoryMapEntry, 512>) -> (len: usize)
    ensures
        len == map_entries(*entries).len(),
{
    entries.len()
}

/// `ArrayVec::as_slice` shows the elements in order; the element at an index
/// below the length is read.
#[verifier::external_body]
fn entries_get(entries: &ArrayVec<MemoryMapEntry, 512>, index: usize) -> (entry: MemoryMapEntry)
    requires
        index < map_entries(*entries).len(),
    ensures
        entry == map_entries(*entries)[index as int],
{
    entries.as_slice()[index]
}

/// `ArrayVec::as_mut_slice` shows the elements in order; the element at an
/// index below the length is replaced and the others are kept.
#[verifier::external_body]
fn entries_set(entries: &mut ArrayVec<MemoryMapEntry, 512>, index: usize, entry: MemoryMapEntry)
    requires
        index < map_entries(*old(entries)).len(),
    ensures
        map_entries(*final(entries)) == map_entries(*old(entries)).update(index as int, entry),
{
    entries.as_mut_slice()[index] = entry;
}

/// The memory map: at most `MEMORY_MAP_CAPACITY` descriptors, in the order
/// the firmware reported them.
pub struct MemoryMap {
    entries: ArrayVec<MemoryMapEntry, 512>,
}

impl View for MemoryMap {
    type V = Seq<MemoryMapEntry>;

    closed spec fn view(&self) -> Seq<MemoryMapEntry> {
        map_entries(self.entries)
    }
}

impl MemoryMap {
    /// A map without descriptors.
    pub fn new() -> (map: MemoryMap)
        ensures
            map@ == Seq::<MemoryMapEntry>::empty(),
    {
        MemoryMap { entries: entries_new() }
    }

    /// Number of descriptors in the map.
    pub fn len(&self) -> (len: usize)
        ensures
            len == self@.len(),
    {
        entries_len(&self.entries)
    }

    /// Appends a descriptor, unless the map is full.
    pub fn push(&mut self, entry: MemoryMapEntry) -> (result: Result<(), MemoryMapError>)
        ensures
            old(self)@.len() < MEMORY_MAP_CAPACITY ==> result is Ok && final(self)@ == old(
                self,
            )@.push(entry),
            old(self)@.len() >= MEMORY_MAP_CAPACITY ==> result == Err::<(), MemoryMapError>(
                MemoryMapError::TooManyEntries,
            ) && final(self)@ == old(self)@,
    {
        if entries_try_push(&mut self.entries, entry) {
            Ok(())
        } else {
            Err(MemoryMapError::TooManyEntries)
        }
    }

    /// The descriptor at `index`, if there is one.
    pub fn get(&self, index: usize) -> (entry: Option<MemoryMapEntry>)
        ensures
            entry == if index < self@.len() {
                Some(self@[index as int])
            } else {
                None
            },
    {
        if index < entries_len(&self.entries) {
            Some(entries_get(&self.entries, index))
        } else {
            None
        }
    }

    /// Takes a snapshot of the regions the firmware reported, in their order.
    /// More regions than the map can hold are refused.
    pub fn snapshot(regions: &Vec<MemoryMapEntry>) -> (result: Result<MemoryMap, MemoryMapError>)
        ensures
            regions@.len() <= MEMORY_MAP_CAPACITY ==> result is Ok && result->Ok_0@ == regions@,
            regions@.len() > MEMORY_MAP_CAPACITY ==> result matches Err(
                MemoryMapError::TooManyEntries,
            ),
    {
        let mut map = MemoryMap::new();
        let mut index: usize = 0;
        while index < regions.len()
            invariant
                index <= regions@.len(),
                index <= MEMORY_MAP_CAPACITY,
                map@ == regions@.take(index as int),
            decreases regions@.len() - index,
        {
            match map.push(regions[index]) {
                Ok(()) => {},
                Err(error) => {
                    return Err(error);
                },
            }
            assert(regions@.take(index + 1) == regions@.take(index as int).push(
                regions@[index as int],
            ));
            index += 1;
        }
        assert(regions@.take(index as int) == regions@);
        Ok(map)
    }

    /// The descriptors of the map, in order.
    pub fn entries(&self) -> (entries: Vec<MemoryMapEntry>)
        ensures
            entries@ == self@,
    {
        let len = self.len();
        let mut entries: Vec<MemoryMapEntry> = Vec::new();
        let mut index: usize = 0;
        while index < len
            invariant
                len == self@.len(),
                index <= len,
                entries@ == self@.take(index as int),
            decreases len - index,
        {
            entries.push(entries_get(&self.entries, index));
            assert(self@.take(index + 1) == self@.take(index as int).push(self@[index as int]));
            index += 1;
        }
        assert(self@.take(len as int) == self@);
        entries
    }

    /// Number of 4 KiB pages from physical address 0 to the end of the region
    /// that ends highest: the run that has to be mapped for every region of
    /// the map to be reachable. An empty map has no such run, and neither has
    /// one with a region whose end cannot be counted in 64 bits.
    pub fn physical_pages(&self) -> (result: Result<u64, MemoryMapError>)
        ensures
            self@.len() == 0 ==> result == Err::<u64, MemoryMapError>(MemoryMapError::Empty),
            self@.len() > 0 && !ends_are_countable(self@) ==> result == Err::<u64, MemoryMapError>(
                MemoryMapError::PageCountOverflow,
            ),
            self@.len() > 0 && ends_are_countable(self@) ==> result is Ok && is_page_span(
                self@,
                result->Ok_0 as int,
            ),
    {
        let len = self.len();
        if len == 0 {
            return Err(MemoryMapError::Empty);
        }
        let mut pages: u64 = 0;
        let mut index: usize = 0;
        let ghost mut top: int = 0;
        while index < len
            invariant
                len == self@.len(),
                index <= len,
                forall|i: int| 0 <= i < index ==> (#[trigger] self@[i]).end_page() <= pages,
                index == 0 ==> pages == 0,
                index > 0 ==> 0 <= top < index && self@[top].end_page() == pages,
            decreases len - index,
        {
            let entry = entries_get(&self.entries, index);
            let end = match (entry.phys_start / PAGE_SIZE).checked_add(entry.page_count) {
                Some(end) => end,
                None => {
                    assert(self@[index as int].end_page() > u64::MAX);
                    return Err(MemoryMapError::PageCountOverflow);
                },
            };
            assert(end == self@[index as int].end_page());
            if end >= pages {
                pages = end;
                proof {
                    top = index as int;
                }
            }
            index += 1;
        }
        assert(self@[top].end_page() == pages);
        Ok(pages)
    }

    /// Rewrites the virtual start of every region to its physical start plus
    /// `offset`. If one of the sums does not fit in 64 bits, nothing is
    /// rewritten.
    pub fn relocate(&mut self, offset: u64) -> (result: Result<(), MemoryMapError>)
        ensures
            can_relocate(old(self)@, offset) ==> result is Ok && final(self)@ == relocated(
                old(self)@,
                offset,
            ),
            !can_relocate(old(self)@, offset) ==> result == Err::<(), MemoryMapError>(
                MemoryMapError::AddressOverflow,
            ) && final(self)@ == old(self)@,
    {
        let len = self.len();
        let mut index: usize = 0;
        while index < len
            invariant
                len == self@.len(),
                self@ == old(self)@,
                index <= len,
                forall|i: int| 0 <= i < index ==> (#[trigger] self@[i]).phys_start + offset <= u64::MAX,
            decreases len - index,
        {
            let entry = entries_get(&self.entries, index);
            if entry.phys_start > u64::MAX - offset {
                return Err(MemoryMapError::AddressOverflow);
            }
            index += 1;
        }
        index = 0;
        while index < len
            invariant
                len == self@.len(),
                len == old(self)@.len(),
                can_relocate(old(self)@, offset),
                index <= len,
                forall|i: int| 0 <= i < index ==> (#[trigger] self@[i]) == old(self)@[i].relocated(offset),
                forall|i: int| index <= i < len ==> (#[trigger] self@[i]) == old(self)@[i],
            decreases len - index,
        {
            let entry = entries_get(&self.entries, index);
            let moved = MemoryMapEntry { virt_start: entry.phys_start + offset, ..entry };
            entries_set(&mut self.entries, index, moved);
            index += 1;
        }
        assert(self@ =~= relocated(old(self)@, offset));
        Ok(())
    }
}

/// Whether `pages` is the index of the first 4 KiB page after the region that
/// ends highest: no region ends above it, and one ends at it.
pub open spec fn is_page_span(entries: Seq<MemoryMapEntry>, pages: int) -> bool {
    &&& forall|i: int| 0 <= i < entries.len() ==> (#[trigger] entries[i]).end_page() <= pages
    &&& exists|i: int| 0 <= i < entries.len() && (#[trigger] entries[i]).end_page() == pages
}

/// Whether every region can be made visible at `offset` above its physical
/// start without leaving the address space.
pub open spec fn can_relocate(entries: Seq<MemoryMapEntry>, offset: u64) -> bool {
    forall|i: int| 0 <= i < entries.len() ==> (#[trigger] entries[i]).phys_start + offset <= u64::MAX
}

/// The map with every region made visible at `offset` above its physical
/// start.
pub open spec fn relocated(entries: Seq<MemoryMapEntry>, offset: u64) -> Seq<MemoryMapEntry> {
    Seq::new(entries.len(), |i: int| entries[i].relocated(offset))
}

/// After relocation every region is visible at its physical start plus the
/// offset, and nothing else about it has changed.
pub proof fn lemma_relocation_is_uniform(entries: Seq<MemoryMapEntry>, offset: u64, index: int)
    requires
        can_relocate(entries, offset),
        0 <= index < entries.len(),
    ensures
        relocated(entries, offset).len() == entries.len(),
        relocated(entries, offset)[index].virt_start == entries[index].phys_start + offset,
        relocated(entries, offset)[index].phys_start == entries[index].phys_start,
        relocated(entries, offset)[index].page_count == entries[index].page_count,
        relocated(entries, offset)[index].region_type == entries[index].region_type,
        relocated(entries, offset)[index].attributes == entries[index].attributes,
{
}

/// The page span of a map that has one.
pub open spec fn page_span(entries: Seq<MemoryMapEntry>) -> int {
    choose|pages: int| is_page_span(entries, pages)
}

/// Whether the end of every region can be counted in 64 bits.
pub open spec fn ends_are_countable(entries: Seq<MemoryMapEntry>) -> bool {
    forall|i: int| 0 <= i < entries.len() ==> (#[trigger] entries[i]).end_page() <= u64::MAX
}

/// A map has at most one page span.
pub proof fn lemma_page_span_is_unique(entries: Seq<MemoryMapEntry>, pages: int, other: int)
    requires
        is_page_span(entries, pages),
        is_page_span(entries, other),
    ensures
        pages == other,
{
    let top = choose|i: int| 0 <= i < entries.len() && (#[trigger] entries[i]).end_page() == pages;
    let top_other = choose|i: int|
        0 <= i < entries.len() && (#[trigger] entries[i]).end_page() == other;
    assert(entries[top].end_page() <= other);
    assert(entries[top_other].end_page() <= pages);
}

} // verus!
