//! Address checks shared by the mapper and the handoff sequence.
//!
//! Validity and alignment of addresses are decided by the `x86_64` crate; this
//! module states what those calls return in terms of the layout constants.

use vstd::prelude::*;
use crate::layout::{is_canonical, is_physical, HUGE_PAGE_SIZE, LARGE_PAGE_SIZE, PAGE_SIZE};

verus! {

/// Whether `align` is one of the three page sizes of the architecture.
pub open spec fn is_page_size(align: u64) -> bool {
    align == PAGE_SIZE || align == LARGE_PAGE_SIZE || align == HUGE_PAGE_SIZE
}

/// `x86_64::addr::align_down` panics unless the alignment is a power of two, so
/// only page sizes are admitted here. For those it returns the greatest
/// multiple of `align` that is not above `addr`.
pub assume_specification[ x86_64::addr::align_down ](addr: u64, align: u64) -> (aligned: u64)
    requires
        is_page_size(align),
    ensures
        aligned == addr - addr % align,
;

/// `x86_64::VirtAddr::try_new` accepts exactly the canonical addresses, those
/// whose bits 48 to 63 repeat bit 47.
#[verifier::external_body]
pub(crate) fn virt_addr_is_valid(addr: u64) -> (valid: bool)
    ensures
        valid == is_canonical(addr),
{
    x86_64::VirtAddr::try_new(addr).is_ok()
}

/// `x86_64::PhysAddr::try_new` accepts exactly the addresses below 2^52.
#[verifier::external_body]
pub(crate) fn phys_addr_is_valid(addr: u64) -> (valid: bool)
    ensures
        valid == is_physical(addr),
{
    x86_64::PhysAddr::try_new(addr).is_ok()
}

} // verus!
