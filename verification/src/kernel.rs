//! Boot-time layout: where the kernel image and the multiboot information lie
//! in physical memory.

use vstd::prelude::*;

verus! {

/// The physical regions that the frame allocator must leave alone: the kernel
/// image and the multiboot information structure, each as a start address
/// and an end address.
#[derive(Copy, Clone, Debug, PartialEq, Eq, Structural)]
pub struct BootRegions {
    pub kernel_start: u64,
    pub kernel_end: u64,
    pub multiboot_start: usize,
    pub multiboot_end: usize,
}

/// The sections, as (address, size) pairs, are non-empty and no section's
/// end address overflows.
pub open spec fn sections_well_formed(sections: Seq<(u64, u64)>) -> bool {
    &&& sections.len() > 0
    &&& forall|i: int| 0 <= i < sections.len() ==> #[trigger] sections[i].0 + sections[i].1 <= u64::MAX
}

/// `start` is the least section address.
pub open spec fn is_lowest_start(sections: Seq<(u64, u64)>, start: u64) -> bool {
    &&& forall|i: int| 0 <= i < sections.len() ==> start <= #[trigger] sections[i].0
    &&& exists|i: int| 0 <= i < sections.len() && start == #[trigger] sections[i].0
}

/// `end` is the greatest section end address.
pub open spec fn is_highest_end(sections: Seq<(u64, u64)>, end: u64) -> bool {
    &&& forall|i: int| 0 <= i < sections.len() ==> #[trigger] sections[i].0 + sections[i].1 <= end
    &&& exists|i: int| 0 <= i < sections.len() && end == #[trigger] sections[i].0 + sections[i].1
}

/// The regions to reserve at boot: the kernel spans from its lowest section
/// address to its highest section end, and the multiboot information spans
/// `multiboot_size` bytes from `multiboot_start`.
pub fn boot_regions(sections: &[(u64, u64)], multiboot_start: usize, multiboot_size: u32) -> (r:
    BootRegions)
    requires
        sections_well_formed(sections@),
        multiboot_start + multiboot_size <= usize::MAX,
    ensures
        is_lowest_start(sections@, r.kernel_start),
        is_highest_end(sections@, r.kernel_end),
        r.multiboot_start == multiboot_start,
        r.multiboot_end == multiboot_start + multiboot_size,
{
    let mut start: u64 = sections[0].0;
    let mut end: u64 = sections[0].0 + sections[0].1;
    let ghost mut start_at: int = 0;
    let ghost mut end_at: int = 0;
    let mut i: usize = 1;
    while i < sections.len()
        invariant
            sections_well_formed(sections@),
            1 <= i <= sections@.len(),
            0 <= start_at < i,
            0 <= end_at < i,
            start == sections@[start_at].0,
            end == sections@[end_at].0 + sections@[end_at].1,
            forall|j: int| 0 <= j < i ==> start <= #[trigger] sections@[j].0,
            forall|j: int| 0 <= j < i ==> #[trigger] sections@[j].0 + sections@[j].1 <= end,
        decreases sections@.len() - i,
    {
        let (addr, size) = sections[i];
        assert(addr + size <= u64::MAX) by {
            assert(sections@[i as int].0 + sections@[i as int].1 <= u64::MAX);
        }
        if addr < start {
            start = addr;
            proof {
                start_at = i as int;
            }
        }
        if addr + size > end {
            end = addr + size;
            proof {
                end_at = i as int;
            }
        }
        i = i + 1;
    }
    BootRegions {
        kernel_start: start,
        kernel_end: end,
        multiboot_start,
        multiboot_end: multiboot_start + multiboot_size as usize,
    }
}

/// Law: the kernel's extent is ordered: its lowest section address is no
/// greater than its highest section end.
pub proof fn lemma_kernel_extent_ordered(sections: Seq<(u64, u64)>, start: u64, end: u64)
    requires
        sections_well_formed(sections),
        is_lowest_start(sections, start),
        is_highest_end(sections, end),
    ensures
        start <= end,
{
    let i = choose|i: int| 0 <= i < sections.len() && start == #[trigger] sections[i].0;
    assert(sections[i].0 + sections[i].1 <= end);
}

} // verus!
