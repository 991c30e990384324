//! Physical memory: frames, pages of the early allocator interface and the
//! allocator traits.

pub mod paging;

use vstd::prelude::*;

verus! {

/// The size of a page and of a physical frame, in bytes.
pub const PAGE_SIZE: usize = 4096;

/// A physical frame of memory, named by its frame number.
#[derive(Debug, PartialEq, Eq, Structural, PartialOrd, Ord)]
pub struct Frame {
    number: usize,
}

impl View for Frame {
    type V = nat;

    /// The frame number.
    closed spec fn view(&self) -> nat {
        self.number as nat
    }
}

impl Frame {
    /// The frame that holds the physical address `address`.
    pub fn containing_address(address: usize) -> (f: Frame)
        ensures
            f@ == address as nat / PAGE_SIZE as nat,
    {
        Frame { number: address / PAGE_SIZE }
    }

    /// The frame number.
    pub fn number(&self) -> (n: usize)
        ensures
            n == self@,
    {
        self.number
    }
}

/// An allocator of physical frames, implemented by the kernel's allocators.
pub trait FrameAllocator {
    fn allocate(&mut self) -> Option<Frame>;

    fn deallocate(&mut self, frame: Frame);
}

/// A page of the early allocator interface, named by its address.
pub struct Page {
    address: u64,
}

/// An allocator of whole pages.
pub trait Allocator {
    fn allocate() -> Result<Page, PageErrors>;

    fn deallocate(page: Page) -> Option<PageErrors>;
}

/// Why a page allocation failed.
pub enum PageErrors {
    PhysicalMemFull,
}

} // verus!
