//! Four-level x86-64 paging: pages, their table indices and the page tables.

pub mod entry;
pub mod table;
pub mod mapper;
pub mod temp_page;

use vstd::prelude::*;
use crate::mem::PAGE_SIZE;

verus! {

/// The number of entries in one page table.
pub const ENTRY_COUNT: usize = 512;

/// A physical memory address.
pub type PhysicalAddress = usize;

/// A virtual memory address.
pub type VirtualAddress = usize;

/// The virtual addresses that `Page::containing_address` accepts: below the
/// lower half's end, or above the start of the higher half.
pub open spec fn is_accepted_address(address: usize) -> bool {
    (address as u64) < 0x0000_8000_0000_0000u64 || (address as u64) > 0xffff_8000_0000_0000u64
}

/// The index into the level-4 table of page number `number`.
pub open spec fn p4_index_of(number: nat) -> nat {
    (number / 0x800_0000) % 512
}

/// The index into the level-3 table of page number `number`.
pub open spec fn p3_index_of(number: nat) -> nat {
    (number / 0x4_0000) % 512
}

/// The index into the level-2 table of page number `number`.
pub open spec fn p2_index_of(number: nat) -> nat {
    (number / 0x200) % 512
}

/// The index into the level-1 table of page number `number`.
pub open spec fn p1_index_of(number: nat) -> nat {
    number % 512
}

/// A virtual page, named by its page number.
#[derive(Copy, Clone, Debug)]
pub struct Page {
    number: usize,
}

impl View for Page {
    type V = nat;

    /// The page number.
    closed spec fn view(&self) -> nat {
        self.number as nat
    }
}

impl Page {
    /// The page's first address fits in a `usize`.
    #[verifier::type_invariant]
    spec fn start_fits(self) -> bool {
        self.number * PAGE_SIZE <= usize::MAX
    }

    /// The page that holds the virtual address `address`.
    pub fn containing_address(address: VirtualAddress) -> (p: Page)
        requires
            is_accepted_address(address),
        ensures
            p@ == address as nat / PAGE_SIZE as nat,
    {
        let number = address / PAGE_SIZE;
        assert(number * PAGE_SIZE <= address) by (nonlinear_arith)
            requires number == address / PAGE_SIZE;
        Page { number }
    }

    /// The first virtual address of the page.
    pub fn start_address(&self) -> (a: usize)
        ensures
            a == self@ * PAGE_SIZE,
    {
        proof {
            use_type_invariant(self);
        }
        self.number * PAGE_SIZE
    }

    /// The index of the page's entry in the level-4 table.
    pub fn p4_index(&self) -> (i: usize)
        ensures
            i == p4_index_of(self@),
            i < ENTRY_COUNT,
    {
        let n = self.number;
        assert((n >> 27usize) & 0o777 == (n / 0x800_0000) % 512) by (bit_vector);
        (self.number >> 27) & 0o777
    }

    /// The index of the page's entry in the level-3 table.
    pub fn p3_index(&self) -> (i: usize)
        ensures
            i == p3_index_of(self@),
            i < ENTRY_COUNT,
    {
        let n = self.number;
        assert((n >> 18usize) & 0o777 == (n / 0x4_0000) % 512) by (bit_vector);
        (self.number >> 18) & 0o777
    }

    /// The index of the page's entry in the level-2 table.
    pub fn p2_index(&self) -> (i: usize)
        ensures
            i == p2_index_of(self@),
            i < ENTRY_COUNT,
    {
        let n = self.number;
        assert((n >> 9usize) & 0o777 == (n / 0x200) % 512) by (bit_vector);
        (self.number >> 9) & 0o777
    }

    /// The index of the page's entry in the level-1 table.
    pub fn p1_index(&self) -> (i: usize)
        ensures
            i == p1_index_of(self@),
            i < ENTRY_COUNT,
    {
        let n = self.number;
        assert((n >> 0usize) & 0o777 == n % 512) by (bit_vector);
        (self.number >> 0) & 0o777
    }
}

} // verus!

use super::Frame;
use self::entry::{
    EntryFlags, entry_value, entry_frame, entry_flags, frame_fits_entry, ADDRESS_MASK, PRESENT_BIT,
    WRITABLE_BIT,
};
use self::mapper::Mapper;
use self::table::Table;

verus! {

/// The index of the level-4 entry that maps the level-4 table itself.
pub const RECURSIVE_INDEX: usize = 511;

/// The contents of a table after `InactivePageTable::new` prepared it for
/// frame `frame_number`: every entry unused but the last, which maps the
/// table's own frame, present and writable.
pub open spec fn recursively_mapped_table(frame_number: nat) -> Seq<u64> {
    Seq::new(
        ENTRY_COUNT as nat,
        |i: int|
            if i == RECURSIVE_INDEX {
                entry_value(frame_number, PRESENT_BIT | WRITABLE_BIT)
            } else {
                0u64
            },
    )
}

/// The page table in use.
pub struct ActivePageTable {
    mapper: Mapper,
}

impl View for ActivePageTable {
    type V = Seq<u64>;

    /// The entries of the active level-4 table.
    closed spec fn view(&self) -> Seq<u64> {
        self.mapper@
    }
}

impl ActivePageTable {
    /// The active level-4 table has `ENTRY_COUNT` entries.
    pub proof fn lemma_len(self)
        ensures
            self@.len() == ENTRY_COUNT,
    {
        self.mapper.lemma_len();
    }

    /// The active page table whose level-4 table is `p4`.
    pub fn new(p4: Table) -> (t: ActivePageTable)
        ensures
            t@ == p4@,
    {
        ActivePageTable { mapper: Mapper::new(p4) }
    }

    /// The mapper of the active table.
    pub fn deref(&self) -> (m: &Mapper)
        ensures
            m@ == self@,
    {
        &self.mapper
    }

    /// The mapper of the active table, for editing.
    pub fn deref_mut(&mut self) -> (m: &mut Mapper)
        ensures
            m@ == old(self)@,
            final(self)@ == final(m)@,
    {
        &mut self.mapper
    }

    /// Points the recursive entry of the active level-4 table at the level-4
    /// table of `table`, present and writable, so that `table` can be edited
    /// through the recursive mapping. Every other entry stays as it was.
    pub fn point_recursive_entry_at(&mut self, table: &InactivePageTable)
        ensures
            final(self)@ == old(self)@.update(
                RECURSIVE_INDEX as int,
                entry_value(table@, PRESENT_BIT | WRITABLE_BIT),
            ),
            old(self)@.len() == ENTRY_COUNT,
            final(self)@.len() == ENTRY_COUNT,
            final(self)@[RECURSIVE_INDEX as int] == entry_value(table@, PRESENT_BIT | WRITABLE_BIT),
    {
        proof {
            use_type_invariant(table);
        }
        let flags = EntryFlags::present().union(EntryFlags::writable());
        let frame = Frame { number: table.p4_frame.number };
        self.deref_mut().p4_mut().set_entry(RECURSIVE_INDEX, frame, flags);
    }
}

impl ActivePageTable {
    /// Puts the recursive entry of the active level-4 table back to
    /// `previous`, the value it held before `point_recursive_entry_at`, so
    /// that the active table maps itself again. Every other entry stays as it
    /// was.
    pub fn restore_recursive_entry(&mut self, previous: u64)
        ensures
            final(self)@ == old(self)@.update(RECURSIVE_INDEX as int, previous),
            old(self)@.len() == ENTRY_COUNT,
            final(self)@.len() == ENTRY_COUNT,
            final(self)@[RECURSIVE_INDEX as int] == previous,
    {
        proof {
            self.lemma_len();
        }
        self.deref_mut().p4_mut().set_entry_value(RECURSIVE_INDEX, previous);
    }
}

/// Law: pointing the recursive entry at an inactive table and then restoring
/// the value it held before gives back the active table unchanged.
pub proof fn lemma_point_then_restore(active: Seq<u64>, frame_number: nat)
    requires
        active.len() == ENTRY_COUNT,
    ensures
        active.update(
            RECURSIVE_INDEX as int,
            entry_value(frame_number, PRESENT_BIT | WRITABLE_BIT),
        ).update(RECURSIVE_INDEX as int, active[RECURSIVE_INDEX as int]) == active,
{
    assert(active.update(
        RECURSIVE_INDEX as int,
        entry_value(frame_number, PRESENT_BIT | WRITABLE_BIT),
    ).update(RECURSIVE_INDEX as int, active[RECURSIVE_INDEX as int]) =~= active);
}

/// A page table that is not in use, named by the frame of its level-4 table.
pub struct InactivePageTable {
    p4_frame: Frame,
}

impl View for InactivePageTable {
    type V = nat;

    /// The frame number of the level-4 table.
    closed spec fn view(&self) -> nat {
        self.p4_frame@
    }
}

impl InactivePageTable {
    /// The level-4 table's frame can be named by a page-table entry.
    #[verifier::type_invariant]
    spec fn frame_fits(self) -> bool {
        frame_fits_entry(self.p4_frame@)
    }

    /// Prepares `table`, the contents of frame `frame`, as a level-4 table:
    /// clears every entry and maps the table's own frame, present and
    /// writable, in the recursive entry.
    pub fn new(frame: Frame, table: &mut Table) -> (t: InactivePageTable)
        requires
            frame_fits_entry(frame@),
        ensures
            t@ == frame@,
            final(table)@ == recursively_mapped_table(frame@),
    {
        table.zero();
        let flags = EntryFlags::present().union(EntryFlags::writable());
        table.set_entry(RECURSIVE_INDEX, Frame { number: frame.number }, flags);
        assert(final(table)@ =~= recursively_mapped_table(frame@));
        InactivePageTable { p4_frame: frame }
    }
}

} // verus!

verus! {

/// Law: a page number is the sum of its four table indices, weighted by the
/// sizes of the regions that one entry of each level covers (modulo the 2^36
/// pages that four levels of 512 entries can name), and every index is below
/// `ENTRY_COUNT`.
pub proof fn lemma_page_indices_decompose(p: Page)
    ensures
        p@ % 0x10_0000_0000 == p4_index_of(p@) * 0x800_0000 + p3_index_of(p@) * 0x4_0000
            + p2_index_of(p@) * 0x200 + p1_index_of(p@),
        p4_index_of(p@) < ENTRY_COUNT,
        p3_index_of(p@) < ENTRY_COUNT,
        p2_index_of(p@) < ENTRY_COUNT,
        p1_index_of(p@) < ENTRY_COUNT,
{
    let n: u64 = p.number as u64;
    assert(n % 0x10_0000_0000 == ((n / 0x800_0000) % 512) * 0x800_0000 + ((n / 0x4_0000) % 512)
        * 0x4_0000 + ((n / 0x200) % 512) * 0x200 + n % 512) by (bit_vector);
}

/// Law: the table indices of the page that holds `address` are the four
/// nine-bit fields of the address above its twelve offset bits: bits 39..48,
/// 30..39, 21..30 and 12..21.
pub proof fn lemma_indices_of_address(address: usize)
    ensures
        p4_index_of(address as nat / PAGE_SIZE as nat) == (address as nat / 0x80_0000_0000) % 512,
        p3_index_of(address as nat / PAGE_SIZE as nat) == (address as nat / 0x4000_0000) % 512,
        p2_index_of(address as nat / PAGE_SIZE as nat) == (address as nat / 0x20_0000) % 512,
        p1_index_of(address as nat / PAGE_SIZE as nat) == (address as nat / 0x1000) % 512,
{
    let a: u64 = address as u64;
    assert((a / 4096) / 0x800_0000 == a / 0x80_0000_0000) by (bit_vector);
    assert((a / 4096) / 0x4_0000 == a / 0x4000_0000) by (bit_vector);
    assert((a / 4096) / 0x200 == a / 0x20_0000) by (bit_vector);
}

/// Law: the page that holds `address` starts at a multiple of `PAGE_SIZE` no
/// later than `address`, and `address` lies within its `PAGE_SIZE` bytes.
pub proof fn lemma_page_contains_address(address: usize)
    ensures
        (address as nat / PAGE_SIZE as nat) * PAGE_SIZE <= address,
        address < (address as nat / PAGE_SIZE as nat) * PAGE_SIZE + PAGE_SIZE,
        ((address as nat / PAGE_SIZE as nat) * PAGE_SIZE) % (PAGE_SIZE as int) == 0,
{
    let a = address as int;
    assert((a / 4096) * 4096 <= a && a < (a / 4096) * 4096 + 4096) by (nonlinear_arith);
    assert(((a / 4096) * 4096) % 4096 == 0) by (nonlinear_arith);
}

/// Law: the page that holds a page's start address is that page again,
/// wherever `Page::containing_address` accepts the start address.
pub proof fn lemma_start_address_round_trip(p: Page)
    requires
        p@ * PAGE_SIZE <= usize::MAX,
        is_accepted_address((p@ * PAGE_SIZE) as usize),
    ensures
        ((p@ * PAGE_SIZE) as usize) as nat / PAGE_SIZE as nat == p@,
{
    let n = p@ as int;
    assert((n * 4096) / 4096 == n) by (nonlinear_arith);
}

/// Law: in a table that `InactivePageTable::new` prepared for a frame, the
/// recursive entry names that frame with exactly the present and writable
/// flags, and no other entry maps anything.
pub proof fn lemma_recursive_entry_decodes(frame_number: nat)
    requires
        frame_fits_entry(frame_number),
    ensures
        entry_frame(recursively_mapped_table(frame_number)[RECURSIVE_INDEX as int]) == frame_number,
        entry_flags(recursively_mapped_table(frame_number)[RECURSIVE_INDEX as int])
            == PRESENT_BIT | WRITABLE_BIT,
        forall|i: int|
            0 <= i < ENTRY_COUNT && i != RECURSIVE_INDEX ==> #[trigger] recursively_mapped_table(
                frame_number,
            )[i] == 0,
{
    let n = frame_number as u64;
    let address: u64 = (n * 4096) as u64;
    let v: u64 = address | 3u64;
    assert(v & ADDRESS_MASK == address && v & !ADDRESS_MASK == 3) by (bit_vector)
        requires
            n < 0x100_0000_0000,
            address == n * 4096,
            v == address | 3u64,
    ;
    assert(PRESENT_BIT | WRITABLE_BIT == 3) by (bit_vector);
    assert((address / 4096) as nat == frame_number);
}

} // verus!
