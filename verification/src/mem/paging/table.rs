//! Page tables: 512 entries each.

use vstd::prelude::*;
use crate::mem::Frame;
use super::ENTRY_COUNT;
use super::entry::{Entry, EntryFlags, entry_value, frame_fits_entry};

verus! {

/// A page table of `ENTRY_COUNT` entries.
pub struct Table {
    entries: [Entry; ENTRY_COUNT],
}

impl View for Table {
    type V = Seq<u64>;

    /// The values of the entries, in order.
    closed spec fn view(&self) -> Seq<u64> {
        Seq::new(ENTRY_COUNT as nat, |i: int| self.entries@[i]@)
    }
}

/// The contents of a table whose entries all map nothing.
pub open spec fn zeroed_table() -> Seq<u64> {
    Seq::new(ENTRY_COUNT as nat, |i: int| 0u64)
}

impl Table {
    /// Every table has `ENTRY_COUNT` entries.
    pub proof fn lemma_len(self)
        ensures
            self@.len() == ENTRY_COUNT,
    {
    }

    /// A table whose entries all map nothing.
    pub fn new() -> (t: Table)
        ensures
            t@ == zeroed_table(),
    {
        let t = Table { entries: [Entry::unused(); ENTRY_COUNT] };
        assert(t@ =~= zeroed_table());
        t
    }

    /// The value of entry `i`.
    pub fn entry(&self, i: usize) -> (v: u64)
        requires
            i < ENTRY_COUNT,
        ensures
            v == self@[i as int],
            self@.len() == ENTRY_COUNT,
    {
        self.entries[i].value()
    }

    /// Marks every entry as mapping nothing.
    pub fn zero(&mut self)
        ensures
            final(self)@ == zeroed_table(),
    {
        let mut i: usize = 0;
        while i < ENTRY_COUNT
            invariant
                i <= ENTRY_COUNT,
                forall|j: int| 0 <= j < i ==> self.entries@[j]@ == 0u64,
            decreases ENTRY_COUNT - i,
        {
            let mut e = self.entries[i];
            e.set_unused();
            self.entries[i] = e;
            i = i + 1;
        }
        assert(self@ =~= zeroed_table());
    }

    /// Points entry `i` at `frame` with the flags `flags`.
    pub fn set_entry(&mut self, i: usize, frame: Frame, flags: EntryFlags)
        requires
            i < ENTRY_COUNT,
            frame_fits_entry(frame@),
        ensures
            final(self)@ == old(self)@.update(i as int, entry_value(frame@, flags@)),
            old(self)@.len() == ENTRY_COUNT,
            final(self)@.len() == ENTRY_COUNT,
            final(self)@[i as int] == entry_value(frame@, flags@),
    {
        let mut e = self.entries[i];
        e.set(frame, flags);
        self.entries[i] = e;
        assert(self@ =~= old(self)@.update(i as int, entry_value(frame@, flags@)));
    }

    /// Sets entry `i` to the raw value `value`, such as one saved earlier.
    pub fn set_entry_value(&mut self, i: usize, value: u64)
        requires
            i < ENTRY_COUNT,
        ensures
            final(self)@ == old(self)@.update(i as int, value),
            final(self)@.len() == ENTRY_COUNT,
            final(self)@[i as int] == value,
    {
        self.entries[i] = Entry::from_value(value);
        assert(self@ =~= old(self)@.update(i as int, value));
    }
}

} // verus!
