//! The mapper: access to the active level-4 table.

use vstd::prelude::*;
use super::table::Table;
use super::ENTRY_COUNT;

verus! {

/// Holds the active level-4 page table.
pub struct Mapper {
    p4: Table,
}

impl View for Mapper {
    type V = Seq<u64>;

    /// The entries of the level-4 table.
    closed spec fn view(&self) -> Seq<u64> {
        self.p4@
    }
}

impl Mapper {
    /// The level-4 table has `ENTRY_COUNT` entries.
    pub proof fn lemma_len(self)
        ensures
            self@.len() == ENTRY_COUNT,
    {
        self.p4.lemma_len();
    }

    /// A mapper over the level-4 table `p4`.
    pub fn new(p4: Table) -> (m: Mapper)
        ensures
            m@ == p4@,
    {
        Mapper { p4 }
    }

    /// The level-4 table.
    pub fn p4(&self) -> (t: &Table)
        ensures
            t@ == self@,
    {
        &self.p4
    }

    /// The level-4 table, for editing.
    pub fn p4_mut(&mut self) -> (t: &mut Table)
        ensures
            t@ == old(self)@,
            final(self)@ == final(t)@,
    {
        &mut self.p4
    }
}

} // verus!
