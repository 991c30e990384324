//! Page-table entries: a frame's physical address together with flag bits.

use vstd::prelude::*;
use crate::mem::Frame;

verus! {

/// The bits of an entry that hold the physical address of the frame.
pub const ADDRESS_MASK: u64 = 0x000f_ffff_ffff_f000;

/// The flag bit that marks an entry as present.
pub const PRESENT_BIT: u64 = 1;

/// The flag bit that allows writes through an entry.
pub const WRITABLE_BIT: u64 = 2;

/// The frames that an entry can name: their addresses lie below 2^52.
pub open spec fn frame_fits_entry(frame_number: nat) -> bool {
    frame_number < 0x100_0000_0000
}

/// The value of an entry that maps frame `frame_number` with flag bits `flags`.
pub open spec fn entry_value(frame_number: nat, flags: u64) -> u64 {
    ((frame_number * 4096) as u64) | flags
}

/// The frame number that an entry's value names.
pub open spec fn entry_frame(value: u64) -> nat {
    ((value & ADDRESS_MASK) / 4096) as nat
}

/// The flag bits of an entry's value.
pub open spec fn entry_flags(value: u64) -> u64 {
    value & !ADDRESS_MASK
}

/// A set of entry flags. No flag overlaps the address bits of an entry.
#[derive(Copy, Clone, Debug)]
pub struct EntryFlags {
    bits: u64,
}

impl View for EntryFlags {
    type V = u64;

    closed spec fn view(&self) -> u64 {
        self.bits
    }
}

impl EntryFlags {
    #[verifier::type_invariant]
    spec fn outside_address_bits(self) -> bool {
        self.bits & ADDRESS_MASK == 0
    }

    /// The empty set of flags.
    pub fn empty() -> (f: EntryFlags)
        ensures
            f@ == 0,
    {
        assert(0u64 & ADDRESS_MASK == 0) by (bit_vector);
        EntryFlags { bits: 0 }
    }

    /// The flag that marks an entry as present.
    pub fn present() -> (f: EntryFlags)
        ensures
            f@ == PRESENT_BIT,
    {
        assert(1u64 & ADDRESS_MASK == 0) by (bit_vector);
        EntryFlags { bits: PRESENT_BIT }
    }

    /// The flag that allows writes through an entry.
    pub fn writable() -> (f: EntryFlags)
        ensures
            f@ == WRITABLE_BIT,
    {
        assert(2u64 & ADDRESS_MASK == 0) by (bit_vector);
        EntryFlags { bits: WRITABLE_BIT }
    }

    /// The flags that are set in `self` or in `other`.
    pub fn union(self, other: EntryFlags) -> (f: EntryFlags)
        ensures
            f@ == self@ | other@,
    {
        proof {
            use_type_invariant(&self);
            use_type_invariant(&other);
        }
        let a = self.bits;
        let b = other.bits;
        assert((a | b) & ADDRESS_MASK == 0) by (bit_vector)
            requires
                a & ADDRESS_MASK == 0,
                b & ADDRESS_MASK == 0,
        ;
        EntryFlags { bits: a | b }
    }

    /// The flag bits.
    pub fn bits(&self) -> (b: u64)
        ensures
            b == self@,
            b & ADDRESS_MASK == 0,
    {
        proof {
            use_type_invariant(self);
        }
        self.bits
    }
}

/// One entry of a page table.
#[derive(Copy, Clone, Debug)]
pub struct Entry {
    value: u64,
}

impl View for Entry {
    type V = u64;

    closed spec fn view(&self) -> u64 {
        self.value
    }
}

impl Entry {
    /// An entry that maps nothing.
    pub fn unused() -> (e: Entry)
        ensures
            e@ == 0,
    {
        Entry { value: 0 }
    }

    /// The entry with the raw value `value`, as read from a live table.
    pub fn from_value(value: u64) -> (e: Entry)
        ensures
            e@ == value,
    {
        Entry { value }
    }

    /// The raw value of the entry.
    pub fn value(&self) -> (v: u64)
        ensures
            v == self@,
    {
        self.value
    }

    /// Marks the entry as mapping nothing.
    pub fn set_unused(&mut self)
        ensures
            final(self)@ == 0,
    {
        self.value = 0;
    }

    /// Points the entry at `frame` with the flags `flags`.
    pub fn set(&mut self, frame: Frame, flags: EntryFlags)
        requires
            frame_fits_entry(frame@),
        ensures
            final(self)@ == entry_value(frame@, flags@),
            entry_frame(final(self)@) == frame@,
            entry_flags(final(self)@) == flags@,
    {
        let f = flags.bits();
        let n = frame.number() as u64;
        let address: u64 = n * 4096;
        assert(address == (n * 4096) as u64);
        let v: u64 = address | f;
        assert(v & ADDRESS_MASK == address && v & !ADDRESS_MASK == f) by (bit_vector)
            requires
                n < 0x100_0000_0000,
                address == n * 4096,
                f & ADDRESS_MASK == 0,
                v == address | f,
        ;
        assert((address / 4096) as nat == frame@);
        self.value = v;
    }
}

} // verus!
