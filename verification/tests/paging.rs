use rustos::mem::paging::entry::{Entry, EntryFlags, ADDRESS_MASK, PRESENT_BIT, WRITABLE_BIT};
use rustos::mem::paging::mapper::Mapper;
use rustos::mem::paging::table::Table;
use rustos::mem::paging::{ActivePageTable, InactivePageTable, Page, ENTRY_COUNT};
use rustos::mem::{Frame, PAGE_SIZE};

#[test]
fn page_of_forty_second_p3_entry() {
    let addr: usize = 42 * 512 * 512 * 4096;
    let page = Page::containing_address(addr);
    assert_eq!(page.start_address(), addr);
    assert_eq!(page.p4_index(), 0);
    assert_eq!(page.p3_index(), 42);
    assert_eq!(page.p2_index(), 0);
    assert_eq!(page.p1_index(), 0);
}

#[test]
fn page_indices_are_address_bit_fields() {
    let addr: usize = (3usize << 39) | (5usize << 30) | (7usize << 21) | (9usize << 12) | 0x123;
    let page = Page::containing_address(addr);
    assert_eq!(page.p4_index(), 3);
    assert_eq!(page.p3_index(), 5);
    assert_eq!(page.p2_index(), 7);
    assert_eq!(page.p1_index(), 9);
    assert_eq!(page.start_address(), addr - 0x123);
}

#[test]
fn page_indices_recompose_page_number() {
    let addr: usize = 0x0000_7fff_ffff_f000;
    let page = Page::containing_address(addr);
    let number = addr / PAGE_SIZE;
    let sum = page.p4_index() * 0x800_0000 + page.p3_index() * 0x4_0000 + page.p2_index() * 0x200
        + page.p1_index();
    assert_eq!(sum, number % 0x10_0000_0000);
    assert_eq!(page.p4_index(), 255);
    assert_eq!(page.p1_index(), 511);
}

#[test]
fn higher_half_page_indices() {
    let addr: usize = 0xffff_8000_0000_1000;
    let page = Page::containing_address(addr);
    assert_eq!(page.p4_index(), 256);
    assert_eq!(page.p3_index(), 0);
    assert_eq!(page.p2_index(), 0);
    assert_eq!(page.p1_index(), 1);
    assert_eq!(page.start_address(), addr);
}

#[test]
fn page_start_rounds_down() {
    let page = Page::containing_address(0x1fff);
    assert_eq!(page.start_address(), 0x1000);
    let page = Page::containing_address(0);
    assert_eq!(page.start_address(), 0);
    let page = Page::containing_address(0x0000_7fff_ffff_ffff);
    assert_eq!(page.start_address(), 0x0000_7fff_ffff_f000);
}

#[test]
fn page_start_round_trip() {
    let page = Page::containing_address(0x0012_3456_789a);
    let again = Page::containing_address(page.start_address());
    assert_eq!(again.start_address(), page.start_address());
}

#[test]
fn frame_containing_address() {
    assert_eq!(Frame::containing_address(0x5000).number(), 5);
    assert_eq!(Frame::containing_address(0x5fff).number(), 5);
    assert_eq!(Frame::containing_address(0x4fff).number(), 4);
    assert!(Frame::containing_address(0x5000) == Frame::containing_address(0x5abc));
    assert!(Frame::containing_address(0x4000) < Frame::containing_address(0x5000));
}

#[test]
fn entry_flags_bits() {
    assert_eq!(EntryFlags::empty().bits(), 0);
    assert_eq!(EntryFlags::present().bits(), PRESENT_BIT);
    assert_eq!(EntryFlags::writable().bits(), WRITABLE_BIT);
    assert_eq!(EntryFlags::present().union(EntryFlags::writable()).bits(), 3);
}

#[test]
fn entry_set_reads_back() {
    let mut e = Entry::unused();
    assert_eq!(e.value(), 0);
    let flags = EntryFlags::present().union(EntryFlags::writable());
    e.set(Frame::containing_address(0x1234_5000), flags);
    assert_eq!(e.value(), 0x1234_5003);
    assert_eq!((e.value() & ADDRESS_MASK) / 4096, 0x12345);
    assert_eq!(e.value() & !ADDRESS_MASK, 3);
    e.set_unused();
    assert_eq!(e.value(), 0);
}

#[test]
fn entry_set_highest_frame() {
    let mut e = Entry::unused();
    e.set(Frame::containing_address(0x000f_ffff_ffff_f000), EntryFlags::present());
    assert_eq!(e.value(), 0x000f_ffff_ffff_f001);
}

#[test]
fn table_new_zero_and_set() {
    let mut t = Table::new();
    for i in 0..ENTRY_COUNT {
        assert_eq!(t.entry(i), 0);
    }
    t.set_entry(7, Frame::containing_address(0x9000), EntryFlags::writable());
    assert_eq!(t.entry(7), 0x9002);
    assert_eq!(t.entry(6), 0);
    assert_eq!(t.entry(8), 0);
    t.zero();
    for i in 0..ENTRY_COUNT {
        assert_eq!(t.entry(i), 0);
    }
}

#[test]
fn inactive_table_is_recursively_mapped() {
    let mut t = Table::new();
    t.set_entry(3, Frame::containing_address(0x7000), EntryFlags::present());
    let _inactive = InactivePageTable::new(Frame::containing_address(0x42_0000), &mut t);
    assert_eq!(t.entry(511), 0x42_0003);
    for i in 0..511 {
        assert_eq!(t.entry(i), 0);
    }
}

#[test]
fn active_table_recursive_entry_points_at_inactive() {
    let mut p4 = Table::new();
    p4.set_entry(0, Frame::containing_address(0x1000), EntryFlags::present());
    let mut active = ActivePageTable::new(p4);
    let mut scratch = Table::new();
    let inactive = InactivePageTable::new(Frame::containing_address(0x8000), &mut scratch);
    active.point_recursive_entry_at(&inactive);
    assert_eq!(active.deref().p4().entry(511), 0x8003);
    assert_eq!(active.deref().p4().entry(0), 0x1001);
    assert_eq!(active.deref().p4().entry(510), 0);
}

#[test]
fn mapper_holds_its_table() {
    let mut p4 = Table::new();
    p4.set_entry(1, Frame::containing_address(0x2000), EntryFlags::writable());
    let mut mapper = Mapper::new(p4);
    assert_eq!(mapper.p4().entry(1), 0x2002);
    mapper.p4_mut().zero();
    assert_eq!(mapper.p4().entry(1), 0);
    let mut active = ActivePageTable::new(Table::new());
    active.deref_mut().p4_mut().set_entry(2, Frame::containing_address(0x3000), EntryFlags::present());
    assert_eq!(active.deref().p4().entry(2), 0x3001);
}

#[test]
fn recursive_entry_restored_after_switch() {
    let mut p4 = Table::new();
    p4.set_entry(511, Frame::containing_address(0x1000), EntryFlags::present().union(EntryFlags::writable()));
    p4.set_entry(4, Frame::containing_address(0x6000), EntryFlags::present());
    let mut active = ActivePageTable::new(p4);
    let backup = active.deref().p4().entry(511);
    assert_eq!(backup, 0x1003);
    let mut scratch = Table::new();
    let inactive = InactivePageTable::new(Frame::containing_address(0x9000), &mut scratch);
    active.point_recursive_entry_at(&inactive);
    assert_eq!(active.deref().p4().entry(511), 0x9003);
    active.restore_recursive_entry(backup);
    assert_eq!(active.deref().p4().entry(511), 0x1003);
    assert_eq!(active.deref().p4().entry(4), 0x6001);
}

#[test]
fn table_set_entry_value() {
    let mut t = Table::new();
    t.set_entry_value(9, 0xabc0_0007);
    assert_eq!(t.entry(9), 0xabc0_0007);
    assert_eq!(t.entry(8), 0);
    assert_eq!(Entry::from_value(0x5003).value(), 0x5003);
}
