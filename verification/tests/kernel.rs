use rustos::kernel::boot_regions;

#[test]
fn kernel_extent_from_sections() {
    let sections = [(0x10_0000u64, 0x1000u64), (0x20_0000, 0x10), (0x18_0000, 0x10_0000)];
    let r = boot_regions(&sections, 0x30_0000, 0x200);
    assert_eq!(r.kernel_start, 0x10_0000);
    assert_eq!(r.kernel_end, 0x28_0000);
    assert_eq!(r.multiboot_start, 0x30_0000);
    assert_eq!(r.multiboot_end, 0x30_0200);
}

#[test]
fn kernel_extent_single_section() {
    let r = boot_regions(&[(0x20_0000u64, 0x5000u64)], 0x1000, 0);
    assert_eq!(r.kernel_start, 0x20_0000);
    assert_eq!(r.kernel_end, 0x20_5000);
    assert_eq!(r.multiboot_end, 0x1000);
}

#[test]
fn kernel_extent_empty_section_and_highest_end() {
    let sections = [(0x30_0000u64, 0u64), (0x10_0000, 0x30_0000), (0x5000, 0)];
    let r = boot_regions(&sections, 0, 8);
    assert_eq!(r.kernel_start, 0x5000);
    assert_eq!(r.kernel_end, 0x40_0000);
    assert!(r.kernel_start <= r.kernel_end);
}
