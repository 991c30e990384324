//! A small x86-64 kernel's core logic: VGA text-cell encoding, page and frame
//! arithmetic for four-level paging, page-table entries, interrupt-related
//! records and the computation of the kernel's extent from its ELF sections.

pub mod vga_console;
pub mod mem;
pub mod isr;
pub mod kernel;

