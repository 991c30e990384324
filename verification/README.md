# rustos

The core of a small x86-64 kernel, verified with Verus.

- `src/vga_console.rs`: the VGA palette, the console writer's colours and the
  16-bit text cells that show a string.
- `src/mem/`: frames and pages of physical and virtual memory, the four table
  indices of a page, page-table entries and tables, and the active and
  inactive level-4 tables with their recursive entry. Tables are held as
  values; `app/` copies to the live level-4 table only the recursive entry
  that `point_recursive_entry_at` changes.
- `src/isr.rs`: interrupt descriptor entries, the exception stack frame and
  the page-fault error code.
- `src/kernel.rs`: the physical regions the kernel image and the multiboot
  information occupy, computed from the ELF sections.
- `app/`: the machine-facing part: boot entry, multiboot parsing, the console
  device, interrupt entry points and handlers, and the live page-table switch.
