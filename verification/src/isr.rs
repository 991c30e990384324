//! Interrupt-related records: gate descriptors, the frame the processor
//! pushes on an exception, and the page-fault error code.

use vstd::prelude::*;

verus! {

/// An entry of the interrupt descriptor table.
#[derive(Copy, Clone, Debug)]
pub struct IDTEntry {
    offset_1: u16,
    selector: u16,
    ist: u8,
    type_attr: u8,
    offset_2: u16,
    offset_3: u32,
    zero: u32,
}

/// The registers the processor pushes when it takes an exception.
#[derive(Debug)]
pub struct ExceptionStackFrame {
    instruction_pointer: u64,
    code_segment: u64,
    cpu_flags: u64,
    stack_pointer: u64,
    stack_segment: u64,
}

impl View for ExceptionStackFrame {
    /// The instruction pointer, code segment, flags, stack pointer and stack
    /// segment, in the order the processor pushes them.
    type V = (u64, u64, u64, u64, u64);

    closed spec fn view(&self) -> (u64, u64, u64, u64, u64) {
        (
            self.instruction_pointer,
            self.code_segment,
            self.cpu_flags,
            self.stack_pointer,
            self.stack_segment,
        )
    }
}

impl ExceptionStackFrame {
    /// The frame with the given register values.
    pub fn new(
        instruction_pointer: u64,
        code_segment: u64,
        cpu_flags: u64,
        stack_pointer: u64,
        stack_segment: u64,
    ) -> (f: ExceptionStackFrame)
        ensures
            f@ == (instruction_pointer, code_segment, cpu_flags, stack_pointer, stack_segment),
    {
        ExceptionStackFrame {
            instruction_pointer,
            code_segment,
            cpu_flags,
            stack_pointer,
            stack_segment,
        }
    }

    /// The address of the instruction that raised the exception.
    pub fn instruction_pointer(&self) -> (ip: u64)
        ensures
            ip == self@.0,
    {
        self.instruction_pointer
    }
}

/// The access was a protection violation rather than a missing page.
pub const PROTECTION_VIOLATION: u64 = 1;

/// The access was a write.
pub const CAUSED_BY_WRITE: u64 = 2;

/// The access came from user mode.
pub const USER_MODE: u64 = 4;

/// A reserved bit was set in a paging structure.
pub const MALFORMED_TABLE: u64 = 8;

/// The access was an instruction fetch.
pub const INSTRUCTION_FETCH: u64 = 16;

/// All the bits that a page-fault error code may carry.
pub const PAGE_FAULT_ALL_BITS: u64 = 31;

/// The error code the processor pushes on a page fault: a set of the five
/// flags above.
#[derive(Copy, Clone, Debug, PartialEq, Eq, Structural)]
pub struct PageFaultErrorCode {
    bits: u64,
}

impl View for PageFaultErrorCode {
    type V = u64;

    closed spec fn view(&self) -> u64 {
        self.bits
    }
}

impl PageFaultErrorCode {
    /// The error code with exactly the bits of `bits`, when every bit of
    /// `bits` is one of the five flags; `None` when another bit is set.
    pub fn from_bits(bits: u64) -> (r: Option<PageFaultErrorCode>)
        ensures
            r is Some <==> bits & !PAGE_FAULT_ALL_BITS == 0,
            r is Some ==> r->0@ == bits,
    {
        if bits & !PAGE_FAULT_ALL_BITS == 0 {
            Some(PageFaultErrorCode { bits })
        } else {
            None
        }
    }

    /// The flag bits.
    pub fn bits(&self) -> (b: u64)
        ensures
            b == self@,
    {
        self.bits
    }
}

} // verus!
