//! What the handlers make of an exception.

use vstd::prelude::*;
use crate::interrupts::idt::Handler;

verus! {

/// In a page fault's error code: the page was present, and the access
/// went against its protection.
pub const PROTECTION_VIOLATION: u64 = 1 << 0;

/// In a page fault's error code: the access was a write.
pub const CAUSED_BY_WRITE: u64 = 1 << 1;

/// In a page fault's error code: the access came from user mode.
pub const USER_MODE: u64 = 1 << 2;

/// In a page fault's error code: a reserved bit of a table entry was set.
pub const MALFORMED_TABLE: u64 = 1 << 3;

/// In a page fault's error code: the access fetched an instruction.
pub const INSTRUCTION_FETCH: u64 = 1 << 4;

/// Every bit of a page fault's error code that has a meaning.
pub const PAGE_FAULT_BITS: u64 = 0x8000_80ff;

/// What a page fault's error code says.
#[derive(Debug, Clone, Copy, PartialEq, Eq, Structural)]
pub struct PageFault {
    /// The access went against the page's protection; else the page was
    /// not present.
    pub protection_violation: bool,
    /// The access was a write; else it was a read.
    pub caused_by_write: bool,
    /// The access came from user mode; else from the kernel.
    pub user_mode: bool,
    /// A reserved bit of a table entry was set.
    pub malformed_table: bool,
    /// The access fetched an instruction.
    pub instruction_fetch: bool,
}

/// What a handler does once it has reported the exception.
#[derive(Debug, Clone, Copy, PartialEq, Eq, Structural)]
pub enum Outcome {
    /// What was interrupted goes on.
    Resume,
    /// The processor is halted for good.
    Halt,
}

/// `PageFaultErrorCode::from_bits_truncate` of `x86_64`, and the bits of
/// its result: the bits of `error_code` that have a meaning.
#[verifier::external_body]
fn page_fault_bits(error_code: u64) -> (bits: u64)
    ensures
        bits == error_code & PAGE_FAULT_BITS,
{
    x86_64::structures::idt::PageFaultErrorCode::from_bits_truncate(error_code).bits()
}

/// What the error code `error_code` of a page fault says.
pub fn page_fault(error_code: u64) -> (fault: PageFault)
    ensures
        fault.protection_violation == (error_code & PROTECTION_VIOLATION != 0),
        fault.caused_by_write == (error_code & CAUSED_BY_WRITE != 0),
        fault.user_mode == (error_code & USER_MODE != 0),
        fault.malformed_table == (error_code & MALFORMED_TABLE != 0),
        fault.instruction_fetch == (error_code & INSTRUCTION_FETCH != 0),
{
    let bits = page_fault_bits(error_code);
    assert(bits & PROTECTION_VIOLATION == error_code & PROTECTION_VIOLATION && bits
        & CAUSED_BY_WRITE == error_code & CAUSED_BY_WRITE && bits & USER_MODE == error_code
        & USER_MODE && bits & MALFORMED_TABLE == error_code & MALFORMED_TABLE && bits
        & INSTRUCTION_FETCH == error_code & INSTRUCTION_FETCH) by (bit_vector)
        requires
            bits == error_code & PAGE_FAULT_BITS,
    ;
    PageFault {
        protection_violation: bits & PROTECTION_VIOLATION != 0,
        caused_by_write: bits & CAUSED_BY_WRITE != 0,
        user_mode: bits & USER_MODE != 0,
        malformed_table: bits & MALFORMED_TABLE != 0,
        instruction_fetch: bits & INSTRUCTION_FETCH != 0,
    }
}

/// What `handler` does once it has done its work: after a breakpoint and
/// after the interrupt of a device what was interrupted goes on; after a
/// fault the processor is halted, for to go on might spoil what the
/// kernel holds.
pub fn outcome(handler: Handler) -> (outcome: Outcome)
    ensures
        outcome == Outcome::Halt <==> handler == Handler::PageFault || handler
            == Handler::DoubleFault,
{
    match handler {
        Handler::Breakpoint => Outcome::Resume,
        Handler::PageFault => Outcome::Halt,
        Handler::DoubleFault => Outcome::Halt,
        Handler::Timer => Outcome::Resume,
        Handler::Keyboard => Outcome::Resume,
        Handler::RealTimeClock => Outcome::Resume,
    }
}

} // verus!
