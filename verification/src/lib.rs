//! Core of a small x86_64 kernel: physical frame allocation, four-level page
//! tables, descriptor tables and interrupt controller programming, with the
//! behaviour of every function stated as a contract and proved.

pub mod arch;
pub mod database;
pub mod drivers;
pub mod interrupts;
pub mod memory;

use vstd::prelude::*;

verus! {

/// How the kernel leaves the emulator: the value that it writes to the
/// emulator's exit port.
#[derive(Debug, Clone, Copy, PartialEq, Eq, Structural)]
pub enum QemuExitCode {
    Success,
    Failed,
}

/// The port through which the kernel leaves the emulator.
pub const QEMU_EXIT_PORT: u16 = 0xf4;

impl QemuExitCode {
    /// The value that stands for the exit code.
    pub open spec fn value(self) -> u32 {
        match self {
            QemuExitCode::Success => 0x10,
            QemuExitCode::Failed => 0x11,
        }
    }

    /// Computes `value`.
    pub fn code(self) -> (code: u32)
        ensures
            code == self.value(),
    {
        match self {
            QemuExitCode::Success => 0x10,
            QemuExitCode::Failed => 0x11,
        }
    }
}

} // verus!
