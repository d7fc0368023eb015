//! The real time clock: what is written to its ports, and to those of the
//! interrupt controllers once the clock's interrupt has been taken.

use vstd::prelude::*;
use crate::interrupts::pic::{port_write, PortWrite, PIC1_COMMAND, PIC2_COMMAND, PIC_EOI};

verus! {

/// The port that selects a register of the clock.
pub const RTC_INDEX: u16 = 0x70;

/// The port through which the selected register is read and written.
pub const RTC_DATA: u16 = 0x71;

/// Selects status register B, with the non-maskable interrupt disabled.
pub const SELECT_REGISTER_B: u8 = 0x8B;

/// Selects status register C.
pub const SELECT_REGISTER_C: u8 = 0x0C;

/// In status register B: the clock raises its periodic interrupt.
pub const PERIODIC_INTERRUPT: u8 = 0x40;

/// The real time clock, with the status that was last read from it.
pub struct RTC {
    pub val: u8,
}

impl RTC {
    /// A clock of which nothing was read yet.
    pub fn new() -> (rtc: RTC)
        ensures
            rtc.val == 0,
    {
        RTC { val: 0 }
    }

    /// The write that selects the register which is read next: status
    /// register B before `init`, status register C before `read_byte`.
    pub fn select(&self, register: u8) -> (selection: PortWrite)
        ensures
            selection == port_write(RTC_INDEX, register),
    {
        PortWrite { port: RTC_INDEX, value: register }
    }

    /// The writes that turn on the periodic interrupt, given the value
    /// `previous` of status register B: the register is selected again,
    /// for reading it has moved the selection, and is written with the
    /// interrupt's bit set and its other bits as they were.
    pub fn init(&self, previous: u8) -> (writes: Vec<PortWrite>)
        ensures
            writes@ == seq![
                port_write(RTC_INDEX, SELECT_REGISTER_B),
                port_write(RTC_DATA, previous | PERIODIC_INTERRUPT),
            ],
    {
        let mut writes: Vec<PortWrite> = Vec::new();
        writes.push(PortWrite { port: RTC_INDEX, value: SELECT_REGISTER_B });
        writes.push(PortWrite { port: RTC_DATA, value: previous | PERIODIC_INTERRUPT });
        assert(writes@ =~= seq![
            port_write(RTC_INDEX, SELECT_REGISTER_B),
            port_write(RTC_DATA, previous | PERIODIC_INTERRUPT),
        ]);
        writes
    }

    /// Keeps the value `status` of status register C, which was read to
    /// let the clock raise its next interrupt, and gives the writes that
    /// end the interrupt at both controllers.
    pub fn read_byte(&mut self, status: u8) -> (writes: Vec<PortWrite>)
        ensures
            final(self).val == status,
            writes@ == seq![port_write(PIC1_COMMAND, PIC_EOI), port_write(PIC2_COMMAND, PIC_EOI)],
    {
        self.val = status;
        let mut writes: Vec<PortWrite> = Vec::new();
        writes.push(PortWrite { port: PIC1_COMMAND, value: PIC_EOI });
        writes.push(PortWrite { port: PIC2_COMMAND, value: PIC_EOI });
        assert(writes@ =~= seq![port_write(PIC1_COMMAND, PIC_EOI), port_write(PIC2_COMMAND,
            PIC_EOI)]);
        writes
    }
}

} // verus!
