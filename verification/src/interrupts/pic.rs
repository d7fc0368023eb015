//! The pair of 8259 interrupt controllers: what is written to their ports.
//!
//! Interrupt lines 0 to 7 belong to the primary controller, lines 8 to 15
//! to the secondary one, which is wired to line 2 of the primary.

use vstd::prelude::*;

verus! {

/// Command port of the primary controller.
pub const PIC1_COMMAND: u16 = 0x20;

/// Data port of the primary controller.
pub const PIC1_DATA: u16 = 0x21;

/// Command port of the secondary controller.
pub const PIC2_COMMAND: u16 = 0xA0;

/// Data port of the secondary controller.
pub const PIC2_DATA: u16 = 0xA1;

/// A port that nothing listens to; a write to it takes long enough for a
/// controller to take in the write before.
pub const WAIT_PORT: u16 = 0x80;

/// The command that ends an interrupt.
pub const PIC_EOI: u8 = 0x20;

/// In the first initialization word: a fourth word will follow.
pub const ICW1_ICW4: u8 = 0x01;

/// In the first initialization word: this starts an initialization.
pub const ICW1_INIT: u8 = 0x10;

/// In the fourth initialization word: 8086 mode.
pub const ICW4_8086: u8 = 0x01;

/// The interrupt vector of line 0 of the primary controller.
pub const PIC1_OFFSET: u8 = 0x20;

/// The interrupt vector of line 0 of the secondary controller.
pub const PIC2_OFFSET: u8 = 0x28;

/// One byte written to an I/O port.
#[derive(Clone, Copy, Debug, PartialEq, Eq, Structural)]
pub struct PortWrite {
    pub port: u16,
    pub value: u8,
}

/// The write of `value` to `port`.
pub open spec fn port_write(port: u16, value: u8) -> PortWrite {
    PortWrite { port, value }
}

/// The writes that end the interrupt of line `irq`: the secondary
/// controller is told only if the line is one of its own, the primary
/// controller always, and last.
pub open spec fn end_of_interrupt_writes(irq: u8) -> Seq<PortWrite> {
    if irq >= 8 {
        seq![port_write(PIC2_COMMAND, PIC_EOI), port_write(PIC1_COMMAND, PIC_EOI)]
    } else {
        seq![port_write(PIC1_COMMAND, PIC_EOI)]
    }
}

/// The writes that initialize both controllers and then put back the
/// interrupt masks `pic1_mask` and `pic2_mask`. Each word of the
/// initialization is followed by a write to the wait port.
pub open spec fn init_writes(pic1_mask: u8, pic2_mask: u8) -> Seq<PortWrite> {
    seq![
        port_write(PIC1_COMMAND, 0x11),
        port_write(WAIT_PORT, 0),
        port_write(PIC2_COMMAND, 0x11),
        port_write(WAIT_PORT, 0),
        port_write(PIC1_DATA, PIC1_OFFSET),
        port_write(WAIT_PORT, 0),
        port_write(PIC2_DATA, PIC2_OFFSET),
        port_write(WAIT_PORT, 0),
        port_write(PIC1_DATA, 4),
        port_write(WAIT_PORT, 0),
        port_write(PIC2_DATA, 2),
        port_write(WAIT_PORT, 0),
        port_write(PIC1_DATA, ICW4_8086),
        port_write(WAIT_PORT, 0),
        port_write(PIC2_DATA, ICW4_8086),
        port_write(WAIT_PORT, 0),
        port_write(PIC1_DATA, pic1_mask),
        port_write(PIC2_DATA, pic2_mask),
    ]
}

/// What an 8259 controller waits for.
pub enum Phase {
    /// Commands, and interrupt masks on the data port.
    Ready,
    /// The second initialization word: the vector offset.
    Offset,
    /// The third initialization word: the cascade wiring.
    Wiring,
    /// The fourth initialization word: the mode.
    Mode,
}

/// The state of one 8259 controller, as far as its ports show it.
pub struct Controller {
    pub phase: Phase,
    pub offset: u8,
    pub wiring: u8,
    pub mode: u8,
    pub mask: u8,
}

impl Controller {
    /// The controller after `value` was written to its command port. A
    /// first initialization word clears the mask and makes the controller
    /// wait for the words that follow; other commands leave what is
    /// modelled here as it is.
    pub open spec fn command(self, value: u8) -> Controller {
        if value & ICW1_INIT != 0 {
            Controller { phase: Phase::Offset, mask: 0, ..self }
        } else {
            self
        }
    }

    /// The controller after `value` was written to its data port: the next
    /// initialization word if it waits for one, else the interrupt mask.
    pub open spec fn data(self, value: u8) -> Controller {
        match self.phase {
            Phase::Ready => Controller { mask: value, ..self },
            Phase::Offset => Controller { phase: Phase::Wiring, offset: value, ..self },
            Phase::Wiring => Controller { phase: Phase::Mode, wiring: value, ..self },
            Phase::Mode => Controller { phase: Phase::Ready, mode: value, ..self },
        }
    }

    /// The controller with the ports `command_port` and `data_port` after
    /// the first `count` of the writes `writes`, in order. Writes to other
    /// ports do not reach it.
    pub open spec fn after_some(
        self,
        writes: Seq<PortWrite>,
        command_port: u16,
        data_port: u16,
        count: nat,
    ) -> Controller
        decreases count,
    {
        if count == 0 {
            self
        } else {
            let before = self.after_some(writes, command_port, data_port, (count - 1) as nat);
            let this = writes[count - 1];
            if this.port == command_port {
                before.command(this.value)
            } else if this.port == data_port {
                before.data(this.value)
            } else {
                before
            }
        }
    }

    /// The controller after all the writes `writes`.
    pub open spec fn after(
        self,
        writes: Seq<PortWrite>,
        command_port: u16,
        data_port: u16,
    ) -> Controller {
        self.after_some(writes, command_port, data_port, writes.len())
    }
}

/// Initialization keeps the interrupt masks: whatever state the two
/// controllers are in, after the writes of `init_writes` for the masks
/// `pic1_mask` and `pic2_mask` each controller is ready, has its new vector
/// offset, and has the mask that was handed in.
pub proof fn init_keeps_masks(primary: Controller, secondary: Controller, pic1_mask: u8,
    pic2_mask: u8)
    ensures
        primary.after(init_writes(pic1_mask, pic2_mask), PIC1_COMMAND, PIC1_DATA) == (Controller {
            phase: Phase::Ready,
            offset: PIC1_OFFSET,
            wiring: 4,
            mode: ICW4_8086,
            mask: pic1_mask,
        }),
        secondary.after(init_writes(pic1_mask, pic2_mask), PIC2_COMMAND, PIC2_DATA) == (Controller {
            phase: Phase::Ready,
            offset: PIC2_OFFSET,
            wiring: 2,
            mode: ICW4_8086,
            mask: pic2_mask,
        }),
{
    assert(0x11u8 & ICW1_INIT != 0) by (bit_vector);
    reveal_with_fuel(Controller::after_some, 19);
}

/// The pair of interrupt controllers. All of its state is in the hardware.
pub struct PIC {}

impl PIC {
    /// The pair of controllers.
    pub fn new() -> (pic: PIC) {
        PIC {  }
    }

    /// The writes that tell the controllers that the interrupt of line
    /// `irq` has been handled.
    pub fn send_end_of_interrupt(&self, irq: u8) -> (writes: Vec<PortWrite>)
        ensures
            writes@ == end_of_interrupt_writes(irq),
    {
        let mut writes: Vec<PortWrite> = Vec::new();
        if irq >= 8 {
            writes.push(PortWrite { port: PIC2_COMMAND, value: PIC_EOI });
        }
        writes.push(PortWrite { port: PIC1_COMMAND, value: PIC_EOI });
        assert(writes@ =~= end_of_interrupt_writes(irq));
        writes
    }

    /// The writes that initialize the controllers in cascade mode, with
    /// the vector offsets `PIC1_OFFSET` and `PIC2_OFFSET`, and then put
    /// back the interrupt masks, which were read before.
    pub fn init(&self, pic1_mask: u8, pic2_mask: u8) -> (writes: Vec<PortWrite>)
        ensures
            writes@ == init_writes(pic1_mask, pic2_mask),
    {
        let mut writes: Vec<PortWrite> = Vec::new();
        // Start the initialization, in cascade mode.
        outb_wait(&mut writes, PIC1_COMMAND, ICW1_INIT + ICW1_ICW4);
        outb_wait(&mut writes, PIC2_COMMAND, ICW1_INIT + ICW1_ICW4);
        // The vector offsets.
        outb_wait(&mut writes, PIC1_DATA, PIC1_OFFSET);
        outb_wait(&mut writes, PIC2_DATA, PIC2_OFFSET);
        // The primary has a secondary on line 2; the secondary's identity is 2.
        outb_wait(&mut writes, PIC1_DATA, 4);
        outb_wait(&mut writes, PIC2_DATA, 2);
        outb_wait(&mut writes, PIC1_DATA, ICW4_8086);
        outb_wait(&mut writes, PIC2_DATA, ICW4_8086);
        // Put back the masks.
        writes.push(PortWrite { port: PIC1_DATA, value: pic1_mask });
        writes.push(PortWrite { port: PIC2_DATA, value: pic2_mask });
        assert(writes@ =~= init_writes(pic1_mask, pic2_mask));
        writes
    }
}

/// Adds the write of `data` to `port`, and a write to the wait port that
/// gives the controller time to take it in.
pub fn outb_wait(writes: &mut Vec<PortWrite>, port: u16, data: u8)
    ensures
        final(writes)@ == old(writes)@.push(port_write(port, data)).push(port_write(WAIT_PORT, 0)),
{
    writes.push(PortWrite { port: port, value: data });
    writes.push(PortWrite { port: WAIT_PORT, value: 0 });
}

} // verus!
