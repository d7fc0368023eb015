//! The interrupt descriptor table: which handler serves which vector.

use vstd::prelude::*;
use crate::interrupts::pic::{PIC1_OFFSET, PIC2_OFFSET};

verus! {

/// Number of interrupt vectors.
pub const VECTORS: usize = 256;

/// Vector of the breakpoint exception.
pub const BREAKPOINT_VECTOR: u8 = 3;

/// Vector of the double fault exception.
pub const DOUBLE_FAULT_VECTOR: u8 = 8;

/// Vector of the page fault exception.
pub const PAGE_FAULT_VECTOR: u8 = 14;

/// Interrupt line of the interval timer.
pub const TIMER_IRQ: u8 = 0;

/// Interrupt line of the keyboard.
pub const KEYBOARD_IRQ: u8 = 1;

/// Interrupt line of the real time clock.
pub const CLOCK_IRQ: u8 = 8;

/// Slot of the interrupt stack table that holds the stack of the double
/// fault handler.
pub const DOUBLE_FAULT_IST_INDEX: usize = 0;

/// The handlers of the kernel.
#[derive(Clone, Copy, Debug, PartialEq, Eq, Structural)]
pub enum Handler {
    /// Reports the state and goes on.
    Breakpoint,
    /// Reports the error code and the state, and halts.
    PageFault,
    /// Reports the state and halts.
    DoubleFault,
    /// Ends the interrupt.
    Timer,
    /// Reads the scan code and ends the interrupt.
    Keyboard,
    /// Reads the clock's status and ends the interrupt.
    RealTimeClock,
}

/// What the table holds for one vector.
#[derive(Clone, Copy, Debug, PartialEq, Eq, Structural)]
pub enum Vector {
    /// No handler.
    Unassigned,
    /// A handler, and the slot of the interrupt stack table whose stack the
    /// processor switches to before it calls the handler, if any.
    Assigned { handler: Handler, stack_index: Option<u16> },
}

/// The vector on which the interrupt line `irq` arrives once the
/// controllers have their offsets.
pub open spec fn vector_of_irq(irq: u8) -> int {
    if irq < 8 {
        PIC1_OFFSET + irq
    } else {
        PIC2_OFFSET + (irq - 8)
    }
}

/// The interrupt descriptor table. Its view is what it holds for each of
/// the 256 vectors.
pub struct Idt {
    vectors: [Vector; 256],
}

impl View for Idt {
    type V = Seq<Vector>;

    closed spec fn view(&self) -> Seq<Vector> {
        self.vectors@
    }
}

impl Idt {
    /// A table without handlers.
    pub fn new() -> (idt: Idt)
        ensures
            idt@ == Seq::new(VECTORS as nat, |i: int| Vector::Unassigned),
    {
        let vectors = [Vector::Unassigned;256];
        assert(vectors@ =~= Seq::new(VECTORS as nat, |i: int| Vector::Unassigned));
        Idt { vectors }
    }

    /// What the table holds for `vector`.
    pub fn entry(&self, vector: u8) -> (entry: Vector)
        ensures
            entry == self@[vector as int],
            self@.len() == VECTORS,
    {
        self.vectors[vector as usize]
    }

    /// Lets `handler` serve `vector`, on the stack that is current when the
    /// interrupt arrives.
    pub fn set_handler(&mut self, vector: u8, handler: Handler)
        ensures
            final(self)@ == old(self)@.update(
                vector as int,
                Vector::Assigned { handler, stack_index: None },
            ),
    {
        self.vectors[vector as usize] = Vector::Assigned { handler, stack_index: None };
    }

    /// Lets the handler of `vector` run on the stack of slot `index` of
    /// the interrupt stack table. A vector without a handler stays as it
    /// is.
    pub fn set_stack_index(&mut self, vector: u8, index: u16)
        ensures
            final(self)@ == match old(self)@[vector as int] {
                Vector::Unassigned => old(self)@,
                Vector::Assigned { handler, stack_index } => old(self)@.update(
                    vector as int,
                    Vector::Assigned { handler, stack_index: Some(index) },
                ),
            },
    {
        match self.vectors[vector as usize] {
            Vector::Unassigned => {},
            Vector::Assigned { handler, stack_index } => {
                self.vectors[vector as usize] = Vector::Assigned {
                    handler,
                    stack_index: Some(index),
                };
            },
        }
    }
}

/// The table of the kernel, vector by vector.
pub open spec fn kernel_vector(vector: int) -> Vector {
    if vector == BREAKPOINT_VECTOR {
        Vector::Assigned { handler: Handler::Breakpoint, stack_index: None }
    } else if vector == PAGE_FAULT_VECTOR {
        Vector::Assigned { handler: Handler::PageFault, stack_index: None }
    } else if vector == vector_of_irq(TIMER_IRQ) {
        Vector::Assigned { handler: Handler::Timer, stack_index: None }
    } else if vector == vector_of_irq(KEYBOARD_IRQ) {
        Vector::Assigned { handler: Handler::Keyboard, stack_index: None }
    } else if vector == vector_of_irq(CLOCK_IRQ) {
        Vector::Assigned { handler: Handler::RealTimeClock, stack_index: None }
    } else if vector == DOUBLE_FAULT_VECTOR {
        Vector::Assigned {
            handler: Handler::DoubleFault,
            stack_index: Some(DOUBLE_FAULT_IST_INDEX as u16),
        }
    } else {
        Vector::Unassigned
    }
}

/// The interrupt descriptor table of the kernel: handlers for the
/// breakpoint, page fault and double fault exceptions and for the
/// interrupts of timer, keyboard and clock. The double fault handler, and
/// no other, runs on a stack of its own.
pub fn kernel_idt() -> (idt: Idt)
    ensures
        idt@ == Seq::new(VECTORS as nat, |vector: int| kernel_vector(vector)),
        forall|vector: int|
            0 <= vector < VECTORS && vector != DOUBLE_FAULT_VECTOR ==> !(
            #[trigger] idt@[vector] matches Vector::Assigned { stack_index: Some(_), .. }),
{
    let mut idt = Idt::new();
    idt.set_handler(BREAKPOINT_VECTOR, Handler::Breakpoint);
    idt.set_handler(PAGE_FAULT_VECTOR, Handler::PageFault);
    idt.set_handler(PIC1_OFFSET + TIMER_IRQ, Handler::Timer);
    idt.set_handler(PIC1_OFFSET + KEYBOARD_IRQ, Handler::Keyboard);
    idt.set_handler(PIC2_OFFSET + (CLOCK_IRQ - 8), Handler::RealTimeClock);
    idt.set_handler(DOUBLE_FAULT_VECTOR, Handler::DoubleFault);
    idt.set_stack_index(DOUBLE_FAULT_VECTOR, DOUBLE_FAULT_IST_INDEX as u16);
    assert(idt@ =~= Seq::new(VECTORS as nat, |vector: int| kernel_vector(vector)));
    idt
}

} // verus!
