//! Descriptor tables and the interrupt controller: what the kernel sets up
//! before it lets interrupts in.

use vstd::prelude::*;
use x86_64::structures::tss::TaskStateSegment;
use crate::interrupts::gdt::{tss_descriptor, Descriptor, Gdt, SegmentSelector};
use crate::interrupts::idt::{
    kernel_vector, Handler, Vector, DOUBLE_FAULT_IST_INDEX, DOUBLE_FAULT_VECTOR,
};
use crate::memory::PAGE_SIZE;
use crate::memory::controller::Stack;
use crate::memory::paging::page::Page;

pub mod exceptions;
pub mod gdt;
pub mod idt;
pub mod pic;

verus! {

/// The global descriptor table of the kernel, with the selectors of its
/// two descriptors.
pub struct DescriptorTables {
    pub gdt: Gdt,
    pub code_selector: SegmentSelector,
    pub tss_selector: SegmentSelector,
}

/// The slots of the kernel's table for a task state segment that lies at
/// `address`: slot 0 empty, the code segment in slot 1, the task state
/// segment in slots 2 and 3.
pub open spec fn kernel_gdt_slots(address: u64) -> Seq<u64> {
    seq![
        0u64,
        0x0020_9800_0000_0000u64,
        tss_descriptor(address)->SystemSegment_0,
        tss_descriptor(address)->SystemSegment_1,
        0u64,
        0u64,
        0u64,
        0u64,
    ]
}

/// The descriptor tables of the kernel for a task state segment that lies
/// at `address`.
pub fn descriptor_tables(address: u64) -> (tables: DescriptorTables)
    ensures
        tables.gdt.slots() == kernel_gdt_slots(address),
        tables.gdt.next_free() == 4,
        tables.code_selector == SegmentSelector(8),
        tables.tss_selector == SegmentSelector(16),
{
    let mut gdt = Gdt::new();
    let code_selector = gdt.add_entry(Descriptor::kernel_code_segment());
    let tss_selector = gdt.add_entry(Descriptor::tss_segment_at(address));
    assert(gdt.slots() =~= kernel_gdt_slots(address));
    DescriptorTables { gdt, code_selector, tss_selector }
}

/// The descriptor tables of the kernel for the task state segment `tss`:
/// its code segment is selected by 8, its task state segment by 16.
pub fn init(tss: &'static TaskStateSegment) -> (tables: DescriptorTables)
    ensures
        exists|address: u64| tables.gdt.slots() == kernel_gdt_slots(address),
        tables.gdt.next_free() == 4,
        tables.code_selector == SegmentSelector(8),
        tables.tss_selector == SegmentSelector(16),
{
    let mut gdt = Gdt::new();
    let code_selector = gdt.add_entry(Descriptor::kernel_code_segment());
    let descriptor = Descriptor::tss_segment(tss);
    let tss_selector = gdt.add_entry(descriptor);
    proof {
        let address = choose|address: u64| descriptor == tss_descriptor(address);
        assert(gdt.slots() =~= kernel_gdt_slots(address));
    }
    DescriptorTables { gdt, code_selector, tss_selector }
}

/// Number of slots of the interrupt stack table.
pub const IST_SLOTS: usize = 7;

/// The interrupt stack table of the kernel's task state segment: the slot
/// `DOUBLE_FAULT_IST_INDEX` holds the top of `double_fault_stack`, which is
/// where that stack starts, for it grows downwards; the other slots are
/// empty.
pub open spec fn kernel_interrupt_stacks(double_fault_stack: Stack) -> Seq<u64> {
    Seq::new(
        IST_SLOTS as nat,
        |slot: int|
            if slot == DOUBLE_FAULT_IST_INDEX {
                double_fault_stack.top
            } else {
                0
            },
    )
}

/// Makes the interrupt stack table of the kernel's task state segment.
pub fn interrupt_stack_table(double_fault_stack: Stack) -> (table: [u64; 7])
    ensures
        table@ == kernel_interrupt_stacks(double_fault_stack),
{
    let mut table = [0u64;7];
    table[DOUBLE_FAULT_IST_INDEX] = double_fault_stack.top;
    assert(table@ =~= kernel_interrupt_stacks(double_fault_stack));
    table
}

/// The double fault handler has a stack of its own: the slot of the
/// interrupt stack table that the kernel's interrupt descriptor table
/// names for the double fault vector, and for no other vector, holds the top
/// of the double fault stack, and the eight bytes below that top lie
/// within the stack.
pub proof fn double_fault_handler_has_its_own_stack(stack: Stack, guard: Page, size: u64)
    requires
        size > 0,
        stack.bottom == (guard@ + 1) * PAGE_SIZE,
        stack.top == (guard@ + 1 + size) * PAGE_SIZE,
    ensures
        kernel_vector(DOUBLE_FAULT_VECTOR as int) matches Vector::Assigned {
            handler: Handler::DoubleFault,
            stack_index: Some(index),
        } && kernel_interrupt_stacks(stack)[index as int] == stack.top,
        forall|vector: int|
            vector != DOUBLE_FAULT_VECTOR ==> !(#[trigger] kernel_vector(vector)
                matches Vector::Assigned { stack_index: Some(_), .. }),
        stack.bottom <= stack.top - 8 < stack.top,
{
}

/// The steps that bring up interrupt handling.
#[derive(Clone, Copy, Debug, PartialEq, Eq, Structural)]
pub enum Step {
    /// Get a stack for the double fault handler.
    AllocateDoubleFaultStack,
    /// Make the task state segment, with the top of that stack in its
    /// interrupt stack table.
    BuildTss,
    /// Make the global descriptor table, with the code segment and the
    /// task state segment.
    BuildGdt,
    /// Load the global descriptor table.
    LoadGdt,
    /// Reload the code segment register with the new selector.
    ReloadCodeSegment,
    /// Load the task state segment.
    LoadTss,
    /// Load the interrupt descriptor table.
    LoadIdt,
    /// Initialize the interrupt controllers.
    InitPic,
    /// Let the real time clock raise interrupts.
    EnableClock,
    /// Let interrupts in.
    EnableInterrupts,
}

impl Step {
    /// The place of the step in the order, from 0.
    pub open spec fn position(self) -> int {
        match self {
            Step::AllocateDoubleFaultStack => 0,
            Step::BuildTss => 1,
            Step::BuildGdt => 2,
            Step::LoadGdt => 3,
            Step::ReloadCodeSegment => 4,
            Step::LoadTss => 5,
            Step::LoadIdt => 6,
            Step::InitPic => 7,
            Step::EnableClock => 8,
            Step::EnableInterrupts => 9,
        }
    }

    /// The first step.
    pub fn first() -> (step: Step)
        ensures
            step.position() == 0,
    {
        Step::AllocateDoubleFaultStack
    }

    /// The step that follows `self`, or `None` after the last one.
    pub fn next(self) -> (step: Option<Step>)
        ensures
            step is None <==> self.position() == 9,
            step matches Some(s) ==> s.position() == self.position() + 1,
    {
        match self {
            Step::AllocateDoubleFaultStack => Some(Step::BuildTss),
            Step::BuildTss => Some(Step::BuildGdt),
            Step::BuildGdt => Some(Step::LoadGdt),
            Step::LoadGdt => Some(Step::ReloadCodeSegment),
            Step::ReloadCodeSegment => Some(Step::LoadTss),
            Step::LoadTss => Some(Step::LoadIdt),
            Step::LoadIdt => Some(Step::InitPic),
            Step::InitPic => Some(Step::EnableClock),
            Step::EnableClock => Some(Step::EnableInterrupts),
            Step::EnableInterrupts => None,
        }
    }
}

/// The order that the processor needs: the task state segment is made
/// before the table that describes it, the table is loaded before the
/// code segment register and the task state segment are, and all of this
/// comes before the interrupt descriptor table is loaded, whose double
/// fault entry names a stack of the task state segment. Interrupts are let
/// in last.
pub proof fn tables_are_loaded_in_order()
    ensures
        Step::BuildTss.position() < Step::BuildGdt.position() < Step::LoadGdt.position(),
        Step::LoadGdt.position() < Step::ReloadCodeSegment.position() < Step::LoadTss.position(),
        Step::LoadTss.position() < Step::LoadIdt.position() < Step::InitPic.position(),
        forall|step: Step| #[trigger] step.position() <= Step::EnableInterrupts.position(),
{
}

} // verus!
