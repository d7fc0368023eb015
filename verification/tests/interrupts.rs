use hivemind::interrupts::exceptions::{outcome, page_fault, Outcome, PageFault};
use hivemind::interrupts::gdt::{
    Descriptor, DescriptorFlags, Gdt, SegmentSelector, EXECUTABLE, LONG_MODE, PRESENT,
    USER_SEGMENT,
};
use hivemind::interrupts::idt::{
    kernel_idt, Handler, Idt, Vector, BREAKPOINT_VECTOR, DOUBLE_FAULT_IST_INDEX,
    DOUBLE_FAULT_VECTOR, PAGE_FAULT_VECTOR,
};
use hivemind::interrupts::pic::{
    outb_wait, PortWrite, PIC, PIC1_COMMAND, PIC1_DATA, PIC2_COMMAND, PIC2_DATA, WAIT_PORT,
};
use hivemind::interrupts::{descriptor_tables, init, interrupt_stack_table, Step};
use hivemind::memory::controller::Stack;
use x86_64::structures::tss::TaskStateSegment;

#[test]
fn kernel_code_segment_flags() {
    assert_eq!(
        Descriptor::kernel_code_segment(),
        Descriptor::UserSegment(USER_SEGMENT | PRESENT | EXECUTABLE | LONG_MODE)
    );
    assert_eq!(Descriptor::kernel_code_segment(), Descriptor::UserSegment(0x0020_9800_0000_0000));
}

#[test]
fn descriptor_flags() {
    assert_eq!(DescriptorFlags::empty().bits(), 0);
    assert_eq!(DescriptorFlags::from_bits_truncate(u64::MAX).bits(), 0x0020_9c00_0000_0000);
    let flags = DescriptorFlags::from_bits_truncate(PRESENT)
        .union(DescriptorFlags::from_bits_truncate(LONG_MODE));
    assert_eq!(flags.bits(), (1 << 47) | (1 << 53));
    assert!(flags.contains(DescriptorFlags::from_bits_truncate(PRESENT)));
    assert!(!flags.contains(DescriptorFlags::from_bits_truncate(EXECUTABLE)));
}

#[test]
fn tss_descriptor_at_an_address() {
    let descriptor = Descriptor::tss_segment_at(0x1234_5678_9abc_def0);
    // limit 0x67, base bits 0..24 = 0xbcdef0, type 0x9, present, base bits
    // 24..32 = 0x9a
    let low = 0x0067u64 | (0xbc_def0 << 16) | (0x9 << 40) | (1 << 47) | (0x9a << 56);
    assert_eq!(descriptor, Descriptor::SystemSegment(low, 0x1234_5678));
    assert_eq!(descriptor, Descriptor::SystemSegment(0x9a00_89bc_def0_0067, 0x1234_5678));
}

#[test]
fn tss_descriptor_at_zero_and_at_the_top() {
    assert_eq!(
        Descriptor::tss_segment_at(0),
        Descriptor::SystemSegment(0x0000_8900_0000_0067, 0)
    );
    assert_eq!(
        Descriptor::tss_segment_at(u64::MAX),
        Descriptor::SystemSegment(0xff00_89ff_ffff_0067, 0xffff_ffff)
    );
}

#[test]
fn tss_descriptor_of_a_segment() {
    let tss: &'static TaskStateSegment = Box::leak(Box::new(TaskStateSegment::new()));
    let address = x86_64::VirtAddr::from_ptr(tss).as_u64();
    assert_eq!(Descriptor::tss_segment(tss), Descriptor::tss_segment_at(address));
    assert_eq!(core::mem::size_of::<TaskStateSegment>(), 104);
}

#[test]
fn gdt_starts_empty() {
    let gdt = Gdt::new();
    assert_eq!(gdt.table(), &[0u64; 8]);
    assert_eq!(gdt.free_slots(), 7);
    assert_eq!(gdt.limit(), 63);
}

#[test]
fn gdt_entries_and_selectors() {
    let mut gdt = Gdt::new();
    let code = gdt.add_entry(Descriptor::UserSegment(0xaaaa));
    let system = gdt.add_entry(Descriptor::SystemSegment(0xbbbb, 0xcccc));
    let data = gdt.add_entry(Descriptor::UserSegment(0xdddd));
    assert_eq!(code, SegmentSelector(8));
    assert_eq!(system, SegmentSelector(16));
    assert_eq!(data, SegmentSelector(32));
    assert_eq!(gdt.table(), &[0, 0xaaaa, 0xbbbb, 0xcccc, 0xdddd, 0, 0, 0]);
    assert_eq!(gdt.free_slots(), 3);
}

#[test]
fn gdt_fills_up() {
    let mut gdt = Gdt::new();
    for expected in 1..8usize {
        assert!(gdt.free_slots() >= 1);
        assert_eq!(gdt.push(expected as u64 * 3), expected);
    }
    assert_eq!(gdt.free_slots(), 0);
    assert_eq!(gdt.table(), &[0, 3, 6, 9, 12, 15, 18, 21]);
}

#[test]
fn selector_agrees_with_the_processor_crate() {
    let mut gdt = Gdt::new();
    for index in 1..8u16 {
        let selector = gdt.add_entry(Descriptor::UserSegment(0));
        let theirs = x86_64::structures::gdt::SegmentSelector::new(
            index,
            x86_64::PrivilegeLevel::Ring0,
        );
        assert_eq!(selector.0, theirs.0);
        assert_eq!(theirs.index(), index);
    }
}

#[test]
fn kernel_descriptor_tables() {
    let tables = descriptor_tables(0xffff_8000_0012_3000);
    assert_eq!(tables.code_selector, SegmentSelector(8));
    assert_eq!(tables.tss_selector, SegmentSelector(16));
    assert_eq!(
        tables.gdt.table(),
        &[0, 0x0020_9800_0000_0000, 0x0000_8912_3000_0067, 0xffff_8000, 0, 0, 0, 0]
    );
    assert_eq!(tables.gdt.free_slots(), 4);
}

#[test]
fn init_builds_the_tables_for_a_segment() {
    let tss: &'static TaskStateSegment = Box::leak(Box::new(TaskStateSegment::new()));
    let address = x86_64::VirtAddr::from_ptr(tss).as_u64();
    let tables = init(tss);
    let expected = descriptor_tables(address);
    assert_eq!(tables.gdt.table(), expected.gdt.table());
    assert_eq!(tables.code_selector, SegmentSelector(8));
    assert_eq!(tables.tss_selector, SegmentSelector(16));
}

#[test]
fn steps_come_in_order() {
    let mut steps = vec![Step::first()];
    while let Some(next) = steps.last().unwrap().next() {
        steps.push(next);
    }
    assert_eq!(
        steps,
        vec![
            Step::AllocateDoubleFaultStack,
            Step::BuildTss,
            Step::BuildGdt,
            Step::LoadGdt,
            Step::ReloadCodeSegment,
            Step::LoadTss,
            Step::LoadIdt,
            Step::InitPic,
            Step::EnableClock,
            Step::EnableInterrupts,
        ]
    );
}

#[test]
fn idt_of_the_kernel() {
    let idt = kernel_idt();
    let plain = |handler| Vector::Assigned { handler, stack_index: None };
    assert_eq!(idt.entry(BREAKPOINT_VECTOR), plain(Handler::Breakpoint));
    assert_eq!(idt.entry(PAGE_FAULT_VECTOR), plain(Handler::PageFault));
    assert_eq!(idt.entry(32), plain(Handler::Timer));
    assert_eq!(idt.entry(33), plain(Handler::Keyboard));
    assert_eq!(idt.entry(40), plain(Handler::RealTimeClock));
    assert_eq!(
        idt.entry(DOUBLE_FAULT_VECTOR),
        Vector::Assigned {
            handler: Handler::DoubleFault,
            stack_index: Some(DOUBLE_FAULT_IST_INDEX as u16)
        }
    );
    let mut assigned = 0;
    for vector in 0..=255u8 {
        match idt.entry(vector) {
            Vector::Unassigned => {}
            Vector::Assigned { stack_index, .. } => {
                assigned += 1;
                assert_eq!(stack_index.is_some(), vector == DOUBLE_FAULT_VECTOR);
            }
        }
    }
    assert_eq!(assigned, 6);
}

#[test]
fn idt_entries() {
    let mut idt = Idt::new();
    for vector in 0..=255u8 {
        assert_eq!(idt.entry(vector), Vector::Unassigned);
    }
    idt.set_stack_index(7, 3);
    assert_eq!(idt.entry(7), Vector::Unassigned);
    idt.set_handler(7, Handler::Timer);
    assert_eq!(idt.entry(7), Vector::Assigned { handler: Handler::Timer, stack_index: None });
    idt.set_stack_index(7, 3);
    assert_eq!(idt.entry(7), Vector::Assigned { handler: Handler::Timer, stack_index: Some(3) });
    idt.set_handler(7, Handler::Keyboard);
    assert_eq!(idt.entry(7), Vector::Assigned { handler: Handler::Keyboard, stack_index: None });
    assert_eq!(idt.entry(6), Vector::Unassigned);
    assert_eq!(idt.entry(8), Vector::Unassigned);
}

fn write(port: u16, value: u8) -> PortWrite {
    PortWrite { port, value }
}

#[test]
fn end_of_interrupt() {
    let pic = PIC::new();
    assert_eq!(pic.send_end_of_interrupt(0), vec![write(0x20, 0x20)]);
    assert_eq!(pic.send_end_of_interrupt(1), vec![write(0x20, 0x20)]);
    assert_eq!(pic.send_end_of_interrupt(7), vec![write(0x20, 0x20)]);
    assert_eq!(pic.send_end_of_interrupt(8), vec![write(0xA0, 0x20), write(0x20, 0x20)]);
    assert_eq!(pic.send_end_of_interrupt(15), vec![write(0xA0, 0x20), write(0x20, 0x20)]);
}

#[test]
fn pic_initialization_sequence() {
    let writes = PIC::new().init(0xfd, 0xff);
    let expected = vec![
        write(0x20, 0x11),
        write(0x80, 0),
        write(0xA0, 0x11),
        write(0x80, 0),
        write(0x21, 0x20),
        write(0x80, 0),
        write(0xA1, 0x28),
        write(0x80, 0),
        write(0x21, 4),
        write(0x80, 0),
        write(0xA1, 2),
        write(0x80, 0),
        write(0x21, 1),
        write(0x80, 0),
        write(0xA1, 1),
        write(0x80, 0),
        write(0x21, 0xfd),
        write(0xA1, 0xff),
    ];
    assert_eq!(writes, expected);
}

#[test]
fn outb_wait_adds_a_wait() {
    let mut writes = vec![write(1, 2)];
    outb_wait(&mut writes, 0x21, 7);
    assert_eq!(writes, vec![write(1, 2), write(0x21, 7), write(WAIT_PORT, 0)]);
}

/// An 8259 controller, as far as its two ports show it.
struct Chip {
    command_port: u16,
    data_port: u16,
    words_awaited: u8,
    offset: u8,
    mask: u8,
}

impl Chip {
    fn write(&mut self, write: PortWrite) {
        if write.port == self.command_port {
            if write.value & 0x10 != 0 {
                self.words_awaited = 3;
                self.mask = 0;
            }
        } else if write.port == self.data_port {
            match self.words_awaited {
                0 => self.mask = write.value,
                3 => {
                    self.offset = write.value;
                    self.words_awaited = 2;
                }
                _ => self.words_awaited -= 1,
            }
        }
    }
}

#[test]
fn pic_initialization_keeps_the_masks() {
    for (mask1, mask2) in [(0x02u8, 0x00u8), (0xfd, 0xff), (0x00, 0x00), (0xa5, 0x5a)] {
        let mut primary = Chip {
            command_port: PIC1_COMMAND,
            data_port: PIC1_DATA,
            words_awaited: 0,
            offset: 8,
            mask: mask1,
        };
        let mut secondary = Chip {
            command_port: PIC2_COMMAND,
            data_port: PIC2_DATA,
            words_awaited: 0,
            offset: 0x70,
            mask: mask2,
        };
        // The masks are read before the initialization.
        let writes = PIC::new().init(primary.mask, secondary.mask);
        for write in writes {
            primary.write(write);
            secondary.write(write);
        }
        assert_eq!(primary.mask, mask1);
        assert_eq!(secondary.mask, mask2);
        assert_eq!(primary.offset, 0x20);
        assert_eq!(secondary.offset, 0x28);
        assert_eq!(primary.words_awaited, 0);
        assert_eq!(secondary.words_awaited, 0);
    }
}

#[test]
fn keyboard_mask_survives_initialization() {
    let keyboard_line = 1u8 << 1;
    let writes = PIC::new().init(keyboard_line, 0);
    let last_to_primary = writes.iter().rev().find(|write| write.port == PIC1_DATA).unwrap();
    assert_eq!(last_to_primary.value & keyboard_line, keyboard_line);
}

#[test]
fn page_fault_error_codes() {
    let none = PageFault {
        protection_violation: false,
        caused_by_write: false,
        user_mode: false,
        malformed_table: false,
        instruction_fetch: false,
    };
    assert_eq!(page_fault(0), none);
    assert_eq!(page_fault(1), PageFault { protection_violation: true, ..none });
    assert_eq!(page_fault(2), PageFault { caused_by_write: true, ..none });
    assert_eq!(page_fault(4), PageFault { user_mode: true, ..none });
    assert_eq!(page_fault(8), PageFault { malformed_table: true, ..none });
    assert_eq!(page_fault(16), PageFault { instruction_fetch: true, ..none });
    assert_eq!(
        page_fault(0x7),
        PageFault { protection_violation: true, caused_by_write: true, user_mode: true, ..none }
    );
    assert_eq!(page_fault(0xffff_ffff_ffff_ffe0), none);
    assert_eq!(
        page_fault(u64::MAX),
        PageFault {
            protection_violation: true,
            caused_by_write: true,
            user_mode: true,
            malformed_table: true,
            instruction_fetch: true,
        }
    );
}

#[test]
fn only_faults_halt() {
    assert_eq!(outcome(Handler::Breakpoint), Outcome::Resume);
    assert_eq!(outcome(Handler::PageFault), Outcome::Halt);
    assert_eq!(outcome(Handler::DoubleFault), Outcome::Halt);
    assert_eq!(outcome(Handler::Timer), Outcome::Resume);
    assert_eq!(outcome(Handler::Keyboard), Outcome::Resume);
    assert_eq!(outcome(Handler::RealTimeClock), Outcome::Resume);
}

#[test]
fn double_fault_stack_is_in_its_slot() {
    let stack = Stack { top: 0x4444_4444_2000, bottom: 0x4444_4444_1000 };
    assert_eq!(interrupt_stack_table(stack), [0x4444_4444_2000, 0, 0, 0, 0, 0, 0]);
    assert_eq!(DOUBLE_FAULT_IST_INDEX, 0);
    let idt = kernel_idt();
    match idt.entry(DOUBLE_FAULT_VECTOR) {
        Vector::Assigned { stack_index: Some(index), .. } => {
            assert_eq!(interrupt_stack_table(stack)[index as usize], stack.top);
        }
        other => panic!("no stack for the double fault handler: {:?}", other),
    }
}
