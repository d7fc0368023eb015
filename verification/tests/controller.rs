use hivemind::memory::area_frame_allocator::MemoryArea;
use hivemind::memory::controller::{init, kernel_bounds, Section, Stack};
use hivemind::memory::paging::entry::{EntryFlags, NO_EXECUTE, PRESENT, WRITABLE};
use hivemind::memory::paging::table::MapError;
use hivemind::memory::paging::page::Page;
use hivemind::memory::paging::HugePageSize;
use hivemind::memory::{Frame, FrameAllocator};

fn areas() -> Vec<MemoryArea> {
    vec![
        MemoryArea { base_addr: 0x0, length: 0x100000 },
        MemoryArea { base_addr: 0x100000, length: 0x10000000 },
    ]
}

#[test]
fn memory_starts_with_the_lowest_frame_as_level_4_table() {
    let mut memory = init(0x10000, 0x20000, 0x20000, 0x21000, areas()).unwrap();
    assert!(memory.page_table.tables().contains(0));
    assert_eq!(memory.page_table.translate(0), None);
    assert_eq!(memory.frame_allocator.allocate_frame(), Some(Frame { number: 1 }));
}

#[test]
fn memory_skips_the_kernel_for_the_level_4_table() {
    let areas = vec![MemoryArea { base_addr: 0x10000, length: 0x100000 }];
    let memory = init(0x10000, 0x20000, 0x20000, 0x21000, areas).unwrap();
    assert!(memory.page_table.tables().contains(34 * 4096));
}

#[test]
fn no_memory_without_frames() {
    assert!(init(0, 0, 0, 0, Vec::new()).is_none());
    let inside = vec![MemoryArea { base_addr: 0x10000, length: 0x1000 }];
    assert!(init(0x10000, 0x20000, 0x20000, 0x21000, inside).is_none());
    let far = vec![MemoryArea { base_addr: 1 << 52, length: 0x10000 }];
    assert!(init(0, 0, 0, 0, far).is_none());
}

#[test]
fn stack_lies_behind_an_unmapped_page() {
    let mut memory = init(0x10000, 0x20000, 0x20000, 0x21000, areas()).unwrap();
    let guard = Page::containing_address(0x4444_4444_0000);
    let stack = memory.alloc_stack(guard, 3).unwrap();
    assert_eq!(stack, Stack { top: 0x4444_4444_4000, bottom: 0x4444_4444_1000 });
    assert_eq!(memory.page_table.translate(0x4444_4444_0000), None);
    assert_eq!(memory.page_table.translate(0x4444_4444_0fff), None);
    let mut frames = Vec::new();
    for address in [0x4444_4444_1000u64, 0x4444_4444_2000, 0x4444_4444_3000] {
        let frame = memory.page_table.translate_page(Page::containing_address(address)).unwrap();
        frames.push(frame.number);
    }
    frames.dedup();
    assert_eq!(frames.len(), 3);
    assert_eq!(memory.page_table.translate(0x4444_4444_4000), None);
    // The last address of the stack lies in the last page.
    assert!(memory.page_table.translate(stack.top - 1).is_some());
    let tables = memory.page_table.tables();
    let page = Page::containing_address(stack.bottom);
    let p3 = memory.page_table.p4().next_table(tables, page.p4_index()).unwrap();
    let p2 = p3.next_table(tables, page.p3_index()).unwrap();
    let p1 = p2.next_table(tables, page.p2_index()).unwrap();
    assert_eq!(p1.entry(tables, page.p1_index()).flags().bits(), PRESENT | WRITABLE);
}

#[test]
fn no_stack_of_no_pages() {
    let mut memory = init(0x10000, 0x20000, 0x20000, 0x21000, areas()).unwrap();
    let guard = Page::containing_address(0x4444_4444_0000);
    assert_eq!(memory.alloc_stack(guard, 0), None);
}

#[test]
fn no_stack_behind_a_mapped_page() {
    let mut memory = init(0x10000, 0x20000, 0x20000, 0x21000, areas()).unwrap();
    let guard = Page::containing_address(0x4444_4444_0000);
    memory.page_table.map(guard, EntryFlags::empty(), &mut memory.frame_allocator).unwrap();
    assert_eq!(memory.alloc_stack(guard, 1), None);
    assert_eq!(memory.page_table.translate(0x4444_4444_1000), None);
}

#[test]
fn no_stack_over_mapped_pages() {
    let mut memory = init(0x10000, 0x20000, 0x20000, 0x21000, areas()).unwrap();
    let guard = Page::containing_address(0x4444_4444_0000);
    let taken = Page::containing_address(0x4444_4444_2000);
    memory.page_table.map_to(taken, Frame { number: 7 }, EntryFlags::empty(),
        &mut memory.frame_allocator).unwrap();
    assert_eq!(memory.alloc_stack(guard, 3), None);
    assert_eq!(memory.page_table.translate(0x4444_4444_2000), Some(0x7000));
}

#[test]
fn no_stack_where_there_are_no_pages() {
    let mut memory = init(0x10000, 0x20000, 0x20000, 0x21000, areas()).unwrap();
    let last_low = Page::containing_address(0x0000_7fff_ffff_f000);
    assert_eq!(memory.alloc_stack(last_low, 1), None);
    let before_last = Page::containing_address(0x0000_7fff_ffff_d000);
    assert_eq!(
        memory.alloc_stack(before_last, 1),
        Some(Stack { top: 0x0000_7fff_ffff_f000, bottom: 0x0000_7fff_ffff_e000 })
    );
    let top = Page::containing_address(0xffff_ffff_ffff_e000);
    assert_eq!(memory.alloc_stack(top, 1), None);
    assert_eq!(memory.alloc_stack(top, u64::MAX), None);
}

#[test]
fn page_numbers() {
    assert_eq!(Page::from_number(5).map(|page| page.start_address()), Some(0x5000));
    assert!(Page::from_number(0x7_ffff_ffff).is_some());
    assert!(Page::from_number(0x8_0000_0000).is_none());
    assert!(Page::from_number(0xf_fff7_ffff_ffff).is_none());
    assert!(Page::from_number(0xf_fff8_0000_0000).is_some());
    assert!(Page::from_number(0x10_0000_0000_0000).is_none());
}

#[test]
fn kernel_lies_between_its_sections() {
    let section = |addr, size, flags| Section { addr, size, flags };
    assert_eq!(kernel_bounds(&Vec::new()), None);
    assert_eq!(kernel_bounds(&vec![section(0x1000, 0x100, 0x5)]), None);
    let sections = vec![
        section(0, 0x50, 0),
        section(0x10_2000, 0x1000, 0x2),
        section(0x10_0000, 0x800, 0x6),
        section(0x90_0000, 0x10, 0x1),
        section(0x10_4000, 0x234, 0x3),
    ];
    assert_eq!(kernel_bounds(&sections), Some((0x10_0000, 0x10_4234)));
    assert_eq!(kernel_bounds(&vec![section(7, 0, 0x2)]), Some((7, 7)));
    assert!(section(0, 0, 0x2).is_allocated());
    assert!(!section(0, 0, 0x5).is_allocated());
}

#[test]
fn section_flags_become_entry_flags() {
    let flags = |section_flags| EntryFlags::from_elf_section_flags(section_flags).bits();
    assert_eq!(flags(0x0), NO_EXECUTE);
    assert_eq!(flags(0x2), PRESENT | NO_EXECUTE);
    assert_eq!(flags(0x3), PRESENT | WRITABLE | NO_EXECUTE);
    assert_eq!(flags(0x6), PRESENT);
    assert_eq!(flags(0x7), PRESENT | WRITABLE);
    assert_eq!(flags(0xfff8), NO_EXECUTE);
}

#[test]
fn range_of_frames_is_mapped_to_itself() {
    let mut memory = init(0x10000, 0x20000, 0x20000, 0x21000, areas()).unwrap();
    let flags = EntryFlags::from_bits_truncate(WRITABLE);
    assert_eq!(
        memory.identity_map_range(Frame { number: 0x100 }, Frame { number: 0x104 }, flags),
        Ok(())
    );
    for number in 0x100..=0x104u64 {
        assert_eq!(memory.page_table.translate(number * 4096 + 5), Some(number * 4096 + 5));
    }
    assert_eq!(memory.page_table.translate(0xff * 4096), None);
    assert_eq!(memory.page_table.translate(0x105 * 4096), None);
    // An empty range maps nothing.
    assert_eq!(
        memory.identity_map_range(Frame { number: 0x300 }, Frame { number: 0x2ff }, flags),
        Ok(())
    );
    assert_eq!(memory.page_table.translate(0x300 * 4096), None);
}

#[test]
fn range_of_frames_stops_at_a_mapped_page() {
    let mut memory = init(0x10000, 0x20000, 0x20000, 0x21000, areas()).unwrap();
    let flags = EntryFlags::empty();
    memory.identity_map_range(Frame { number: 0x102 }, Frame { number: 0x102 }, flags).unwrap();
    assert_eq!(
        memory.identity_map_range(Frame { number: 0x100 }, Frame { number: 0x104 }, flags),
        Err(MapError::PageAlreadyMapped)
    );
    assert_eq!(memory.page_table.translate(0x100 * 4096), Some(0x100 * 4096));
    assert_eq!(memory.page_table.translate(0x101 * 4096), Some(0x101 * 4096));
    assert_eq!(memory.page_table.translate(0x103 * 4096), None);
}

#[test]
fn range_of_frames_stops_at_what_cannot_be_mapped() {
    let mut memory = init(0x10000, 0x20000, 0x20000, 0x21000, areas()).unwrap();
    let flags = EntryFlags::empty();
    assert_eq!(
        memory.identity_map_range(
            Frame { number: 0x7_ffff_ffff },
            Frame { number: 0x8_0000_0000 },
            flags
        ),
        Err(MapError::NonCanonicalAddress)
    );
    assert_eq!(memory.page_table.translate(0x7fff_ffff_f000), Some(0x7fff_ffff_f000));
    assert_eq!(
        memory.identity_map_range(Frame { number: 1 << 40 }, Frame { number: 1 << 40 }, flags),
        Err(MapError::FrameOutOfRange)
    );
    let huge = Page::containing_address(0x4020_0000);
    memory
        .page_table
        .map_huge_to(huge, Frame { number: 1024 }, HugePageSize::Size2MiB, flags,
            &mut memory.frame_allocator)
        .unwrap();
    assert_eq!(
        memory.identity_map_range(Frame { number: 0x40201 }, Frame { number: 0x40201 }, flags),
        Err(MapError::HugePage)
    );
}
