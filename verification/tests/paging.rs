use hivemind::memory::area_frame_allocator::{AreaFrameAllocator, MemoryArea};
use hivemind::memory::paging::entry::{
    Entry, EntryFlags, FRAME_LIMIT, HUGE_PAGE, NO_EXECUTE, PRESENT, WRITABLE,
};
use hivemind::memory::paging::mapper::Mapper;
use hivemind::memory::paging::page::{is_canonical, Page};
use hivemind::memory::paging::table::{MapError, TableMemory};
use hivemind::memory::paging::{ActivePageTable, HugePageSize, InactivePageTable};
use hivemind::memory::{Frame, FrameAllocator};

/// An allocator that hands out the frames with the numbers `numbers`, in
/// ascending order, and no others.
fn list(numbers: &[u64]) -> AreaFrameAllocator {
    let areas = numbers
        .iter()
        .map(|number| MemoryArea { base_addr: number * 4096, length: 4096 })
        .collect();
    AreaFrameAllocator::new(u64::MAX, u64::MAX, u64::MAX, u64::MAX, areas)
}

fn allocator() -> AreaFrameAllocator {
    let areas = vec![MemoryArea { base_addr: 0x100000, length: 0x1000000 }];
    AreaFrameAllocator::new(0x10000, 0x20000, 0x20000, 0x21000, areas)
}

fn table(allocator: &mut AreaFrameAllocator) -> ActivePageTable {
    let root = allocator.allocate_frame().unwrap();
    assert!(root.number < FRAME_LIMIT);
    ActivePageTable::new(root)
}

fn flags(bits: u64) -> EntryFlags {
    EntryFlags::from_bits_truncate(bits)
}

#[test]
fn page_indices() {
    let address = (1u64 << 39) | (2 << 30) | (3 << 21) | (4 << 12) | 0x567;
    let page = Page::containing_address(address);
    assert_eq!(page.number(), address / 4096);
    assert_eq!(page.p4_index(), 1);
    assert_eq!(page.p3_index(), 2);
    assert_eq!(page.p2_index(), 3);
    assert_eq!(page.p1_index(), 4);
    assert_eq!(page.start_address(), address - 0x567);
}

#[test]
fn canonical_addresses() {
    assert!(is_canonical(0));
    assert!(is_canonical(0x0000_7fff_ffff_ffff));
    assert!(!is_canonical(0x0000_8000_0000_0000));
    assert!(!is_canonical(0xffff_7fff_ffff_ffff));
    assert!(is_canonical(0xffff_8000_0000_0000));
    assert!(is_canonical(u64::MAX));
    let page = Page::containing_address(0xffff_8000_0000_0000);
    assert_eq!(page.p4_index(), 256);
    assert_eq!(page.p3_index(), 0);
}

#[test]
fn entry_holds_frame_and_flags() {
    let mut entry = Entry::unused();
    assert!(entry.is_unused());
    assert!(entry.pointed_frame().is_none());
    entry.set(Frame { number: 0x12345 }, flags(PRESENT | WRITABLE | NO_EXECUTE));
    assert!(!entry.is_unused());
    assert!(entry.is_present());
    assert!(!entry.is_huge());
    assert_eq!(entry.physical_address(), 0x12345000);
    assert_eq!(entry.pointed_frame(), Some(Frame { number: 0x12345 }));
    assert_eq!(entry.flags().bits(), PRESENT | WRITABLE | NO_EXECUTE);
    assert!(entry.flags().contains(flags(WRITABLE)));
    assert!(!entry.flags().contains(flags(HUGE_PAGE)));
    entry.set_unused();
    assert!(entry.is_unused());
}

#[test]
fn entry_without_present_points_nowhere() {
    let mut entry = Entry::unused();
    entry.set(Frame { number: 7 }, flags(WRITABLE));
    assert!(!entry.is_unused());
    assert_eq!(entry.pointed_frame(), None);
}

#[test]
fn entry_flags() {
    assert_eq!(EntryFlags::empty().bits(), 0);
    assert!(EntryFlags::empty().is_empty());
    assert_eq!(flags(u64::MAX).bits(), 0x8000_0000_0000_01ff);
    assert_eq!(flags(PRESENT).union(flags(HUGE_PAGE)).bits(), 0x81);
    assert_eq!(flags(0x1000).bits(), 0);
}

#[test]
fn nothing_is_mapped_at_first() {
    let mut frames = allocator();
    let table = table(&mut frames);
    assert_eq!(table.translate(0), None);
    assert_eq!(table.translate(0x1234), None);
    assert_eq!(table.translate(0xffff_8000_0000_0000), None);
    assert_eq!(table.translate_page(Page::containing_address(0x5000)), None);
}

#[test]
fn mapped_address_translates() {
    let mut frames = allocator();
    let mut table = table(&mut frames);
    let address = 42 * 512 * 512 * 4096;
    let page = Page::containing_address(address);
    assert_eq!(table.map_to(page, Frame { number: 0x777 }, EntryFlags::empty(), &mut frames),
        Ok(()));
    assert_eq!(table.translate(address), Some(0x777000));
    assert_eq!(table.translate(address + 0xabc), Some(0x777abc));
    assert_eq!(table.translate(address + 0xfff), Some(0x777fff));
    assert_eq!(table.translate_page(page), Some(Frame { number: 0x777 }));
}

#[test]
fn mapping_stores_the_flags_with_present() {
    let mut frames = allocator();
    let mut table = table(&mut frames);
    let page = Page::containing_address(0x40_0000_3000);
    table.map_to(page, Frame { number: 9 }, flags(WRITABLE | NO_EXECUTE), &mut frames).unwrap();
    let memory = table.tables();
    let p3 = table.p4().next_table(memory, page.p4_index()).unwrap();
    let p2 = p3.next_table(memory, page.p3_index()).unwrap();
    let p1 = p2.next_table(memory, page.p2_index()).unwrap();
    let entry = p1.entry(memory, page.p1_index());
    assert_eq!(entry.flags().bits(), PRESENT | WRITABLE | NO_EXECUTE);
    assert_eq!(entry.pointed_frame(), Some(Frame { number: 9 }));
    let link = table.p4().entry(memory, page.p4_index());
    assert_eq!(link.flags().bits(), PRESENT | WRITABLE);
}

#[test]
fn tables_are_made_in_frames_of_the_allocator() {
    let mut frames = list(&[10, 11, 12, 13]);
    let mut table = ActivePageTable::new(Frame { number: 1 });
    let page = Page::containing_address(0x1000);
    table.map_to(page, Frame { number: 99 }, EntryFlags::empty(), &mut frames).unwrap();
    let memory = table.tables();
    assert!(memory.contains(0x1000));
    assert!(memory.contains(10 * 4096));
    assert!(memory.contains(11 * 4096));
    assert!(memory.contains(12 * 4096));
    assert!(!memory.contains(13 * 4096));
    assert_eq!(memory.root_address(), 0x1000);
    assert_eq!(memory.table_addresses(), &vec![0x1000, 10 * 4096, 11 * 4096, 12 * 4096]);
    let link = memory.read(0x1000, 0);
    assert_eq!(link.bits(), 10 * 4096 | PRESENT | WRITABLE);
    assert_eq!(memory.read(12 * 4096, 1).bits(), 99 * 4096 | PRESENT);
    assert_eq!(table.p4().next_table_address(memory, 0), Some(10 * 4096));
    // A second page of the same level 1 table needs no new table.
    let next = Page::containing_address(0x2000);
    table.map_to(next, Frame { number: 98 }, EntryFlags::empty(), &mut frames).unwrap();
    assert_eq!(table.translate(0x2010), Some(98 * 4096 + 0x10));
    assert_eq!(frames.allocate_frame(), Some(Frame { number: 13 }));
}

#[test]
fn unmapped_pages_stay_unmapped() {
    let mut frames = allocator();
    let mut table = table(&mut frames);
    let mapped = Page::containing_address(0x7000);
    assert_eq!(table.translate(0x8000), None);
    assert_eq!(table.translate(0x6fff), None);
    table.map_to(mapped, Frame { number: 5 }, EntryFlags::empty(), &mut frames).unwrap();
    assert_eq!(table.translate(0x8000), None);
    assert_eq!(table.translate(0x6fff), None);
    assert_eq!(table.translate(0x20_0000), None);
    assert_eq!(table.translate(0x80_0000_7000), None);
    assert_eq!(table.translate(0xffff_ffff_ffff_f000), None);
    assert_eq!(table.translate(0x7000), Some(0x5000));
}

#[test]
fn mappings_do_not_disturb_each_other() {
    let mut frames = allocator();
    let mut table = table(&mut frames);
    let addresses = [0x1000u64, 0x2000, 0x20_0000, 0x4000_0000, 0x80_0000_0000,
        0xffff_8000_0000_0000];
    for (i, address) in addresses.iter().enumerate() {
        let page = Page::containing_address(*address);
        let frame = Frame { number: 1000 + i as u64 };
        assert_eq!(table.map_to(page, frame, EntryFlags::empty(), &mut frames), Ok(()));
    }
    for (i, address) in addresses.iter().enumerate() {
        assert_eq!(table.translate(*address + 1), Some((1000 + i as u64) * 4096 + 1));
    }
}

#[test]
fn mapped_page_is_not_mappable() {
    let mut frames = allocator();
    let mut table = table(&mut frames);
    let page = Page::containing_address(0x3000);
    assert!(table.is_mappable(page));
    assert!(!table.is_mapped_by_entry(page));
    assert_eq!(table.map_to(page, Frame { number: 5 }, EntryFlags::empty(), &mut frames), Ok(()));
    assert!(!table.is_mappable(page));
    assert!(table.is_mapped_by_entry(page));
    assert!(!table.in_huge_page(page));
    assert_eq!(table.translate(0x3000), Some(0x5000));
    assert!(table.is_mappable(Page::containing_address(0x4000)));
}

#[test]
fn unmapping_ends_the_translation() {
    let mut frames = allocator();
    let mut table = table(&mut frames);
    let page = Page::containing_address(0x3000);
    let other = Page::containing_address(0x4000);
    table.map_to(page, Frame { number: 5 }, EntryFlags::empty(), &mut frames).unwrap();
    table.map_to(other, Frame { number: 6 }, EntryFlags::empty(), &mut frames).unwrap();
    assert!(table.is_mapped_by_entry(page));
    assert_eq!(table.unmap(page, &mut frames), Frame { number: 5 });
    assert_eq!(table.translate(0x3000), None);
    assert_eq!(table.translate(0x3fff), None);
    assert_eq!(table.translate(0x4000), Some(0x6000));
    assert!(!table.is_mapped_by_entry(page));
    // The page can be mapped again.
    assert!(table.is_mappable(page));
    assert_eq!(table.map_to(page, Frame { number: 7 }, EntryFlags::empty(), &mut frames), Ok(()));
    assert_eq!(table.translate(0x3001), Some(0x7001));
}

#[test]
fn unmapping_clears_one_entry_and_keeps_the_tables() {
    let mut frames = list(&[10, 11, 12, 13]);
    let mut table = ActivePageTable::new(Frame { number: 1 });
    let page = Page::containing_address(0x40_0000_3000);
    let flags = flags(WRITABLE);
    table.map_to(page, Frame { number: 99 }, flags, &mut frames).unwrap();
    assert_eq!(table.unmap(page, &mut frames), Frame { number: 99 });
    let memory = table.tables();
    assert_eq!(memory.table_addresses(), &vec![0x1000, 10 * 4096, 11 * 4096, 12 * 4096]);
    assert_eq!(memory.read(0x1000, page.p4_index()).bits(), 10 * 4096 | PRESENT | WRITABLE);
    assert_eq!(memory.read(10 * 4096, page.p3_index()).bits(), 11 * 4096 | PRESENT | WRITABLE);
    assert_eq!(memory.read(11 * 4096, page.p2_index()).bits(), 12 * 4096 | PRESENT | WRITABLE);
    assert_eq!(memory.read(12 * 4096, page.p1_index()).bits(), 0);
    // Mapping the page again takes no frame.
    assert_eq!(table.map_to(page, Frame { number: 98 }, flags, &mut frames), Ok(()));
    assert_eq!(frames.allocate_frame(), Some(Frame { number: 13 }));
    assert_eq!(
        table.tables().read(12 * 4096, page.p1_index()).bits(),
        98 * 4096 | PRESENT | WRITABLE
    );
}

#[test]
fn unmapped_page_cannot_be_unmapped() {
    let mut frames = allocator();
    let mut table = table(&mut frames);
    let page = Page::containing_address(0x3000);
    assert!(!table.is_mapped_by_entry(page));
    table.map_to(page, Frame { number: 5 }, EntryFlags::empty(), &mut frames).unwrap();
    let neighbour = Page::containing_address(0x4000);
    assert!(!table.is_mapped_by_entry(neighbour));
    assert!(table.is_mapped_by_entry(page));
    assert_eq!(table.unmap(page, &mut frames), Frame { number: 5 });
    assert!(!table.is_mapped_by_entry(page));
}

#[test]
fn unmapping_does_not_free_the_frame() {
    let mut frames = allocator();
    let mut table = table(&mut frames);
    let page = Page::containing_address(0x3000);
    table.map(page, EntryFlags::empty(), &mut frames).unwrap();
    let frame = table.translate_page(page).unwrap();
    let unmapped = table.unmap(page, &mut frames);
    assert_eq!(unmapped, Frame { number: frame.number });
    let next = frames.allocate_frame().unwrap();
    assert!(next.number > frame.number);
}

#[test]
fn map_takes_a_frame_from_the_allocator() {
    let mut frames = list(&[20, 21, 22, 23, 24]);
    let mut table = ActivePageTable::new(Frame { number: 1 });
    let page = Page::containing_address(0x5000);
    assert_eq!(table.map(page, flags(WRITABLE), &mut frames), Ok(()));
    assert_eq!(table.translate(0x5123), Some(20 * 4096 + 0x123));
    let tables = table.tables();
    assert_eq!(tables.table_addresses(), &vec![0x1000, 21 * 4096, 22 * 4096, 23 * 4096]);
    assert_eq!(tables.read(23 * 4096, 5).bits(), 20 * 4096 | PRESENT | WRITABLE);
    assert_eq!(frames.allocate_frame(), Some(Frame { number: 24 }));
}

#[test]
fn map_fails_without_frames() {
    let mut frames = list(&[]);
    let mut table = ActivePageTable::new(Frame { number: 1 });
    let page = Page::containing_address(0x5000);
    assert_eq!(table.map(page, EntryFlags::empty(), &mut frames), Err(MapError::OutOfFrames));
    assert_eq!(
        table.map_to(page, Frame { number: 3 }, EntryFlags::empty(), &mut frames),
        Err(MapError::OutOfFrames)
    );
    assert_eq!(table.translate(0x5000), None);
}

#[test]
fn mapping_fails_when_frames_run_out_on_the_way() {
    let mut frames = list(&[20, 21]);
    let mut table = ActivePageTable::new(Frame { number: 1 });
    let page = Page::containing_address(0x5000);
    assert_eq!(
        table.map_to(page, Frame { number: 3 }, EntryFlags::empty(), &mut frames),
        Err(MapError::OutOfFrames)
    );
    assert_eq!(table.translate(0x5000), None);
    // The two tables that were made stay; one more frame is enough now.
    let mut more = list(&[22]);
    assert_eq!(table.map_to(page, Frame { number: 3 }, EntryFlags::empty(), &mut more), Ok(()));
    assert_eq!(table.translate(0x5000), Some(0x3000));
}

#[test]
fn frame_that_does_not_fit_is_refused() {
    let mut frames = allocator();
    let mut table = table(&mut frames);
    let page = Page::containing_address(0x5000);
    assert_eq!(
        table.map_to(page, Frame { number: FRAME_LIMIT - 1 }, EntryFlags::empty(), &mut frames),
        Ok(())
    );
    assert_eq!(table.translate(0x5000), Some((FRAME_LIMIT - 1) * 4096));
    let mut far = list(&[FRAME_LIMIT + 5]);
    let mut fresh = ActivePageTable::new(Frame { number: 1 });
    assert_eq!(
        fresh.map_to(page, Frame { number: 2 }, EntryFlags::empty(), &mut far),
        Err(MapError::FrameOutOfRange)
    );
    let mut far = list(&[FRAME_LIMIT + 5]);
    assert_eq!(fresh.map(page, EntryFlags::empty(), &mut far), Err(MapError::FrameOutOfRange));
    assert_eq!(fresh.translate(0x5000), None);
}

#[test]
fn frame_that_holds_a_table_is_not_used_for_another() {
    let mut frames = list(&[1]);
    let mut table = ActivePageTable::new(Frame { number: 1 });
    let page = Page::containing_address(0x5000);
    assert_eq!(
        table.map_to(page, Frame { number: 2 }, EntryFlags::empty(), &mut frames),
        Err(MapError::TableFrameInUse)
    );
    let mut others = list(&[5, 6]);
    let near = Page::containing_address(0x6000);
    assert_eq!(
        table.map_to(near, Frame { number: 2 }, EntryFlags::empty(), &mut others),
        Err(MapError::OutOfFrames)
    );
    // The tables in the frames 5 and 6 stay; an allocator that hands out
    // frame 6 once more is of no use.
    let mut again = list(&[6]);
    assert_eq!(
        table.map_to(near, Frame { number: 2 }, EntryFlags::empty(), &mut again),
        Err(MapError::TableFrameInUse)
    );
    assert_eq!(table.translate(0x6000), None);
    assert_eq!(table.translate(0x5000), None);
}

#[test]
fn identity_map_uses_the_address_of_the_frame() {
    let mut frames = allocator();
    let mut table = table(&mut frames);
    assert_eq!(table.identity_map(Frame { number: 0xb8 }, flags(WRITABLE), &mut frames), Ok(()));
    assert_eq!(table.translate(0xb8000), Some(0xb8000));
    assert_eq!(table.translate(0xb8f9f), Some(0xb8f9f));
    assert!(!table.is_mappable(Page::containing_address(0xb8000)));
}

#[test]
fn identity_map_of_the_last_page_of_the_lower_half() {
    let mut frames = allocator();
    let mut table = table(&mut frames);
    assert!(Page::from_number(0x8_0000_0000).is_none());
    assert_eq!(
        table.identity_map(Frame { number: 0x7_ffff_ffff }, EntryFlags::empty(), &mut frames),
        Ok(())
    );
    assert_eq!(table.translate(0x7fff_ffff_f000), Some(0x7fff_ffff_f000));
}

#[test]
fn huge_page_of_2_mib() {
    let mut frames = allocator();
    let mut table = table(&mut frames);
    let start = 0x4020_0000u64;
    let page = Page::containing_address(start);
    assert_eq!(
        table.map_huge_to(page, Frame { number: 1024 }, HugePageSize::Size2MiB, flags(WRITABLE),
            &mut frames),
        Ok(())
    );
    assert_eq!(table.translate(start), Some(1024 * 4096));
    assert_eq!(table.translate(start + 0x1234), Some(1024 * 4096 + 0x1234));
    assert_eq!(table.translate(start + 0x1f_ffff), Some(1024 * 4096 + 0x1f_ffff));
    assert_eq!(
        table.translate_page(Page::containing_address(start + 7 * 4096)),
        Some(Frame { number: 1031 })
    );
    assert_eq!(table.translate(start + 0x20_0000), None);
    assert_eq!(table.translate(start - 1), None);
}

#[test]
fn huge_page_of_1_gib() {
    let mut frames = allocator();
    let mut table = table(&mut frames);
    let start = 3u64 << 30;
    let page = Page::containing_address(start);
    let frame = Frame { number: 2 * 512 * 512 };
    assert_eq!(
        table.map_huge_to(page, frame, HugePageSize::Size1GiB, EntryFlags::empty(), &mut frames),
        Ok(())
    );
    assert_eq!(table.translate(start), Some(2 << 30));
    assert_eq!(table.translate(start + 0x1234_5678), Some((2 << 30) + 0x1234_5678));
    assert_eq!(
        table.translate_page(Page::containing_address(start + (5 * 512 + 9) * 4096)),
        Some(Frame { number: 2 * 512 * 512 + 5 * 512 + 9 })
    );
    assert_eq!(table.translate(start + (1 << 30)), None);
}

#[test]
fn misaligned_huge_frame_is_rejected() {
    let mut frames = allocator();
    let mut table = table(&mut frames);
    let page = Page::containing_address(0x4020_0000);
    for number in [1u64, 511, 513, 1023] {
        assert_eq!(
            table.map_huge_to(page, Frame { number }, HugePageSize::Size2MiB, EntryFlags::empty(),
                &mut frames),
            Err(MapError::MisalignedFrame)
        );
    }
    let big = Page::containing_address(1 << 30);
    for number in [512u64, 512 * 511, 512 * 512 + 512] {
        assert_eq!(
            table.map_huge_to(big, Frame { number }, HugePageSize::Size1GiB, EntryFlags::empty(),
                &mut frames),
            Err(MapError::MisalignedFrame)
        );
    }
    assert_eq!(table.translate(0x4020_0000), None);
    assert_eq!(table.translate(1 << 30), None);
}

#[test]
fn misaligned_huge_page_is_rejected() {
    let mut frames = allocator();
    let mut table = table(&mut frames);
    let page = Page::containing_address(0x4020_1000);
    assert_eq!(
        table.map_huge_to(page, Frame { number: 512 }, HugePageSize::Size2MiB, EntryFlags::empty(),
            &mut frames),
        Err(MapError::MisalignedPage)
    );
    let page = Page::containing_address((1 << 30) + 0x20_0000);
    assert_eq!(
        table.map_huge_to(page, Frame { number: 0 }, HugePageSize::Size1GiB, EntryFlags::empty(),
            &mut frames),
        Err(MapError::MisalignedPage)
    );
}

#[test]
fn pages_of_a_huge_page_are_neither_mapped_nor_unmapped() {
    let mut frames = allocator();
    let mut table = table(&mut frames);
    let start = 0x4020_0000u64;
    let page = Page::containing_address(start);
    table
        .map_huge_to(page, Frame { number: 1024 }, HugePageSize::Size2MiB, EntryFlags::empty(),
            &mut frames)
        .unwrap();
    let inside = Page::containing_address(start + 0x3000);
    assert!(table.in_huge_page(inside));
    assert!(!table.is_mappable(inside));
    assert!(!table.is_mapped_by_entry(inside));
    let outside = Page::containing_address(start + 0x20_0000);
    assert!(!table.in_huge_page(outside));
    assert!(table.is_mappable(outside));
    assert_eq!(
        table.map_huge_to(page, Frame { number: 2048 }, HugePageSize::Size2MiB,
            EntryFlags::empty(), &mut frames),
        Err(MapError::PageAlreadyMapped)
    );
    let beside = Page::containing_address(start + 0x4000_0000);
    table
        .map_huge_to(Page::containing_address(0x8000_0000), Frame { number: 0 },
            HugePageSize::Size1GiB, EntryFlags::empty(), &mut frames)
        .unwrap();
    assert_eq!(
        table.map_huge_to(beside, Frame { number: 512 }, HugePageSize::Size2MiB,
            EntryFlags::empty(), &mut frames),
        Err(MapError::HugePage)
    );
    assert_eq!(table.translate(start + 0x3000), Some(1027 * 4096));
}

#[test]
fn huge_page_does_not_replace_a_table() {
    let mut frames = allocator();
    let mut table = table(&mut frames);
    let small = Page::containing_address(0x4020_5000);
    table.map_to(small, Frame { number: 5 }, EntryFlags::empty(), &mut frames).unwrap();
    let page = Page::containing_address(0x4020_0000);
    assert_eq!(
        table.map_huge_to(page, Frame { number: 1024 }, HugePageSize::Size2MiB, EntryFlags::empty(),
            &mut frames),
        Err(MapError::PageAlreadyMapped)
    );
    assert_eq!(table.translate(0x4020_5000), Some(0x5000));
}

#[test]
fn next_table_create_makes_an_empty_table_once() {
    let mut frames = list(&[7, 8]);
    let mut memory = TableMemory::new(Frame { number: 3 });
    let p4 = memory.root_table();
    assert_eq!(p4.next_table_address(&memory, 5), None);
    assert!(p4.next_table(&memory, 5).is_none());
    let p3 = p4.next_table_create(&mut memory, 5, &mut frames).unwrap();
    assert_eq!(p4.next_table_address(&memory, 5), Some(7 * 4096));
    for index in [0usize, 1, 255, 511] {
        assert!(p3.entry(&memory, index).is_unused());
    }
    let again = p4.next_table_create(&mut memory, 5, &mut frames).unwrap();
    assert_eq!(frames.allocate_frame(), Some(Frame { number: 8 }));
    assert!(again.entry(&memory, 0).is_unused());
    assert_eq!(p4.next_table_address(&memory, 5), Some(7 * 4096));
}

#[test]
fn next_table_in_a_given_frame() {
    let mut memory = TableMemory::new(Frame { number: 3 });
    let p4 = memory.root_table();
    assert_eq!(p4.next_table_in(&mut memory, 9, None).err(), Some(MapError::OutOfFrames));
    assert_eq!(
        p4.next_table_in(&mut memory, 9, Some(Frame { number: FRAME_LIMIT })).err(),
        Some(MapError::FrameOutOfRange)
    );
    assert_eq!(
        p4.next_table_in(&mut memory, 9, Some(Frame { number: 3 })).err(),
        Some(MapError::TableFrameInUse)
    );
    assert!(p4.entry(&memory, 9).is_unused());
    let p3 = p4.next_table_in(&mut memory, 9, Some(Frame { number: 4 })).ok().unwrap();
    assert_eq!(p4.next_table_address(&memory, 9), Some(0x4000));
    assert_eq!(p4.entry(&memory, 9).flags().bits(), PRESENT | WRITABLE);
    assert!(p3.entry(&memory, 9).is_unused());
    assert!(memory.contains(0x4000));
}

#[test]
fn zero_empties_a_table() {
    let mut frames = list(&[7, 8, 9]);
    let mut memory = TableMemory::new(Frame { number: 3 });
    let p4 = memory.root_table();
    let p3 = p4.next_table_create(&mut memory, 0, &mut frames).unwrap();
    let _p2 = p3.next_table_create(&mut memory, 4, &mut frames).unwrap();
    assert!(!p4.entry(&memory, 0).is_unused());
    assert!(!p3.entry(&memory, 4).is_unused());
    p3.zero(&mut memory);
    assert!(p3.entry(&memory, 4).is_unused());
    assert!(p3.next_table(&memory, 4).is_none());
    assert!(!p4.entry(&memory, 0).is_unused());
    p4.zero(&mut memory);
    assert!(p4.entry(&memory, 0).is_unused());
    assert!(p4.next_table(&memory, 0).is_none());
}

#[test]
fn zeroed_table_maps_nothing() {
    let mut frames = list(&[7, 8, 9]);
    let mut table = ActivePageTable::new(Frame { number: 3 });
    let page = Page::containing_address(0x5000);
    table.map_to(page, Frame { number: 2 }, EntryFlags::empty(), &mut frames).unwrap();
    assert_eq!(table.translate(0x5000), Some(0x2000));
}

#[test]
fn mapper_starts_at_the_level_4_table() {
    let mut frames = list(&[7]);
    let mut memory = TableMemory::new(Frame { number: 3 });
    let mapper = Mapper::new(&memory);
    mapper.p4().next_table_create(&mut memory, 1, &mut frames).unwrap();
    assert_eq!(memory.root_table().next_table_address(&memory, 1), Some(0x7000));
    assert_eq!(mapper.p4().next_table_address(&memory, 1), Some(0x7000));
}

#[test]
fn inactive_page_table_keeps_its_frame() {
    let _table = InactivePageTable::new(Frame { number: 12 });
}
