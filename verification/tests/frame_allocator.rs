use hivemind::memory::area_frame_allocator::{AreaFrameAllocator, MemoryArea};
use hivemind::memory::{Frame, FrameAllocator, PAGE_SIZE};

fn boot_areas() -> Vec<MemoryArea> {
    vec![
        MemoryArea { base_addr: 0x0, length: 0x100000 },
        MemoryArea { base_addr: 0x100000, length: 0x10000000 },
    ]
}

fn boot_allocator() -> AreaFrameAllocator {
    AreaFrameAllocator::new(0x10000, 0x20000, 0x20000, 0x21000, boot_areas())
}

#[test]
fn first_frames_lie_below_the_kernel() {
    let mut allocator = boot_allocator();
    for expected in 0..3u64 {
        let frame = allocator.allocate_frame().unwrap();
        assert_eq!(frame.number, expected);
        assert!(frame.number < 0x10000 / PAGE_SIZE);
    }
}

#[test]
fn kernel_and_boot_information_are_skipped() {
    let mut allocator = boot_allocator();
    let mut numbers = Vec::new();
    for _ in 0..20 {
        numbers.push(allocator.allocate_frame().unwrap().number);
    }
    let mut expected: Vec<u64> = (0..16).collect();
    expected.extend([34, 35, 36, 37]);
    assert_eq!(numbers, expected);
    assert!(numbers[16] >= 0x20000 / PAGE_SIZE);
}

#[test]
fn frames_come_in_ascending_order_without_repeats() {
    let mut allocator = boot_allocator();
    let mut last = None;
    for _ in 0..1000 {
        let frame = allocator.allocate_frame().unwrap();
        if let Some(previous) = last {
            assert!(frame.number > previous);
        }
        assert!(!(16..=32).contains(&frame.number));
        assert!(!(32..=33).contains(&frame.number));
        last = Some(frame.number);
    }
}

#[test]
fn allocator_moves_on_to_the_next_area() {
    let areas = vec![
        MemoryArea { base_addr: 0x5000, length: 0x2000 },
        MemoryArea { base_addr: 0x1000, length: 0x1000 },
    ];
    let mut allocator = AreaFrameAllocator::new(0x100000, 0x100000, 0x200000, 0x200000, areas);
    assert_eq!(allocator.allocate_frame(), Some(Frame { number: 1 }));
    assert_eq!(allocator.allocate_frame(), Some(Frame { number: 5 }));
    assert_eq!(allocator.allocate_frame(), Some(Frame { number: 6 }));
    assert_eq!(allocator.allocate_frame(), None);
    assert_eq!(allocator.allocate_frame(), None);
}

#[test]
fn allocator_without_areas_is_exhausted() {
    let mut allocator = AreaFrameAllocator::new(0, 0, 0, 0, Vec::new());
    assert_eq!(allocator.allocate_frame(), None);
}

#[test]
fn area_inside_the_kernel_gives_nothing() {
    let areas = vec![MemoryArea { base_addr: 0x10000, length: 0x4000 }];
    let mut allocator = AreaFrameAllocator::new(0x10000, 0x13fff, 0x0, 0x0, areas);
    assert_eq!(allocator.allocate_frame(), None);
}

#[test]
fn deallocated_frame_is_not_handed_out_again() {
    let areas = vec![MemoryArea { base_addr: 0x1000, length: 0x2000 }];
    let mut allocator = AreaFrameAllocator::new(0x100000, 0x100000, 0x200000, 0x200000, areas);
    let first = allocator.allocate_frame().unwrap();
    allocator.deallocate_frame(Frame { number: first.number });
    assert_eq!(allocator.allocate_frame(), Some(Frame { number: 2 }));
    assert_eq!(allocator.allocate_frame(), None);
}

#[test]
fn area_validity() {
    assert!(MemoryArea { base_addr: 0, length: 1 }.is_valid());
    assert!(!MemoryArea { base_addr: 0, length: 0 }.is_valid());
    assert!(!MemoryArea { base_addr: u64::MAX, length: 1 }.is_valid());
    assert!(MemoryArea { base_addr: u64::MAX - 1, length: 1 }.is_valid());
}

#[test]
fn frame_addresses() {
    assert_eq!(Frame::containing_address(0x1fff).number, 1);
    assert_eq!(Frame::containing_address(0x2000).number, 2);
    assert_eq!(Frame { number: 3 }.start_address(), 0x3000);
    let frame = Frame { number: 9 };
    assert_eq!(frame.clone(), frame);
}

#[test]
fn frame_range() {
    let mut frames = Frame::range_inclusive(Frame { number: 4 }, Frame { number: 6 });
    assert_eq!(frames.next(), Some(Frame { number: 4 }));
    assert_eq!(frames.next(), Some(Frame { number: 5 }));
    assert_eq!(frames.next(), Some(Frame { number: 6 }));
    assert_eq!(frames.next(), None);
    let mut empty = Frame::range_inclusive(Frame { number: 6 }, Frame { number: 4 });
    assert_eq!(empty.next(), None);
}
