//! The memory of the kernel as a whole: the frame allocator and the page
//! tables, which are made together and grow together.

use vstd::prelude::*;
use crate::memory::{Frame, FrameAllocator, PAGE_SIZE};
use crate::memory::area_frame_allocator::{
    all_valid, usable_frame, AreaFrameAllocator, MemoryArea,
};
use crate::memory::paging::{mapping, ActivePageTable};
use crate::memory::paging::entry::{
    EntryFlags, ALL_FLAGS, FRAME_LIMIT, PRESENT, SECTION_ALLOCATED, WRITABLE,
};
use crate::memory::paging::page::{canonical_number, Page};
use crate::memory::paging::table::{MapError, Translation};

verus! {

/// A stack: the addresses from `bottom` up to, but without, `top`. It
/// grows downwards, so that `top` is where it starts.
#[derive(Debug, Clone, Copy, PartialEq, Eq, Structural)]
pub struct Stack {
    pub top: u64,
    pub bottom: u64,
}

/// A section of the kernel image: `size` bytes from `addr` on, with the
/// flags `flags`.
#[derive(Debug, Clone, Copy, PartialEq, Eq, Structural)]
pub struct Section {
    pub addr: u64,
    pub size: u64,
    pub flags: u64,
}

impl Section {
    /// The section takes up memory when the kernel runs.
    pub open spec fn allocated(self) -> bool {
        self.flags & SECTION_ALLOCATED != 0
    }

    /// Tests `allocated`.
    pub fn is_allocated(&self) -> (allocated: bool)
        ensures
            allocated == self.allocated(),
    {
        self.flags & SECTION_ALLOCATED != 0
    }
}

/// The address behind the last byte of every section fits into 64 bits.
pub open spec fn sections_fit(sections: Seq<Section>) -> bool {
    forall|i: int|
        0 <= i < sections.len() ==> (#[trigger] sections[i]).addr + sections[i].size <= u64::MAX
}

/// Where the kernel image lies: the lowest address at which a section that
/// takes up memory starts, and the highest address behind the last byte
/// of such a section. There is none if no section takes up memory.
pub fn kernel_bounds(sections: &Vec<Section>) -> (bounds: Option<(u64, u64)>)
    requires
        sections_fit(sections@),
    ensures
        bounds is None <==> forall|i: int|
            0 <= i < sections@.len() ==> !(#[trigger] sections@[i]).allocated(),
        bounds matches Some((start, end)) ==> {
            &&& exists|i: int|
                0 <= i < sections@.len() && (#[trigger] sections@[i]).allocated()
                    && sections@[i].addr
                    == start
            &&& exists|i: int|
                0 <= i < sections@.len() && (#[trigger] sections@[i]).allocated()
                    && sections@[i].addr
                    + sections@[i].size == end
            &&& forall|i: int|
                0 <= i < sections@.len() && (#[trigger] sections@[i]).allocated() ==> start
                    <= sections@[i].addr && sections@[i].addr + sections@[i].size <= end
        },
{
    let mut bounds: Option<(u64, u64)> = None;
    let mut index: usize = 0;
    while index < sections.len()
        invariant
            index <= sections@.len(),
            sections_fit(sections@),
            bounds is None <==> forall|i: int|
                0 <= i < index ==> !(#[trigger] sections@[i]).allocated(),
            bounds matches Some((start, end)) ==> {
                &&& exists|i: int|
                    0 <= i < index && (#[trigger] sections@[i]).allocated() && sections@[i].addr
                        == start
                &&& exists|i: int|
                    0 <= i < index && (#[trigger] sections@[i]).allocated() && sections@[i].addr
                        + sections@[i].size == end
                &&& forall|i: int|
                    0 <= i < index && (#[trigger] sections@[i]).allocated() ==> start
                        <= sections@[i].addr && sections@[i].addr + sections@[i].size <= end
            },
        decreases sections@.len() - index,
    {
        let section = sections[index];
        if section.is_allocated() {
            let first = section.addr;
            let last = section.addr + section.size;
            bounds = match bounds {
                None => Some((first, last)),
                Some((start, end)) => Some(
                    (
                        if first < start {
                            first
                        } else {
                            start
                        },
                        if last > end {
                            last
                        } else {
                            end
                        },
                    ),
                ),
            };
        }
        index += 1;
    }
    bounds
}

/// The frame allocator and the page tables of the kernel.
pub struct MemoryController {
    pub frame_allocator: AreaFrameAllocator,
    pub page_table: ActivePageTable,
}

/// `page` is one of the `size` pages behind the page `guard`.
pub open spec fn in_stack(page: Page, guard: Page, size: u64) -> bool {
    guard@ < page@ <= guard@ + size
}

/// The `size` pages behind the page `guard` are pages, all in one half of
/// the address space and below its last page.
pub open spec fn stack_fits(guard: Page, size: u64) -> bool {
    &&& size > 0
    &&& guard@ + size < 0x8_0000_0000 || (guard@ + 1 >= 0xf_fff8_0000_0000 && guard@ + size
        < 0xf_ffff_ffff_ffff)
}

/// `page` has the number of one of the frames from `first` to `last`.
pub open spec fn in_range(page: Page, first: Frame, last: Frame) -> bool {
    first.number <= page@ <= last.number
}

/// `page` has the number of one of the first `done` frames from `first`
/// on.
pub open spec fn covered(page: Page, first: Frame, done: int) -> bool {
    first.number <= page@ < first.number + done
}

/// `page` is translated after as it was before.
pub open spec fn kept(
    before: Map<Page, Translation>,
    after: Map<Page, Translation>,
    page: Page,
) -> bool {
    &&& after.contains_key(page) == before.contains_key(page)
    &&& before.contains_key(page) ==> after[page] == before[page]
}

/// `page`, which was not mapped before, is mapped to the frame with its
/// own number after, with the flags `flags` and `PRESENT`.
pub open spec fn identity_mapped(
    before: Map<Page, Translation>,
    after: Map<Page, Translation>,
    page: Page,
    flags: EntryFlags,
) -> bool {
    &&& canonical_number(page@)
    &&& !before.contains_key(page)
    &&& after.contains_key(page)
    &&& after[page] == mapping(Frame { number: page@ }, flags)
}

/// The flags of the pages of a stack.
pub open spec fn stack_flags() -> EntryFlags {
    EntryFlags::of(WRITABLE | PRESENT)
}

/// Makes the frame allocator for the memory areas `memory_areas`, which
/// spares the frames of the kernel image and of the boot information, and
/// page tables without any mapping, whose level 4 table lies in the lowest
/// frame that the allocator has. There is no result if the allocator has
/// no frame whose address fits into a page table entry.
pub fn init(
    kernel_start: u64,
    kernel_end: u64,
    multiboot_start: u64,
    multiboot_end: u64,
    memory_areas: Vec<MemoryArea>,
) -> (controller: Option<MemoryController>)
    requires
        all_valid(memory_areas@),
    ensures
        controller is Some <==> exists|n: int|
            0 <= n < FRAME_LIMIT && #[trigger] usable_frame(
                memory_areas@,
                (kernel_start as int / PAGE_SIZE as int, kernel_end as int / PAGE_SIZE as int),
                (multiboot_start as int / PAGE_SIZE as int,
                    multiboot_end as int / PAGE_SIZE as int),
                n,
            ),
        controller matches Some(c) ==> {
            &&& c.wf()
            &&& c.frame_allocator.areas() == memory_areas@
            &&& c.frame_allocator.kernel_frames() == (
                kernel_start as int / PAGE_SIZE as int,
                kernel_end as int / PAGE_SIZE as int,
            )
            &&& c.frame_allocator.multiboot_frames() == (
                multiboot_start as int / PAGE_SIZE as int,
                multiboot_end as int / PAGE_SIZE as int,
            )
            &&& c.page_table@ == Map::<Page, Translation>::empty()
            &&& forall|page: Page| #[trigger] c.page_table.mappable(page)
            &&& c.page_table.memory().root() % PAGE_SIZE == 0
            &&& c.frame_allocator.usable(c.page_table.memory().root() as int / PAGE_SIZE as int)
            &&& forall|n: int|
                c.frame_allocator.is_free(n) <==> c.frame_allocator.usable(n) && n
                    > c.page_table.memory().root() / PAGE_SIZE
        },
{
    let mut frame_allocator = AreaFrameAllocator::new(
        kernel_start,
        kernel_end,
        multiboot_start,
        multiboot_end,
        memory_areas,
    );
    let ghost fresh = frame_allocator;
    let ghost kernel = (kernel_start as int / PAGE_SIZE as int,
        kernel_end as int / PAGE_SIZE as int);
    let ghost multiboot = (
        multiboot_start as int / PAGE_SIZE as int,
        multiboot_end as int / PAGE_SIZE as int,
    );
    proof {
        assert forall|n: int| #![trigger usable_frame(memory_areas@, kernel, multiboot, n)]
            0 <= n implies fresh.is_free(n) == usable_frame(memory_areas@, kernel, multiboot, n)
                by {
            assert(fresh.is_free(n) <==> 0 <= n && fresh.usable(n));
        }
    }
    let frame = match frame_allocator.allocate_frame() {
        Some(frame) => frame,
        None => {
            return None;
        },
    };
    if frame.number >= FRAME_LIMIT {
        return None;
    }
    proof {
        assert(fresh.is_free(frame.number as int));
        assert(usable_frame(memory_areas@, kernel, multiboot, frame.number as int));
    }
    let page_table = ActivePageTable::new(frame);
    Some(MemoryController { frame_allocator, page_table })
}

impl MemoryController {
    /// The allocator and the page tables are well-formed.
    pub open spec fn wf(&self) -> bool {
        self.frame_allocator.wf() && self.page_table.wf()
    }

    /// A stack of `size` pages behind the page `guard` can be made for
    /// certain: the pages are pages, none of them is mapped or lies in a
    /// huge page, `guard` is not mapped, and the allocator has four frames
    /// for each page, one for the page and three for the tables that may
    /// be missing on the way to it, all of them fit for a table.
    pub open spec fn stack_is_free(&self, guard: Page, size: u64) -> bool {
        &&& stack_fits(guard, size)
        &&& !self.page_table@.contains_key(guard)
        &&& forall|page: Page|
            #![trigger in_stack(page, guard, size)]
            in_stack(page, guard, size) ==> !self.page_table@.contains_key(page)
                && !self.page_table.memory().huge_on_path(page)
        &&& ActivePageTable::frames_left(
            self.frame_allocator,
            self.page_table.memory(),
            4 * size,
        )
    }

    /// Maps the `size_in_pages` pages behind the page `guard` to frames of
    /// the allocator, writable, for a stack. The page `guard` itself must
    /// not be mapped: it lies below the stack, so that the stack cannot
    /// grow into what lies below it unnoticed.
    ///
    /// There is no stack if the size is zero, if one of the pages is no
    /// page, if `guard` is mapped, or if one of the pages cannot be
    /// mapped; the pages that were mapped until then stay mapped.
    pub fn alloc_stack(&mut self, guard: Page, size_in_pages: u64) -> (stack: Option<Stack>)
        requires
            old(self).wf(),
        ensures
            final(self).wf(),
            forall|page: Page|
                #![trigger in_stack(page, guard, size_in_pages)]
                !in_stack(page, guard, size_in_pages) ==> kept(old(self).page_table@,
                    final(self).page_table@, page),
            stack matches Some(s) ==> {
                &&& size_in_pages > 0
                &&& s.bottom == (guard@ + 1) * PAGE_SIZE
                &&& s.top == (guard@ + 1 + size_in_pages) * PAGE_SIZE
                &&& !final(self).page_table@.contains_key(guard)
                &&& forall|page: Page|
                    #![trigger in_stack(page, guard, size_in_pages)]
                    in_stack(page, guard, size_in_pages) ==> {
                        &&& canonical_number(page@)
                        &&& !old(self).page_table@.contains_key(page)
                        &&& final(self).page_table@.contains_key(page)
                        &&& final(self).page_table@[page].flags == stack_flags()
                    }
            },
            !stack_fits(guard, size_in_pages) || old(self).page_table@.contains_key(guard)
                ==> stack is None,
            old(self).stack_is_free(guard, size_in_pages) ==> stack is Some,
    {
        let guard_number = guard.number();
        if size_in_pages == 0 || size_in_pages > 0xf_ffff_ffff_ffff {
            return None;
        }
        let first = guard_number + 1;
        let last = guard_number + size_in_pages;
        let low = last < 0x8_0000_0000;
        let high = first >= 0xf_fff8_0000_0000 && last < 0xf_ffff_ffff_ffff;
        if !low && !high {
            return None;
        }
        if self.page_table.translate_page(guard).is_some() {
            return None;
        }
        let flags = EntryFlags::from_bits_truncate(WRITABLE);
        proof {
            assert(WRITABLE & ALL_FLAGS == WRITABLE) by (bit_vector);
        }
        let mut done: u64 = 0;
        while done < size_in_pages
            invariant
                self.wf(),
                done <= size_in_pages,
                first == guard@ + 1,
                last == guard@ + size_in_pages,
                low == (last < 0x8_0000_0000),
                high == (first >= 0xf_fff8_0000_0000 && last < 0xf_ffff_ffff_ffff),
                low || high,
                flags == EntryFlags::of(WRITABLE),
                !old(self).page_table@.contains_key(guard),
                old(self).stack_is_free(guard, size_in_pages) ==> ActivePageTable::frames_left(
                    self.frame_allocator,
                    self.page_table.memory(),
                    4 * (size_in_pages - done),
                ),
                forall|page: Page|
                    #![trigger in_stack(page, guard, size_in_pages)]
                    old(self).stack_is_free(guard, size_in_pages) && in_stack(
                        page,
                        guard,
                        size_in_pages,
                    ) && !in_stack(page, guard, done) ==> !self.page_table@.contains_key(page)
                        && !self.page_table.memory().huge_on_path(page),
                forall|page: Page|
                    #![trigger in_stack(page, guard, done)]
                    !in_stack(page, guard, done) ==> kept(old(self).page_table@, self.page_table@,
                        page),
                forall|page: Page|
                    #![trigger in_stack(page, guard, done)]
                    in_stack(page, guard, done) ==> {
                        &&& !old(self).page_table@.contains_key(page)
                        &&& self.page_table@.contains_key(page)
                        &&& self.page_table@[page].flags == stack_flags()
                    },
            decreases size_in_pages - done,
        {
            let page = match Page::from_number(first + done) {
                Some(page) => page,
                None => {
                    return None;
                },
            };
            let ghost before = self.page_table@;
            let ghost had = self.frame_allocator;
            proof {
                assert(in_stack(page, guard, size_in_pages) && !in_stack(page, guard, done));
            }
            if !self.page_table.is_mappable(page) {
                proof {
                    let now = self.page_table@;
                    assert forall|other: Page|
                        #![trigger in_stack(other, guard, size_in_pages)]
                        !in_stack(other, guard, size_in_pages)
                            implies kept(old(self).page_table@, now, other) by {
                        assert(!in_stack(other, guard, done));
                    }
                }
                return None;
            }
            match self.page_table.map(page, flags, &mut self.frame_allocator) {
                Ok(()) => {},
                Err(_) => {
                    proof {
                        let now = self.page_table@;
                        assert forall|other: Page|
                            #![trigger in_stack(other, guard, size_in_pages)]
                            !in_stack(other, guard, size_in_pages)
                                implies kept(old(self).page_table@, now, other) by {
                            assert(!in_stack(other, guard, done));
                        }
                    }
                    return None;
                },
            }
            proof {
                EntryFlags::lemma_of_view(WRITABLE);
                let now = self.page_table@;
                let next = (done + 1) as u64;
                let frame = had.next_frame()->Some_0;
                assert(now == before.insert(page, mapping(frame, flags)));
                assert(!in_stack(page, guard, done));
                assert forall|other: Page|
                    #![trigger in_stack(other, guard, size_in_pages)]
                    old(self).stack_is_free(guard, size_in_pages) && in_stack(
                        other,
                        guard,
                        size_in_pages,
                    ) && !in_stack(other, guard, next) implies !now.contains_key(other)
                    && !self.page_table.memory().huge_on_path(other) by {
                    assert(!in_stack(other, guard, done));
                    assert(other != page);
                }
                assert forall|other: Page| #![trigger in_stack(other, guard, next)]
                    !in_stack(other, guard, next) implies kept(old(self).page_table@, now, other)
                        by {
                    assert(!in_stack(other, guard, done));
                    assert(other != page);
                }
                assert forall|other: Page| #![trigger in_stack(other, guard, next)]
                    in_stack(other, guard, next) implies !old(self).page_table@.contains_key(other)
                    && now.contains_key(other) && now[other].flags == stack_flags() by {
                    if in_stack(other, guard, done) {
                        assert(other != page);
                    } else {
                        Page::lemma_of_self(other);
                        assert(other == page);
                    }
                }
            }
            done += 1;
        }
        proof {
            assert(!in_stack(guard, guard, size_in_pages));
        }
        Some(Stack { top: (last + 1) * PAGE_SIZE, bottom: first * PAGE_SIZE })
    }

    /// The frames from `first` to `last` can be mapped to the pages with
    /// their numbers for certain: each of these pages is a page, is not
    /// mapped and lies in no huge page, each frame fits into an entry, and
    /// the allocator has three frames for each page, for the tables that
    /// may be missing on the way to it, all of them fit for a table.
    pub open spec fn range_is_free(&self, first: Frame, last: Frame) -> bool {
        &&& forall|page: Page|
            #![trigger in_range(page, first, last)]
            in_range(page, first, last) ==> {
                &&& canonical_number(page@)
                &&& page@ < FRAME_LIMIT
                &&& !self.page_table@.contains_key(page)
                &&& !self.page_table.memory().huge_on_path(page)
            }
        &&& ActivePageTable::frames_left(
            self.frame_allocator,
            self.page_table.memory(),
            3 * (last.number - first.number + 1),
        )
    }

    /// Maps each of the frames from `first` to `last` to the page with its
    /// number, with the flags `flags` and `PRESENT`, in ascending order
    /// and up to the first frame that cannot be mapped.
    pub fn identity_map_range(&mut self, first: Frame, last: Frame, flags: EntryFlags) -> (result:
        Result<(), MapError>)
        requires
            old(self).wf(),
            last.number < u64::MAX,
        ensures
            final(self).wf(),
            forall|page: Page|
                #![trigger in_range(page, first, last)]
                !in_range(page, first, last) ==> kept(
                    old(self).page_table@,
                    final(self).page_table@,
                    page,
                ),
            result is Ok ==> forall|page: Page|
                #![trigger in_range(page, first, last)]
                in_range(page, first, last) ==> identity_mapped(
                    old(self).page_table@,
                    final(self).page_table@,
                    page,
                    flags,
                ),
            old(self).range_is_free(first, last) ==> result is Ok,
    {
        let mut frames = Frame::range_inclusive(first.clone(), last.clone());
        let ghost total: int = if first.number <= last.number {
            last.number - first.number + 1
        } else {
            0
        };
        let ghost mut done: int = 0;
        loop
            invariant
                self.wf(),
                0 <= done <= total,
                total == if first.number <= last.number {
                    last.number - first.number + 1
                } else {
                    0
                },
                frames.remaining().len() == total - done,
                forall|i: int|
                    0 <= i < frames.remaining().len() ==> frames.remaining()[i] == first.number
                        + done + i,
                old(self).range_is_free(first, last) ==> ActivePageTable::frames_left(
                    self.frame_allocator,
                    self.page_table.memory(),
                    3 * (total - done),
                ),
                forall|page: Page|
                    #![trigger in_range(page, first, last)]
                    old(self).range_is_free(first, last) && in_range(page, first, last) && !covered(
                        page,
                        first,
                        done,
                    ) ==> !self.page_table@.contains_key(page)
                        && !self.page_table.memory().huge_on_path(page),
                forall|page: Page|
                    #![trigger covered(page, first, done)]
                    !covered(page, first, done) ==> kept(
                        old(self).page_table@,
                        self.page_table@,
                        page,
                    ),
                forall|page: Page|
                    #![trigger covered(page, first, done)]
                    covered(page, first, done) ==> identity_mapped(
                        old(self).page_table@,
                        self.page_table@,
                        page,
                        flags,
                    ),
            decreases frames.remaining().len(),
        {
            let frame = match frames.next() {
                Some(frame) => frame,
                None => {
                    proof {
                        assert forall|page: Page|
                            #![trigger in_range(page, first, last)]
                            true implies in_range(page, first, last) == covered(
                            page,
                            first,
                            done,
                        ) by {}
                    }
                    return Ok(());
                },
            };
            let ghost number = frame.number;
            let ghost before = self.page_table@;
            let ghost page = Page::of(number);
            proof {
                Page::lemma_of_view(number);
                assert(in_range(page, first, last) && !covered(page, first, done));
                assert forall|other: Page|
                    #![trigger in_range(other, first, last)]
                    !in_range(other, first, last) implies kept(
                    old(self).page_table@,
                    self.page_table@,
                    other,
                ) by {
                    assert(!covered(other, first, done));
                }
            }
            if frame.number >= FRAME_LIMIT {
                return Err(MapError::FrameOutOfRange);
            }
            let here = match Page::from_number(frame.number) {
                Some(here) => here,
                None => {
                    return Err(MapError::NonCanonicalAddress);
                },
            };
            if self.page_table.in_huge_page(here) {
                return Err(MapError::HugePage);
            }
            if self.page_table.translate_page(here).is_some() {
                return Err(MapError::PageAlreadyMapped);
            }
            match self.page_table.identity_map(frame, flags, &mut self.frame_allocator) {
                Ok(()) => {},
                Err(e) => {
                    proof {
                        assert(self.page_table@ =~= before);
                        assert forall|other: Page|
                            #![trigger in_range(other, first, last)]
                            !in_range(other, first, last) implies kept(
                            old(self).page_table@,
                            self.page_table@,
                            other,
                        ) by {
                            assert(!covered(other, first, done));
                        }
                    }
                    return Err(e);
                },
            }
            proof {
                let now = self.page_table@;
                assert(now == before.insert(page, mapping(Frame { number }, flags)));
                assert forall|other: Page|
                    #![trigger covered(other, first, done + 1)]
                    covered(other, first, done + 1) implies identity_mapped(
                    old(self).page_table@,
                    now,
                    other,
                    flags,
                ) by {
                    if other@ == number {
                        Page::lemma_of_self(other);
                        assert(!covered(other, first, done));
                    } else {
                        assert(covered(other, first, done));
                        assert(other != page);
                    }
                }
                assert forall|other: Page|
                    #![trigger covered(other, first, done + 1)]
                    !covered(other, first, done + 1) implies kept(
                    old(self).page_table@,
                    now,
                    other,
                ) by {
                    assert(!covered(other, first, done));
                    assert(other != page);
                }
                assert forall|other: Page|
                    #![trigger in_range(other, first, last)]
                    old(self).range_is_free(first, last) && in_range(other, first, last)
                        && !covered(other, first, done + 1) implies !now.contains_key(other)
                    && !self.page_table.memory().huge_on_path(other) by {
                    assert(!covered(other, first, done));
                    assert(other != page);
                }
                done = done + 1;
            }
        }
    }
}

} // verus!
