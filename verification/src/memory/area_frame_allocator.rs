//! A frame allocator over the memory areas that the boot loader reports.

use vstd::prelude::*;
use crate::memory::{Frame, FrameAllocator, PAGE_SIZE};

verus! {

/// A region of usable physical memory: `length` bytes from `base_addr` on.
#[derive(Clone, Copy, Debug, PartialEq, Eq, Structural)]
pub struct MemoryArea {
    pub base_addr: u64,
    pub length: u64,
}

impl MemoryArea {
    /// The area has a last byte, and its address fits in 64 bits.
    pub open spec fn valid(self) -> bool {
        1 <= self.base_addr + self.length <= u64::MAX
    }

    /// Number of the frame that holds the area's first byte.
    pub open spec fn first_frame(self) -> int {
        self.base_addr as int / PAGE_SIZE as int
    }

    /// Number of the frame that holds the area's last byte.
    pub open spec fn last_frame(self) -> int {
        (self.base_addr + self.length - 1) / PAGE_SIZE as int
    }

    /// Frame `n` holds at least one byte of the area.
    pub open spec fn contains_frame(self, n: int) -> bool {
        self.first_frame() <= n <= self.last_frame()
    }

    /// Tests `valid`.
    pub fn is_valid(&self) -> (ok: bool)
        ensures
            ok == self.valid(),
    {
        self.length <= u64::MAX - self.base_addr && !(self.base_addr == 0 && self.length == 0)
    }
}

/// Every area of the list is valid.
pub open spec fn all_valid(areas: Seq<MemoryArea>) -> bool {
    forall|i: int| 0 <= i < areas.len() ==> (#[trigger] areas[i]).valid()
}

/// Frame `n` holds at least one byte of one of the areas.
pub open spec fn in_some_area(areas: Seq<MemoryArea>, n: int) -> bool {
    exists|i: int| 0 <= i < areas.len() && (#[trigger] areas[i]).contains_frame(n)
}

/// Frame `n` lies in one of the areas and outside the two ranges of frames
/// `kernel` and `multiboot`, each given by its first and its last frame.
pub open spec fn usable_frame(
    areas: Seq<MemoryArea>,
    kernel: (int, int),
    multiboot: (int, int),
    n: int,
) -> bool {
    &&& in_some_area(areas, n)
    &&& !(kernel.0 <= n <= kernel.1)
    &&& !(multiboot.0 <= n <= multiboot.1)
}

/// Hands out the frames of the memory areas in ascending order, leaving out
/// the frames of the kernel image and of the boot information.
pub struct AreaFrameAllocator {
    next_free_frame: Frame,
    current_area: Option<MemoryArea>,
    areas: Vec<MemoryArea>,
    kernel_start: Frame,
    kernel_end: Frame,
    multiboot_start: Frame,
    multiboot_end: Frame,
}

impl AreaFrameAllocator {
    /// The memory areas that the allocator draws from.
    pub closed spec fn areas(&self) -> Seq<MemoryArea> {
        self.areas@
    }

    /// First and last frame of the kernel image.
    pub closed spec fn kernel_frames(&self) -> (int, int) {
        (self.kernel_start.number as int, self.kernel_end.number as int)
    }

    /// First and last frame of the boot information.
    pub closed spec fn multiboot_frames(&self) -> (int, int) {
        (self.multiboot_start.number as int, self.multiboot_end.number as int)
    }

    /// Every frame below this number is used up or was never usable.
    pub closed spec fn next_free(&self) -> int {
        self.next_free_frame.number as int
    }

    /// Frame `n` belongs to the kernel image or to the boot information.
    pub open spec fn reserved(&self, n: int) -> bool {
        ||| self.kernel_frames().0 <= n <= self.kernel_frames().1
        ||| self.multiboot_frames().0 <= n <= self.multiboot_frames().1
    }

    /// Frame `n` lies in a memory area and is not reserved.
    pub open spec fn usable(&self, n: int) -> bool {
        usable_frame(self.areas(), self.kernel_frames(), self.multiboot_frames(), n)
    }

    /// Frame `n` can still be handed out.
    pub open spec fn is_free(&self, n: int) -> bool {
        self.next_free() <= n && self.usable(n)
    }

    /// Frame `n` is the lowest frame that can still be handed out.
    pub open spec fn is_lowest_free(&self, n: int) -> bool {
        self.is_free(n) && forall|m: int| self.is_free(m) ==> n <= m
    }

    /// The lowest frame that can still be handed out, if there is one.
    pub open spec fn lowest_free(&self) -> Option<Frame> {
        if exists|n: int| self.is_lowest_free(n) {
            Some(Frame { number: (choose|n: int| self.is_lowest_free(n)) as u64 })
        } else {
            None
        }
    }

    /// A free frame below which no frame is free is the lowest free one.
    proof fn lemma_lowest_free(&self, number: u64)
        requires
            self.is_free(number as int),
            forall|m: int| self.is_free(m) ==> number <= m,
        ensures
            self.lowest_free() == Some(Frame { number }),
    {
        assert(self.is_lowest_free(number as int));
        let lowest = choose|n: int| self.is_lowest_free(n);
        assert(self.is_free(lowest));
        assert(lowest == number);
    }

    /// Where no frame is free, none is the lowest.
    proof fn lemma_none_free(&self)
        requires
            forall|m: int| !self.is_free(m),
        ensures
            self.lowest_free() is None,
    {
        assert forall|n: int| !self.is_lowest_free(n) by {
            assert(!self.is_free(n));
        }
    }

    /// The current area, if any, is the lowest one that still matters.
    pub closed spec fn wf(&self) -> bool {
        &&& all_valid(self.areas@)
        &&& self.next_free_frame.number <= Frame::max_number() + 1
        &&& self.kernel_end.number <= Frame::max_number()
        &&& self.multiboot_end.number <= Frame::max_number()
        &&& match self.current_area {
            None => forall|i: int|
                0 <= i < self.areas@.len() ==> (#[trigger] self.areas@[i]).last_frame()
                    < self.next_free_frame.number,
            Some(area) => {
                &&& area.valid()
                &&& area.first_frame() <= self.next_free_frame.number
                &&& exists|j: int| 0 <= j < self.areas@.len() && #[trigger] self.areas@[j] == area
                &&& forall|i: int|
                    0 <= i < self.areas@.len() && (#[trigger] self.areas@[i]).last_frame()
                        >= self.next_free_frame.number ==> self.areas@[i].first_frame()
                        >= area.first_frame()
            },
        }
    }

    /// The current area is used up.
    spec fn stale(&self) -> bool {
        self.current_area matches Some(area) && area.last_frame() < self.next_free_frame.number
    }

    /// An allocator over `memory_areas` that spares the frames of the kernel
    /// image (`kernel_start` to `kernel_end`, both addresses included) and of
    /// the boot information (`multiboot_start` to `multiboot_end`).
    pub fn new(
        kernel_start: u64,
        kernel_end: u64,
        multiboot_start: u64,
        multiboot_end: u64,
        memory_areas: Vec<MemoryArea>,
    ) -> (allocator: AreaFrameAllocator)
        requires
            all_valid(memory_areas@),
        ensures
            allocator.wf(),
            allocator.areas() == memory_areas@,
            allocator.kernel_frames() == (
                kernel_start as int / PAGE_SIZE as int,
                kernel_end as int / PAGE_SIZE as int,
            ),
            allocator.multiboot_frames() == (
                multiboot_start as int / PAGE_SIZE as int,
                multiboot_end as int / PAGE_SIZE as int,
            ),
            forall|n: int| allocator.is_free(n) <==> 0 <= n && allocator.usable(n),
    {
        let mut allocator = AreaFrameAllocator {
            next_free_frame: Frame::containing_address(0),
            current_area: None,
            areas: memory_areas,
            kernel_start: Frame::containing_address(kernel_start),
            kernel_end: Frame::containing_address(kernel_end),
            multiboot_start: Frame::containing_address(multiboot_start),
            multiboot_end: Frame::containing_address(multiboot_end),
        };
        allocator.choose_next_area();
        allocator
    }

    /// Makes the lowest area that still has a frame at or above the next
    /// free one the current area, and moves the next free frame up to it.
    fn choose_next_area(&mut self)
        requires
            all_valid(old(self).areas@),
            old(self).next_free_frame.number <= Frame::max_number() + 1,
            old(self).kernel_end.number <= Frame::max_number(),
            old(self).multiboot_end.number <= Frame::max_number(),
        ensures
            final(self).wf(),
            final(self).areas@ == old(self).areas@,
            final(self).kernel_frames() == old(self).kernel_frames(),
            final(self).multiboot_frames() == old(self).multiboot_frames(),
            final(self).next_free_frame.number >= old(self).next_free_frame.number,
            forall|n: int| final(self).is_free(n) <==> old(self).is_free(n),
            final(self).stale()
                ==> final(self).next_free_frame.number > old(self).next_free_frame.number,
    {
        let mut best: Option<MemoryArea> = None;
        let mut i: usize = 0;
        while i < self.areas.len()
            invariant
                0 <= i <= self.areas@.len(),
                all_valid(self.areas@),
                *self == *old(self),
                match best {
                    None => forall|k: int|
                        0 <= k < i ==> (#[trigger] self.areas@[k]).last_frame()
                            < self.next_free_frame.number,
                    Some(area) => {
                        &&& area.valid()
                        &&& area.last_frame() >= self.next_free_frame.number
                        &&& exists|j: int| 0 <= j < i && #[trigger] self.areas@[j] == area
                        &&& forall|k: int|
                            0 <= k < i && (#[trigger] self.areas@[k]).last_frame()
                                >= self.next_free_frame.number ==> self.areas@[k].base_addr
                                >= area.base_addr
                    },
                },
            decreases self.areas@.len() - i,
        {
            let area = self.areas[i];
            let last = Frame::containing_address(area.base_addr + area.length - 1);
            if last.number >= self.next_free_frame.number {
                let better = match best {
                    None => true,
                    Some(found) => area.base_addr < found.base_addr,
                };
                if better {
                    best = Some(area);
                }
            }
            i += 1;
        }
        self.current_area = best;
        if let Some(area) = self.current_area {
            let start_frame = Frame::containing_address(area.base_addr);
            if self.next_free_frame.number < start_frame.number {
                self.next_free_frame = start_frame;
            }
        }
        proof {
            assert forall|n: int| self.is_free(n) <==> old(self).is_free(n) by {
                if old(self).is_free(n) && n < self.next_free_frame.number {
                    let k = choose|k: int|
                        0 <= k < self.areas@.len() && (#[trigger] self.areas@[k]).contains_frame(n);
                    assert(self.areas@[k].last_frame() >= old(self).next_free_frame.number);
                }
            }
        }
    }
}

impl FrameAllocator for AreaFrameAllocator {
    open spec fn wf(&self) -> bool {
        AreaFrameAllocator::wf(self)
    }

    open spec fn free_frames(&self) -> Set<int> {
        Set::new(|n: int| self.is_free(n))
    }

    open spec fn next_frame(&self) -> Option<Frame> {
        self.lowest_free()
    }

    /// Hands out the lowest free frame.
    fn allocate_frame(&mut self) -> (frame: Option<Frame>)
        ensures
            final(self).areas() == old(self).areas(),
            final(self).kernel_frames() == old(self).kernel_frames(),
            final(self).multiboot_frames() == old(self).multiboot_frames(),
            frame matches Some(f) ==> {
                &&& !old(self).reserved(f.number as int)
                &&& in_some_area(old(self).areas(), f.number as int)
                &&& old(self).is_free(f.number as int)
                &&& forall|m: int| old(self).is_free(m) ==> f.number <= m
                &&& final(self).next_free() == f.number + 1
                &&& f.number <= Frame::max_number()
            },
            frame is None ==> forall|m: int| !old(self).is_free(m),
    {
        loop
            invariant
                self.wf(),
                self.areas() == old(self).areas(),
                self.kernel_frames() == old(self).kernel_frames(),
                self.multiboot_frames() == old(self).multiboot_frames(),
                forall|n: int| self.is_free(n) <==> old(self).is_free(n),
            decreases u64::MAX - self.next_free_frame.number,
                if self.stale() { 1int } else { 0int },
        {
            match self.current_area {
                None => {
                    proof {
                        assert forall|m: int| !self.is_free(m) by {
                            if self.is_free(m) {
                                let k = choose|k: int|
                                    0 <= k < self.areas@.len() && (
                                    #[trigger] self.areas@[k]).contains_frame(m);
                                assert(self.areas@[k].last_frame() < self.next_free_frame.number);
                            }
                        }
                        assert(old(self).free_frames() =~= Set::<int>::empty());
                        old(self).lemma_none_free();
                    }
                    return None;
                },
                Some(area) => {
                    let frame = Frame { number: self.next_free_frame.number };
                    let current_area_last_frame = Frame::containing_address(
                        area.base_addr + area.length - 1,
                    );
                    if frame.number > current_area_last_frame.number {
                        self.choose_next_area();
                    } else if frame.number >= self.kernel_start.number && frame.number
                        <= self.kernel_end.number {
                        self.next_free_frame = Frame { number: self.kernel_end.number + 1 };
                    } else if frame.number >= self.multiboot_start.number && frame.number
                        <= self.multiboot_end.number {
                        self.next_free_frame = Frame { number: self.multiboot_end.number + 1 };
                    } else {
                        proof {
                            let j = choose|j: int|
                                0 <= j < self.areas@.len() && #[trigger] self.areas@[j] == area;
                            assert(self.areas@[j].contains_frame(frame.number as int));
                            assert(self.is_free(frame.number as int));
                            assert(old(self).free_frames().contains(frame.number as int));
                        }
                        let ghost before = *self;
                        self.next_free_frame.number += 1;
                        proof {
                            old(self).lemma_lowest_free(frame.number);
                            assert(self.free_frames() =~= old(self).free_frames().remove(
                                frame.number as int,
                            )) by {
                                assert forall|n: int|
                                    self.is_free(n) <==> (before.is_free(n) && n != frame.number)
                                        by {}
                            }
                        }
                        return Some(frame);
                    }
                },
            }
        }
    }

    /// Frames are not taken back: the allocator only ever moves upwards.
    fn deallocate_frame(&mut self, frame: Frame)
        ensures
            *final(self) == *old(self),
    {
    }
}

} // verus!
