//! Physical memory: frames and the allocators that hand them out.

use vstd::prelude::*;

pub mod area_frame_allocator;
pub mod controller;
pub mod paging;

verus! {

/// Size in bytes of a physical frame and of a virtual page.
pub const PAGE_SIZE: u64 = 4096;

/// A physical frame, identified by its index: frame `n` covers the bytes
/// `n * PAGE_SIZE .. (n + 1) * PAGE_SIZE` of physical memory.
#[derive(Debug, PartialEq, Eq, PartialOrd, Ord, Structural)]
pub struct Frame {
    pub number: u64,
}

impl Frame {
    /// The largest frame number whose start address fits in 64 bits.
    pub open spec fn max_number() -> int {
        u64::MAX as int / PAGE_SIZE as int
    }

    /// A second handle on the same frame.
    pub fn clone(&self) -> (frame: Frame)
        ensures
            frame == *self,
    {
        Frame { number: self.number }
    }

    /// The frame that holds the byte at `address`.
    pub fn containing_address(address: u64) -> (frame: Frame)
        ensures
            frame.number == address as int / PAGE_SIZE as int,
            frame.number <= Frame::max_number(),
    {
        Frame { number: address / PAGE_SIZE }
    }

    /// The frames from `start` to `end`, both included.
    pub fn range_inclusive(start: Frame, end: Frame) -> (frames: FrameIter)
        requires
            end.number < u64::MAX,
        ensures
            frames.remaining().len() == if start.number <= end.number {
                end.number - start.number + 1
            } else {
                0
            },
            forall|i: int|
                0 <= i < frames.remaining().len() ==> frames.remaining()[i] == start.number + i,
    {
        FrameIter { start: start, end: end }
    }

    /// The address of the first byte of the frame.
    pub fn start_address(&self) -> (address: u64)
        requires
            self.number <= Frame::max_number(),
        ensures
            address == self.number * PAGE_SIZE,
    {
        self.number * PAGE_SIZE
    }
}

/// The frames from `start` to `end`, both included, in ascending order.
pub struct FrameIter {
    start: Frame,
    end: Frame,
}

impl FrameIter {
    #[verifier::type_invariant]
    spec fn end_has_successor(self) -> bool {
        self.end.number < u64::MAX
    }

    /// The numbers of the frames that are still to come.
    pub closed spec fn remaining(&self) -> Seq<int> {
        Seq::new(
            if self.start.number <= self.end.number {
                (self.end.number - self.start.number + 1) as nat
            } else {
                0
            },
            |i: int| self.start.number + i,
        )
    }

    /// The next frame, or `None` when the range is used up.
    pub fn next(&mut self) -> (frame: Option<Frame>)
        ensures
            frame is Some <==> old(self).remaining().len() > 0,
            frame matches Some(f) ==> f.number == old(self).remaining()[0]
                && final(self).remaining() == old(self).remaining().drop_first(),
            frame is None ==> final(self).remaining() == old(self).remaining(),
    {
        proof {
            use_type_invariant(&*self);
        }
        if self.start.number <= self.end.number {
            let frame = self.start.clone();
            self.start = Frame { number: self.start.number + 1 };
            assert(self.remaining() =~= old(self).remaining().drop_first());
            Some(frame)
        } else {
            None
        }
    }
}

/// A source of physical frames.
///
/// `free_frames` is the set of frame numbers that the allocator may still
/// hand out. Every allocation takes one frame out of that set, so no frame
/// is handed out twice unless it was given back in between.
pub trait FrameAllocator {
    /// The allocator's own consistency condition. An allocator that does
    /// not state one is not known to keep to the contracts below, so that
    /// no proof can rest on it.
    open spec fn wf(&self) -> bool {
        false
    }

    /// The numbers of the frames that are still to be had.
    open spec fn free_frames(&self) -> Set<int> {
        Set::empty()
    }

    /// The frame that is handed out next, if one is left.
    open spec fn next_frame(&self) -> Option<Frame> {
        None
    }

    /// Hands out a free frame, or `None` when none is left.
    fn allocate_frame(&mut self) -> (frame: Option<Frame>)
        requires
            old(self).wf(),
        ensures
            final(self).wf(),
            frame == old(self).next_frame(),
            frame is Some <==> !(old(self).free_frames() =~= Set::<int>::empty()),
            frame matches Some(f) ==> old(self).free_frames().contains(f.number as int),
            frame matches Some(f) ==> final(self).free_frames() =~= old(self).free_frames().remove(
                f.number as int,
            ),
            frame is None ==> final(self).free_frames() =~= old(self).free_frames(),
    ;

    /// Gives `frame` back. An allocator may keep it for later use or forget
    /// it; it never gains any other frame by this.
    fn deallocate_frame(&mut self, frame: Frame)
        requires
            old(self).wf(),
        ensures
            final(self).wf(),
            final(self).free_frames().subset_of(
                old(self).free_frames().insert(frame.number as int),
            ),
    ;
}

/// One successful allocation: `frame` was free in `before` and is the one
/// frame that `after` lacks.
pub open spec fn allocates<A: FrameAllocator>(before: A, after: A, frame: Frame) -> bool {
    &&& before.free_frames().contains(frame.number as int)
    &&& after.free_frames() == before.free_frames().remove(frame.number as int)
}

/// No frame is handed out twice: if `first` was allocated, and nothing was
/// given back before `second` was allocated, the two frames differ.
pub proof fn allocated_frames_are_distinct<A: FrameAllocator>(
    s0: A,
    s1: A,
    s2: A,
    s3: A,
    first: Frame,
    second: Frame,
)
    requires
        allocates(s0, s1, first),
        s2.free_frames().subset_of(s1.free_frames()),
        allocates(s2, s3, second),
    ensures
        first != second,
{
    assert(!s1.free_frames().contains(first.number as int));
    assert(s2.free_frames().contains(second.number as int));
}

} // verus!
