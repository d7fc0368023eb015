//! Four-level page tables: entries, tables, and the mapping operations.

use vstd::prelude::*;
use crate::memory::{Frame, FrameAllocator, PAGE_SIZE};
use crate::memory::paging::mapper::Mapper;
use crate::memory::paging::entry::{
    Entry, EntryFlags, ALL_FLAGS, FRAME_LIMIT, HUGE_PAGE, PRESENT,
};
use crate::memory::paging::page::{
    canonical, canonical_number, p1_index_of, p2_index_of, p3_index_of, p4_index_of, Page,
    PhysicalAddress, VirtualAddress,
};
use crate::memory::paging::table::{
    good_frames, new_table_error, translation_of, with_table, Level1, Level2, Level3, Level4,
    MapError, Table, TableMemory, Translation,
};

pub mod entry;
pub mod laws;
pub mod mapper;
pub mod page;
pub mod table;

verus! {

/// The size of a huge page.
#[derive(Debug, Clone, Copy, PartialEq, Eq, Structural)]
pub enum HugePageSize {
    /// 512 pages, mapped by one entry of a level 2 table.
    Size2MiB,
    /// 512 * 512 pages, mapped by one entry of a level 3 table.
    Size1GiB,
}

impl HugePageSize {
    /// Number of pages, and of frames, of a huge page of this size.
    pub open spec fn pages(self) -> int {
        match self {
            HugePageSize::Size2MiB => 512,
            HugePageSize::Size1GiB => 262144,
        }
    }
}

/// `page` lies in the huge page of size `size` that holds `first`.
pub open spec fn in_huge_page(page: Page, first: Page, size: HugePageSize) -> bool {
    &&& p4_index_of(page@) == p4_index_of(first@)
    &&& p3_index_of(page@) == p3_index_of(first@)
    &&& size == HugePageSize::Size2MiB ==> p2_index_of(page@) == p2_index_of(first@)
}

/// How many pages `page` lies behind the start of its huge page.
pub open spec fn offset_in_huge_page(page: Page, size: HugePageSize) -> int {
    match size {
        HugePageSize::Size2MiB => p1_index_of(page@),
        HugePageSize::Size1GiB => p2_index_of(page@) * 512 + p1_index_of(page@),
    }
}

/// What `map_huge_to` enters: every page of the huge page that starts at
/// `first`, each translated to the frame as far behind `frame` as the page
/// is behind `first`.
pub open spec fn huge_mapping(
    first: Page,
    frame: Frame,
    flags: EntryFlags,
    size: HugePageSize,
) -> Map<Page, Translation> {
    Map::new(
        |page: Page| canonical_number(page@) && in_huge_page(page, first, size),
        |page: Page|
            Translation {
                frame: Frame { number: (frame.number + offset_in_huge_page(page, size)) as u64 },
                flags: EntryFlags::of(flags@ | PRESENT | HUGE_PAGE),
            },
    )
}

/// The page tables of the running address space. Its view is the set of
/// translations: each mapped page with its frame and flags.
pub struct ActivePageTable {
    mapper: Mapper,
    memory: TableMemory,
}

impl View for ActivePageTable {
    type V = Map<Page, Translation>;

    closed spec fn view(&self) -> Map<Page, Translation> {
        self.memory.mappings()
    }
}

/// The physical address that `address` is translated to when its page is
/// translated to `translation`.
pub open spec fn translated_address(translation: Translation, address: VirtualAddress) -> int {
    translation.frame.number * PAGE_SIZE + address % PAGE_SIZE
}

/// What `map_to` enters for `frame` and `flags`.
pub open spec fn mapping(frame: Frame, flags: EntryFlags) -> Translation {
    Translation { frame, flags: EntryFlags::of(flags@ | PRESENT) }
}

impl ActivePageTable {
    /// The arena of tables behind the translations.
    pub closed spec fn memory(&self) -> TableMemory {
        self.memory
    }

    /// The tables form a tree below the level 4 table.
    pub closed spec fn wf(&self) -> bool {
        &&& self.memory.wf()
        &&& self.mapper.p4_table().valid_in(&self.memory)
        &&& self.mapper.p4_table().address() == self.memory.root()
    }

    /// The physical address that `address` is translated to, if its page
    /// is mapped.
    pub open spec fn translated(&self, address: VirtualAddress) -> Option<PhysicalAddress> {
        let page = Page::of(address / PAGE_SIZE);
        if self@.contains_key(page) {
            Some(translated_address(self@[page], address) as u64)
        } else {
            None
        }
    }

    /// The tables behind a well-formed page table form a tree.
    pub proof fn lemma_wf(&self)
        requires
            self.wf(),
        ensures
            self.memory().wf(),
    {
    }

    /// The view is the set of the walks that end at a frame.
    pub proof fn lemma_view(&self)
        ensures
            self@ == self.memory().mappings(),
    {
    }

    /// The page tables rooted in the frame `p4_frame`, with no page mapped.
    pub fn new(p4_frame: Frame) -> (table: ActivePageTable)
        requires
            p4_frame.number < FRAME_LIMIT,
        ensures
            table.wf(),
            table@ == Map::<Page, Translation>::empty(),
            table.memory().root() == p4_frame.number * 4096,
            forall|page: Page| #[trigger] table.mappable(page),
    {
        let memory = TableMemory::new(p4_frame);
        let mapper = Mapper::new(&memory);
        ActivePageTable { mapper, memory }
    }

    /// The arena of tables behind the translations.
    pub fn tables(&self) -> (memory: &TableMemory)
        ensures
            *memory == self.memory(),
    {
        &self.memory
    }

    /// The level 4 table.
    pub fn p4(&self) -> (table: &Table<Level4>)
        requires
            self.wf(),
        ensures
            table.valid_in(&self.memory()),
            table.address() == self.memory().root(),
    {
        self.mapper.p4()
    }

    /// The physical address that `virtual_address` is translated to, or
    /// `None` if its page is not mapped.
    pub fn translate(&self, virtual_address: VirtualAddress) -> (address: Option<PhysicalAddress>)
        requires
            self.wf(),
            canonical(virtual_address),
        ensures
            address == self.translated(virtual_address),
    {
        let offset = virtual_address % PAGE_SIZE;
        let page = Page::containing_address(virtual_address);
        proof {
            Page::lemma_of_view(virtual_address / PAGE_SIZE);
            Page::lemma_view_injective(page, Page::of(virtual_address / PAGE_SIZE));
        }
        match self.translate_page(page) {
            Some(frame) => Some(frame.number * PAGE_SIZE + offset),
            None => None,
        }
    }

    /// The frame that `page` is translated to, or `None` if it is not
    /// mapped.
    pub fn translate_page(&self, page: Page) -> (frame: Option<Frame>)
        requires
            self.wf(),
        ensures
            frame is Some <==> self@.contains_key(page),
            frame matches Some(f) ==> f == self@[page].frame && f.number < 2 * FRAME_LIMIT,
    {
        let _ = page.number();
        let p3 = match self.mapper.p4().next_table(&self.memory, page.p4_index()) {
            Some(p3) => p3,
            None => { return None; },
        };
        proof {
            self.memory.lemma_path(page);
            assert(self.memory.entry_ok(p3.address(), p3_index_of(page@)));
        }
        let p3_entry = p3.entry(&self.memory, page.p3_index());
        if let Some(start_frame) = p3_entry.pointed_frame() {
            if p3_entry.is_huge() {
                return Some(
                    Frame {
                        number: start_frame.number + (page.p2_index() as u64) * 512 + (
                        page.p1_index() as u64),
                    },
                );
            }
        }
        let p2 = match p3.next_table(&self.memory, page.p3_index()) {
            Some(p2) => p2,
            None => { return None; },
        };
        proof {
            assert(self.memory.entry_ok(p2.address(), p2_index_of(page@)));
        }
        let p2_entry = p2.entry(&self.memory, page.p2_index());
        if let Some(start_frame) = p2_entry.pointed_frame() {
            if p2_entry.is_huge() {
                return Some(Frame { number: start_frame.number + (page.p1_index() as u64) });
            }
        }
        let p1 = match p2.next_table(&self.memory, page.p2_index()) {
            Some(p1) => p1,
            None => { return None; },
        };
        p1.entry(&self.memory, page.p1_index()).pointed_frame()
    }

    /// What the error of a step that needed a new table says of the
    /// allocator and of the tables.
    pub open spec fn allocation_failed<A: FrameAllocator>(
        e: MapError,
        before: A,
        after: A,
        memory: TableMemory,
    ) -> bool {
        match e {
            MapError::OutOfFrames => after.free_frames() =~= Set::<int>::empty(),
            MapError::FrameOutOfRange => exists|n: int|
                n >= FRAME_LIMIT && #[trigger] before.free_frames().contains(n),
            MapError::TableFrameInUse => exists|n: int|
                0 <= n < FRAME_LIMIT && memory@.contains_key((n * 4096) as u64)
                    && #[trigger] before.free_frames().contains(n),
            _ => false,
        }
    }

    /// A failed allocation is one for every earlier state of the
    /// allocator, and for every larger arena.
    proof fn lemma_allocation_failed<A: FrameAllocator>(
        e: MapError,
        first: A,
        before: A,
        after: A,
        earlier: TableMemory,
        memory: TableMemory,
    )
        requires
            before.free_frames().subset_of(first.free_frames()),
            after.free_frames().subset_of(before.free_frames()),
            memory.extends(&earlier),
            new_table_error(&earlier, before.next_frame()) == Some(e),
            before.next_frame() is Some <==> !(before.free_frames() =~= Set::<int>::empty()),
            before.next_frame() matches Some(f) ==> before.free_frames().contains(f.number as int),
        ensures
            Self::allocation_failed(e, first, after, memory),
    {
        match before.next_frame() {
            Some(f) => {
                assert(first.free_frames().contains(f.number as int));
                if f.number < FRAME_LIMIT {
                    assert(memory@.contains_key((f.number * 4096) as u64));
                }
            },
            None => {},
        }
    }

    /// `allocator` has at least `count` frames left, and each of them can
    /// hold a new table of `memory`.
    pub open spec fn frames_left<A: FrameAllocator>(
        allocator: A,
        memory: TableMemory,
        count: int,
    ) -> bool {
        &&& good_frames(allocator, &memory)
        &&& allocator.free_frames().finite()
        &&& allocator.free_frames().len() >= count
    }

    /// What an operation that takes at most `lost` frames keeps of the
    /// allocator: it gains no frame, its frames stay fit for new tables,
    /// and all but `lost` of them are left.
    pub open spec fn frames_kept<A: FrameAllocator>(
        before: TableMemory,
        after: TableMemory,
        had: A,
        has: A,
        lost: int,
    ) -> bool {
        &&& has.free_frames().subset_of(had.free_frames())
        &&& good_frames(had, &before) ==> good_frames(has, &after)
        &&& had.free_frames().finite() ==> has.free_frames().finite() && has.free_frames().len()
            + lost >= had.free_frames().len()
    }

    /// What every step on the way to a level 1 table keeps: the tables
    /// stay a tree, none is lost, no translation changes, and the
    /// allocator gains no frame and loses at most `lost`.
    pub open spec fn tables_grown<A: FrameAllocator>(
        before: TableMemory,
        after: TableMemory,
        had: A,
        has: A,
        lost: int,
    ) -> bool {
        &&& after.wf()
        &&& has.wf()
        &&& after.extends(&before)
        &&& Self::frames_kept(before, after, had, has, lost)
        &&& forall|other: Page| #[trigger] after.lookup(other) == before.lookup(other)
        &&& forall|other: Page| #[trigger]
            after.huge_on_path(other) == before.huge_on_path(other)
    }

    /// The tables of `before` with the tables on the way to `page` that
    /// are missing there, down to level `lowest`: a new, empty table at
    /// `t3` for level 3, at `t2` for level 2 and at `t1` for level 1, made
    /// in this order, each linked from the table above it.
    pub open spec fn tables_upto(
        before: TableMemory,
        page: Page,
        t3: PhysicalAddress,
        t2: PhysicalAddress,
        t1: PhysicalAddress,
        lowest: int,
    ) -> Map<PhysicalAddress, Seq<Entry>> {
        let m3 = if before.p3_table(page) is Some {
            before@
        } else {
            with_table(before@, before.root(), p4_index_of(page@), t3)
        };
        let m2 = if before.p2_table(page) is Some {
            m3
        } else {
            with_table(m3, t3, p3_index_of(page@), t2)
        };
        let m1 = if before.p1_table(page) is Some {
            m2
        } else {
            with_table(m2, t2, p2_index_of(page@), t1)
        };
        if lowest >= 3 {
            m3
        } else if lowest == 2 {
            m2
        } else {
            m1
        }
    }

    /// The frames `free` without the frames of the tables on the way to
    /// `page` that are missing in `before`, down to level `lowest`.
    pub open spec fn frames_upto(
        before: TableMemory,
        page: Page,
        free: Set<int>,
        t3: PhysicalAddress,
        t2: PhysicalAddress,
        t1: PhysicalAddress,
        lowest: int,
    ) -> Set<int> {
        let f3 = if before.p3_table(page) is Some {
            free
        } else {
            free.remove(t3 as int / 4096)
        };
        let f2 = if before.p2_table(page) is Some {
            f3
        } else {
            f3.remove(t2 as int / 4096)
        };
        let f1 = if before.p1_table(page) is Some {
            f2
        } else {
            f2.remove(t1 as int / 4096)
        };
        if lowest >= 3 {
            f3
        } else if lowest == 2 {
            f2
        } else {
            f1
        }
    }

    /// Each table on the way to `page` that is missing in `before`, down
    /// to level `lowest`, is made in a frame that was free and held no
    /// table when it was made.
    pub open spec fn fresh_upto(
        before: TableMemory,
        page: Page,
        free: Set<int>,
        t3: PhysicalAddress,
        t2: PhysicalAddress,
        t1: PhysicalAddress,
        lowest: int,
    ) -> bool {
        &&& before.p3_table(page) is None ==> !before@.contains_key(t3) && free.contains(
            t3 as int / 4096,
        )
        &&& lowest <= 2 && before.p2_table(page) is None ==> !Self::tables_upto(
            before,
            page,
            t3,
            t2,
            t1,
            3,
        ).contains_key(t2) && Self::frames_upto(before, page, free, t3, t2, t1, 3).contains(
            t2 as int / 4096,
        )
        &&& lowest <= 1 && before.p1_table(page) is None ==> !Self::tables_upto(
            before,
            page,
            t3,
            t2,
            t1,
            2,
        ).contains_key(t1) && Self::frames_upto(before, page, free, t3, t2, t1, 2).contains(
            t1 as int / 4096,
        )
    }

    /// The tables on the way to `page` down to level `lowest` are there
    /// in `after`: those that `before` had, and a new one for each that
    /// was missing, in a frame of its own that is free no longer. Nothing
    /// else has changed, and no other frame was taken.
    pub open spec fn tables_made(
        before: TableMemory,
        after: TableMemory,
        had_free: Set<int>,
        has_free: Set<int>,
        page: Page,
        lowest: int,
    ) -> bool {
        let t3 = after.p3_table(page)->Some_0;
        let t2 = after.p2_table(page)->Some_0;
        let t1 = after.p1_table(page)->Some_0;
        &&& after.p3_table(page) is Some
        &&& lowest <= 2 ==> after.p2_table(page) is Some
        &&& lowest <= 1 ==> after.p1_table(page) is Some
        &&& after@ == Self::tables_upto(before, page, t3, t2, t1, lowest)
        &&& has_free =~= Self::frames_upto(before, page, had_free, t3, t2, t1, lowest)
        &&& Self::fresh_upto(before, page, had_free, t3, t2, t1, lowest)
    }

    /// The level 3 table for `page`, made if it is missing.
    fn p3_create<A: FrameAllocator>(&mut self, page: Page, allocator: &mut A) -> (result: Result<
        Table<Level3>,
        MapError,
    >)
        requires
            old(self).wf(),
            old(allocator).wf(),
            !old(self).memory.entry_at(old(self).memory.root(), p4_index_of(page@)).huge(),
        ensures
            final(self).wf(),
            Self::tables_grown(
                old(self).memory,
                final(self).memory,
                *old(allocator),
                *final(allocator),
                1,
            ),
            old(self).memory.p3_table(page) is Some ==> result is Ok && *final(allocator)
                == *old(allocator),
            Self::frames_left(*old(allocator), old(self).memory, 1) ==> result is Ok,
            result matches Ok(table) ==> {
                &&& table.valid_in(&final(self).memory)
                &&& final(self).memory.p3_table(page) == Some(table.address())
                &&& Self::tables_made(
                    old(self).memory,
                    final(self).memory,
                    old(allocator).free_frames(),
                    final(allocator).free_frames(),
                    page,
                    3,
                )
            },
            result matches Err(e) ==> {
                &&& final(self).memory@ == old(self).memory@
                &&& old(self).memory.p3_table(page) is None
                &&& Self::allocation_failed(
                    e,
                    *old(allocator),
                    *final(allocator),
                    final(self).memory,
                )
            },
    {
        let result = self.mapper.p4().next_table_create(
            &mut self.memory,
            page.p4_index(),
            allocator,
        );
        proof {
            match result {
                Err(e) => {
                    Self::lemma_allocation_failed(
                        e,
                        *old(allocator),
                        *old(allocator),
                        *allocator,
                        old(self).memory,
                        self.memory,
                    );
                },
                Ok(ref table) => {
                    let t = table.address();
                    assert(self.memory.p3_table(page) == Some(t));
                    if old(self).memory.p3_table(page) is None {
                        assert(t as int / 4096 == old(allocator).next_frame()->Some_0.number);
                        assert(allocator.free_frames() =~= old(allocator).free_frames().remove(
                            t as int / 4096,
                        ));
                        assert(self.memory@ == with_table(
                            old(self).memory@,
                            old(self).memory.root(),
                            p4_index_of(page@),
                            t,
                        ));
                    }
                    assert(Self::fresh_upto(
                        old(self).memory,
                        page,
                        old(allocator).free_frames(),
                        t,
                        self.memory.p2_table(page)->Some_0,
                        self.memory.p1_table(page)->Some_0,
                        3,
                    ));
                },
            }
        }
        result
    }

    /// The level 2 table for `page`, made if it is missing, as the level 3
    /// table above it.
    fn p2_create<A: FrameAllocator>(&mut self, page: Page, allocator: &mut A) -> (result: Result<
        Table<Level2>,
        MapError,
    >)
        requires
            old(self).wf(),
            old(allocator).wf(),
            !old(self).memory.entry_at(old(self).memory.root(), p4_index_of(page@)).huge(),
            old(self).memory.p3_table(page) matches Some(t3) ==> !old(self).memory.entry_at(
                t3,
                p3_index_of(page@),
            ).huge(),
        ensures
            final(self).wf(),
            Self::tables_grown(
                old(self).memory,
                final(self).memory,
                *old(allocator),
                *final(allocator),
                2,
            ),
            old(self).memory.p2_table(page) is Some ==> result is Ok && *final(allocator)
                == *old(allocator),
            Self::frames_left(*old(allocator), old(self).memory, 2) ==> result is Ok,
            result matches Ok(table) ==> {
                &&& table.valid_in(&final(self).memory)
                &&& final(self).memory.p2_table(page) == Some(table.address())
                &&& Self::tables_made(
                    old(self).memory,
                    final(self).memory,
                    old(allocator).free_frames(),
                    final(allocator).free_frames(),
                    page,
                    2,
                )
            },
            result matches Err(e) ==> {
                &&& old(self).memory.p2_table(page) is None
                &&& Self::allocation_failed(
                    e,
                    *old(allocator),
                    *final(allocator),
                    final(self).memory,
                )
            },
    {
        let ghost start = self.memory;
        let ghost i4 = p4_index_of(page@);
        let ghost i3 = p3_index_of(page@);
        proof {
            start.lemma_path(page);
        }
        let p3 = match self.p3_create(page, allocator) {
            Ok(table) => table,
            Err(e) => {
                return Err(e);
            },
        };
        let ghost middle = self.memory;
        let ghost had = *allocator;
        proof {
            middle.lemma_path(page);
            if start.p3_table(page) is None {
                Entry::lemma_of_view(0);
                assert(middle.entry_at(p3.address(), i3) == Entry::of(0));
                Entry::lemma_unused(middle.entry_at(p3.address(), i3));
            }
        }
        let result = p3.next_table_create(&mut self.memory, page.p3_index(), allocator);
        proof {
            let done = self.memory;
            assert(done.entry_at(done.root(), i4) == middle.entry_at(middle.root(), i4));
            assert(done.p3_table(page) == Some(p3.address()));
            assert forall|other: Page| #[trigger] done.lookup(other) == start.lookup(other) by {
                assert(middle.lookup(other) == start.lookup(other));
            }
            assert forall|other: Page| #[trigger]
                done.huge_on_path(other) == start.huge_on_path(other) by {
                assert(middle.huge_on_path(other) == start.huge_on_path(other));
            }
            if let Err(e) = result {
                Self::lemma_allocation_failed(e, *old(allocator), had, *allocator, middle, done);
            }
        }
        result
    }

    /// The level 1 table for `page`, made if it is missing, as the tables
    /// above it.
    fn p1_create<A: FrameAllocator>(&mut self, page: Page, allocator: &mut A) -> (result: Result<
        Table<Level1>,
        MapError,
    >)
        requires
            old(self).wf(),
            old(allocator).wf(),
            !old(self).memory.huge_on_path(page),
        ensures
            final(self).wf(),
            Self::tables_grown(
                old(self).memory,
                final(self).memory,
                *old(allocator),
                *final(allocator),
                3,
            ),
            old(self).memory.p1_table(page) is Some ==> result is Ok && *final(allocator)
                == *old(allocator),
            Self::frames_left(*old(allocator), old(self).memory, 3) ==> result is Ok,
            result matches Ok(table) ==> {
                &&& table.valid_in(&final(self).memory)
                &&& final(self).memory.p1_table(page) == Some(table.address())
                &&& Self::tables_made(
                    old(self).memory,
                    final(self).memory,
                    old(allocator).free_frames(),
                    final(allocator).free_frames(),
                    page,
                    1,
                )
            },
            result matches Err(e) ==> {
                &&& old(self).memory.p1_table(page) is None
                &&& Self::allocation_failed(
                    e,
                    *old(allocator),
                    *final(allocator),
                    final(self).memory,
                )
            },
    {
        let ghost start = self.memory;
        let ghost i4 = p4_index_of(page@);
        let ghost i3 = p3_index_of(page@);
        let ghost i2 = p2_index_of(page@);
        proof {
            start.lemma_path(page);
        }
        let p2 = match self.p2_create(page, allocator) {
            Ok(table) => table,
            Err(e) => {
                return Err(e);
            },
        };
        let ghost middle = self.memory;
        let ghost had = *allocator;
        proof {
            middle.lemma_path(page);
            if start.p2_table(page) is None {
                Entry::lemma_of_view(0);
                assert(middle.entry_at(p2.address(), i2) == Entry::of(0));
                Entry::lemma_unused(middle.entry_at(p2.address(), i2));
            }
        }
        let result = p2.next_table_create(&mut self.memory, page.p2_index(), allocator);
        proof {
            let done = self.memory;
            let t3 = middle.p3_table(page)->Some_0;
            assert(done.entry_at(done.root(), i4) == middle.entry_at(middle.root(), i4));
            assert(done.entry_at(t3, i3) == middle.entry_at(t3, i3));
            assert(done.p2_table(page) == Some(p2.address()));
            assert forall|other: Page| #[trigger] done.lookup(other) == start.lookup(other) by {
                assert(middle.lookup(other) == start.lookup(other));
            }
            assert forall|other: Page| #[trigger]
                done.huge_on_path(other) == start.huge_on_path(other) by {
                assert(middle.huge_on_path(other) == start.huge_on_path(other));
            }
            if let Err(e) = result {
                Self::lemma_allocation_failed(e, *old(allocator), had, *allocator, middle, done);
            }
        }
        result
    }

    /// `page` can be mapped: it is not mapped, and no entry on the way to
    /// it maps a huge page.
    pub open spec fn mappable(&self, page: Page) -> bool {
        !self@.contains_key(page) && !self.memory().huge_on_path(page)
    }

    /// `page` is mapped by an entry of a level 1 table, so that it can be
    /// unmapped.
    pub open spec fn mapped_by_entry(&self, page: Page) -> bool {
        self@.contains_key(page) && !self.memory().huge_on_path(page)
    }

    /// An entry on the way to `page` maps a huge page.
    pub fn in_huge_page(&self, page: Page) -> (huge: bool)
        requires
            self.wf(),
        ensures
            huge == self.memory().huge_on_path(page),
    {
        let p4 = self.mapper.p4();
        if p4.entry(&self.memory, page.p4_index()).is_huge() {
            return true;
        }
        let p3 = match p4.next_table(&self.memory, page.p4_index()) {
            Some(table) => table,
            None => {
                return false;
            },
        };
        if p3.entry(&self.memory, page.p3_index()).is_huge() {
            return true;
        }
        let p2 = match p3.next_table(&self.memory, page.p3_index()) {
            Some(table) => table,
            None => {
                return false;
            },
        };
        p2.entry(&self.memory, page.p2_index()).is_huge()
    }

    /// Tests `mappable`.
    pub fn is_mappable(&self, page: Page) -> (mappable: bool)
        requires
            self.wf(),
        ensures
            mappable == self.mappable(page),
    {
        self.translate_page(page).is_none() && !self.in_huge_page(page)
    }

    /// Tests `mapped_by_entry`.
    pub fn is_mapped_by_entry(&self, page: Page) -> (mapped: bool)
        requires
            self.wf(),
        ensures
            mapped == self.mapped_by_entry(page),
    {
        self.translate_page(page).is_some() && !self.in_huge_page(page)
    }

    /// The tables `tables` with the entry `index` of the table at `address`
    /// replaced by `entry`.
    pub open spec fn with_entry(
        tables: Map<PhysicalAddress, Seq<Entry>>,
        address: PhysicalAddress,
        index: int,
        entry: Entry,
    ) -> Map<PhysicalAddress, Seq<Entry>> {
        tables.insert(address, tables[address].update(index, entry))
    }

    /// What mapping `page` to `frame` does to the tables, given the set
    /// `had_free` of the frames that the allocator could hand out before
    /// and the set `has_free` of those that it can hand out after.
    ///
    /// Where it succeeds, the tables that were missing on the way to the
    /// page are there, each in a frame of its own that was free, made from
    /// the top down: first the level 3 table, then the level 2 table, then
    /// the level 1 table. No other frame is taken. The page's entry in the
    /// level 1 table holds the frame's address, the flags and `PRESENT`,
    /// and nothing else. Where it fails, no translation changes, and a
    /// table was missing.
    pub open spec fn page_mapped(
        before: ActivePageTable,
        after: ActivePageTable,
        had_free: Set<int>,
        has_free: Set<int>,
        page: Page,
        frame: Frame,
        flags: EntryFlags,
        result: Result<(), MapError>,
    ) -> bool {
        let t3 = after.memory().p3_table(page)->Some_0;
        let t2 = after.memory().p2_table(page)->Some_0;
        let t1 = after.memory().p1_table(page)->Some_0;
        &&& after.wf()
        &&& after.memory().extends(&before.memory())
        &&& has_free.subset_of(had_free)
        &&& forall|other: Page| #[trigger]
            after.memory().huge_on_path(other) == before.memory().huge_on_path(other)
        &&& before.memory().p1_table(page) is Some ==> result is Ok
        &&& result is Ok ==> {
            &&& after@ == before@.insert(page, mapping(frame, flags))
            &&& after.memory().p3_table(page) is Some
            &&& after.memory().p2_table(page) is Some
            &&& after.memory().p1_table(page) is Some
            &&& after.memory()@ == Self::with_entry(
                Self::tables_upto(before.memory(), page, t3, t2, t1, 1),
                t1,
                p1_index_of(page@),
                Entry::of(Entry::encode(frame.number, flags@ | PRESENT)),
            )
            &&& after.memory().entry_at(t1, p1_index_of(page@))@ == Entry::encode(
                frame.number,
                flags@ | PRESENT,
            )
            &&& has_free =~= Self::frames_upto(before.memory(), page, had_free, t3, t2, t1, 1)
            &&& Self::fresh_upto(before.memory(), page, had_free, t3, t2, t1, 1)
        }
        &&& result matches Err(e) ==> {
            &&& after@ == before@
            &&& before.memory().p1_table(page) is None
            &&& e == MapError::OutOfFrames || e == MapError::FrameOutOfRange || e
                == MapError::TableFrameInUse
        }
    }

    /// What `map_to` does: the states before and after it, and its result.
    ///
    /// The tables change as `page_mapped` says. The outcome lies with the
    /// allocator alone: the page is mapped for certain where no table is
    /// missing, and then the allocator is left as it was, and where the
    /// allocator has three frames left that are fit for tables.
    pub open spec fn maps_page<A: FrameAllocator>(
        before: ActivePageTable,
        after: ActivePageTable,
        had: A,
        has: A,
        page: Page,
        frame: Frame,
        flags: EntryFlags,
        result: Result<(), MapError>,
    ) -> bool {
        &&& has.wf()
        &&& Self::page_mapped(
            before,
            after,
            had.free_frames(),
            has.free_frames(),
            page,
            frame,
            flags,
            result,
        )
        &&& Self::frames_kept(before.memory(), after.memory(), had, has, 3)
        &&& before.memory().p1_table(page) is Some ==> has == had
        &&& Self::frames_left(had, before.memory(), 3) ==> result is Ok
        &&& result matches Err(e) ==> Self::allocation_failed(e, had, has, after.memory())
    }

    /// Maps `page` to `frame` with the flags `flags` and `PRESENT`. Tables
    /// that are missing on the way are made in frames of `allocator`.
    ///
    /// The page must not be mapped, no entry on the way to it may map a
    /// huge page, and the frame's address must fit into an entry.
    pub fn map_to<A: FrameAllocator>(
        &mut self,
        page: Page,
        frame: Frame,
        flags: EntryFlags,
        allocator: &mut A,
    ) -> (result: Result<(), MapError>)
        requires
            old(self).wf(),
            old(allocator).wf(),
            old(self).mappable(page),
            frame.number < FRAME_LIMIT,
        ensures
            Self::maps_page(
                *old(self),
                *final(self),
                *old(allocator),
                *final(allocator),
                page,
                frame,
                flags,
                result,
            ),
    {
        let _ = page.number();
        let p1 = match self.p1_create(page, allocator) {
            Ok(table) => table,
            Err(e) => {
                proof {
                    assert(self@ =~= old(self)@);
                }
                return Err(e);
            },
        };
        let ghost with_p1 = self.memory;
        proof {
            with_p1.lemma_path(page);
            with_p1.lemma_lookup_leaf(page);
            assert(with_p1.entry_ok(p1.address(), p1_index_of(page@)));
            assert(self@ =~= old(self)@);
            assert(with_p1.lookup(page) == old(self).memory.lookup(page));
        }
        if !p1.entry(&self.memory, page.p1_index()).is_unused() {
            unreached()
        }
        let given = flags.bits();
        let with_present = flags.union(EntryFlags::from_bits_truncate(PRESENT));
        let mut entry = Entry::unused();
        entry.set(frame, with_present);
        proof {
            let bits = flags@ | (PRESENT & ALL_FLAGS);
            let plain = flags@;
            assert(plain == given);
            assert(bits == plain | PRESENT && bits & !ALL_FLAGS == 0 && bits & PRESENT != 0)
                by (bit_vector)
                requires
                    bits == plain | (PRESENT & ALL_FLAGS),
                    plain & !ALL_FLAGS == 0,
            ;
            Entry::lemma_encode(frame.number, bits);
            EntryFlags::lemma_of_view(bits);
            Entry::lemma_of_view(entry@);
            Entry::lemma_view_injective(entry, Entry::of(entry@));
            assert(translation_of(entry, 0) == mapping(frame, flags));
        }
        p1.set_entry(&mut self.memory, page.p1_index(), entry);
        proof {
            assert forall|other: Page|
                canonical_number(other@) && with_p1.p1_table(other) == Some(p1.address())
                    && p1_index_of(other@) == p1_index_of(page@) implies other == page by {
                with_p1.lemma_leaf_of_one_page(page, other);
            }
            assert(self@ =~= old(self)@.insert(page, mapping(frame, flags)));
            self.memory.lemma_path(page);
            assert(self.memory.p3_table(page) == with_p1.p3_table(page));
            assert(self.memory.p2_table(page) == with_p1.p2_table(page));
        }
        Ok(())
    }

    /// Maps `page` to the frame that `allocator` hands out next, with the
    /// flags `flags` and `PRESENT`. The frame is taken first; it stays
    /// taken if a table is missing and cannot be made.
    ///
    /// The page must not be mapped, and no entry on the way to it may map
    /// a huge page.
    pub fn map<A: FrameAllocator>(&mut self, page: Page, flags: EntryFlags, allocator: &mut A)
        -> (result: Result<(), MapError>)
        requires
            old(self).wf(),
            old(allocator).wf(),
            old(self).mappable(page),
        ensures
            final(self).wf(),
            final(allocator).wf(),
            Self::frames_kept(
                old(self).memory(),
                final(self).memory(),
                *old(allocator),
                *final(allocator),
                4,
            ),
            old(allocator).next_frame() is Some <==> !(old(allocator).free_frames()
                =~= Set::<int>::empty()),
            match old(allocator).next_frame() {
                None => {
                    &&& result == Err::<(), MapError>(MapError::OutOfFrames)
                    &&& *final(self) == *old(self)
                    &&& final(allocator).free_frames() =~= old(allocator).free_frames()
                },
                Some(f) => if f.number >= FRAME_LIMIT {
                    &&& result == Err::<(), MapError>(MapError::FrameOutOfRange)
                    &&& *final(self) == *old(self)
                    &&& final(allocator).free_frames() =~= old(allocator).free_frames().remove(
                        f.number as int,
                    )
                } else {
                    &&& old(allocator).free_frames().contains(f.number as int)
                    &&& Self::page_mapped(
                        *old(self),
                        *final(self),
                        old(allocator).free_frames().remove(f.number as int),
                        final(allocator).free_frames(),
                        page,
                        f,
                        flags,
                        result,
                    )
                },
            },
            Self::frames_left(*old(allocator), old(self).memory(), 4) ==> result is Ok,
    {
        let frame = match allocator.allocate_frame() {
            Some(frame) => frame,
            None => {
                return Err(MapError::OutOfFrames);
            },
        };
        if frame.number >= FRAME_LIMIT {
            return Err(MapError::FrameOutOfRange);
        }
        self.map_to(page, frame, flags, allocator)
    }

    /// Maps the page that starts at the address of `frame` to `frame`.
    ///
    /// The frame's address must fit into an entry and be the address of a
    /// page, which must not be mapped; no entry on the way to it may map a
    /// huge page.
    pub fn identity_map<A: FrameAllocator>(
        &mut self,
        frame: Frame,
        flags: EntryFlags,
        allocator: &mut A,
    ) -> (result: Result<(), MapError>)
        requires
            old(self).wf(),
            old(allocator).wf(),
            frame.number < FRAME_LIMIT,
            canonical_number(frame.number),
            old(self).mappable(Page::of(frame.number)),
        ensures
            Self::maps_page(
                *old(self),
                *final(self),
                *old(allocator),
                *final(allocator),
                Page::of(frame.number),
                frame,
                flags,
                result,
            ),
    {
        let address = frame.start_address();
        let page = Page::containing_address(address);
        proof {
            Page::lemma_of_view(frame.number);
            Page::lemma_view_injective(page, Page::of(frame.number));
        }
        self.map_to(page, frame, flags, allocator)
    }

    /// The level 1 table on the way to `page`, if the walk gets that far.
    fn p1_table(&self, page: Page) -> (table: Option<Table<Level1>>)
        requires
            self.wf(),
        ensures
            table is Some <==> self.memory.p1_table(page) is Some,
            table matches Some(t) ==> t.valid_in(&self.memory) && self.memory.p1_table(page)
                == Some(t.address()),
            table is None && self.memory.lookup(page) is Some ==> self.memory.huge_on_path(page),
    {
        let p3 = match self.mapper.p4().next_table(&self.memory, page.p4_index()) {
            Some(table) => table,
            None => {
                return None;
            },
        };
        let p2 = match p3.next_table(&self.memory, page.p3_index()) {
            Some(table) => table,
            None => {
                return None;
            },
        };
        p2.next_table(&self.memory, page.p2_index())
    }

    /// What `unmap` does: the states before and after it, and the frame
    /// that it returns. The page's entry in its level 1 table is all zero
    /// after, and nothing else has changed: the tables on the way to the
    /// page stay, and stay linked.
    pub open spec fn unmaps_page(
        before: ActivePageTable,
        after: ActivePageTable,
        page: Page,
        frame: Frame,
    ) -> bool {
        &&& after.wf()
        &&& after.memory().extends(&before.memory())
        &&& forall|other: Page| #[trigger]
            after.memory().huge_on_path(other) == before.memory().huge_on_path(other)
        &&& frame == before@[page].frame
        &&& after@ == before@.remove(page)
        &&& before.memory().p1_table(page) is Some
        &&& after.memory().p1_table(page) == before.memory().p1_table(page)
        &&& after.memory().entry_at(
            before.memory().p1_table(page)->Some_0,
            p1_index_of(page@),
        )@ == 0
        &&& after.memory()@ == Self::with_entry(
            before.memory()@,
            before.memory().p1_table(page)->Some_0,
            p1_index_of(page@),
            Entry::of(0),
        )
    }

    /// Unmaps `page` and returns the frame that it was mapped to. The
    /// tables on the way stay, and the frame is not given to `allocator`.
    ///
    /// The page must be mapped, by an entry of a level 1 table.
    pub fn unmap<A: FrameAllocator>(&mut self, page: Page, allocator: &mut A) -> (frame: Frame)
        requires
            old(self).wf(),
            old(self).mapped_by_entry(page),
        ensures
            Self::unmaps_page(*old(self), *final(self), page, frame),
            *final(allocator) == *old(allocator),
    {
        let _ = page.number();
        let p1 = match self.p1_table(page) {
            Some(table) => table,
            None => unreached(),
        };
        proof {
            self.memory.lemma_lookup_leaf(page);
        }
        let frame = match p1.entry(&self.memory, page.p1_index()).pointed_frame() {
            Some(frame) => frame,
            None => unreached(),
        };
        let ghost before = self.memory;
        let unused = Entry::unused();
        proof {
            Entry::lemma_of_view(0);
            Entry::lemma_view_injective(unused, Entry::of(0));
        }
        p1.set_entry(&mut self.memory, page.p1_index(), unused);
        proof {
            Entry::lemma_unused(Entry::of(0));
            assert forall|other: Page|
                canonical_number(other@) && before.p1_table(other) == Some(p1.address())
                    && p1_index_of(other@) == p1_index_of(page@) implies other == page by {
                before.lemma_leaf_of_one_page(page, other);
            }
            assert(self@ =~= old(self)@.remove(page));
        }
        frame
    }

    /// The entry that would map the huge page of size `size` at `page` is
    /// there, and in use.
    pub open spec fn huge_slot_in_use(&self, page: Page, size: HugePageSize) -> bool {
        match size {
            HugePageSize::Size2MiB => self.memory().p2_table(page) matches Some(t)
                && self.memory().entry_at(t, p2_index_of(page@))@ != 0,
            HugePageSize::Size1GiB => self.memory().p3_table(page) matches Some(t)
                && self.memory().entry_at(t, p3_index_of(page@))@ != 0,
        }
    }

    /// An entry above the one that would map the huge page maps a huge
    /// page itself.
    pub open spec fn huge_above(&self, page: Page, size: HugePageSize) -> bool {
        ||| self.memory().entry_at(self.memory().root(), p4_index_of(page@)).huge()
        ||| size == HugePageSize::Size2MiB && (self.memory().p3_table(page) matches Some(t)
            && self.memory().entry_at(t, p3_index_of(page@)).huge())
    }

    /// Tests `huge_above`.
    fn is_huge_above(&self, page: Page, size: HugePageSize) -> (huge: bool)
        requires
            self.wf(),
        ensures
            huge == self.huge_above(page, size),
    {
        let p4 = self.mapper.p4();
        if p4.entry(&self.memory, page.p4_index()).is_huge() {
            return true;
        }
        match size {
            HugePageSize::Size1GiB => false,
            HugePageSize::Size2MiB => {
                match p4.next_table(&self.memory, page.p4_index()) {
                    Some(p3) => p3.entry(&self.memory, page.p3_index()).is_huge(),
                    None => false,
                }
            },
        }
    }

    /// What `map_huge_to` does: the states before and after it, and its
    /// result. The checks come in the order of the clauses.
    pub open spec fn maps_huge_page<A: FrameAllocator>(
        before: ActivePageTable,
        after: ActivePageTable,
        had: A,
        has: A,
        page: Page,
        frame: Frame,
        size: HugePageSize,
        flags: EntryFlags,
        result: Result<(), MapError>,
    ) -> bool {
        let frame_fits = frame.number < FRAME_LIMIT;
        let frame_aligned = frame.number as int % size.pages() == 0;
        let page_aligned = offset_in_huge_page(page, size) == 0;
        &&& after.wf()
        &&& has.wf()
        &&& after.memory().extends(&before.memory())
        &&& Self::frames_kept(before.memory(), after.memory(), had, has, 2)
        &&& result is Ok ==> after@ == before@.union_prefer_right(
            huge_mapping(page, frame, flags, size),
        )
        &&& result is Err ==> after@ == before@
        &&& !frame_fits ==> result == Err::<(), MapError>(MapError::FrameOutOfRange)
        &&& frame_fits && !frame_aligned ==> result == Err::<(), MapError>(
            MapError::MisalignedFrame,
        )
        &&& frame_fits && frame_aligned && !page_aligned ==> result == Err::<(), MapError>(
            MapError::MisalignedPage,
        )
        &&& frame_fits && frame_aligned && page_aligned && before.huge_above(page, size)
            ==> result == Err::<(), MapError>(MapError::HugePage)
        &&& frame_fits && frame_aligned && page_aligned && before.huge_slot_in_use(page, size)
            ==> result == Err::<(), MapError>(MapError::PageAlreadyMapped)
        &&& frame_fits && frame_aligned && page_aligned && !before.huge_slot_in_use(page, size) && (
        match size {
            HugePageSize::Size2MiB => before.memory().p2_table(page) is Some,
            HugePageSize::Size1GiB => before.memory().p3_table(page) is Some,
        }) ==> result is Ok
        &&& frame_fits && frame_aligned && page_aligned && !before.huge_above(page, size)
            && !before.huge_slot_in_use(page, size) && Self::frames_left(had, before.memory(), 2)
            ==> result is Ok
        &&& result matches Err(e) ==> match e {
            MapError::FrameOutOfRange => !frame_fits || Self::allocation_failed(
                e,
                had,
                has,
                after.memory(),
            ),
            MapError::MisalignedFrame => !frame_aligned,
            MapError::MisalignedPage => !page_aligned,
            MapError::HugePage => before.huge_above(page, size),
            MapError::PageAlreadyMapped => before.huge_slot_in_use(page, size),
            MapError::OutOfFrames => Self::allocation_failed(e, had, has, after.memory()),
            MapError::TableFrameInUse => Self::allocation_failed(e, had, has, after.memory()),
            MapError::NonCanonicalAddress => false,
        }
    }

    /// Maps the huge page of size `size` that starts at `page` to the huge
    /// frame that starts at `frame`, with the flags `flags`, `PRESENT` and
    /// `HUGE_PAGE`. Both must start at a multiple of the size.
    pub fn map_huge_to<A: FrameAllocator>(
        &mut self,
        page: Page,
        frame: Frame,
        size: HugePageSize,
        flags: EntryFlags,
        allocator: &mut A,
    ) -> (result: Result<(), MapError>)
        requires
            old(self).wf(),
            old(allocator).wf(),
        ensures
            Self::maps_huge_page(
                *old(self),
                *final(self),
                *old(allocator),
                *final(allocator),
                page,
                frame,
                size,
                flags,
                result,
            ),
    {
        let _ = page.number();
        if frame.number >= FRAME_LIMIT {
            return Err(MapError::FrameOutOfRange);
        }
        let given = flags.bits();
        let all = flags.union(EntryFlags::from_bits_truncate(PRESENT | HUGE_PAGE));
        let mut entry = Entry::unused();
        entry.set(Frame { number: frame.number }, all);
        proof {
            let bits = flags@ | ((PRESENT | HUGE_PAGE) & ALL_FLAGS);
            let plain = flags@;
            assert(plain == given);
            assert(bits == plain | PRESENT | HUGE_PAGE && bits & !ALL_FLAGS == 0 && bits & PRESENT
                != 0 && bits & HUGE_PAGE != 0) by (bit_vector)
                requires
                    bits == plain | ((PRESENT | HUGE_PAGE) & ALL_FLAGS),
                    plain & !ALL_FLAGS == 0,
            ;
            Entry::lemma_encode(frame.number, bits);
            EntryFlags::lemma_of_view(bits);
            Entry::lemma_of_view(entry@);
            Entry::lemma_view_injective(entry, Entry::of(entry@));
            old(self).memory.lemma_path(page);
        }
        match size {
            HugePageSize::Size2MiB => {
                if frame.number % 512 != 0 {
                    return Err(MapError::MisalignedFrame);
                }
                if page.p1_index() != 0 {
                    return Err(MapError::MisalignedPage);
                }
                if self.is_huge_above(page, size) {
                    return Err(MapError::HugePage);
                }
                let p2 = match self.p2_create(page, allocator) {
                    Ok(table) => table,
                    Err(e) => {
                        assert(self@ =~= old(self)@);
                        return Err(e);
                    },
                };
                let ghost middle = self.memory;
                proof {
                    middle.lemma_path(page);
                    assert(self@ =~= old(self)@);
                    if old(self).memory.p2_table(page) is None {
                        Entry::lemma_of_view(0);
                        assert(middle.entry_at(p2.address(), p2_index_of(page@)) == Entry::of(0));
                    }
                }
                if !p2.entry(&self.memory, page.p2_index()).is_unused() {
                    return Err(MapError::PageAlreadyMapped);
                }
                p2.set_huge_entry(&mut self.memory, page.p2_index(), entry);
                proof {
                    assert forall|other: Page| canonical_number(other@) implies (middle.p2_table(
                        other,
                    ) == Some(p2.address()) && p2_index_of(other@) == p2_index_of(page@))
                        == in_huge_page(other, page, size) by {
                        middle.lemma_path(other);
                    }
                    assert(self@ =~= old(self)@.union_prefer_right(
                        huge_mapping(page, frame, flags, size),
                    ));
                }
                Ok(())
            },
            HugePageSize::Size1GiB => {
                if frame.number % 262144 != 0 {
                    return Err(MapError::MisalignedFrame);
                }
                if page.p1_index() != 0 || page.p2_index() != 0 {
                    return Err(MapError::MisalignedPage);
                }
                if self.is_huge_above(page, size) {
                    return Err(MapError::HugePage);
                }
                let p3 = match self.p3_create(page, allocator) {
                    Ok(table) => table,
                    Err(e) => {
                        assert(self@ =~= old(self)@);
                        return Err(e);
                    },
                };
                let ghost middle = self.memory;
                proof {
                    middle.lemma_path(page);
                    assert(self@ =~= old(self)@);
                    if old(self).memory.p3_table(page) is None {
                        Entry::lemma_of_view(0);
                        assert(middle.entry_at(p3.address(), p3_index_of(page@)) == Entry::of(0));
                    }
                }
                if !p3.entry(&self.memory, page.p3_index()).is_unused() {
                    return Err(MapError::PageAlreadyMapped);
                }
                p3.set_huge_entry(&mut self.memory, page.p3_index(), entry);
                proof {
                    assert forall|other: Page| canonical_number(other@) implies (middle.p3_table(
                        other,
                    ) == Some(p3.address()) && p3_index_of(other@) == p3_index_of(page@))
                        == in_huge_page(other, page, size) by {
                        middle.lemma_path(other);
                    }
                    assert(self@ =~= old(self)@.union_prefer_right(
                        huge_mapping(page, frame, flags, size),
                    ));
                }
                Ok(())
            },
        }
    }
}

/// Page tables that are not in use: all that is known of them is the frame
/// of their level 4 table.
pub struct InactivePageTable {
    p4_frame: Frame,
}

impl InactivePageTable {
    /// The frame of the level 4 table.
    pub closed spec fn p4_frame(&self) -> Frame {
        self.p4_frame
    }

    /// Page tables whose level 4 table lies in `frame`.
    pub fn new(frame: Frame) -> (table: InactivePageTable)
        ensures
            table.p4_frame() == frame,
    {
        InactivePageTable { p4_frame: frame }
    }
}

} // verus!
