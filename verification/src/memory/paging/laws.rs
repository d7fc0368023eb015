//! What holds of the mapping operations taken together.

use vstd::prelude::*;
use crate::memory::{Frame, FrameAllocator, PAGE_SIZE};
use crate::memory::paging::{ActivePageTable, HugePageSize};
use crate::memory::paging::entry::{Entry, EntryFlags, PRESENT};
use crate::memory::paging::page::{
    canonical_number, p1_index_of, p2_index_of, p3_index_of, p4_index_of, Page,
    VirtualAddress,
};
use crate::memory::paging::table::{MapError, Translation};

verus! {

/// Round trip: once the page of `address` is mapped to `frame`, `address`
/// is translated to the byte of `frame` that lies as far behind the
/// frame's start as `address` lies behind the page's start.
pub proof fn mapped_address_translates<A: FrameAllocator>(
    before: ActivePageTable,
    after: ActivePageTable,
    had: A,
    has: A,
    address: VirtualAddress,
    frame: Frame,
    flags: EntryFlags,
)
    requires
        ActivePageTable::maps_page(
            before,
            after,
            had,
            has,
            Page::of(address / PAGE_SIZE),
            frame,
            flags,
            Ok(()),
        ),
    ensures
        after.translated(address) == Some((frame.number * PAGE_SIZE + address % PAGE_SIZE) as u64),
{
}

/// In a page table that was just made, no address is translated.
pub proof fn nothing_is_mapped_at_first(table: ActivePageTable, address: VirtualAddress)
    requires
        table@ == Map::<Page, Translation>::empty(),
    ensures
        table.translated(address) is None,
{
}

/// Mapping a page, whether it succeeds or fails, changes the translation
/// of no address of another page.
pub proof fn mapping_leaves_other_pages<A: FrameAllocator>(
    before: ActivePageTable,
    after: ActivePageTable,
    had: A,
    has: A,
    page: Page,
    frame: Frame,
    flags: EntryFlags,
    result: Result<(), MapError>,
    address: VirtualAddress,
)
    requires
        ActivePageTable::maps_page(before, after, had, has, page, frame, flags, result),
        Page::of(address / PAGE_SIZE) != page,
    ensures
        after.translated(address) == before.translated(address),
{
}

/// Unmapping a page changes the translation of no address of another
/// page.
pub proof fn unmapping_leaves_other_pages(
    before: ActivePageTable,
    after: ActivePageTable,
    page: Page,
    frame: Frame,
    address: VirtualAddress,
)
    requires
        ActivePageTable::unmaps_page(before, after, page, frame),
        Page::of(address / PAGE_SIZE) != page,
    ensures
        after.translated(address) == before.translated(address),
{
}

/// A page that is mapped cannot be mapped: `map_to`, `map` and
/// `identity_map` do not take it, so that a mapping is never overwritten.
pub proof fn mapped_page_is_not_mapped_again(table: ActivePageTable, page: Page)
    requires
        table@.contains_key(page),
    ensures
        !table.mappable(page),
{
}

/// After a page was mapped, it cannot be mapped again until it is
/// unmapped: it is mapped, which `map_to` does not admit, and it is mapped
/// by an entry, which is what `unmap` asks for.
pub proof fn mapping_twice_fails<A: FrameAllocator>(
    before: ActivePageTable,
    after: ActivePageTable,
    had: A,
    has: A,
    page: Page,
    frame: Frame,
    flags: EntryFlags,
)
    requires
        before.mappable(page),
        ActivePageTable::maps_page(before, after, had, has, page, frame, flags, Ok(())),
    ensures
        !after.mappable(page),
        after.mapped_by_entry(page),
        after@[page].frame == frame,
{
}

/// Once a page is unmapped, none of its addresses is translated.
pub proof fn unmapped_address_is_not_translated(
    before: ActivePageTable,
    after: ActivePageTable,
    page: Page,
    frame: Frame,
    address: VirtualAddress,
)
    requires
        ActivePageTable::unmaps_page(before, after, page, frame),
        Page::of(address / PAGE_SIZE) == page,
    ensures
        after.translated(address) is None,
{
}

/// A page that was mapped by `map_to` can be unmapped; that gives back
/// the frame that it was mapped to and the translations as they were.
pub proof fn mapped_page_can_be_unmapped<A: FrameAllocator>(
    before: ActivePageTable,
    mapped: ActivePageTable,
    after: ActivePageTable,
    had: A,
    has: A,
    page: Page,
    frame: Frame,
    flags: EntryFlags,
    unmapped: Frame,
)
    requires
        before.mappable(page),
        ActivePageTable::maps_page(before, mapped, had, has, page, frame, flags, Ok(())),
        ActivePageTable::unmaps_page(mapped, after, page, unmapped),
    ensures
        mapped.mapped_by_entry(page),
        unmapped == frame,
        after@ == before@,
{
    assert(after@ =~= before@);
}

/// A page that was unmapped can be mapped again, and that takes no frame
/// from the allocator: the tables on the way to the page are still there.
pub proof fn unmapped_page_can_be_mapped_again<A: FrameAllocator>(
    before: ActivePageTable,
    unmapped: ActivePageTable,
    after: ActivePageTable,
    had: A,
    has: A,
    page: Page,
    old_frame: Frame,
    frame: Frame,
    flags: EntryFlags,
    result: Result<(), MapError>,
)
    requires
        before.wf(),
        before.mapped_by_entry(page),
        ActivePageTable::unmaps_page(before, unmapped, page, old_frame),
        ActivePageTable::maps_page(unmapped, after, had, has, page, frame, flags, result),
    ensures
        unmapped.mappable(page),
        unmapped.memory().p1_table(page) is Some,
        result is Ok,
        has == had,
        after@[page].frame == frame,
{
    before.lemma_wf();
    unmapped.lemma_wf();
    let old_memory = before.memory();
    let new_memory = unmapped.memory();
    old_memory.lemma_path(page);
    let t1 = old_memory.p1_table(page)->Some_0;
    let t3 = old_memory.p3_table(page)->Some_0;
    let t2 = old_memory.p2_table(page)->Some_0;
    assert(new_memory.entry_at(old_memory.root(), p4_index_of(page@)) == old_memory.entry_at(
        old_memory.root(),
        p4_index_of(page@),
    ));
    assert(new_memory.entry_at(t3, p3_index_of(page@)) == old_memory.entry_at(
        t3,
        p3_index_of(page@),
    ));
    assert(new_memory.entry_at(t2, p2_index_of(page@)) == old_memory.entry_at(
        t2,
        p2_index_of(page@),
    ));
}

/// Unmapping a page makes its entry in the level 1 table all zero and
/// leaves the tables on the way to it as they were: the entries of the
/// level 4, level 3 and level 2 tables still point to them.
pub proof fn unmapping_clears_the_entry_and_keeps_the_tables(
    before: ActivePageTable,
    after: ActivePageTable,
    page: Page,
    frame: Frame,
)
    requires
        before.wf(),
        before.mapped_by_entry(page),
        ActivePageTable::unmaps_page(before, after, page, frame),
    ensures
        after.memory().p3_table(page) == before.memory().p3_table(page),
        after.memory().p2_table(page) == before.memory().p2_table(page),
        after.memory().p1_table(page) == before.memory().p1_table(page),
        after.memory().p1_table(page) is Some,
        after.memory().entry_at(after.memory().p1_table(page)->Some_0, p1_index_of(page@))@ == 0,
        after.memory()@.dom() == before.memory()@.dom(),
{
    before.lemma_wf();
    after.lemma_wf();
    let old_memory = before.memory();
    let new_memory = after.memory();
    old_memory.lemma_path(page);
    let t3 = old_memory.p3_table(page)->Some_0;
    let t2 = old_memory.p2_table(page)->Some_0;
    let t1 = old_memory.p1_table(page)->Some_0;
    assert(new_memory.entry_at(old_memory.root(), p4_index_of(page@)) == old_memory.entry_at(
        old_memory.root(),
        p4_index_of(page@),
    ));
    assert(new_memory.entry_at(t3, p3_index_of(page@)) == old_memory.entry_at(
        t3,
        p3_index_of(page@),
    ));
    assert(new_memory.entry_at(t2, p2_index_of(page@)) == old_memory.entry_at(
        t2,
        p2_index_of(page@),
    ));
    Entry::lemma_of_view(0);
    assert(new_memory.entry_at(t1, p1_index_of(page@)) == Entry::of(0));
    assert(new_memory@.dom() =~= old_memory@.dom());
}

/// Mapping a page writes the frame's address, the flags and `PRESENT`,
/// and nothing else, into the page's entry of the level 1 table.
pub proof fn mapping_writes_the_entry<A: FrameAllocator>(
    before: ActivePageTable,
    after: ActivePageTable,
    had: A,
    has: A,
    page: Page,
    frame: Frame,
    flags: EntryFlags,
)
    requires
        before.wf(),
        ActivePageTable::maps_page(before, after, had, has, page, frame, flags, Ok(())),
    ensures
        after.memory().p1_table(page) is Some,
        after.memory().entry_at(after.memory().p1_table(page)->Some_0, p1_index_of(page@))@
            == Entry::encode(frame.number, flags@ | PRESENT),
{
    after.lemma_wf();
    Entry::lemma_of_view(Entry::encode(frame.number, flags@ | PRESENT));
    let t3 = after.memory().p3_table(page)->Some_0;
    let t2 = after.memory().p2_table(page)->Some_0;
    let t1 = after.memory().p1_table(page)->Some_0;
    let i1 = p1_index_of(page@);
    let entry = Entry::of(Entry::encode(frame.number, flags@ | PRESENT));
    let tables = ActivePageTable::tables_upto(before.memory(), page, t3, t2, t1, 1);
    after.memory().lemma_path(page);
    before.lemma_wf();
    before.memory().lemma_path(page);
    assert(after.memory()@ == ActivePageTable::with_entry(tables, t1, i1, entry));
    assert(after.memory()@[t1] == tables[t1].update(i1, entry));
    assert(after.memory()@[t1].len() == 512);
    assert(tables[t1].len() == 512);
    assert(after.memory().entry_at(t1, i1) == entry);
}

/// The frame of every huge page starts at a multiple of the page's size:
/// where the entry that a walk ends at maps a huge page, the number of its
/// frame is divisible by 512 in a level 2 table and by 512 * 512 in a
/// level 3 table, and the page is translated to the frame that lies as far
/// behind it as the page lies behind the start of the huge page.
pub proof fn huge_frames_are_aligned(table: ActivePageTable, page: Page)
    requires
        table.wf(),
        canonical_number(page@),
    ensures
        table.memory().p3_table(page) is Some ==> {
            let entry = table.memory().entry_at(
                table.memory().p3_table(page)->Some_0,
                p3_index_of(page@),
            );
            entry.present() && entry.huge() ==> {
                &&& entry.frame_number() % 262144 == 0
                &&& table@.contains_key(page)
                &&& table@[page].frame.number == entry.frame_number() + p2_index_of(page@) * 512
                    + p1_index_of(page@)
            }
        },
        table.memory().p2_table(page) is Some ==> {
            let entry = table.memory().entry_at(
                table.memory().p2_table(page)->Some_0,
                p2_index_of(page@),
            );
            entry.present() && entry.huge() ==> {
                &&& entry.frame_number() % 512 == 0
                &&& table@.contains_key(page)
                &&& table@[page].frame.number == entry.frame_number() + p1_index_of(page@)
            }
        },
{
    table.lemma_wf();
    table.lemma_view();
    let memory = table.memory();
    memory.lemma_path(page);
    if let Some(t3) = memory.p3_table(page) {
        assert(memory.entry_ok(t3, p3_index_of(page@)));
        if let Some(t2) = memory.p2_table(page) {
            assert(memory.entry_ok(t2, p2_index_of(page@)));
        }
    }
}

/// A huge frame that does not start at a multiple of its size is never
/// mapped.
pub proof fn misaligned_huge_frame_is_rejected<A: FrameAllocator>(
    before: ActivePageTable,
    after: ActivePageTable,
    had: A,
    has: A,
    page: Page,
    frame: Frame,
    size: HugePageSize,
    flags: EntryFlags,
    result: Result<(), MapError>,
)
    requires
        ActivePageTable::maps_huge_page(before, after, had, has, page, frame, size, flags, result),
        frame.number as int % size.pages() != 0,
    ensures
        result is Err,
        after@ == before@,
{
}

} // verus!
