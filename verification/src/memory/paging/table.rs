//! Page tables, kept in an arena and reached by their physical address.

use vstd::prelude::*;
use std::collections::HashMap;
use core::marker::PhantomData;
use crate::memory::{Frame, FrameAllocator};
use crate::memory::paging::entry::{
    Entry, EntryFlags, ALL_FLAGS, FRAME_LIMIT, HUGE_PAGE, PRESENT, WRITABLE,
};
use crate::memory::paging::page::{
    canonical_number, lemma_indices_determine_page, p1_index_of, p2_index_of, p3_index_of,
    p4_index_of, Page, PhysicalAddress, ENTRY_COUNT,
};

verus! {

broadcast use vstd::std_specs::hash::group_hash_axioms;

/// The level of a page table in the hierarchy.
pub trait TableLevel {
    /// 4 for the root table, 1 for the tables whose entries map pages.
    spec fn depth() -> int;

    /// There are four levels.
    proof fn lemma_depth()
        ensures
            1 <= Self::depth() <= 4,
    ;
}

/// The level of the root table.
pub enum Level4 {
    Level4,
}

/// The level of the tables that level 4 entries point to.
pub enum Level3 {
    Level3,
}

/// The level of the tables that level 3 entries point to.
pub enum Level2 {
    Level2,
}

/// The level of the tables whose entries map pages.
pub enum Level1 {
    Level1,
}

impl TableLevel for Level4 {
    open spec fn depth() -> int {
        4
    }

    proof fn lemma_depth() {
    }
}

impl TableLevel for Level3 {
    open spec fn depth() -> int {
        3
    }

    proof fn lemma_depth() {
    }
}

impl TableLevel for Level2 {
    open spec fn depth() -> int {
        2
    }

    proof fn lemma_depth() {
    }
}

impl TableLevel for Level1 {
    open spec fn depth() -> int {
        1
    }

    proof fn lemma_depth() {
    }
}

/// A level whose entries point to tables of a next level. Level 1 is none:
/// its entries point to the frames of pages.
pub trait HierarchicalLevel: TableLevel {
    type NextLevel: TableLevel;

    /// The next level is one below.
    proof fn lemma_next_level()
        ensures
            Self::NextLevel::depth() == Self::depth() - 1,
    ;
}

impl HierarchicalLevel for Level4 {
    type NextLevel = Level3;

    proof fn lemma_next_level() {
    }
}

impl HierarchicalLevel for Level3 {
    type NextLevel = Level2;

    proof fn lemma_next_level() {
    }
}

impl HierarchicalLevel for Level2 {
    type NextLevel = Level1;

    proof fn lemma_next_level() {
    }
}

/// Why a page could not be mapped.
#[derive(Debug, Clone, Copy, PartialEq, Eq, Structural)]
pub enum MapError {
    /// The allocator has no frame left for a new table.
    OutOfFrames,
    /// A frame's address does not fit into an entry.
    FrameOutOfRange,
    /// The allocator handed out a frame that already holds a table.
    TableFrameInUse,
    /// An entry on the way to the page maps a huge page.
    HugePage,
    /// The page is mapped already.
    PageAlreadyMapped,
    /// The page that starts at the frame's address is not canonical.
    NonCanonicalAddress,
    /// A huge frame does not start at a multiple of its size.
    MisalignedFrame,
    /// A huge page does not start at a multiple of its size.
    MisalignedPage,
}

/// What a page is translated to: a frame, and the flags of the entry that
/// maps the page.
pub struct Translation {
    pub frame: Frame,
    pub flags: EntryFlags,
}

/// What a present entry `entry` stands for when it maps a page that lies
/// `offset` frames into the entry's range.
pub open spec fn translation_of(entry: Entry, offset: int) -> Translation {
    Translation {
        frame: Frame { number: (entry.frame_number() + offset) as u64 },
        flags: entry.flag_set(),
    }
}

/// The arena that holds the page tables of one address space. Its view
/// maps the physical address of each table to the table's 512 entries.
pub struct TableMemory {
    tables: HashMap<PhysicalAddress, [Entry; 512]>,
    order: Vec<PhysicalAddress>,
    root: PhysicalAddress,
    depth: Ghost<Map<PhysicalAddress, int>>,
    parent: Ghost<Map<PhysicalAddress, (PhysicalAddress, int)>>,
}

impl View for TableMemory {
    type V = Map<PhysicalAddress, Seq<Entry>>;

    closed spec fn view(&self) -> Map<PhysicalAddress, Seq<Entry>> {
        Map::new(|a: PhysicalAddress| self.tables@.contains_key(a),
            |a: PhysicalAddress| self.tables@[a]@)
    }
}

impl TableMemory {
    /// Address of the level 4 table.
    pub closed spec fn root(&self) -> PhysicalAddress {
        self.root
    }

    /// The addresses of the tables, in the order in which the tables were
    /// made.
    pub closed spec fn addresses(&self) -> Seq<PhysicalAddress> {
        self.order@
    }

    /// Level of the table at `address`.
    pub closed spec fn depth_of(&self, address: PhysicalAddress) -> int {
        self.depth@[address]
    }

    /// The one entry that points to the table at `address`: the address of
    /// the table that holds it, and its index there.
    pub closed spec fn parent_of(&self, address: PhysicalAddress) -> (PhysicalAddress, int) {
        self.parent@[address]
    }

    /// The entry with index `index` of the table at `address`.
    pub open spec fn entry_at(&self, address: PhysicalAddress, index: int) -> Entry {
        self@[address][index]
    }

    /// The table that the entry `index` of the table at `address` points
    /// to, if it points to one.
    pub open spec fn next(&self, address: PhysicalAddress, index: int) -> Option<PhysicalAddress> {
        if self.entry_at(address, index).links() {
            Some(self.entry_at(address, index).address())
        } else {
            None
        }
    }

    /// The entry is unused or present; where it points to a table, that
    /// table is in the arena, one level down, and no other entry points to
    /// it; where it maps a huge page, the frame is aligned to the page's
    /// size.
    pub open spec fn entry_ok(&self, address: PhysicalAddress, index: int) -> bool {
        let e = self.entry_at(address, index);
        &&& e@ == 0 || e.present()
        &&& self.depth_of(address) >= 2 && e.links() ==> {
            &&& self@.contains_key(e.address())
            &&& self.depth_of(e.address()) == self.depth_of(address) - 1
            &&& self.parent_of(e.address()) == (address, index)
        }
        &&& self.depth_of(address) == 3 && e.present() && e.huge() ==> e.frame_number() % 262144
            == 0
        &&& self.depth_of(address) == 2 && e.present() && e.huge() ==> e.frame_number() % 512 == 0
    }

    /// The tables form a tree of four levels below the root.
    pub open spec fn wf(&self) -> bool {
        &&& self@.contains_key(self.root())
        &&& self.depth_of(self.root()) == 4
        &&& forall|a: PhysicalAddress| #[trigger]
            self@.contains_key(a) <==> self.addresses().contains(a)
        &&& forall|a: PhysicalAddress| #[trigger]
            self@.contains_key(a) ==> self@[a].len() == 512 && 1 <= self.depth_of(a) <= 4
        &&& forall|a: PhysicalAddress, i: int|
            self@.contains_key(a) && 0 <= i < 512 ==> #[trigger] self.entry_ok(a, i)
    }

    /// The translation of `page`: the walk from the root table down, which
    /// ends at a level 1 entry or at an entry that maps a huge page.
    pub open spec fn lookup(&self, page: Page) -> Option<Translation> {
        let i4 = p4_index_of(page@);
        let i3 = p3_index_of(page@);
        let i2 = p2_index_of(page@);
        let i1 = p1_index_of(page@);
        match self.next(self.root(), i4) {
            None => None,
            Some(t3) => {
                let e3 = self.entry_at(t3, i3);
                if e3.present() && e3.huge() {
                    Some(translation_of(e3, i2 * 512 + i1))
                } else {
                    match self.next(t3, i3) {
                        None => None,
                        Some(t2) => {
                            let e2 = self.entry_at(t2, i2);
                            if e2.present() && e2.huge() {
                                Some(translation_of(e2, i1))
                            } else {
                                match self.next(t2, i2) {
                                    None => None,
                                    Some(t1) => {
                                        let e1 = self.entry_at(t1, i1);
                                        if e1.present() {
                                            Some(translation_of(e1, 0))
                                        } else {
                                            None
                                        }
                                    },
                                }
                            }
                        },
                    }
                }
            },
        }
    }

    /// All the translations: the pages that are mapped, each with what it
    /// is translated to.
    pub open spec fn mappings(&self) -> Map<Page, Translation> {
        Map::new(
            |page: Page| canonical_number(page@) && self.lookup(page) is Some,
            |page: Page| self.lookup(page)->Some_0,
        )
    }

    /// An arena that holds an empty level 4 table in `root`.
    pub fn new(root: Frame) -> (memory: TableMemory)
        requires
            root.number < FRAME_LIMIT,
        ensures
            memory.wf(),
            memory.root() == root.number * 4096,
            memory@ =~= map![memory.root() => Seq::new(512, |i: int| Entry::of(0))],
            memory.mappings() =~= Map::<Page, Translation>::empty(),
            forall|page: Page| !#[trigger] memory.huge_on_path(page),
    {
        broadcast use Entry::lemma_of_view;

        let address = root.start_address();
        let mut tables: HashMap<PhysicalAddress, [Entry; 512]> = HashMap::new();
        let table = [Entry::unused();512];
        proof {
            assert forall|i: int| 0 <= i < 512 implies table@[i] == Entry::of(0) by {
                Entry::lemma_view_injective(table@[i], Entry::of(0));
            }
            assert(table@ =~= Seq::new(512, |i: int| Entry::of(0)));
        }
        tables.insert(address, table);
        let ghost depth = Map::<PhysicalAddress, int>::empty().insert(address, 4);
        let ghost parent = Map::<PhysicalAddress, (PhysicalAddress, int)>::empty();
        let mut order: Vec<PhysicalAddress> = Vec::new();
        order.push(address);
        let memory = TableMemory { tables, order, root: address, depth: Ghost(depth),
            parent: Ghost(parent) };
        proof {
            assert(memory.order@[0] == address);
            assert(memory@ =~= map![memory.root() => Seq::new(512, |i: int| Entry::of(0))]);
            assert(0u64 & PRESENT == 0) by (bit_vector);
            assert forall|a: PhysicalAddress, i: int|
                memory@.contains_key(a) && 0 <= i < 512 implies #[trigger] memory.entry_ok(
                a,
                i,
            ) by {
                assert(memory.entry_at(a, i)@ == 0);
            }
            assert(!memory.entry_at(memory.root(), 0).present());
            assert forall|page: Page|
                memory.lookup(page) is None && !#[trigger] memory.huge_on_path(page) by {
                assert(memory.entry_at(memory.root(), p4_index_of(page@))@ == 0);
                Entry::lemma_unused(memory.entry_at(memory.root(), p4_index_of(page@)));
            }
        }
        memory
    }

    /// The level 4 table.
    pub fn root_table(&self) -> (table: Table<Level4>)
        requires
            self.wf(),
        ensures
            table.valid_in(self),
            table.address() == self.root(),
    {
        Table { address: self.root, level: PhantomData }
    }

    /// The address of the level 4 table.
    pub fn root_address(&self) -> (address: PhysicalAddress)
        ensures
            address == self.root(),
    {
        self.root
    }

    /// The addresses of the tables, in the order in which the tables were
    /// made.
    pub fn table_addresses(&self) -> (addresses: &Vec<PhysicalAddress>)
        ensures
            addresses@ == self.addresses(),
    {
        &self.order
    }

    /// A table is kept at `address`.
    pub fn contains(&self, address: PhysicalAddress) -> (found: bool)
        ensures
            found == self@.contains_key(address),
    {
        self.tables.contains_key(&address)
    }

    /// Reads one entry.
    pub fn read(&self, address: PhysicalAddress, index: usize) -> (entry: Entry)
        requires
            self@.contains_key(address),
            index < ENTRY_COUNT,
        ensures
            entry == self.entry_at(address, index as int),
    {
        let table = self.tables.get(&address);
        match table {
            Some(entries) => entries[index],
            None => Entry::unused(),
        }
    }
}

/// The 512 entries of an empty table.
pub open spec fn empty_table() -> Seq<Entry> {
    Seq::new(512, |i: int| Entry::of(0))
}

impl TableMemory {
    /// `self` holds every table of `earlier`, at its level, under the same
    /// root.
    pub open spec fn extends(&self, earlier: &TableMemory) -> bool {
        &&& self.root() == earlier.root()
        &&& forall|a: PhysicalAddress| #[trigger]
            earlier@.contains_key(a) ==> self@.contains_key(a) && self.depth_of(a)
                == earlier.depth_of(a)
    }

    /// Replaces one entry.
    fn write(&mut self, address: PhysicalAddress, index: usize, entry: Entry)
        requires
            old(self)@.contains_key(address),
            index < ENTRY_COUNT,
        ensures
            final(self)@ == old(self)@.insert(
                address,
                old(self)@[address].update(index as int, entry),
            ),
            final(self).root == old(self).root,
            final(self).order@ == old(self).order@,
            final(self).depth == old(self).depth,
            final(self).parent == old(self).parent,
    {
        let table = self.tables.remove(&address);
        match table {
            Some(mut entries) => {
                entries[index] = entry;
                self.tables.insert(address, entries);
            },
            None => {},
        }
        assert(self@ =~= old(self)@.insert(
            address,
            old(self)@[address].update(index as int, entry),
        ));
    }

    /// Puts an empty table at `address`, below the entry `index` of the
    /// table at `above`.
    fn insert_empty(&mut self, address: PhysicalAddress, Ghost(above): Ghost<PhysicalAddress>,
        Ghost(index): Ghost<int>)
        requires
            !old(self)@.contains_key(address),
        ensures
            final(self)@ == old(self)@.insert(address, empty_table()),
            final(self).root == old(self).root,
            final(self).order@ == old(self).order@.push(address),
            final(self).depth@ == old(self).depth@.insert(address, old(self).depth@[above] - 1),
            final(self).parent@ == old(self).parent@.insert(address, (above, index)),
    {
        let table = [Entry::unused();512];
        proof {
            assert forall|i: int| 0 <= i < 512 implies table@[i] == Entry::of(0) by {
                Entry::lemma_of_view(0);
                Entry::lemma_view_injective(table@[i], Entry::of(0));
            }
            assert(table@ =~= empty_table());
        }
        self.tables.insert(address, table);
        self.order.push(address);
        self.depth = Ghost(self.depth@.insert(address, self.depth@[above] - 1));
        self.parent = Ghost(self.parent@.insert(address, (above, index)));
        assert(self@ =~= old(self)@.insert(address, empty_table()));
    }

    /// A new empty table below an entry that was unused changes no
    /// translation.
    proof fn lemma_create(
        before: &TableMemory,
        after: &TableMemory,
        a: PhysicalAddress,
        i: int,
        x: PhysicalAddress,
        e: Entry,
    )
        requires
            before.wf(),
            before@.contains_key(a),
            0 <= i < 512,
            before.depth_of(a) >= 2,
            before.entry_at(a, i)@ == 0,
            !before@.contains_key(x),
            e.links(),
            e.address() == x,
            after@ == before@.insert(a, before@[a].update(i, e)).insert(x, empty_table()),
            after.root == before.root,
            after.order@ == before.order@.push(x),
            after.depth@ == before.depth@.insert(x, before.depth@[a] - 1),
            after.parent@ == before.parent@.insert(x, (a, i)),
        ensures
            after.wf(),
            after.extends(before),
            forall|page: Page| after.lookup(page) == before.lookup(page),
            forall|page: Page| after.huge_on_path(page) == before.huge_on_path(page),
    {
        broadcast use Entry::lemma_of_view;

        Entry::lemma_unused(Entry::of(0));
        Entry::lemma_unused(before.entry_at(a, i));
        assert forall|b: PhysicalAddress| #[trigger]
            after@.contains_key(b) <==> after.addresses().contains(b) by {
            if before.addresses().contains(b) {
                let k = choose|k: int| 0 <= k < before.order@.len() && before.order@[k] == b;
                assert(after.order@[k] == b);
            }
            if b == x {
                assert(after.order@[before.order@.len() as int] == b);
            }
            if after.addresses().contains(b) {
                let k = choose|k: int| 0 <= k < after.order@.len() && after.order@[k] == b;
                if k < before.order@.len() {
                    assert(before.order@[k] == b);
                }
            }
        }
        assert forall|b: PhysicalAddress, j: int|
            after@.contains_key(b) && 0 <= j < 512 implies #[trigger] after.entry_ok(b, j) by {
            if b == x {
                assert(after.entry_at(b, j) == Entry::of(0));
            } else {
                assert(before.entry_ok(b, j));
                if b == a && j == i {
                } else {
                    assert(after.entry_at(b, j) == before.entry_at(b, j));
                }
            }
        }
        assert forall|page: Page|
            after.lookup(page) == before.lookup(page) && after.huge_on_path(page)
                == before.huge_on_path(page) by {
            let i4 = p4_index_of(page@);
            let i3 = p3_index_of(page@);
            let i2 = p2_index_of(page@);
            let i1 = p1_index_of(page@);
            let root = before.root();
            assert(before.entry_ok(root, i4));
            assert(after.entry_at(x, i3) == Entry::of(0));
            assert(after.entry_at(x, i2) == Entry::of(0));
            assert(after.entry_at(x, i1) == Entry::of(0));
            if a == root && i == i4 {
            } else {
                assert(after.entry_at(root, i4) == before.entry_at(root, i4));
                if let Some(t3) = before.next(root, i4) {
                    assert(before.entry_ok(t3, i3));
                    if a == t3 && i == i3 {
                    } else {
                        assert(after.entry_at(t3, i3) == before.entry_at(t3, i3));
                        if let Some(t2) = before.next(t3, i3) {
                            assert(before.entry_ok(t2, i2));
                            if a == t2 && i == i2 {
                            } else {
                                assert(after.entry_at(t2, i2) == before.entry_at(t2, i2));
                                if let Some(t1) = before.next(t2, i2) {
                                    assert(after.entry_at(t1, i1) == before.entry_at(t1, i1));
                                }
                            }
                        }
                    }
                }
            }
        }
    }
}

/// A page table of level `L`: a handle on one table of a `TableMemory`.
pub struct Table<L: TableLevel> {
    address: PhysicalAddress,
    level: PhantomData<L>,
}

impl<L: TableLevel> Table<L> {
    /// Where the table lies in physical memory.
    pub closed spec fn address(&self) -> PhysicalAddress {
        self.address
    }

    /// `memory` holds the table, at level `L`.
    pub open spec fn valid_in(&self, memory: &TableMemory) -> bool {
        memory@.contains_key(self.address()) && memory.depth_of(self.address()) == L::depth()
    }

    /// One entry of the table.
    pub fn entry(&self, memory: &TableMemory, index: usize) -> (entry: Entry)
        requires
            self.valid_in(memory),
            index < ENTRY_COUNT,
        ensures
            entry == memory.entry_at(self.address(), index as int),
    {
        memory.read(self.address, index)
    }
}

impl<L: HierarchicalLevel> Table<L> {
    /// The address of the table that the entry `index` points to: there is
    /// one if the entry is present and maps no huge page.
    pub fn next_table_address(&self, memory: &TableMemory, index: usize) -> (address: Option<
        PhysicalAddress,
    >)
        requires
            self.valid_in(memory),
            index < ENTRY_COUNT,
        ensures
            address == memory.next(self.address(), index as int),
    {
        let entry = memory.read(self.address, index);
        if entry.is_present() && !entry.is_huge() {
            Some(entry.physical_address())
        } else {
            None
        }
    }

    /// The table that the entry `index` points to, if it points to one.
    pub fn next_table(&self, memory: &TableMemory, index: usize) -> (table: Option<
        Table<L::NextLevel>,
    >)
        requires
            memory.wf(),
            self.valid_in(memory),
            index < ENTRY_COUNT,
        ensures
            table is Some <==> memory.next(self.address(), index as int) is Some,
            table matches Some(t) ==> memory.next(self.address(), index as int) == Some(
                t.address(),
            ) && t.valid_in(memory),
    {
        proof {
            L::lemma_depth();
            L::lemma_next_level();
            L::NextLevel::lemma_depth();
            assert(memory.entry_ok(self.address(), index as int));
        }
        match self.next_table_address(memory, index) {
            Some(address) => Some(Table { address, level: PhantomData }),
            None => None,
        }
    }

    /// The table that the entry `index` points to. Where the entry is
    /// unused, a frame is taken from `allocator`, an empty table is put
    /// into it, and the entry is pointed to it with the flags `PRESENT`
    /// and `WRITABLE`. No translation changes. The entry must not map a
    /// huge page.
    pub fn next_table_create<A: FrameAllocator>(
        &self,
        memory: &mut TableMemory,
        index: usize,
        allocator: &mut A,
    ) -> (result: Result<Table<L::NextLevel>, MapError>)
        requires
            old(memory).wf(),
            self.valid_in(old(memory)),
            index < ENTRY_COUNT,
            old(allocator).wf(),
            !old(memory).entry_at(self.address(), index as int).huge(),
        ensures
            final(memory).wf(),
            final(allocator).wf(),
            final(memory).extends(old(memory)),
            forall|page: Page| final(memory).lookup(page) == old(memory).lookup(page),
            forall|page: Page|
                final(memory).huge_on_path(page) == old(memory).huge_on_path(page),
            good_frames(*old(allocator), old(memory)) ==> good_frames(
                *final(allocator),
                final(memory),
            ),
            result matches Ok(t) ==> final(memory).next(self.address(), index as int) == Some(
                t.address(),
            ),
            match old(memory).next(self.address(), index as int) {
                Some(a) => {
                    &&& result matches Ok(t)
                    &&& t.address() == a
                    &&& t.valid_in(final(memory))
                    &&& final(memory)@ == old(memory)@
                    &&& *final(allocator) == *old(allocator)
                },
                None => {
                    &&& old(allocator).next_frame() is Some <==> !(old(allocator).free_frames()
                        =~= Set::<int>::empty())
                    &&& old(allocator).next_frame() matches Some(f)
                        ==> old(allocator).free_frames().contains(f.number as int)
                    &&& final(allocator).free_frames() =~= match old(allocator).next_frame() {
                        Some(f) => old(allocator).free_frames().remove(f.number as int),
                        None => old(allocator).free_frames(),
                    }
                    &&& match new_table_error(old(memory), old(allocator).next_frame()) {
                        Some(e) => result == Err::<Table<L::NextLevel>, MapError>(e)
                            && final(memory)@ == old(memory)@,
                        None => {
                            &&& result matches Ok(t)
                            &&& t.address() == old(allocator).next_frame()->Some_0.number * 4096
                            &&& t.valid_in(final(memory))
                            &&& !old(memory)@.contains_key(t.address())
                            &&& final(memory)@ == with_table(
                                old(memory)@,
                                self.address(),
                                index as int,
                                t.address(),
                            )
                        },
                    }
                },
            },
    {
        proof {
            L::lemma_depth();
            L::lemma_next_level();
            L::NextLevel::lemma_depth();
            assert(memory.entry_ok(self.address(), index as int));
        }
        match self.next_table(memory, index) {
            Some(table) => Ok(table),
            None => {
                if memory.read(self.address, index).is_huge() {
                    unreached()
                }
                let frame = allocator.allocate_frame();
                self.next_table_in(memory, index, frame)
            },
        }
    }

    /// Points the unused entry `index` to a new, empty table in `frame`,
    /// the frame that an allocator was asked for. The frame must be there,
    /// its address must fit into an entry, and it must not hold a table
    /// already; otherwise nothing changes. No translation changes either
    /// way.
    pub fn next_table_in(&self, memory: &mut TableMemory, index: usize, frame: Option<Frame>)
        -> (result:
        Result<Table<L::NextLevel>, MapError>)
        requires
            old(memory).wf(),
            self.valid_in(old(memory)),
            index < ENTRY_COUNT,
            old(memory).entry_at(self.address(), index as int)@ == 0,
        ensures
            final(memory).wf(),
            final(memory).extends(old(memory)),
            forall|page: Page| final(memory).lookup(page) == old(memory).lookup(page),
            forall|page: Page|
                final(memory).huge_on_path(page) == old(memory).huge_on_path(page),
            match new_table_error(old(memory), frame) {
                Some(e) => result == Err::<Table<L::NextLevel>, MapError>(e) && final(memory)@
                    == old(memory)@,
                None => {
                    &&& result matches Ok(t)
                    &&& t.address() == frame->Some_0.number * 4096
                    &&& t.valid_in(final(memory))
                    &&& !old(memory)@.contains_key(t.address())
                    &&& final(memory)@ == with_table(
                        old(memory)@,
                        self.address(),
                        index as int,
                        t.address(),
                    )
                    &&& final(memory).next(self.address(), index as int) == Some(t.address())
                },
            },
    {
        proof {
            L::lemma_depth();
            L::lemma_next_level();
            L::NextLevel::lemma_depth();
        }
        let frame = match frame {
            Some(frame) => frame,
            None => {
                return Err(MapError::OutOfFrames);
            },
        };
        if frame.number >= FRAME_LIMIT {
            return Err(MapError::FrameOutOfRange);
        }
        let address = frame.start_address();
        if memory.contains(address) {
            return Err(MapError::TableFrameInUse);
        }
        let mut link = Entry::unused();
        link.set(frame, EntryFlags::from_bits_truncate(PRESENT | WRITABLE));
        proof {
            let flags = (PRESENT | WRITABLE) & ALL_FLAGS;
            assert(flags == PRESENT | WRITABLE && flags & !ALL_FLAGS == 0 && flags & PRESENT != 0
                && flags & HUGE_PAGE == 0) by (bit_vector)
                requires
                    flags == (PRESENT | WRITABLE) & ALL_FLAGS,
            ;
            Entry::lemma_encode(frame.number, flags);
            Entry::lemma_of_view(link@);
            Entry::lemma_view_injective(link, Entry::of(link@));
        }
        memory.write(self.address, index, link);
        memory.insert_empty(address, Ghost(self.address), Ghost(index as int));
        proof {
            TableMemory::lemma_create(old(memory), memory, self.address, index as int, address,
                link);
        }
        Ok(Table { address, level: PhantomData })
    }
}

/// The entry that points to the table at `address`: the address, with the
/// flags `PRESENT` and `WRITABLE`.
pub open spec fn link_to(address: PhysicalAddress) -> Entry {
    Entry::of(Entry::encode((address / 4096) as u64, PRESENT | WRITABLE))
}

/// The tables `tables` with a new, empty table at `address`, to which the
/// entry `index` of the table at `above` points.
pub open spec fn with_table(
    tables: Map<PhysicalAddress, Seq<Entry>>,
    above: PhysicalAddress,
    index: int,
    address: PhysicalAddress,
) -> Map<PhysicalAddress, Seq<Entry>> {
    tables.insert(above, tables[above].update(index, link_to(address))).insert(
        address,
        empty_table(),
    )
}

/// Every frame that `allocator` may still hand out can hold a new table of
/// `memory`: its address fits into an entry, and it holds no table yet.
pub open spec fn good_frames<A: FrameAllocator>(allocator: A, memory: &TableMemory) -> bool {
    forall|n: int| #[trigger]
        allocator.free_frames().contains(n) ==> 0 <= n < FRAME_LIMIT && !memory@.contains_key(
            (n * 4096) as u64,
        )
}

/// Why no table can be made in `frame`, the frame that an allocator was
/// asked for, if there is a reason: there is no frame, the frame's address
/// does not fit into an entry, or the frame holds a table of `memory`.
pub open spec fn new_table_error(memory: &TableMemory, frame: Option<Frame>) -> Option<MapError> {
    match frame {
        None => Some(MapError::OutOfFrames),
        Some(f) => if f.number >= FRAME_LIMIT {
            Some(MapError::FrameOutOfRange)
        } else if memory@.contains_key((f.number * 4096) as u64) {
            Some(MapError::TableFrameInUse)
        } else {
            None
        },
    }
}

impl TableMemory {
    /// The level 3 table on the way to `page`, if there is one.
    pub open spec fn p3_table(&self, page: Page) -> Option<PhysicalAddress> {
        self.next(self.root(), p4_index_of(page@))
    }

    /// The level 2 table on the way to `page`, if there is one.
    pub open spec fn p2_table(&self, page: Page) -> Option<PhysicalAddress> {
        match self.p3_table(page) {
            None => None,
            Some(t3) => self.next(t3, p3_index_of(page@)),
        }
    }

    /// The level 1 table on the way to `page`, if there is one.
    pub open spec fn p1_table(&self, page: Page) -> Option<PhysicalAddress> {
        match self.p2_table(page) {
            None => None,
            Some(t2) => self.next(t2, p2_index_of(page@)),
        }
    }

    /// An entry on the way to `page` maps a huge page.
    pub open spec fn huge_on_path(&self, page: Page) -> bool {
        ||| self.entry_at(self.root(), p4_index_of(page@)).huge()
        ||| self.p3_table(page) matches Some(t3) && self.entry_at(t3, p3_index_of(page@)).huge()
        ||| self.p2_table(page) matches Some(t2) && self.entry_at(t2, p2_index_of(page@)).huge()
    }

    /// The tables on the way to a page are in the arena, each at its level.
    pub proof fn lemma_path(&self, page: Page)
        requires
            self.wf(),
        ensures
            self.p3_table(page) matches Some(t3) ==> self@.contains_key(t3) && self.depth_of(t3)
                == 3 && self.parent_of(t3) == (self.root(), p4_index_of(page@)),
            self.p2_table(page) matches Some(t2) ==> self@.contains_key(t2) && self.depth_of(t2)
                == 2 && self.parent_of(t2) == (self.p3_table(page)->Some_0, p3_index_of(page@)),
            self.p1_table(page) matches Some(t1) ==> self@.contains_key(t1) && self.depth_of(t1)
                == 1 && self.parent_of(t1) == (self.p2_table(page)->Some_0, p2_index_of(page@)),
    {
        assert(self.entry_ok(self.root(), p4_index_of(page@)));
        if let Some(t3) = self.p3_table(page) {
            assert(self.entry_ok(t3, p3_index_of(page@)));
            if let Some(t2) = self.p2_table(page) {
                assert(self.entry_ok(t2, p2_index_of(page@)));
            }
        }
    }

    /// No two canonical pages share a level 1 entry.
    pub proof fn lemma_leaf_of_one_page(&self, a: Page, b: Page)
        requires
            self.wf(),
            canonical_number(a@),
            canonical_number(b@),
            self.p1_table(a) is Some,
            self.p1_table(a) == self.p1_table(b),
            p1_index_of(a@) == p1_index_of(b@),
        ensures
            a == b,
    {
        self.lemma_path(a);
        self.lemma_path(b);
        lemma_indices_determine_page(a@, b@);
        Page::lemma_view_injective(a, b);
    }

    /// What the translation of a page is once the walk has reached its
    /// level 1 table.
    pub proof fn lemma_lookup_leaf(&self, page: Page)
        requires
            self.wf(),
            self.p1_table(page) is Some,
        ensures
            self.lookup(page) == if self.entry_at(
                self.p1_table(page)->Some_0,
                p1_index_of(page@),
            ).present() {
                Some(
                    translation_of(
                        self.entry_at(self.p1_table(page)->Some_0, p1_index_of(page@)),
                        0,
                    ),
                )
            } else {
                None
            },
            !self.huge_on_path(page),
    {
    }

    /// Replacing an entry of a level 1 table changes the translation of
    /// the one page that the entry stands for, and no other.
    proof fn lemma_write_leaf(
        before: &TableMemory,
        after: &TableMemory,
        t1: PhysicalAddress,
        i: int,
        e: Entry,
    )
        requires
            before.wf(),
            before@.contains_key(t1),
            before.depth_of(t1) == 1,
            0 <= i < 512,
            e@ == 0 || e.present(),
            after@ == before@.insert(t1, before@[t1].update(i, e)),
            after.root == before.root,
            after.order@ == before.order@,
            after.depth == before.depth,
            after.parent == before.parent,
        ensures
            after.wf(),
            after.extends(before),
            after@.dom() == before@.dom(),
            forall|page: Page|
                after.p1_table(page) == before.p1_table(page) && after.huge_on_path(page)
                    == before.huge_on_path(page),
            forall|page: Page|
                !(before.p1_table(page) == Some(t1) && p1_index_of(page@) == i)
                    ==> after.lookup(page) == before.lookup(page),
            forall|page: Page|
                before.p1_table(page) == Some(t1) && p1_index_of(page@) == i ==> after.lookup(page)
                    == if e.present() {
                    Some(translation_of(e, 0))
                } else {
                    None::<Translation>
                },
    {
        assert(after@.dom() =~= before@.dom());
        assert forall|b: PhysicalAddress, j: int|
            after@.contains_key(b) && 0 <= j < 512 implies #[trigger] after.entry_ok(b, j) by {
            assert(before.entry_ok(b, j));
            if b == t1 && j == i {
            } else {
                assert(after.entry_at(b, j) == before.entry_at(b, j));
            }
        }
        assert forall|page: Page|
            after.p1_table(page) == before.p1_table(page) && after.huge_on_path(page)
                == before.huge_on_path(page) && (!(before.p1_table(page) == Some(t1)
                && p1_index_of(page@) == i) ==> after.lookup(page) == before.lookup(page)) && (
            before.p1_table(page) == Some(t1) && p1_index_of(page@) == i ==> after.lookup(page)
                == if e.present() {
                Some(translation_of(e, 0))
            } else {
                None::<Translation>
            }) by {
            let i4 = p4_index_of(page@);
            let i3 = p3_index_of(page@);
            let i2 = p2_index_of(page@);
            let i1 = p1_index_of(page@);
            let root = before.root();
            before.lemma_path(page);
            assert(after.entry_at(root, i4) == before.entry_at(root, i4));
            if let Some(t3) = before.next(root, i4) {
                assert(after.entry_at(t3, i3) == before.entry_at(t3, i3));
                if let Some(t2) = before.next(t3, i3) {
                    assert(after.entry_at(t2, i2) == before.entry_at(t2, i2));
                    if let Some(t) = before.next(t2, i2) {
                        if t == t1 && i1 == i {
                            assert(after.entry_at(t, i1) == e);
                        } else {
                            assert(after.entry_at(t, i1) == before.entry_at(t, i1));
                        }
                    }
                }
            }
        }
    }
}

impl<L: TableLevel> Table<L> {
    /// Makes every entry of the table unused. What lay below the table is
    /// no longer reached through it.
    pub fn zero(&self, memory: &mut TableMemory)
        requires
            old(memory).wf(),
            self.valid_in(old(memory)),
        ensures
            final(memory).wf(),
            final(memory).extends(old(memory)),
            final(memory)@ == old(memory)@.insert(self.address(), empty_table()),
    {
        let mut index: usize = 0;
        while index < ENTRY_COUNT
            invariant
                0 <= index <= ENTRY_COUNT,
                memory@.contains_key(self.address),
                memory@.dom() == old(memory)@.dom(),
                memory.root == old(memory).root,
                memory.order@ == old(memory).order@,
                memory.depth == old(memory).depth,
                memory.parent == old(memory).parent,
                memory@[self.address].len() == 512,
                forall|a: PhysicalAddress| a != self.address ==> memory@[a] == old(memory)@[a],
                forall|j: int| 0 <= j < index ==> memory@[self.address][j] == Entry::of(0),
                forall|j: int|
                    index <= j < 512 ==> memory@[self.address][j] == old(memory)@[self.address][j],
            decreases ENTRY_COUNT - index,
        {
            let mut entry = memory.read(self.address, index);
            entry.set_unused();
            proof {
                Entry::lemma_of_view(0);
                Entry::lemma_view_injective(entry, Entry::of(0));
            }
            let ghost previous = memory@;
            memory.write(self.address, index, entry);
            assert(memory@.dom() =~= previous.dom());
            index += 1;
        }
        proof {
            assert(memory@[self.address] =~= empty_table());
            assert(memory@ =~= old(memory)@.insert(self.address(), empty_table()));
            Entry::lemma_of_view(0);
            Entry::lemma_unused(Entry::of(0));
            assert forall|b: PhysicalAddress, j: int|
                memory@.contains_key(b) && 0 <= j < 512 implies #[trigger] memory.entry_ok(
                b,
                j,
            ) by {
                assert(old(memory).entry_ok(b, j));
                if b == self.address {
                    assert(memory.entry_at(b, j) == Entry::of(0));
                } else {
                    assert(memory.entry_at(b, j) == old(memory).entry_at(b, j));
                }
            }
        }
    }
}

impl Table<Level1> {
    /// Replaces the entry `index`, which stands for one page: the page, if
    /// there is one, whose walk ends at this table with that index. The
    /// new entry must be unused or present.
    pub fn set_entry(&self, memory: &mut TableMemory, index: usize, entry: Entry)
        requires
            old(memory).wf(),
            self.valid_in(old(memory)),
            index < ENTRY_COUNT,
            entry@ == 0 || entry.present(),
        ensures
            final(memory).wf(),
            final(memory).extends(old(memory)),
            final(memory)@ == old(memory)@.insert(
                self.address(),
                old(memory)@[self.address()].update(index as int, entry),
            ),
            forall|page: Page|
                final(memory).p1_table(page) == old(memory).p1_table(page)
                    && final(memory).huge_on_path(page) == old(memory).huge_on_path(page),
            forall|page: Page|
                !(old(memory).p1_table(page) == Some(self.address()) && p1_index_of(page@)
                    == index) ==> final(memory).lookup(page) == old(memory).lookup(page),
            forall|page: Page|
                old(memory).p1_table(page) == Some(self.address()) && p1_index_of(page@) == index
                    ==> final(memory).lookup(page) == if entry.present() {
                    Some(translation_of(entry, 0))
                } else {
                    None::<Translation>
                },
    {
        memory.write(self.address, index, entry);
        proof {
            TableMemory::lemma_write_leaf(old(memory), memory, self.address, index as int, entry);
        }
    }
}

impl TableMemory {
    /// Pointing an unused entry of a level 3 or level 2 table to a huge
    /// frame gives a translation to the pages that the entry stands for,
    /// and changes no other.
    proof fn lemma_write_huge(
        before: &TableMemory,
        after: &TableMemory,
        a: PhysicalAddress,
        i: int,
        e: Entry,
    )
        requires
            before.wf(),
            before@.contains_key(a),
            before.depth_of(a) == 2 || before.depth_of(a) == 3,
            0 <= i < 512,
            before.entry_at(a, i)@ == 0,
            e.present(),
            e.huge(),
            before.depth_of(a) == 3 ==> e.frame_number() % 262144 == 0,
            before.depth_of(a) == 2 ==> e.frame_number() % 512 == 0,
            after@ == before@.insert(a, before@[a].update(i, e)),
            after.root == before.root,
            after.order@ == before.order@,
            after.depth == before.depth,
            after.parent == before.parent,
        ensures
            after.wf(),
            after.extends(before),
            after@.dom() == before@.dom(),
            forall|page: Page|
                #![trigger after.lookup(page)]
                after.p3_table(page) == before.p3_table(page) && after.p2_table(page)
                    == before.p2_table(page),
            forall|page: Page|
                #![trigger after.lookup(page)]
                before.depth_of(a) == 3 ==> after.lookup(page) == if before.p3_table(page) == Some(
                    a,
                ) && p3_index_of(page@) == i {
                    Some(translation_of(e, p2_index_of(page@) * 512 + p1_index_of(page@)))
                } else {
                    before.lookup(page)
                },
            forall|page: Page|
                #![trigger after.lookup(page)]
                before.depth_of(a) == 2 ==> after.lookup(page) == if before.p2_table(page) == Some(
                    a,
                ) && p2_index_of(page@) == i {
                    Some(translation_of(e, p1_index_of(page@)))
                } else {
                    before.lookup(page)
                },
    {
        Entry::lemma_unused(before.entry_at(a, i));
        assert(after@.dom() =~= before@.dom());
        assert forall|b: PhysicalAddress, j: int|
            after@.contains_key(b) && 0 <= j < 512 implies #[trigger] after.entry_ok(b, j) by {
            assert(before.entry_ok(b, j));
            if b == a && j == i {
            } else {
                assert(after.entry_at(b, j) == before.entry_at(b, j));
            }
        }
        assert forall|page: Page|
            #![trigger after.lookup(page)]
            after.p3_table(page) == before.p3_table(page) && after.p2_table(page)
                == before.p2_table(page) && (before.depth_of(a) == 3 ==> after.lookup(page)
                == if before.p3_table(page) == Some(a) && p3_index_of(page@) == i {
                Some(translation_of(e, p2_index_of(page@) * 512 + p1_index_of(page@)))
            } else {
                before.lookup(page)
            }) && (before.depth_of(a) == 2 ==> after.lookup(page) == if before.p2_table(page)
                == Some(a) && p2_index_of(page@) == i {
                Some(translation_of(e, p1_index_of(page@)))
            } else {
                before.lookup(page)
            }) by {
            let i4 = p4_index_of(page@);
            let i3 = p3_index_of(page@);
            let i2 = p2_index_of(page@);
            let i1 = p1_index_of(page@);
            let root = before.root();
            before.lemma_path(page);
            assert(after.entry_at(root, i4) == before.entry_at(root, i4));
            if let Some(t3) = before.next(root, i4) {
                if t3 == a && i3 == i {
                    assert(after.entry_at(t3, i3) == e);
                } else {
                    assert(after.entry_at(t3, i3) == before.entry_at(t3, i3));
                    if let Some(t2) = before.next(t3, i3) {
                        if t2 == a && i2 == i {
                            assert(after.entry_at(t2, i2) == e);
                        } else {
                            assert(after.entry_at(t2, i2) == before.entry_at(t2, i2));
                            if let Some(t1) = before.next(t2, i2) {
                                assert(after.entry_at(t1, i1) == before.entry_at(t1, i1));
                            }
                        }
                    }
                }
            }
        }
    }
}

impl Table<Level3> {
    /// Points the unused entry `index` to a frame of 1 GiB, which must
    /// start at a multiple of its size.
    pub fn set_huge_entry(&self, memory: &mut TableMemory, index: usize, entry: Entry)
        requires
            old(memory).wf(),
            self.valid_in(old(memory)),
            index < ENTRY_COUNT,
            old(memory).entry_at(self.address(), index as int)@ == 0,
            entry.present(),
            entry.huge(),
            entry.frame_number() % 262144 == 0,
        ensures
            final(memory).wf(),
            final(memory).extends(old(memory)),
            final(memory)@ == old(memory)@.insert(
                self.address(),
                old(memory)@[self.address()].update(index as int, entry),
            ),
            forall|page: Page|
                #![trigger final(memory).lookup(page)]
                final(memory).lookup(page) == if old(memory).p3_table(page) == Some(
                    self.address(),
                ) && p3_index_of(page@) == index {
                    Some(translation_of(entry, p2_index_of(page@) * 512 + p1_index_of(page@)))
                } else {
                    old(memory).lookup(page)
                },
    {
        memory.write(self.address, index, entry);
        proof {
            TableMemory::lemma_write_huge(old(memory), memory, self.address, index as int, entry);
        }
    }
}

impl Table<Level2> {
    /// Points the unused entry `index` to a frame of 2 MiB, which must
    /// start at a multiple of its size.
    pub fn set_huge_entry(&self, memory: &mut TableMemory, index: usize, entry: Entry)
        requires
            old(memory).wf(),
            self.valid_in(old(memory)),
            index < ENTRY_COUNT,
            old(memory).entry_at(self.address(), index as int)@ == 0,
            entry.present(),
            entry.huge(),
            entry.frame_number() % 512 == 0,
        ensures
            final(memory).wf(),
            final(memory).extends(old(memory)),
            final(memory)@ == old(memory)@.insert(
                self.address(),
                old(memory)@[self.address()].update(index as int, entry),
            ),
            forall|page: Page|
                #![trigger final(memory).lookup(page)]
                final(memory).lookup(page) == if old(memory).p2_table(page) == Some(
                    self.address(),
                ) && p2_index_of(page@) == index {
                    Some(translation_of(entry, p1_index_of(page@)))
                } else {
                    old(memory).lookup(page)
                },
    {
        memory.write(self.address, index, entry);
        proof {
            TableMemory::lemma_write_huge(old(memory), memory, self.address, index as int, entry);
        }
    }
}

} // verus!
