//! Page table entries: a frame address and a set of flags in 64 bits.

use vstd::prelude::*;
use crate::memory::Frame;

verus! {

/// The page is in memory.
pub const PRESENT: u64 = 1 << 0;

/// Writes to the page are allowed.
pub const WRITABLE: u64 = 1 << 1;

/// Code outside kernel mode may use the page.
pub const USER_ACCESSIBLE: u64 = 1 << 2;

/// Writes go straight to memory.
pub const WRITE_THROUGH: u64 = 1 << 3;

/// The page is not cached.
pub const NO_CACHE: u64 = 1 << 4;

/// Set by the processor when the page is used.
pub const ACCESSED: u64 = 1 << 5;

/// Set by the processor when the page is written.
pub const DIRTY: u64 = 1 << 6;

/// The entry maps a huge page: 1 GiB in a level 3 table, 2 MiB in a level 2
/// table.
pub const HUGE_PAGE: u64 = 1 << 7;

/// The translation survives an address space switch.
pub const GLOBAL: u64 = 1 << 8;

/// Code on the page must not be executed.
pub const NO_EXECUTE: u64 = 1 << 63;

/// Every flag bit together.
pub const ALL_FLAGS: u64 = 0x8000_0000_0000_01ff;

/// Bits 12 to 51 of an entry: the frame's physical address.
pub const ADDRESS_MASK: u64 = 0x000f_ffff_ffff_f000;

/// One more than the largest frame number that an entry can hold.
pub const FRAME_LIMIT: u64 = 0x100_0000_0000;

/// In the flags of a section of the kernel image: the section is written
/// to when the kernel runs.
pub const SECTION_WRITABLE: u64 = 0x1;

/// In the flags of a section of the kernel image: the section takes up
/// memory when the kernel runs.
pub const SECTION_ALLOCATED: u64 = 0x2;

/// In the flags of a section of the kernel image: the section holds code.
pub const SECTION_EXECUTABLE: u64 = 0x4;

/// The entry flags for the pages of a section of the kernel image with the
/// flags `section_flags`: present if the section takes up memory, writable
/// if it is written to, and not executable unless it holds code.
pub open spec fn section_entry_flags(section_flags: u64) -> u64 {
    (if section_flags & SECTION_ALLOCATED != 0 {
        PRESENT
    } else {
        0
    }) | (if section_flags & SECTION_WRITABLE != 0 {
        WRITABLE
    } else {
        0
    }) | (if section_flags & SECTION_EXECUTABLE == 0 {
        NO_EXECUTE
    } else {
        0
    })
}

/// A set of entry flags. Its view is the set as a bit pattern; no bit
/// outside `ALL_FLAGS` is ever set.
#[derive(Clone, Copy, Debug)]
pub struct EntryFlags {
    bits: u64,
}

impl View for EntryFlags {
    type V = u64;

    closed spec fn view(&self) -> u64 {
        self.bits
    }
}

impl EntryFlags {
    #[verifier::type_invariant]
    spec fn only_flag_bits(self) -> bool {
        self.bits & !ALL_FLAGS == 0
    }

    /// The flag set with the bit pattern `bits`.
    pub closed spec fn of(bits: u64) -> EntryFlags {
        EntryFlags { bits }
    }

    /// A flag set is its bit pattern.
    pub broadcast proof fn lemma_of_view(bits: u64)
        ensures
            (#[trigger] EntryFlags::of(bits))@ == bits,
    {
    }

    /// The empty set.
    pub fn empty() -> (flags: EntryFlags)
        ensures
            flags == EntryFlags::of(0),
            flags@ == 0,
    {
        assert(0u64 & !ALL_FLAGS == 0) by (bit_vector);
        EntryFlags { bits: 0 }
    }

    /// The flags of `bits`; bits that are no flag are dropped.
    pub fn from_bits_truncate(bits: u64) -> (flags: EntryFlags)
        ensures
            flags == EntryFlags::of(bits & ALL_FLAGS),
            flags@ == bits & ALL_FLAGS,
    {
        assert((bits & ALL_FLAGS) & !ALL_FLAGS == 0) by (bit_vector);
        EntryFlags { bits: bits & ALL_FLAGS }
    }

    /// The flags for the pages of a section of the kernel image with the
    /// flags `section_flags`.
    pub fn from_elf_section_flags(section_flags: u64) -> (flags: EntryFlags)
        ensures
            flags == EntryFlags::of(section_entry_flags(section_flags)),
            flags@ == section_entry_flags(section_flags),
    {
        let present = if section_flags & SECTION_ALLOCATED != 0 {
            PRESENT
        } else {
            0
        };
        let writable = if section_flags & SECTION_WRITABLE != 0 {
            WRITABLE
        } else {
            0
        };
        let no_execute = if section_flags & SECTION_EXECUTABLE == 0 {
            NO_EXECUTE
        } else {
            0
        };
        let bits = present | writable | no_execute;
        assert(bits & ALL_FLAGS == bits) by (bit_vector)
            requires
                present == PRESENT || present == 0,
                writable == WRITABLE || writable == 0,
                no_execute == NO_EXECUTE || no_execute == 0,
                bits == present | writable | no_execute,
        ;
        EntryFlags::from_bits_truncate(bits)
    }

    /// The set as a bit pattern.
    pub fn bits(&self) -> (bits: u64)
        ensures
            bits == self@,
            *self == EntryFlags::of(bits),
            bits & !ALL_FLAGS == 0,
    {
        proof {
            use_type_invariant(self);
        }
        self.bits
    }

    /// No flag is set.
    pub fn is_empty(&self) -> (empty: bool)
        ensures
            empty == (self@ == 0),
    {
        self.bits == 0
    }

    /// Every flag of `other` is set in `self`.
    pub fn contains(&self, other: EntryFlags) -> (all: bool)
        ensures
            all == (self@ & other@ == other@),
    {
        self.bits & other.bits == other.bits
    }

    /// The flags of `self` together with those of `other`.
    pub fn union(self, other: EntryFlags) -> (flags: EntryFlags)
        ensures
            flags == EntryFlags::of(self@ | other@),
            flags@ == self@ | other@,
    {
        proof {
            use_type_invariant(self);
            use_type_invariant(other);
            let a = self.bits;
            let b = other.bits;
            assert((a | b) & !ALL_FLAGS == 0) by (bit_vector)
                requires
                    a & !ALL_FLAGS == 0,
                    b & !ALL_FLAGS == 0,
            ;
        }
        EntryFlags { bits: self.bits | other.bits }
    }
}

/// One entry of a page table. Its view is its 64 bits.
#[derive(Clone, Copy, Debug)]
pub struct Entry(u64);

impl View for Entry {
    type V = u64;

    closed spec fn view(&self) -> u64 {
        self.0
    }
}

impl Entry {
    /// The entry with the bits `raw`.
    pub closed spec fn of(raw: u64) -> Entry {
        Entry(raw)
    }

    /// An entry is its bits.
    pub broadcast proof fn lemma_of_view(raw: u64)
        ensures
            (#[trigger] Entry::of(raw))@ == raw,
    {
    }

    /// Two entries with the same bits are the same entry.
    pub proof fn lemma_view_injective(a: Entry, b: Entry)
        requires
            a@ == b@,
        ensures
            a == b,
    {
    }

    /// The `PRESENT` flag is set.
    pub open spec fn present(self) -> bool {
        self@ & PRESENT != 0
    }

    /// The `HUGE_PAGE` flag is set.
    pub open spec fn huge(self) -> bool {
        self@ & HUGE_PAGE != 0
    }

    /// The entry points to a table of the next level.
    pub open spec fn links(self) -> bool {
        self.present() && !self.huge()
    }

    /// The physical address that the entry holds.
    pub open spec fn address(self) -> u64 {
        self@ & ADDRESS_MASK
    }

    /// The number of the frame at that address.
    pub open spec fn frame_number(self) -> int {
        self.address() as int / 4096
    }

    /// The entry's flags.
    pub open spec fn flag_set(self) -> EntryFlags {
        EntryFlags::of(self@ & ALL_FLAGS)
    }

    /// What `set` stores for frame number `number` and the flags `flags`.
    pub open spec fn encode(number: u64, flags: u64) -> u64 {
        ((number * 4096) as u64) | flags
    }

    /// What an encoded entry holds: the frame and the flags that went in.
    pub proof fn lemma_encode(number: u64, flags: u64)
        requires
            number < FRAME_LIMIT,
            flags & !ALL_FLAGS == 0,
        ensures
            Entry::encode(number, flags) & ADDRESS_MASK == number * 4096,
            Entry::encode(number, flags) & ALL_FLAGS == flags,
            (Entry::encode(number, flags) & PRESENT != 0) == (flags & PRESENT != 0),
            (Entry::encode(number, flags) & HUGE_PAGE != 0) == (flags & HUGE_PAGE != 0),
            Entry::of(Entry::encode(number, flags)).frame_number() == number,
    {
        let raw = Entry::encode(number, flags);
        assert(raw & ADDRESS_MASK == number * 4096 && raw & ALL_FLAGS == flags && (raw & PRESENT
            != 0) == (flags & PRESENT != 0) && (raw & HUGE_PAGE != 0) == (flags & HUGE_PAGE != 0))
            by (bit_vector)
            requires
                number < FRAME_LIMIT,
                flags & !ALL_FLAGS == 0,
                raw == ((number * 4096) as u64) | flags,
        ;
    }

    /// An entry that is all zero is not present and maps no huge page.
    pub proof fn lemma_unused(e: Entry)
        requires
            e@ == 0,
        ensures
            !e.present(),
            !e.huge(),
            !e.links(),
    {
        assert(0u64 & PRESENT == 0) by (bit_vector);
        assert(0u64 & HUGE_PAGE == 0) by (bit_vector);
    }

    /// An entry that is all zero.
    pub fn unused() -> (entry: Entry)
        ensures
            entry@ == 0,
    {
        Entry(0)
    }

    /// The 64 bits of the entry.
    pub fn bits(&self) -> (bits: u64)
        ensures
            bits == self@,
    {
        self.0
    }

    /// The entry is all zero. A mapping never is, for it has `PRESENT`.
    pub fn is_unused(&self) -> (unused: bool)
        ensures
            unused == (self@ == 0),
    {
        self.0 == 0
    }

    /// Makes the entry all zero.
    pub fn set_unused(&mut self)
        ensures
            final(self)@ == 0,
    {
        self.0 = 0;
    }

    /// Tests `present`.
    pub fn is_present(&self) -> (present: bool)
        ensures
            present == self.present(),
    {
        self.0 & PRESENT != 0
    }

    /// Tests `huge`.
    pub fn is_huge(&self) -> (huge: bool)
        ensures
            huge == self.huge(),
    {
        self.0 & HUGE_PAGE != 0
    }

    /// The physical address that the entry holds.
    pub fn physical_address(&self) -> (address: u64)
        ensures
            address == self.address(),
    {
        self.0 & ADDRESS_MASK
    }

    /// The entry's flags.
    pub fn flags(&self) -> (flags: EntryFlags)
        ensures
            flags == self.flag_set(),
            flags@ == self@ & ALL_FLAGS,
    {
        EntryFlags::from_bits_truncate(self.0)
    }

    /// The frame that the entry points to, if it is present.
    pub fn pointed_frame(&self) -> (frame: Option<Frame>)
        ensures
            frame is Some <==> self.present(),
            frame matches Some(f) ==> f.number == self.frame_number() && f.number < FRAME_LIMIT,
    {
        if self.flags().contains(EntryFlags::from_bits_truncate(PRESENT)) {
            let raw = self.0;
            assert((raw & ALL_FLAGS) & (PRESENT & ALL_FLAGS) == (PRESENT & ALL_FLAGS) ==> raw
                & PRESENT != 0) by (bit_vector);
            assert((raw & ADDRESS_MASK) / 4096 < FRAME_LIMIT) by (bit_vector);
            Some(Frame::containing_address(self.0 & ADDRESS_MASK))
        } else {
            let raw = self.0;
            assert(!((raw & ALL_FLAGS) & (PRESENT & ALL_FLAGS) == (PRESENT & ALL_FLAGS)) ==> raw
                & PRESENT == 0) by (bit_vector);
            None
        }
    }

    /// Points the entry to `frame`, with the flags `flags`.
    pub fn set(&mut self, frame: Frame, flags: EntryFlags)
        requires
            frame.number < FRAME_LIMIT,
        ensures
            final(self)@ == Entry::encode(frame.number, flags@),
    {
        self.0 = frame.start_address() | flags.bits();
    }
}

} // verus!
