//! The global descriptor table and the descriptors that go into it.

use vstd::prelude::*;
use bit_field::BitField;
use x86_64::structures::tss::TaskStateSegment;

verus! {

/// The segment is a conforming code segment.
pub const CONFORMING: u64 = 1 << 42;

/// The segment holds code.
pub const EXECUTABLE: u64 = 1 << 43;

/// The descriptor is one of a code or data segment, in 64 bits; without
/// this flag it is one of a system segment, in 128 bits.
pub const USER_SEGMENT: u64 = 1 << 44;

/// The segment is there.
pub const PRESENT: u64 = 1 << 47;

/// The code of the segment runs in 64-bit mode.
pub const LONG_MODE: u64 = 1 << 53;

/// Every descriptor flag together.
pub const ALL_FLAGS: u64 = 0x0020_9c00_0000_0000;

/// Number of 64-bit slots of the table.
pub const GDT_SLOTS: usize = 8;

/// Size in bytes of a task state segment.
pub const TSS_SIZE: u64 = 104;

/// A set of descriptor flags. Its view is the set as a bit pattern.
#[derive(Clone, Copy, Debug)]
pub struct DescriptorFlags {
    bits: u64,
}

impl View for DescriptorFlags {
    type V = u64;

    closed spec fn view(&self) -> u64 {
        self.bits
    }
}

impl DescriptorFlags {
    /// The flag set with the bit pattern `bits`.
    pub closed spec fn of(bits: u64) -> DescriptorFlags {
        DescriptorFlags { bits }
    }

    /// The empty set.
    pub fn empty() -> (flags: DescriptorFlags)
        ensures
            flags == DescriptorFlags::of(0),
            flags@ == 0,
    {
        DescriptorFlags { bits: 0 }
    }

    /// The flags of `bits`; bits that are no flag are dropped.
    pub fn from_bits_truncate(bits: u64) -> (flags: DescriptorFlags)
        ensures
            flags == DescriptorFlags::of(bits & ALL_FLAGS),
            flags@ == bits & ALL_FLAGS,
    {
        DescriptorFlags { bits: bits & ALL_FLAGS }
    }

    /// The set as a bit pattern.
    pub fn bits(&self) -> (bits: u64)
        ensures
            bits == self@,
    {
        self.bits
    }

    /// Every flag of `other` is set in `self`.
    pub fn contains(&self, other: DescriptorFlags) -> (all: bool)
        ensures
            all == (self@ & other@ == other@),
    {
        self.bits & other.bits == other.bits
    }

    /// The flags of `self` together with those of `other`.
    pub fn union(self, other: DescriptorFlags) -> (flags: DescriptorFlags)
        ensures
            flags == DescriptorFlags::of(self@ | other@),
            flags@ == self@ | other@,
    {
        DescriptorFlags { bits: self.bits | other.bits }
    }
}

/// What selects a descriptor of the table: the index of its first slot in
/// bits 3 to 15, and the privilege level that is asked for in bits 0 and 1.
#[derive(Clone, Copy, Debug, PartialEq, Eq, Structural)]
pub struct SegmentSelector(pub u16);

impl SegmentSelector {
    /// Index of the descriptor's first slot.
    pub open spec fn index(self) -> int {
        self.0 as int / 8
    }

    /// The privilege level that is asked for: 0 is the kernel's.
    pub open spec fn privilege_level(self) -> int {
        self.0 as int % 4
    }
}

/// A descriptor of the table.
#[derive(Clone, Copy, Debug, PartialEq, Eq, Structural)]
pub enum Descriptor {
    /// A code or data segment: one slot.
    UserSegment(u64),
    /// A system segment such as a task state segment: two slots, the low
    /// half first.
    SystemSegment(u64, u64),
}

/// `TaskStateSegment` of `x86_64`. Nothing is known of what it holds.
#[verifier::external_type_specification]
#[verifier::external_body]
pub struct ExTaskStateSegment(TaskStateSegment);

/// The bits `start` to `end - 1` of `value`, moved down to bit 0.
pub open spec fn bits_of(value: u64, start: usize, end: usize) -> u64 {
    (value << ((64 - end) as u64)) >> ((64 - end) as u64) >> (start as u64)
}

/// `bits` has no bit set at or above bit `length`.
pub open spec fn fits_in(bits: u64, length: usize) -> bool {
    (bits << ((64 - length) as u64)) >> ((64 - length) as u64) == bits
}

/// `value` with its bits `start` to `end - 1` replaced by `bits`.
pub open spec fn with_bits(value: u64, start: usize, end: usize, bits: u64) -> u64 {
    (value & !((!0u64 << ((64 - end) as u64)) >> ((64 - end) as u64) >> (start as u64) << (
    start as u64))) | (bits << (start as u64))
}

/// `BitField::get_bits` of `bit_field`, on a `u64` and the range
/// `start..end`: the bits of that range, moved down to bit 0. The range
/// must not be empty and must lie within the 64 bits.
#[verifier::external_body]
fn get_bits(value: u64, start: usize, end: usize) -> (bits: u64)
    requires
        start < end <= 64,
    ensures
        bits == bits_of(value, start, end),
{
    value.get_bits(start..end)
}

/// `BitField::set_bits` of `bit_field`, on a `u64` and the range
/// `start..end`: the bits of that range are replaced by `bits`, which must
/// fit into the range; the other bits stay.
#[verifier::external_body]
fn set_bits(value: u64, start: usize, end: usize, bits: u64) -> (result: u64)
    requires
        start < end <= 64,
        fits_in(bits, (end - start) as usize),
    ensures
        result == with_bits(value, start, end, bits),
{
    let mut result = value;
    result.set_bits(start..end, bits);
    result
}

/// `SegmentSelector::new` of `x86_64`, for `PrivilegeLevel::Ring0`, and
/// the bits of its result: the index moved up by three bits, with the
/// level, which is zero, in the bits below.
#[verifier::external_body]
fn ring0_selector(index: u16) -> (bits: u16)
    ensures
        bits == (index << 3) | 0,
{
    x86_64::structures::gdt::SegmentSelector::new(index, x86_64::PrivilegeLevel::Ring0).0
}

/// `core::mem::size_of` for `TaskStateSegment` of `x86_64`: 104, which
/// is what the fields of that type add up to in its packed layout (4, 3
/// times 8, 8, 7 times 8, 8, 2 and 2 bytes).
#[verifier::external_body]
fn tss_size() -> (size: usize)
    ensures
        size == TSS_SIZE,
{
    core::mem::size_of::<TaskStateSegment>()
}

/// `VirtAddr::from_ptr` of `x86_64`, and `as_u64` of its result: the
/// address at which `tss` lies. Nothing is claimed of it. `from_ptr` does
/// not return for an address that is not canonical; the address of a
/// reference always is.
#[verifier::external_body]
fn tss_address(tss: &'static TaskStateSegment) -> (address: u64) {
    x86_64::VirtAddr::from_ptr(tss).as_u64()
}

/// The descriptor of a task state segment that lies at `address`: in the
/// low half the segment's last offset in bits 0 to 15, the address's bits
/// 0 to 23 in bits 16 to 39, the type 0b1001 (a 64-bit task state segment
/// that is available) in bits 40 to 43, `PRESENT`, and the address's bits
/// 24 to 31 in bits 56 to 63; in the high half the address's upper 32 bits.
pub open spec fn tss_descriptor(address: u64) -> Descriptor {
    Descriptor::SystemSegment(
        PRESENT | ((address & 0xff_ffff) << 16) | (((address >> 24) & 0xff) << 56) | (TSS_SIZE
            - 1) as u64 | (0b1001u64 << 40),
        address >> 32,
    )
}

impl Descriptor {
    /// Number of slots that the descriptor takes in the table.
    pub open spec fn slots(self) -> int {
        match self {
            Descriptor::UserSegment(_) => 1,
            Descriptor::SystemSegment(_, _) => 2,
        }
    }

    /// The descriptor of the kernel's code segment: a present user segment
    /// with code that runs in 64-bit mode.
    pub fn kernel_code_segment() -> (descriptor: Descriptor)
        ensures
            descriptor == Descriptor::UserSegment(USER_SEGMENT | PRESENT | EXECUTABLE | LONG_MODE),
            descriptor == Descriptor::UserSegment(0x0020_9800_0000_0000),
    {
        let flags = DescriptorFlags::from_bits_truncate(
            USER_SEGMENT | PRESENT | EXECUTABLE | LONG_MODE,
        );
        assert((USER_SEGMENT | PRESENT | EXECUTABLE | LONG_MODE) & ALL_FLAGS
            == 0x0020_9800_0000_0000 && (USER_SEGMENT | PRESENT | EXECUTABLE | LONG_MODE)
            == 0x0020_9800_0000_0000) by (bit_vector);
        Descriptor::UserSegment(flags.bits())
    }

    /// The descriptor of the task state segment `tss`, which depends on
    /// where `tss` lies.
    pub fn tss_segment(tss: &'static TaskStateSegment) -> (descriptor: Descriptor)
        ensures
            exists|address: u64| descriptor == tss_descriptor(address),
    {
        let address = tss_address(tss);
        Descriptor::tss_segment_at(address)
    }

    /// The descriptor of a task state segment that lies at `address`.
    pub fn tss_segment_at(address: u64) -> (descriptor: Descriptor)
        ensures
            descriptor == tss_descriptor(address),
    {
        let low = DescriptorFlags::from_bits_truncate(PRESENT).bits();
        assert(low == PRESENT) by (bit_vector)
            requires
                low == PRESENT & ALL_FLAGS,
        ;
        // base
        let base_low = get_bits(address, 0, 24);
        assert(base_low == address & 0xff_ffff && fits_in(base_low, 24)) by (bit_vector)
            requires
                base_low == bits_of(address, 0, 24),
        ;
        let low = set_bits(low, 16, 40, base_low);
        let base_middle = get_bits(address, 24, 32);
        assert(base_middle == (address >> 24) & 0xff && fits_in(base_middle, 8)) by (bit_vector)
            requires
                base_middle == bits_of(address, 24, 32),
        ;
        let low = set_bits(low, 56, 64, base_middle);
        // limit: the last offset of the segment
        let limit = (tss_size() - 1) as u64;
        assert(fits_in(limit, 16)) by (bit_vector)
            requires
                limit == 103,
        ;
        let low = set_bits(low, 0, 16, limit);
        // type: a 64-bit task state segment that is available
        assert(fits_in(0b1001, 4)) by (bit_vector);
        let low = set_bits(low, 40, 44, 0b1001);
        let base_high = get_bits(address, 32, 64);
        assert(base_high == address >> 32 && fits_in(base_high, 32)) by (bit_vector)
            requires
                base_high == bits_of(address, 32, 64),
        ;
        let high = set_bits(0, 0, 32, base_high);
        assert(low == PRESENT | ((address & 0xff_ffff) << 16) | (((address >> 24) & 0xff) << 56)
            | 103 | (0b1001u64 << 40) && high == address >> 32) by (bit_vector)
            requires
                low == with_bits(
                    with_bits(
                        with_bits(
                            with_bits(PRESENT, 16, 40, address & 0xff_ffff),
                            56,
                            64,
                            (address >> 24) & 0xff,
                        ),
                        0,
                        16,
                        103,
                    ),
                    40,
                    44,
                    0b1001,
                ),
                high == with_bits(0, 0, 32, address >> 32),
        ;
        Descriptor::SystemSegment(low, high)
    }
}

/// A global descriptor table of eight slots. Slot 0 stays zero, as the
/// processor asks; descriptors fill the slots from 1 on.
pub struct Gdt {
    table: [u64; 8],
    next_free: usize,
}

impl Gdt {
    #[verifier::type_invariant]
    spec fn next_free_in_range(self) -> bool {
        1 <= self.next_free <= GDT_SLOTS
    }

    /// The eight slots.
    pub closed spec fn slots(&self) -> Seq<u64> {
        self.table@
    }

    /// Index of the first slot that is not taken.
    pub closed spec fn next_free(&self) -> int {
        self.next_free as int
    }

    /// An empty table.
    pub fn new() -> (gdt: Gdt)
        ensures
            gdt.slots() == Seq::new(8, |i: int| 0u64),
            gdt.next_free() == 1,
    {
        let gdt = Gdt { table: [0;8], next_free: 1 };
        assert(gdt.slots() =~= Seq::new(8, |i: int| 0u64));
        gdt
    }

    /// Number of slots that are not taken.
    pub fn free_slots(&self) -> (free: usize)
        ensures
            free == GDT_SLOTS - self.next_free(),
            1 <= self.next_free() <= GDT_SLOTS,
            self.slots().len() == GDT_SLOTS,
    {
        proof {
            use_type_invariant(self);
        }
        GDT_SLOTS - self.next_free
    }

    /// The slots, as the processor reads them.
    pub fn table(&self) -> (table: &[u64; 8])
        ensures
            table@ == self.slots(),
    {
        &self.table
    }

    /// The last offset of the table in bytes, which the processor is told
    /// together with the table's address.
    pub fn limit(&self) -> (limit: u16)
        ensures
            limit == GDT_SLOTS * 8 - 1,
    {
        (GDT_SLOTS * 8 - 1) as u16
    }

    /// Adds `entry` and returns the selector of its first slot, at
    /// privilege level 0. The table must have room for it.
    pub fn add_entry(&mut self, entry: Descriptor) -> (selector: SegmentSelector)
        requires
            old(self).next_free() + entry.slots() <= GDT_SLOTS,
        ensures
            final(self).next_free() == old(self).next_free() + entry.slots(),
            final(self).slots() == match entry {
                Descriptor::UserSegment(value) => old(self).slots().update(
                    old(self).next_free(),
                    value,
                ),
                Descriptor::SystemSegment(low, high) => old(self).slots().update(
                    old(self).next_free(),
                    low,
                ).update(old(self).next_free() + 1, high),
            },
            selector.0 == old(self).next_free() * 8,
            selector.index() == old(self).next_free(),
            selector.privilege_level() == 0,
    {
        let index = match entry {
            Descriptor::UserSegment(value) => self.push(value),
            Descriptor::SystemSegment(value_low, value_high) => {
                let index = self.push(value_low);
                self.push(value_high);
                index
            },
        };
        let bits = ring0_selector(index as u16);
        proof {
            let small = index as u16;
            assert((small << 3) | 0 == small * 8) by (bit_vector)
                requires
                    small < 8,
            ;
        }
        SegmentSelector(bits)
    }

    /// Writes `value` into the first free slot and returns the slot's
    /// index. The table must not be full.
    pub fn push(&mut self, value: u64) -> (index: usize)
        requires
            old(self).next_free() < GDT_SLOTS,
        ensures
            index == old(self).next_free(),
            final(self).next_free() == old(self).next_free() + 1,
            final(self).slots() == old(self).slots().update(index as int, value),
    {
        proof {
            use_type_invariant(&*self);
        }
        let index = self.next_free;
        self.table[index] = value;
        self.next_free += 1;
        index
    }
}

} // verus!
