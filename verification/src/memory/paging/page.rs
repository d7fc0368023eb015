//! Virtual pages and the four table indices of a page number.

use vstd::prelude::*;
use crate::memory::PAGE_SIZE;

verus! {

/// An address in physical memory.
pub type PhysicalAddress = u64;

/// An address in the virtual address space.
pub type VirtualAddress = u64;

/// Number of entries of a page table.
pub const ENTRY_COUNT: usize = 512;

/// The address lies in the lower or in the upper half of the 48-bit
/// address space: bits 47 to 63 are all equal.
pub open spec fn canonical(address: VirtualAddress) -> bool {
    address < 0x0000_8000_0000_0000 || address >= 0xffff_8000_0000_0000
}

/// The page with this number starts at a canonical address.
pub open spec fn canonical_number(number: u64) -> bool {
    number < 0x8_0000_0000 || (0xf_fff8_0000_0000 <= number <= 0xf_ffff_ffff_ffff)
}

/// Tests `canonical`.
pub fn is_canonical(address: VirtualAddress) -> (ok: bool)
    ensures
        ok == canonical(address),
{
    address < 0x0000_8000_0000_0000 || address >= 0xffff_8000_0000_0000
}

/// Index into the level 4 table for the page with this number.
pub open spec fn p4_index_of(number: u64) -> int {
    (number as int / 0x800_0000) % 512
}

/// Index into the level 3 table for the page with this number.
pub open spec fn p3_index_of(number: u64) -> int {
    (number as int / 0x4_0000) % 512
}

/// Index into the level 2 table for the page with this number.
pub open spec fn p2_index_of(number: u64) -> int {
    (number as int / 0x200) % 512
}

/// Index into the level 1 table for the page with this number.
pub open spec fn p1_index_of(number: u64) -> int {
    number as int % 512
}

/// Two canonical pages with the same four indices are the same page.
pub proof fn lemma_indices_determine_page(a: u64, b: u64)
    requires
        canonical_number(a),
        canonical_number(b),
        p4_index_of(a) == p4_index_of(b),
        p3_index_of(a) == p3_index_of(b),
        p2_index_of(a) == p2_index_of(b),
        p1_index_of(a) == p1_index_of(b),
    ensures
        a == b,
{
    assert(a == b) by (bit_vector)
        requires
            a < 0x8_0000_0000 || (0xf_fff8_0000_0000 <= a && a <= 0xf_ffff_ffff_ffff),
            b < 0x8_0000_0000 || (0xf_fff8_0000_0000 <= b && b <= 0xf_ffff_ffff_ffff),
            (a / 0x800_0000) % 512 == (b / 0x800_0000) % 512,
            (a / 0x4_0000) % 512 == (b / 0x4_0000) % 512,
            (a / 0x200) % 512 == (b / 0x200) % 512,
            a % 512 == b % 512,
    ;
}

/// A page of the virtual address space, identified by its number: page `n`
/// covers the addresses `n * PAGE_SIZE .. (n + 1) * PAGE_SIZE`. Its view is
/// that number, which is always canonical.
#[derive(Debug, Clone, Copy)]
pub struct Page {
    number: u64,
}

impl View for Page {
    type V = u64;

    closed spec fn view(&self) -> u64 {
        self.number
    }
}

impl Page {
    #[verifier::type_invariant]
    spec fn is_canonical(self) -> bool {
        canonical_number(self.number)
    }

    /// The page with the number `number`.
    pub closed spec fn of(number: u64) -> Page {
        Page { number }
    }

    /// A page is its number.
    pub broadcast proof fn lemma_of_view(number: u64)
        ensures
            (#[trigger] Page::of(number))@ == number,
    {
    }

    /// Two pages with one number are the same page.
    pub proof fn lemma_view_injective(a: Page, b: Page)
        requires
            a@ == b@,
        ensures
            a == b,
    {
    }

    /// A page is the page of its number.
    pub proof fn lemma_of_self(page: Page)
        ensures
            Page::of(page@) == page,
    {
    }

    /// The page with the number `number`, if that number is canonical.
    pub fn from_number(number: u64) -> (page: Option<Page>)
        ensures
            page is Some <==> canonical_number(number),
            page matches Some(p) ==> p == Page::of(number) && p@ == number,
    {
        if number < 0x8_0000_0000 || (0xf_fff8_0000_0000 <= number && number
            <= 0xf_ffff_ffff_ffff) {
            Some(Page { number })
        } else {
            None
        }
    }

    /// The page that holds `address`.
    pub fn containing_address(address: VirtualAddress) -> (page: Page)
        requires
            canonical(address),
        ensures
            page == Page::of(address / PAGE_SIZE),
            page@ == address / PAGE_SIZE,
            canonical_number(page@),
    {
        Page { number: address / PAGE_SIZE }
    }

    /// The page's number.
    pub fn number(&self) -> (number: u64)
        ensures
            number == self@,
            *self == Page::of(number),
            canonical_number(number),
    {
        proof {
            use_type_invariant(self);
        }
        self.number
    }

    /// The address of the first byte of the page.
    pub fn start_address(&self) -> (address: VirtualAddress)
        ensures
            address == self@ * PAGE_SIZE,
            canonical(address),
    {
        proof {
            use_type_invariant(self);
        }
        self.number * PAGE_SIZE
    }

    /// Index of the page's entry in the level 4 table.
    pub fn p4_index(&self) -> (index: usize)
        ensures
            index == p4_index_of(self@),
            index < ENTRY_COUNT,
    {
        let n = self.number;
        assert((n >> 27) & 0o777 == (n / 0x800_0000) % 512) by (bit_vector);
        ((self.number >> 27) & 0o777) as usize
    }

    /// Index of the page's entry in the level 3 table.
    pub fn p3_index(&self) -> (index: usize)
        ensures
            index == p3_index_of(self@),
            index < ENTRY_COUNT,
    {
        let n = self.number;
        assert((n >> 18) & 0o777 == (n / 0x4_0000) % 512) by (bit_vector);
        ((self.number >> 18) & 0o777) as usize
    }

    /// Index of the page's entry in the level 2 table.
    pub fn p2_index(&self) -> (index: usize)
        ensures
            index == p2_index_of(self@),
            index < ENTRY_COUNT,
    {
        let n = self.number;
        assert((n >> 9) & 0o777 == (n / 0x200) % 512) by (bit_vector);
        ((self.number >> 9) & 0o777) as usize
    }

    /// Index of the page's entry in the level 1 table.
    pub fn p1_index(&self) -> (index: usize)
        ensures
            index == p1_index_of(self@),
            index < ENTRY_COUNT,
    {
        let n = self.number;
        assert((n >> 0) & 0o777 == n % 512) by (bit_vector);
        ((self.number >> 0) & 0o777) as usize
    }
}

} // verus!
