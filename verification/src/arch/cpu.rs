//! Processor registers and what the processor says of itself.

use vstd::prelude::*;

verus! {

/// In the extended feature enable register: pages may be marked as not
/// executable.
pub const NXE_BIT: u64 = 1 << 11;

/// In control register 0: the kernel, too, cannot write to pages that are
/// not writable.
pub const WRITE_PROTECT: u64 = 1 << 16;

/// The value of the extended feature enable register `efer` with the
/// no-execute feature turned on.
pub fn enable_nxe_bit(efer: u64) -> (enabled: u64)
    ensures
        enabled == efer | NXE_BIT,
{
    efer | NXE_BIT
}

/// The value of control register 0 `cr0` with write protection turned on.
pub fn enable_write_protect_bit(cr0: u64) -> (enabled: u64)
    ensures
        enabled == cr0 | WRITE_PROTECT,
{
    cr0 | WRITE_PROTECT
}

/// The size in bytes of a cache of `sets` sets, each of `associativity`
/// ways of `partitions` lines of `line_size` bytes. The size must fit into
/// a `usize`.
pub fn cache_size(associativity: usize, partitions: usize, line_size: usize, sets: usize) -> (size:
    usize)
    requires
        associativity * partitions * line_size * sets <= usize::MAX,
    ensures
        size == associativity * partitions * line_size * sets,
{
    assert(associativity * partitions <= associativity * partitions * line_size * sets
        || associativity * partitions * line_size * sets == 0) by (nonlinear_arith);
    assert(associativity * partitions * line_size <= associativity * partitions * line_size * sets
        || associativity * partitions * line_size * sets == 0) by (nonlinear_arith);
    assert(associativity * partitions * line_size * sets == 0 ==> associativity * partitions == 0
        || line_size == 0 || sets == 0) by (nonlinear_arith);
    if line_size == 0 || sets == 0 {
        assert(associativity * partitions * line_size * sets == 0) by (nonlinear_arith)
            requires
                line_size == 0 || sets == 0,
        ;
        return 0;
    }
    let ways = associativity * partitions;
    let lines = ways * line_size;
    lines * sets
}

} // verus!
