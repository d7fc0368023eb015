//! The entry point of a table walk.

use vstd::prelude::*;
use crate::memory::paging::table::{Level4, Table, TableMemory};

verus! {

/// Holds the level 4 table, from which every walk starts.
pub struct Mapper {
    p4: Table<Level4>,
}

impl Mapper {
    /// The level 4 table.
    pub closed spec fn p4_table(&self) -> Table<Level4> {
        self.p4
    }

    /// A mapper for the tables of `memory`.
    pub fn new(memory: &TableMemory) -> (mapper: Mapper)
        requires
            memory.wf(),
        ensures
            mapper.p4_table().valid_in(memory),
            mapper.p4_table().address() == memory.root(),
    {
        Mapper { p4: memory.root_table() }
    }

    /// The level 4 table.
    pub fn p4(&self) -> (table: &Table<Level4>)
        ensures
            *table == self.p4_table(),
    {
        &self.p4
    }
}

} // verus!
