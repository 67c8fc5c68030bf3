//! The module descriptor the layout engine reads its entity counts from:
//! for each kind the imported entities come first, so a count of imports
//! splits every entity list into its imported and its defined part.

use vstd::prelude::*;
use crate::types::{Global, Memory, Table};

verus! {

/// Aggregated declared entities of one module, with the counts of the
/// imported prefix of each entity list.
#[derive(Clone, Debug)]
pub struct Module {
    /// The number of imported functions.
    pub num_imported_funcs: usize,
    /// The number of imported tables.
    pub num_imported_tables: usize,
    /// The number of imported memories.
    pub num_imported_memories: usize,
    /// The number of imported globals.
    pub num_imported_globals: usize,
    /// All tables, imported first.
    pub table_plans: Vec<Table>,
    /// All memories, imported first.
    pub memory_plans: Vec<Memory>,
    /// All globals, imported first.
    pub globals: Vec<Global>,
    /// The number of functions whose address escapes into a `func_refs`
    /// slot.
    pub num_escaped_funcs: usize,
}

/// How many of the memories after the imported prefix are unshared and
/// therefore owned by the instance itself.
pub open spec fn count_owned_memories(memories: Seq<Memory>, skip: int) -> int
    decreases memories.len() - skip,
{
    if skip < 0 || memories.len() <= skip {
        0
    } else {
        count_owned_memories(memories, skip + 1) + if memories[skip].shared {
            0int
        } else {
            1int
        }
    }
}

/// The owned count never exceeds the number of entries it was counted
/// over.
pub proof fn lemma_count_owned_memories_bound(memories: Seq<Memory>, skip: int)
    requires
        0 <= skip <= memories.len(),
    ensures
        0 <= count_owned_memories(memories, skip) <= memories.len() - skip,
    decreases memories.len() - skip,
{
    if skip < memories.len() {
        lemma_count_owned_memories_bound(memories, skip + 1);
    }
}

impl Module {
    /// The counts are counts of prefixes: no entity list is shorter than
    /// its imported part, and every count fits the `u32` index domain.
    pub open spec fn wf(self) -> bool {
        &&& self.num_imported_funcs <= u32::MAX
        &&& self.num_imported_tables <= self.table_plans@.len()
        &&& self.num_imported_memories <= self.memory_plans@.len()
        &&& self.num_imported_globals <= self.globals@.len()
        &&& self.table_plans@.len() <= u32::MAX
        &&& self.memory_plans@.len() <= u32::MAX
        &&& self.globals@.len() <= u32::MAX
        &&& self.num_escaped_funcs <= u32::MAX
    }

    /// Count the memories owned by the instance: the unshared ones among
    /// the defined (non-imported) memories.
    pub fn num_owned_memories(&self) -> (r: usize)
        requires
            self.wf(),
        ensures
            r == count_owned_memories(self.memory_plans@, self.num_imported_memories as int),
            r <= self.memory_plans@.len(),
    {
        proof {
            lemma_count_owned_memories_bound(
                self.memory_plans@,
                self.num_imported_memories as int,
            );
        }
        let mut count: usize = 0;
        let mut i: usize = self.memory_plans.len();
        while i > self.num_imported_memories
        invariant
            self.wf(),
            self.num_imported_memories <= i <= self.memory_plans@.len(),
            count == count_owned_memories(self.memory_plans@, i as int),
            count <= self.memory_plans@.len() - i,
        decreases i,
        {
            i = i - 1;
            if !self.memory_plans[i].shared {
                count = count + 1;
            }
        }
        count
    }
}

} // verus!
