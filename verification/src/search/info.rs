//! What a search reports of itself.

use vstd::prelude::*;

verus! {

/// The progress of a search.
pub struct SearchInfo {
    /// The nodes visited so far.
    pub nodes: u32,
    /// The depth of the iteration under way.
    pub depth: u8,
}

impl SearchInfo {
    /// The count after one more node. The count stops at the largest number
    /// it can hold.
    pub open spec fn next_count(nodes: u32) -> u32 {
        if nodes < u32::MAX {
            (nodes + 1) as u32
        } else {
            nodes
        }
    }

    /// Counts one more node.
    pub fn count_node(&mut self)
        ensures
            final(self).nodes == Self::next_count(old(self).nodes),
            final(self).depth == old(self).depth,
    {
        if self.nodes < u32::MAX {
            self.nodes += 1;
        }
    }
}

impl Default for SearchInfo {
    fn default() -> (r: SearchInfo)
        ensures
            r.nodes == 0,
            r.depth == 0,
    {
        SearchInfo { nodes: 0, depth: 0 }
    }
}

} // verus!
