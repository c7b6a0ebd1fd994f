//! Counter moves: for the squares of a move the reply that refuted it.

use crate::chess::{Move, Square};
use vstd::prelude::*;

verus! {

/// For each pair of squares a move, if one was set.
pub struct CounterMovesTable {
    pub table: Vec<Vec<Option<Move>>>,
}

impl CounterMovesTable {
    /// The table has 64 rows of 64 entries.
    pub open spec fn wf(&self) -> bool {
        &&& self.table.len() == 64
        &&& forall|i: int| 0 <= i < 64 ==> (#[trigger] self.table[i]).len() == 64
    }

    /// The move set for a pair of squares.
    pub open spec fn entry(&self, from: Square, to: Square) -> Option<Move> {
        self.table[from.spec_index()][to.spec_index()]
    }

    /// A table with no move set.
    pub fn new() -> (r: CounterMovesTable)
        ensures
            r.wf(),
            forall|from: Square, to: Square|
                from.wf() && to.wf() ==> #[trigger] r.entry(from, to) is None,
    {
        let mut table: Vec<Vec<Option<Move>>> = Vec::new();
        let mut i: usize = 0;
        while i < 64
            invariant
                i <= 64,
                table.len() == i,
                forall|a: int| 0 <= a < i ==> (#[trigger] table[a]).len() == 64,
                forall|a: int, b: int| 0 <= a < i && 0 <= b < 64 ==> #[trigger] table[a][b] is None,
            decreases 64 - i,
        {
            let mut row: Vec<Option<Move>> = Vec::new();
            let mut j: usize = 0;
            while j < 64
                invariant
                    j <= 64,
                    row.len() == j,
                    forall|b: int| 0 <= b < j ==> #[trigger] row[b] is None,
                decreases 64 - j,
            {
                row.push(None);
                j += 1;
            }
            table.push(row);
            i += 1;
        }
        CounterMovesTable { table }
    }

    /// Sets the move for a pair of squares.
    pub fn set(&mut self, from: Square, to: Square, m: Move)
        requires
            old(self).wf(),
            from.wf(),
            to.wf(),
        ensures
            final(self).wf(),
            final(self).entry(from, to) == Some(m),
            forall|f: Square, t: Square|
                f.wf() && t.wf() && (f != from || t != to) ==> #[trigger] final(self).entry(f, t)
                    == old(self).entry(f, t),
    {
        self.table[from.index()][to.index()] = Some(m);
    }

    /// The move set for a pair of squares.
    pub fn get(&self, from: Square, to: Square) -> (r: Option<Move>)
        requires
            self.wf(),
            from.wf(),
            to.wf(),
        ensures
            r == self.entry(from, to),
    {
        self.table[from.index()][to.index()]
    }
}

} // verus!
