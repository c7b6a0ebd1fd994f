//! The principal variation: for each ply the best line found from there.

use crate::chess::{uci_text, Move};
use vstd::prelude::*;

verus! {

/// The plies that the table has a line for.
pub const PV_PLIES: usize = 64;

/// A triangular table of lines. The line of ply `p` stands in row `p` from
/// column `p` up to `length[p]`.
pub struct PvTable {
    pub length: Vec<usize>,
    pub table: Vec<Vec<Option<Move>>>,
}

/// The text of a slot of a line: the move in the notation of the protocol,
/// or nothing for an empty slot.
pub open spec fn slot_text(slot: Option<Move>) -> Seq<char> {
    match slot {
        Some(m) => uci_text(m),
        None => Seq::empty(),
    }
}

/// The row of a ply after a move became the best of the ply: the move at
/// the place of the ply, after it what the row of the next ply holds up to
/// that row's length `end`, and else what the row held.
pub open spec fn row_with(
    own: Seq<Option<Move>>,
    below: Seq<Option<Move>>,
    ply: int,
    end: int,
    m: Move,
) -> Seq<Option<Move>> {
    Seq::new(
        PV_PLIES as nat,
        |j: int|
            if j == ply {
                Some(m)
            } else if ply < j < end {
                below[j]
            } else {
                own[j]
            },
    )
}

impl PvTable {
    /// The rows of the table, ply by ply.
    pub open spec fn rows(&self) -> Seq<Seq<Option<Move>>> {
        Seq::new(PV_PLIES as nat, |p: int| self.table[p]@)
    }

    /// The table has a length and a row of slots for each ply, and no line
    /// ends beyond its row.
    pub open spec fn wf(&self) -> bool {
        &&& self.length.len() == PV_PLIES
        &&& self.table.len() == PV_PLIES
        &&& forall|p: int| 0 <= p < PV_PLIES ==> (#[trigger] self.table[p]).len() == PV_PLIES
        &&& forall|p: int| 0 <= p < PV_PLIES ==> #[trigger] self.length[p] <= PV_PLIES
        &&& forall|p: int, j: int|
            0 <= p < PV_PLIES && 0 <= j < PV_PLIES ==> (#[trigger] self.table[p][j] matches Some(m)
                ==> m.wf())
    }

    /// The line of a ply: empty where the ply has no best move yet.
    pub open spec fn line(&self, ply: int) -> Seq<Option<Move>> {
        if self.length[ply] <= ply {
            Seq::empty()
        } else {
            self.table[ply]@.subrange(ply, self.length[ply] as int)
        }
    }

    /// A table with no line at any ply.
    pub fn default() -> (r: PvTable)
        ensures
            r.wf(),
            forall|p: int| 0 <= p < PV_PLIES ==> #[trigger] r.length[p] == 0,
            forall|p: int, j: int|
                0 <= p < PV_PLIES && 0 <= j < PV_PLIES ==> #[trigger] r.table[p][j] is None,
    {
        let mut length: Vec<usize> = Vec::new();
        let mut table: Vec<Vec<Option<Move>>> = Vec::new();
        let mut p: usize = 0;
        while p < PV_PLIES
            invariant
                p <= PV_PLIES,
                length.len() == p,
                table.len() == p,
                forall|i: int| 0 <= i < p ==> #[trigger] length[i] == 0,
                forall|i: int| 0 <= i < p ==> (#[trigger] table[i]).len() == PV_PLIES,
                forall|i: int, j: int|
                    0 <= i < p && 0 <= j < PV_PLIES ==> #[trigger] table[i][j] is None,
            decreases PV_PLIES - p,
        {
            let mut row: Vec<Option<Move>> = Vec::new();
            let mut j: usize = 0;
            while j < PV_PLIES
                invariant
                    j <= PV_PLIES,
                    row.len() == j,
                    forall|k: int| 0 <= k < j ==> #[trigger] row[k] is None,
                decreases PV_PLIES - j,
            {
                row.push(None);
                j += 1;
            }
            table.push(row);
            length.push(0);
            p += 1;
        }
        PvTable { length, table }
    }

    /// Makes a move the best of its ply: the line of the ply becomes the
    /// move and, after it, the line of the next ply.
    pub fn store(&mut self, ply: usize, m: Move)
        requires
            old(self).wf(),
            ply + 1 < PV_PLIES,
            m.wf(),
        ensures
            final(self).wf(),
            final(self).length@ == old(self).length@.update(
                ply as int,
                old(self).length[ply + 1],
            ),
            forall|p: int|
                0 <= p < PV_PLIES && p != ply ==>
                    #[trigger] final(self).table[p] == old(self).table[p],
            final(self).table[ply as int][ply as int] == Some(m),
            forall|j: int|
                ply < j < old(self).length[ply + 1] ==>
                    #[trigger] final(self).table[ply as int][j] == old(self).table[ply + 1][j],
            forall|j: int|
                0 <= j < PV_PLIES && j != ply && !(ply < j < old(self).length[ply + 1]) ==>
                    #[trigger] final(self).table[ply as int][j] == old(self).table[ply as int][j],
            old(self).length[ply + 1] > ply ==> final(self).line(ply as int) == seq![Some(m)]
                + old(self).line(ply + 1),
            final(self).rows() == old(self).rows().update(
                ply as int,
                row_with(
                    old(self).rows()[ply as int],
                    old(self).rows()[ply + 1],
                    ply as int,
                    old(self).length[ply + 1] as int,
                    m,
                ),
            ),
    {
        self.table[ply][ply] = Some(m);
        let end = self.length[ply + 1];
        let mut next: usize = ply + 1;
        while next < end
            invariant
                ply + 1 < PV_PLIES,
                ply + 1 <= next,
                end == old(self).length[ply + 1],
                end <= PV_PLIES,
                self.wf(),
                self.length == old(self).length,
                forall|p: int|
                    0 <= p < PV_PLIES && p != ply ==>
                        #[trigger] self.table[p] == old(self).table[p],
                self.table[ply as int][ply as int] == Some(m),
                forall|j: int|
                    ply < j < next && j < end ==>
                        #[trigger] self.table[ply as int][j] == old(self).table[ply + 1][j],
                forall|j: int|
                    0 <= j < PV_PLIES && j != ply && !(ply < j < next && j < end)
                        ==> #[trigger] self.table[ply as int][j] == old(self).table[ply as int][j],
            decreases PV_PLIES - next,
        {
            let below = self.table[ply + 1][next];
            self.table[ply][next] = below;
            next += 1;
        }
        self.length[ply] = end;
        proof {
            if end > ply {
                assert(self.line(ply as int) =~= seq![Some(m)] + old(self).line(ply + 1));
            }
            let row = row_with(
                old(self).rows()[ply as int],
                old(self).rows()[ply + 1],
                ply as int,
                end as int,
                m,
            );
            assert(self.table[ply as int]@ =~= row);
            assert(self.rows() =~= old(self).rows().update(ply as int, row));
        }
    }

    /// Cuts the line of a ply down to nothing.
    pub fn update_length(&mut self, ply: usize)
        requires
            old(self).wf(),
            ply < PV_PLIES,
        ensures
            final(self).wf(),
            final(self).table == old(self).table,
            final(self).length@ == old(self).length@.update(ply as int, ply),
            final(self).line(ply as int) == Seq::<Option<Move>>::empty(),
    {
        self.length[ply] = ply;
    }

    /// The line of the root in the notation of the protocol, move by move.
    pub fn collect(&self) -> (r: Vec<String>)
        requires
            self.wf(),
        ensures
            r.len() == self.line(0).len(),
            forall|i: int| 0 <= i < r.len() ==> (#[trigger] r[i])@ == slot_text(self.line(0)[i]),
    {
        let mut out: Vec<String> = Vec::new();
        let end = self.length[0];
        let mut i: usize = 0;
        while i < end
            invariant
                self.wf(),
                end == self.length[0],
                i <= end,
                out.len() == i,
                forall|k: int| 0 <= k < i ==> (#[trigger] out[k])@ == slot_text(self.table[0][k]),
            decreases end - i,
        {
            let text = match self.table[0][i] {
                Some(m) => m.to_uci(),
                None => String::new(),
            };
            out.push(text);
            i += 1;
        }
        out
    }

    /// The first move of the line of the root.
    pub fn get_best_move(&self) -> (r: Option<Move>)
        requires
            self.wf(),
        ensures
            r == self.table[0][0],
    {
        self.table[0][0]
    }
}

} // verus!
