//! The killer moves: for each ply the latest quiet moves that cut a search
//! off there.

use crate::chess::Move;
use vstd::prelude::*;

verus! {

/// The plies that keep killer moves.
pub const KILLER_PLIES: usize = 64;

/// For each ply up to two moves, the latest first.
pub struct Killers {
    pub table: Vec<Vec<Move>>,
}

/// The killers of a ply after a move cut a search off there: unchanged where
/// the move is the first killer already, else the move and after it the
/// killer that was first.
pub open spec fn killers_after(killers: Seq<Move>, m: Move) -> Seq<Move> {
    if killers.len() > 0 && killers[0] == m {
        killers
    } else if killers.len() > 0 {
        seq![m, killers[0]]
    } else {
        seq![m]
    }
}

impl Killers {
    /// There is a list for each ply, of two moves at most, and two moves of
    /// one list differ.
    pub open spec fn wf(&self) -> bool {
        &&& self.table.len() == KILLER_PLIES
        &&& forall|p: int|
            0 <= p < KILLER_PLIES ==> (#[trigger] self.table[p]).len() <= 2 && (self.table[p].len()
                == 2 ==> self.table[p][0] != self.table[p][1])
    }

    /// The killers of a ply.
    pub open spec fn at(&self, ply: int) -> Seq<Move> {
        self.table[ply]@
    }

    /// The killers, ply by ply.
    pub open spec fn lists(&self) -> Seq<Seq<Move>> {
        Seq::new(KILLER_PLIES as nat, |p: int| self.table[p]@)
    }

    /// A table with no killer at any ply.
    pub fn new() -> (r: Killers)
        ensures
            r.wf(),
            forall|p: int| 0 <= p < KILLER_PLIES ==> #[trigger] r.at(p) == Seq::<Move>::empty(),
    {
        let mut table: Vec<Vec<Move>> = Vec::new();
        let mut p: usize = 0;
        while p < KILLER_PLIES
            invariant
                p <= KILLER_PLIES,
                table.len() == p,
                forall|i: int| 0 <= i < p ==> (#[trigger] table[i])@ == Seq::<Move>::empty(),
            decreases KILLER_PLIES - p,
        {
            table.push(Vec::new());
            p += 1;
        }
        Killers { table }
    }

    /// The killers of a ply.
    pub fn get(&self, ply: usize) -> (r: &Vec<Move>)
        requires
            self.wf(),
            ply < KILLER_PLIES,
        ensures
            r@ == self.at(ply as int),
            r.len() <= 2,
    {
        &self.table[ply]
    }

    /// Whether a move is a killer of a ply.
    pub fn contains(&self, ply: usize, m: Move) -> (r: bool)
        requires
            self.wf(),
            ply < KILLER_PLIES,
        ensures
            r == self.at(ply as int).contains(m),
    {
        let list = &self.table[ply];
        let mut i: usize = 0;
        while i < list.len()
            invariant
                i <= list.len(),
                list@ == self.at(ply as int),
                forall|j: int| 0 <= j < i ==> list[j] != m,
            decreases list.len() - i,
        {
            if list[i].same(m) {
                assert(list@[i as int] == m);
                return true;
            }
            i += 1;
        }
        false
    }

    /// Records that a move cut a search off at a ply. A ply beyond the table
    /// is not recorded.
    pub fn store(&mut self, ply: usize, m: Move)
        requires
            old(self).wf(),
        ensures
            final(self).wf(),
            ply >= KILLER_PLIES ==> final(self).table == old(self).table,
            ply < KILLER_PLIES ==> final(self).at(ply as int) == killers_after(
                old(self).at(ply as int),
                m,
            ),
            forall|p: int|
                0 <= p < KILLER_PLIES && p != ply ==>
                    #[trigger] final(self).table[p] == old(self).table[p],
            ply < KILLER_PLIES ==> final(self).lists() == old(self).lists().update(
                ply as int,
                killers_after(old(self).at(ply as int), m),
            ),
    {
        if ply >= KILLER_PLIES {
            return ;
        }
        let mut list: Vec<Move> = Vec::new();
        list.push(m);
        if self.table[ply].len() > 0 {
            let first = self.table[ply][0];
            if first.same(m) {
                proof {
                    assert(self.lists().update(ply as int, killers_after(self.at(ply as int), m))
                        =~= self.lists());
                }
                return ;
            }
            list.push(first);
        }
        proof {
            assert(list@ =~= killers_after(self.at(ply as int), m));
        }
        self.table[ply] = list;
        proof {
            assert(self.lists() =~= old(self).lists().update(
                ply as int,
                killers_after(old(self).at(ply as int), m),
            ));
        }
    }
}

} // verus!
