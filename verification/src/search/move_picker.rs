//! Move ordering: the moves of a node, the most promising first.

use crate::chess::Move;
use crate::config::Config;
use crate::search::history::HistoryTable;
use crate::search::killers::{Killers, KILLER_PLIES};
use crate::search::tt::TranspositionTableEntry;
use crate::search::SearchState;
use vstd::prelude::*;

verus! {

/// The weight of the ranks that come before the ranks by history.
pub const MO_FACTOR: i32 = 10000;

/// The moves of a node in the order in which they are searched.
pub struct MovePicker {
    pub order: Vec<Move>,
    pub curr: usize,
}

/// The rank of a move: that of the transposition table's move where it is
/// that move; else for a capture the weighted role of the piece taken less
/// the role of the piece that takes; else that of a killer where it is one;
/// else for a promotion the role the pawn is promoted to; else the credit
/// that the history gives it.
pub open spec fn importance(
    cfg: &Config,
    killers: Seq<Move>,
    hist: &HistoryTable,
    tt_move: Option<Move>,
    m: Move,
) -> int {
    ranked(cfg, killers, hist.credit(m.spec_role(), m.spec_to()) as int, tt_move, m)
}

/// The rank of a move, given the credit that the history gives it.
pub open spec fn ranked(
    cfg: &Config,
    killers: Seq<Move>,
    credit: int,
    tt_move: Option<Move>,
    m: Move,
) -> int {
    if tt_move == Some(m) {
        cfg.mo_tt_entry_value.value * MO_FACTOR
    } else if m.spec_is_capture() {
        (cfg.mo_capture_value.value * m.spec_capture().unwrap().spec_code() - m.spec_role().spec_code())
            * MO_FACTOR
    } else if killers.contains(m) {
        cfg.mo_killer_value.value * MO_FACTOR
    } else if m.spec_is_promotion() {
        m.spec_promotion().unwrap().spec_code() as int
    } else {
        credit
    }
}

/// The ranks of the moves of a node.
pub open spec fn rank_at(state: &SearchState, entry: &TranspositionTableEntry, ply: usize) -> spec_fn(
    Move,
) -> int {
    |m: Move| importance(&state.cfg, killers_at(&state.km, ply), &state.hist, entry._move, m)
}

/// The killers that count for a ply: those of the ply, none beyond the
/// plies that keep killers.
pub open spec fn killers_at(km: &Killers, ply: usize) -> Seq<Move> {
    if ply < KILLER_PLIES {
        km.at(ply as int)
    } else {
        Seq::empty()
    }
}

/// `sorted` holds the moves of `moves` with the higher rank first, and moves
/// of one rank in the order they have in `moves`; `from` says for each place
/// of `sorted` the place in `moves` that its move comes from.
pub open spec fn ordered_by(
    moves: Seq<Move>,
    sorted: Seq<Move>,
    rank: spec_fn(Move) -> int,
    from: Seq<int>,
) -> bool {
    &&& sorted.len() == moves.len()
    &&& from.len() == moves.len()
    &&& forall|i: int| 0 <= i < from.len() ==> 0 <= #[trigger] from[i] < moves.len()
    &&& forall|i: int, j: int| 0 <= i < j < from.len() ==> #[trigger] from[i] != #[trigger] from[j]
    &&& forall|i: int| 0 <= i < sorted.len() ==> #[trigger] sorted[i] == moves[from[i]]
    &&& forall|i: int, j: int|
        0 <= i < j < sorted.len() ==> rank(#[trigger] sorted[i]) > rank(#[trigger] sorted[j]) || (
        rank(sorted[i]) == rank(sorted[j]) && from[i] < from[j])
}

/// The place at which a move of a rank goes into moves that stand by
/// falling rank: behind every move of its rank or a higher one.
pub open spec fn place_for(sorted: Seq<int>, rank: int) -> int
    decreases sorted.len(),
{
    if sorted.len() > 0 && sorted.last() < rank {
        place_for(sorted.drop_last(), rank)
    } else {
        sorted.len() as int
    }
}

/// The first `k` moves by falling rank, and their ranks: each move in turn
/// goes to its place among those before it.
pub open spec fn picked_of(moves: Seq<Move>, ranks: Seq<int>, k: int) -> (Seq<Move>, Seq<int>)
    decreases k,
{
    if k <= 0 {
        (Seq::empty(), Seq::empty())
    } else {
        let before = picked_of(moves, ranks, k - 1);
        let at = place_for(before.1, ranks[k - 1]);
        (before.0.insert(at, moves[k - 1]), before.1.insert(at, ranks[k - 1]))
    }
}

/// The moves in the order in which they are searched, given the rank of
/// each: by falling rank, and moves of one rank in the order they came in.
pub open spec fn picked(moves: Seq<Move>, ranks: Seq<int>) -> Seq<Move> {
    picked_of(moves, ranks, moves.len() as int).0
}

/// The ranks of moves under a way of ranking.
pub open spec fn ranks_under(moves: Seq<Move>, rank: spec_fn(Move) -> int) -> Seq<int> {
    Seq::new(moves.len(), |k: int| rank(moves[k]))
}

impl MovePicker {
    /// The rank of a move at a node.
    pub fn move_importance(
        state: &SearchState,
        entry: &TranspositionTableEntry,
        ply: usize,
        m: Move,
    ) -> (r: i32)
        requires
            state.cfg.wf(),
            state.km.wf(),
            state.hist.wf(),
            m.wf(),
        ensures
            r == importance(&state.cfg, killers_at(&state.km, ply), &state.hist, entry._move, m),
    {
        match entry._move {
            Some(tt_move) => {
                if m.same(tt_move) {
                    return state.cfg.mo_tt_entry_value.value * MO_FACTOR;
                }
            },
            None => {},
        }
        match m.capture() {
            Some(captured) => {
                let moving_piece_value = m.role().code() as i32;
                let captured_piece_value = captured.code() as i32;
                assert(0 <= state.cfg.mo_capture_value.value * captured_piece_value <= 3000)
                    by (nonlinear_arith)
                    requires
                        0 <= state.cfg.mo_capture_value.value <= 500,
                        1 <= captured_piece_value <= 6,
                ;
                return (state.cfg.mo_capture_value.value * captured_piece_value
                    - moving_piece_value) * MO_FACTOR;
            },
            None => {},
        }
        if ply < KILLER_PLIES && state.km.contains(ply, m) {
            return state.cfg.mo_killer_value.value * MO_FACTOR;
        }
        match m.promotion() {
            Some(role) => {
                return role.code() as i32;
            },
            None => {},
        }
        state.hist.get(m.role(), m.to())
    }

    /// A picker that hands the moves out by falling rank; moves of one rank
    /// come in the order in which they were given.
    pub fn new(
        moves: &Vec<Move>,
        state: &SearchState,
        entry: &TranspositionTableEntry,
        ply: usize,
    ) -> (r: MovePicker)
        requires
            state.cfg.wf(),
            state.km.wf(),
            state.hist.wf(),
            forall|i: int| 0 <= i < moves.len() ==> (#[trigger] moves[i]).wf(),
        ensures
            r.curr == 0,
            exists|from: Seq<int>| #[trigger]
                ordered_by(moves@, r.order@, rank_at(state, entry, ply), from),
            r.order@ == picked(moves@, ranks_under(moves@, rank_at(state, entry, ply))),
    {
        let ghost rank = rank_at(state, entry, ply);
        let ghost ranks = ranks_under(moves@, rank);
        let mut order: Vec<Move> = Vec::new();
        let mut scores: Vec<i32> = Vec::new();
        let ghost mut from: Seq<int> = Seq::empty();
        let mut k: usize = 0;
        while k < moves.len()
            invariant
                k <= moves.len(),
                state.cfg.wf(),
                state.km.wf(),
                state.hist.wf(),
                forall|i: int| 0 <= i < moves.len() ==> (#[trigger] moves[i]).wf(),
                rank == rank_at(state, entry, ply),
                ranks == ranks_under(moves@, rank),
                order@ == picked_of(moves@, ranks, k as int).0,
                picked_of(moves@, ranks, k as int).1.len() == k,
                forall|i: int|
                    0 <= i < k ==> #[trigger] scores[i] == picked_of(moves@, ranks, k as int).1[i],
                order.len() == k,
                scores.len() == k,
                from.len() == k,
                forall|i: int| 0 <= i < k ==> 0 <= #[trigger] from[i] < k,
                forall|i: int, j: int| 0 <= i < j < k ==> #[trigger] from[i] != #[trigger] from[j],
                forall|i: int| 0 <= i < k ==> #[trigger] order[i] == moves[from[i]],
                forall|i: int| 0 <= i < k ==> #[trigger] scores[i] == rank(order[i]),
                forall|i: int, j: int|
                    0 <= i < j < k ==> #[trigger] scores[i] > #[trigger] scores[j] || (scores[i]
                        == scores[j] && from[i] < from[j]),
            decreases moves.len() - k,
        {
            let m = moves[k];
            let score = MovePicker::move_importance(state, entry, ply, m);
            // The new move goes behind every move of its rank or a higher one.
            let mut at: usize = k;
            let ghost sorted = picked_of(moves@, ranks, k as int).1;
            proof {
                assert(sorted.take(k as int) =~= sorted);
                assert(ranks[k as int] == score);
            }
            while at > 0 && scores[at - 1] < score
                invariant
                    at <= k,
                    scores.len() == k,
                    sorted.len() == k,
                    forall|i: int| 0 <= i < k ==> #[trigger] scores[i] == sorted[i],
                    forall|i: int| at <= i < k ==> #[trigger] scores[i] < score,
                    place_for(sorted, score as int) == place_for(sorted.take(at as int), score as int),
                decreases at,
            {
                proof {
                    assert(sorted.take(at as int).drop_last() =~= sorted.take(at - 1));
                    assert(sorted.take(at as int).last() == scores[at - 1]);
                }
                at -= 1;
            }
            proof {
                if at > 0 {
                    assert(sorted.take(at as int).last() == scores[at - 1]);
                }
                assert(place_for(sorted, score as int) == at);
            }
            let ghost old_order = order@;
            let ghost old_scores = scores@;
            let ghost old_from = from;
            order.insert(at, m);
            scores.insert(at, score);
            proof {
                let next = picked_of(moves@, ranks, k + 1);
                assert(next.0 == old_order.insert(at as int, m));
                assert(next.1 == sorted.insert(at as int, score as int));
                assert forall|i: int| 0 <= i < k + 1 implies #[trigger] scores[i] == next.1[i] by {
                    if i < at {
                        assert(scores[i] == old_scores[i]);
                    } else if i > at {
                        assert(scores[i] == old_scores[i - 1]);
                    }
                }
                from = old_from.insert(at as int, k as int);
                assert forall|i: int| 0 <= i < k + 1 implies #[trigger] order[i] == moves[from[i]]
                    && scores[i] == rank(order[i]) && 0 <= from[i] < k + 1 by {
                    if i < at {
                        assert(order[i] == old_order[i]);
                        assert(from[i] == old_from[i]);
                    } else if i > at {
                        assert(order[i] == old_order[i - 1]);
                        assert(from[i] == old_from[i - 1]);
                    }
                }
                assert forall|i: int, j: int| 0 <= i < j < k + 1 implies #[trigger] from[i]
                    != #[trigger] from[j] by {
                    let a = if i < at { i } else { i - 1 };
                    let b = if j < at { j } else { j - 1 };
                    if i != at && j != at {
                        assert(from[i] == old_from[a] && from[j] == old_from[b]);
                    } else if i == at {
                        assert(from[j] == old_from[b]);
                    } else {
                        assert(from[i] == old_from[a]);
                    }
                }
                assert forall|i: int, j: int| 0 <= i < j < k + 1 implies #[trigger] scores[i]
                    > #[trigger] scores[j] || (scores[i] == scores[j] && from[i] < from[j]) by {
                    let a = if i < at { i } else { i - 1 };
                    let b = if j < at { j } else { j - 1 };
                    if i != at && j != at {
                        assert(scores[i] == old_scores[a] && scores[j] == old_scores[b]);
                        assert(from[i] == old_from[a] && from[j] == old_from[b]);
                    } else if i == at {
                        assert(scores[j] == old_scores[b]);
                        assert(old_scores[b] < score);
                    } else {
                        assert(scores[i] == old_scores[a]);
                        assert(from[i] == old_from[a]);
                        if at > 0 {
                            assert(old_scores[at - 1] >= score);
                            if a < at - 1 {
                                assert(old_scores[a] > old_scores[at - 1] || old_scores[a]
                                    == old_scores[at - 1]);
                            }
                        }
                    }
                }
            }
            k += 1;
        }
        proof {
            assert forall|i: int, j: int| 0 <= i < j < order.len() implies rank(
                #[trigger] order@[i],
            ) > rank(#[trigger] order@[j]) || (rank(order@[i]) == rank(order@[j]) && from[i]
                < from[j]) by {
                assert(scores[i] == rank(order[i]));
                assert(scores[j] == rank(order[j]));
                assert(scores[i] > scores[j] || (scores[i] == scores[j] && from[i] < from[j]));
            }
            assert(ordered_by(moves@, order@, rank, from));
        }
        let picker = MovePicker { order, curr: 0 };
        proof {
            assert(ordered_by(moves@, picker.order@, rank_at(state, entry, ply), from));
        }
        picker
    }

    /// The next move, while there is one.
    pub fn next(&mut self) -> (r: Option<Move>)
        ensures
            final(self).order == old(self).order,
            old(self).curr < old(self).order.len() ==> r == Some(
                old(self).order[old(self).curr as int],
            ) && final(self).curr == old(self).curr + 1,
            old(self).curr >= old(self).order.len() ==>
                r is None && final(self).curr == old(self).curr,
    {
        if self.curr >= self.order.len() {
            return None;
        }
        let m = self.order[self.curr];
        self.curr += 1;
        Some(m)
    }
}

} // verus!
