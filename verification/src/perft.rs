//! Counting the lines of legal moves, to try the move generator.

use crate::position::Position;
use vstd::prelude::*;

verus! {

/// The number of lines of `depth` legal moves from a position that begin
/// with one of its first `n` legal moves; with every legal move where `n` is
/// their number. The one line of no moves is counted as a line.
pub open spec fn lines_through(pos: Position, depth: nat, n: int) -> nat
    decreases depth, n,
{
    if depth == 0 {
        1
    } else if n <= 0 {
        0
    } else {
        let child = pos.spec_play(pos.spec_legal_moves()[n - 1]);
        lines_through(pos, depth, n - 1) + lines_through(
            child,
            (depth - 1) as nat,
            child.spec_legal_moves().len() as int,
        )
    }
}

/// The number of lines of `depth` legal moves from a position.
pub open spec fn lines_from(pos: Position, depth: nat) -> nat {
    lines_through(pos, depth, pos.spec_legal_moves().len() as int)
}

/// The lines of one move are the legal moves.
pub proof fn lines_of_one_move(pos: Position, n: int)
    requires
        0 <= n <= pos.spec_legal_moves().len(),
    ensures
        lines_through(pos, 1, n) == n,
    decreases n,
{
    if n > 0 {
        lines_of_one_move(pos, n - 1);
        let child = pos.spec_play(pos.spec_legal_moves()[n - 1]);
        assert(lines_through(child, 0, child.spec_legal_moves().len() as int) == 1);
    }
}

/// Counts the lines of `depth` legal moves from a position. The count
/// stops at the largest number it can hold.
pub fn perft(pos: &Position, depth: u32) -> (r: u64)
    ensures
        r == (if lines_from(*pos, depth as nat) > u64::MAX {
            u64::MAX as nat
        } else {
            lines_from(*pos, depth as nat)
        }),
    decreases depth,
{
    if depth < 1 {
        return 1;
    }
    let moves = pos.legal_moves();
    if depth == 1 {
        proof {
            lines_of_one_move(*pos, moves.len() as int);
        }
        return moves.len() as u64;
    }
    let mut total: u64 = 0;
    let mut i: usize = 0;
    while i < moves.len()
        invariant
            i <= moves.len(),
            depth > 1,
            moves@ == pos.spec_legal_moves(),
            forall|k: int| 0 <= k < moves.len() ==>
                (#[trigger] moves[k]).wf() && pos.is_legal(moves[k]),
            total == (if lines_through(*pos, depth as nat, i as int) > u64::MAX {
                u64::MAX as nat
            } else {
                lines_through(*pos, depth as nat, i as int)
            }),
        decreases moves.len() - i,
    {
        let child = pos.play(moves[i]);
        let below = perft(&child, depth - 1);
        total = if below > u64::MAX - total {
            u64::MAX
        } else {
            total + below
        };
        i += 1;
    }
    total
}

} // verus!
