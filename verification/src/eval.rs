//! The static evaluation of a position.

use crate::chess::{Board, Color, Piece, Role};
use crate::nnue::{NNUEState, Network, EVAL_LIMIT};
use crate::position::{count_below, count_positive_iff_present, Position};
use vstd::prelude::*;

verus! {

/// The static evaluator.
pub struct Eval {}

/// Whether a square holds a knight, a bishop, a rook or a queen of a side.
pub open spec fn is_officer(occupant: Option<Piece>, color: Color) -> bool {
    occupant matches Some(piece) && piece.color == color && piece.role != Role::Pawn
        && piece.role != Role::King
}

/// Whether a side has a knight, a bishop, a rook or a queen on the board.
pub open spec fn has_officer(board: Board, color: Color) -> bool {
    exists|sq: int| 0 <= sq < 64 && is_officer(#[trigger] board[sq], color)
}

/// The evaluation of a board for the side to move by a network: the output
/// for the accumulator of that side and the accumulator of the other.
pub open spec fn static_eval_of(net: &Network, state: &NNUEState, turn: Color) -> int {
    match turn {
        Color::White => net.spec_evaluate(state.top().white@, state.top().black@),
        Color::Black => net.spec_evaluate(state.top().black@, state.top().white@),
    }
}

impl Eval {
    /// Whether the side to move has a piece other than pawns and its king.
    pub fn has_pieces(pos: &Position) -> (r: bool)
        ensures
            r == has_officer(pos.board(), pos.spec_turn()),
    {
        let color = pos.turn();
        let material = pos.material_side(color);
        let found = material.knight > 0 || material.bishop > 0 || material.rook > 0
            || material.queen > 0;
        proof {
            let board = pos.board();
            count_positive_iff_present(board, Piece { color, role: Role::Knight }, 64);
            count_positive_iff_present(board, Piece { color, role: Role::Bishop }, 64);
            count_positive_iff_present(board, Piece { color, role: Role::Rook }, 64);
            count_positive_iff_present(board, Piece { color, role: Role::Queen }, 64);
            if found {
                let role = if material.knight > 0 {
                    Role::Knight
                } else if material.bishop > 0 {
                    Role::Bishop
                } else if material.rook > 0 {
                    Role::Rook
                } else {
                    Role::Queen
                };
                assert(count_below(board, Piece { color, role }, 64) > 0);
                let sq = choose|sq: int| 0 <= sq < 64 && board[sq] == Some(Piece { color, role });
                assert(is_officer(board[sq], color));
            } else {
                assert forall|sq: int| 0 <= sq < 64 implies !is_officer(
                    #[trigger] board[sq],
                    color,
                ) by {
                    if let Some(piece) = board[sq] {
                        if piece.color == color && piece.role != Role::Pawn && piece.role
                            != Role::King {
                            assert(board[sq] == Some(Piece { color, role: piece.role }));
                            assert(count_below(board, Piece { color, role: piece.role }, 64) > 0);
                        }
                    }
                }
            }
        }
        found
    }

    /// The network's evaluation of the position that the accumulators at
    /// `current` belong to, for the side to move.
    pub fn nnue_eval(state: &NNUEState, pos: &Position, net: &Network) -> (r: i32)
        requires
            net.wf(),
            state.wf(net),
        ensures
            r == static_eval_of(net, state, pos.spec_turn()),
            -EVAL_LIMIT <= r <= EVAL_LIMIT,
    {
        let couple = &state.stack[state.current];
        match pos.turn() {
            Color::White => net.evaluate(&couple.white, &couple.black),
            Color::Black => net.evaluate(&couple.black, &couple.white),
        }
    }
}

} // verus!
