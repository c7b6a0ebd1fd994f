//! The search: iterative deepening over a negamax search with alpha-beta
//! pruning, and the quiescence search at its leaves.

use crate::bound::{spec_classify, Bound};
use crate::chess::{
    board_after, castle_king_target, castle_rook_target, en_passant_victim,
    en_passant_victim_square, king_castles_to, rook_castles_to, Board, Color, Move, Piece, RawMove,
    Role, Square,
};
use crate::config::Config;
use crate::eval::{has_officer, static_eval_of, Eval};
use crate::logger::Logger;
use crate::nnue::{
    board_values, lift_piece, place_piece, quot, NNUEState, Network, EVAL_LIMIT, STACK_SIZE,
};
use crate::position::{in_check, only_move_is_the_move, zobrist_of, Position};
use crate::search::history::HistoryTable;
use crate::search::history_stack::{earlier_occurrences, HistoryStackEntry};
use crate::search::info::SearchInfo;
use crate::search::killers::{killers_after, Killers, KILLER_PLIES};
use crate::search::lmr::Reductions;
use crate::search::model::{
    count_after, deepened, iteration, moves_from, node, one_move, pruning, quiet_nodes,
    quiet_nodes_from, searched_on, Setup, Tables,
};
use crate::search::move_picker::{ordered_by, picked, rank_at, ranks_under, MovePicker};
use crate::search::pv::{slot_text, PvTable, PV_PLIES};
use crate::search::tt::TranspositionTableEntry;
use crate::search::params::SearchParams;
use crate::search::{evals_within_mate, score_limit, SearchState, MATE, MAX_PLY};
use crate::text::{append_signed, decimal, join_with_blank, joined, views};
use crate::time_control::time_controller::{soft_stop, TimeController};
use crate::time_control::time_mode::TimeMode;
use vstd::prelude::*;
use vstd::string::StringExecFns;

verus! {

/// The searcher.
pub struct Search {
    pub state: SearchState,
}

/// Whether the table's entry for a position ends the search of the position
/// at once: it is the entry of this very position, of the running search, is
/// not asked for at the root, was searched at least as deep, and its kind of
/// score settles the window.
pub open spec fn spec_tt_cutoff(
    entry: TranspositionTableEntry,
    key: u64,
    generation: u8,
    depth: u8,
    alpha: int,
    beta: int,
    ply: usize,
) -> bool {
    entry.key == key && entry.generation == generation && ply > 0 && entry.depth >= depth
        && entry.bound.spec_confirms(entry.score as int, alpha, beta)
}

pub fn tt_cutoff(
    entry: &TranspositionTableEntry,
    key: u64,
    generation: u8,
    depth: u8,
    alpha: i32,
    beta: i32,
    ply: usize,
) -> (r: bool)
    ensures
        r == spec_tt_cutoff(*entry, key, generation, depth, alpha as int, beta as int, ply),
{
    entry.key == key && entry.generation == generation && ply > 0 && entry.depth >= depth
        && entry.bound.confirms(entry.score, alpha, beta)
}

/// The side to move is improving from the second ply on, when its static
/// evaluation is no lower than the one kept at `ply - 2`; where none is kept
/// there it counts as improving.
pub open spec fn spec_improving(ply: usize, static_eval: int, earlier: Option<i32>) -> bool {
    ply >= 2 && match earlier {
        Some(e) => static_eval >= e,
        None => true,
    }
}

pub fn improving_at(ply: usize, static_eval: i32, earlier: Option<i32>) -> (r: bool)
    ensures
        r == spec_improving(ply, static_eval as int, earlier),
{
    if ply < 2 {
        return false;
    }
    match earlier {
        Some(e) => static_eval >= e,
        None => true,
    }
}

/// A null move search is tried above its depth, away from the root, and
/// only where the side to move has a knight, a bishop, a rook or a queen.
pub open spec fn spec_null_move_applies(cfg: &Config, depth: u8, ply: usize, officer: bool) -> bool {
    depth > cfg.nmp_depth.value && ply > 0 && officer
}

pub fn null_move_applies(cfg: &Config, depth: u8, ply: usize, officer: bool) -> (r: bool)
    ensures
        r == spec_null_move_applies(cfg, depth, ply, officer),
{
    depth > cfg.nmp_depth.value && ply > 0 && officer
}

/// A side with nothing but its king and pawns gets no null move search,
/// whatever the depth and the ply.
pub proof fn null_move_needs_officer(cfg: &Config, depth: u8, ply: usize)
    ensures
        !spec_null_move_applies(cfg, depth, ply, false),
{
}

/// Whether reverse futility pruning ends the search of a node: the depth is
/// within its depth, and the static evaluation is above beta by the margin.
pub open spec fn spec_rfp_applies(
    cfg: &Config,
    depth: u8,
    improving: bool,
    static_eval: int,
    beta: int,
) -> bool {
    depth <= cfg.rfp_depth.value && static_eval >= beta + spec_rfp_margin(cfg, depth, improving)
}

/// The reduction of a null move search: the margin and the depth's share,
/// but no more than the depth.
pub open spec fn spec_null_reduction(cfg: &Config, depth: u8, improving: bool) -> int {
    let divisor = if improving {
        cfg.nmp_divisor_improving.value
    } else {
        cfg.nmp_divisor.value
    };
    let r = cfg.nmp_margin.value as int + depth as int / divisor as int;
    if r > depth {
        depth as int
    } else {
        r
    }
}

pub fn null_reduction(cfg: &Config, depth: u8, improving: bool) -> (r: u8)
    requires
        cfg.wf(),
        depth >= 1,
    ensures
        r == spec_null_reduction(cfg, depth, improving),
        1 <= r <= depth,
{
    let divisor = if improving {
        cfg.nmp_divisor_improving.value
    } else {
        cfg.nmp_divisor.value
    };
    let r: u16 = cfg.nmp_margin.value as u16 + (depth / divisor) as u16;
    if r > depth as u16 {
        depth
    } else {
        r as u8
    }
}

/// The margin of reverse futility pruning: the base margin for each ply of
/// depth, less the reduction for a side that is improving.
pub open spec fn spec_rfp_margin(cfg: &Config, depth: u8, improving: bool) -> int {
    cfg.rfp_base_margin.value * depth - if improving {
        cfg.rfp_reduction_improving.value as int
    } else {
        0
    }
}

pub fn rfp_margin(cfg: &Config, depth: u8, improving: bool) -> (r: i32)
    requires
        cfg.wf(),
    ensures
        r == spec_rfp_margin(cfg, depth, improving),
        -200 <= r <= 51000,
{
    assert(0 <= cfg.rfp_base_margin.value * depth <= 51000) by (nonlinear_arith)
        requires
            1 <= cfg.rfp_base_margin.value <= 200,
            0 <= depth <= 255,
    ;
    let base = cfg.rfp_base_margin.value * (depth as i32);
    if improving {
        base - cfg.rfp_reduction_improving.value
    } else {
        base
    }
}

/// A late move is pruned when it is quiet, the side to move is not in
/// check, and the move's place is at or beyond the margin and the depth's
/// share.
pub open spec fn spec_late_move_pruned(
    cfg: &Config,
    m: Move,
    is_check: bool,
    place: usize,
    depth: u8,
) -> bool {
    !m.spec_is_capture() && !m.spec_is_promotion() && !is_check && place
        >= cfg.lmp_move_margin.value + cfg.lmp_depth_factor.value * depth
}

pub fn late_move_pruned(cfg: &Config, m: Move, is_check: bool, place: usize, depth: u8) -> (r:
    bool)
    requires
        cfg.wf(),
    ensures
        r == spec_late_move_pruned(cfg, m, is_check, place, depth),
{
    assert(0 <= cfg.lmp_depth_factor.value * depth <= 5100) by (nonlinear_arith)
        requires
            1 <= cfg.lmp_depth_factor.value <= 20,
            0 <= depth <= 255,
    ;
    let share: usize = (cfg.lmp_depth_factor.value as usize) * (depth as usize);
    !m.is_capture() && !m.is_promotion() && !is_check && place >= cfg.lmp_move_margin.value
        + share
}

/// A move is reduced when the search is deep enough, the move late enough,
/// and the move gives no check.
pub open spec fn spec_reducible(cfg: &Config, depth: u8, place: usize, gives_check: bool) -> bool {
    depth >= cfg.lmr_depth.value && place >= cfg.lmr_move_margin.value && !gives_check
}

pub fn reducible(cfg: &Config, depth: u8, place: usize, gives_check: bool) -> (r: bool)
    ensures
        r == spec_reducible(cfg, depth, place, gives_check),
{
    depth >= cfg.lmr_depth.value && place >= cfg.lmr_move_margin.value && !gives_check
}

/// Futility pruning sets in when the reduced depth is within its margin and
/// the static evaluation, with the base margin and the margin for each ply
/// of reduced depth, is still below alpha.
pub open spec fn spec_futile(cfg: &Config, depth: u8, r: u8, static_eval: int, alpha: int) -> bool {
    depth - r <= cfg.fp_depth_margin.value && static_eval + (cfg.fp_base_margin.value
        + cfg.fp_margin_depth_factor.value * (depth - r)) < alpha
}

pub fn futile(cfg: &Config, depth: u8, r: u8, static_eval: i32, alpha: i32) -> (res: bool)
    requires
        cfg.wf(),
        r <= depth,
        -EVAL_LIMIT <= static_eval <= EVAL_LIMIT,
    ensures
        res == spec_futile(cfg, depth, r, static_eval as int, alpha as int),
{
    let left = depth - r;
    assert(0 <= cfg.fp_margin_depth_factor.value * left <= 51000) by (nonlinear_arith)
        requires
            1 <= cfg.fp_margin_depth_factor.value <= 200,
            0 <= left <= 255,
    ;
    left <= cfg.fp_depth_margin.value && static_eval + (cfg.fp_base_margin.value
        + cfg.fp_margin_depth_factor.value * (left as i32)) < alpha
}

/// The score of a position without a legal move: mated at this ply where
/// the side to move is in check, a draw where it is not.
pub open spec fn spec_terminal_score(mated: bool, ply: usize) -> int {
    if mated {
        -MATE + ply
    } else {
        0
    }
}

pub fn terminal_score(mated: bool, ply: usize) -> (r: i32)
    requires
        ply <= MAX_PLY,
    ensures
        r == spec_terminal_score(mated, ply),
        -MATE <= r <= 0,
{
    if mated {
        -MATE + ply as i32
    } else {
        0
    }
}

/// Whether a list of moves holds a move.
pub fn holds_move(moves: &Vec<Move>, m: Move) -> (r: bool)
    ensures
        r == moves@.contains(m),
{
    let mut i: usize = 0;
    while i < moves.len()
        invariant
            i <= moves.len(),
            forall|j: int| 0 <= j < i ==> moves[j] != m,
        decreases moves.len() - i,
    {
        if moves[i].same(m) {
            assert(moves@[i as int] == m);
            return true;
        }
        i += 1;
    }
    false
}

/// The nodes searched in a second, from the nodes searched in so many
/// milliseconds. The time counts from the first millisecond on.
pub open spec fn spec_nps(nodes: u32, elapsed: i64) -> int {
    nodes as int * 1000 / (if elapsed < 0 {
        1
    } else {
        elapsed + 1
    })
}

pub fn nps(nodes: u32, elapsed: i64) -> (r: u128)
    ensures
        r == spec_nps(nodes, elapsed),
{
    let millis: u128 = if elapsed < 0 {
        1
    } else {
        elapsed as u128 + 1
    };
    (nodes as u128) * 1000 / millis
}

/// The line that reports a finished iteration.
pub open spec fn info_text(
    depth: u8,
    nodes: u32,
    elapsed: i64,
    score: i32,
    pv: Seq<Seq<char>>,
) -> Seq<char> {
    "info depth "@ + decimal(depth as int) + " nodes "@ + decimal(nodes as int) + " nps "@
        + decimal(spec_nps(nodes, elapsed)) + " score cp "@ + decimal(score as int) + " time "@
        + decimal(elapsed as int) + " pv "@ + joined(pv)
}

/// Whether a line reports a finished iteration of a depth, with whatever
/// nodes, time, score and principal variation.
pub open spec fn reports_depth(line: Seq<char>, depth: int) -> bool {
    exists|nodes: u32, elapsed: i64, score: i32, pv: Seq<Seq<char>>|
        line == #[trigger] info_text(depth as u8, nodes, elapsed, score, pv)
}

/// The line that names the move to play; `0000` where the search found
/// none.
pub open spec fn bestmove_text(best: Option<Move>) -> Seq<char> {
    "bestmove "@ + match best {
        Some(m) => crate::chess::uci_text(m),
        None => "0000"@,
    }
}

/// Builds the line that reports a finished iteration.
pub fn info_line(depth: u8, nodes: u32, elapsed: i64, score: i32, pv: &Vec<String>) -> (r: String)
    ensures
        r@ == info_text(depth, nodes, elapsed, score, views(pv@)),
{
    let mut line = String::from_str("info depth ");
    append_signed(&mut line, depth as i128);
    line.append(" nodes ");
    append_signed(&mut line, nodes as i128);
    line.append(" nps ");
    append_signed(&mut line, nps(nodes, elapsed) as i128);
    line.append(" score cp ");
    append_signed(&mut line, score as i128);
    line.append(" time ");
    append_signed(&mut line, elapsed as i128);
    line.append(" pv ");
    let moves = join_with_blank(pv);
    line.append(moves.as_str());
    line
}

/// Builds the line that names the move to play.
pub fn bestmove_line(best: Option<Move>) -> (r: String)
    requires
        best matches Some(m) ==> m.wf(),
    ensures
        r@ == bestmove_text(best),
{
    let mut line = String::from_str("bestmove ");
    match best {
        Some(m) => {
            let text = m.to_uci();
            line.append(text.as_str());
        },
        None => {
            line.append("0000");
        },
    }
    line
}

impl SearchState {
    /// What no search changes is the same in both states: the network, the
    /// reductions, the options, the game, the limits and the clock.
    pub open spec fn same_setup(&self, other: &SearchState) -> bool {
        &&& self.net == other.net
        &&& self.lmr == other.lmr
        &&& self.cfg == other.cfg
        &&& self.game == other.game
        &&& self.params == other.params
        &&& self.tc == other.tc
        &&& self.tt.length == other.tt.length
        &&& self.tt.generation == other.tt.generation
    }

    /// The tables of the search are the same in both states.
    pub open spec fn same_tables(&self, other: &SearchState) -> bool {
        &&& self.tt == other.tt
        &&& self.pv == other.pv
        &&& self.km == other.km
        &&& self.hist == other.hist
        &&& self.info == other.info
    }
}

impl NNUEState {
    /// The stack stands at the same pair as `other`, and that pair and the
    /// pairs below it are the same.
    pub open spec fn agrees_below(&self, other: &NNUEState) -> bool {
        &&& self.current == other.current
        &&& self.stack.len() == other.stack.len()
        &&& forall|i: int| 0 <= i <= self.current ==> #[trigger] self.stack[i] == other.stack[i]
    }
}

/// The static evaluation of a position for the side to move, by the
/// accumulators that belong to its board.
pub open spec fn position_eval(net: &Network, pos: Position) -> int {
    match pos.spec_turn() {
        Color::White => net.spec_evaluate(
            board_values(net, pos.board(), true),
            board_values(net, pos.board(), false),
        ),
        Color::Black => net.spec_evaluate(
            board_values(net, pos.board(), false),
            board_values(net, pos.board(), true),
        ),
    }
}

impl Search {
    /// A searcher for the starting position, with the default options.
    pub fn new(net: Network, lmr: Reductions) -> (r: Search)
        requires
            net.wf(),
            lmr.wf(),
        ensures
            r.state.wf(),
            r.state.cfg.is_default(),
            r.state.nnue.reflects(&r.state.net, r.state.game.board()),
            r.state.nnue.current == 0,
            r.state.hstack@.len() == 0,
    {
        Search { state: SearchState::new(net, lmr) }
    }

    /// Makes a move in the search: moves on to the next pair of
    /// accumulators, brings it up to the new board, and puts the new
    /// position on the history stack with the evaluation of the position it
    /// was made from. The new position is returned; the accumulators at
    /// `current` belong to it.
    pub fn make_move(&mut self, pos: &Position, m: Move, eval: i32) -> (child: Position)
        requires
            old(self).state.wf(),
            old(self).state.nnue.current + 1 < STACK_SIZE,
            m.wf(),
            pos.is_legal(m),
            old(self).state.nnue.reflects(&old(self).state.net, pos.board()),
        ensures
            final(self).state.wf(),
            final(self).state.same_setup(&old(self).state),
            final(self).state.same_tables(&old(self).state),
            child == pos.spec_play(m),
            child.spec_turn() == pos.spec_turn().spec_other(),
            child.board() == board_after(pos.board(), pos.spec_turn(), m),
            moved_on(&old(self).state.nnue, &final(self).state.nnue),
            final(self).state.nnue.reflects(&final(self).state.net, child.board()),
            final(self).state.hstack@ == old(self).state.hstack@.push(
                HistoryStackEntry { key: zobrist_of(child), eval: Some(eval) },
            ),
    {
        let child = pos.play(m);
        self.state.nnue.push();
        let turn = pos.turn();
        let ghost board = pos.board();
        let ghost net = self.state.net;
        let updated = match m {
            Move::EnPassant { from, to } => self.en_passant_update(pos, turn, from, to),
            Move::Castle { king, rook } => self.castle_update(pos, turn, king, rook),
            Move::Normal { role, from, to, promotion, .. } => self.normal_update(
                pos,
                turn,
                m,
                role,
                from,
                to,
                promotion,
            ),
        };
        if !updated {
            self.state.nnue.rebuild(&self.state.net, &child);
        }
        self.state.hstack.push(child.zobrist(), Some(eval));
        child
    }

    /// Brings the accumulators at `current` up to the board after an en
    /// passant capture: the pawn taken goes, the pawn that takes moves.
    /// Nothing is done, and `false` returned, where the board does not hold
    /// the two pawns where the move says.
    fn en_passant_update(&mut self, pos: &Position, turn: Color, from: Square, to: Square) -> (r:
        bool)
        requires
            old(self).state.wf(),
            from.wf(),
            to.wf(),
            turn == pos.spec_turn(),
            old(self).state.nnue.top().reflects(&old(self).state.net, pos.board()),
        ensures
            final(self).state.wf(),
            final(self).state.same_setup(&old(self).state),
            final(self).state.same_tables(&old(self).state),
            final(self).state.hstack == old(self).state.hstack,
            final(self).state.nnue.same_but_top(&old(self).state.nnue),
            r == en_passant_fits(pos.board(), turn, from, to),
            r ==> final(self).state.nnue.top().reflects(
                &final(self).state.net,
                board_after(pos.board(), turn, Move::EnPassant { from, to }),
            ),
            !r ==> final(self).state.nnue == old(self).state.nnue,
    {
        let victim = en_passant_victim_square(from, to);
        let own = Piece { color: turn, role: Role::Pawn };
        let enemy = Piece { color: turn.other(), role: Role::Pawn };
        let fits = victim.0 != from.0 && victim.0 != to.0 && from.0 != to.0 && pos.piece_at(victim)
            == Some(enemy) && pos.piece_at(from) == Some(own) && pos.piece_at(to).is_none();
        if !fits {
            return false;
        }
        self.state.nnue.manual_update(false, enemy, victim, &self.state.net);
        self.state.nnue.move_update(own, from, to, &self.state.net);
        proof {
            let net = &self.state.net;
            let b0 = pos.board();
            let b1 = b0.update(victim.spec_index(), None);
            let b2 = b1.update(from.spec_index(), None);
            let b3 = b2.update(to.spec_index(), Some(own));
            lift_piece(net, b0, true, victim, enemy);
            lift_piece(net, b0, false, victim, enemy);
            lift_piece(net, b1, true, from, own);
            lift_piece(net, b1, false, from, own);
            place_piece(net, b2, true, to, own);
            place_piece(net, b2, false, to, own);
            assert(b3 == board_after(b0, turn, Move::EnPassant { from, to }));
        }
        true
    }

    /// Brings the accumulators at `current` up to the board after castling:
    /// the king moves to its castled square and the rook to its own.
    /// Nothing is done, and `false` returned, where the board does not hold
    /// king and rook where the move says, or the castled squares are not
    /// free.
    fn castle_update(&mut self, pos: &Position, turn: Color, king: Square, rook: Square) -> (r:
        bool)
        requires
            old(self).state.wf(),
            king.wf(),
            rook.wf(),
            turn == pos.spec_turn(),
            old(self).state.nnue.top().reflects(&old(self).state.net, pos.board()),
        ensures
            final(self).state.wf(),
            final(self).state.same_setup(&old(self).state),
            final(self).state.same_tables(&old(self).state),
            final(self).state.hstack == old(self).state.hstack,
            final(self).state.nnue.same_but_top(&old(self).state.nnue),
            r == castle_fits(pos.board(), turn, king, rook),
            r ==> final(self).state.nnue.top().reflects(
                &final(self).state.net,
                board_after(pos.board(), turn, Move::Castle { king, rook }),
            ),
            !r ==> final(self).state.nnue == old(self).state.nnue,
    {
        let king_to = king_castles_to(king, rook);
        let rook_to = rook_castles_to(king, rook);
        let king_piece = Piece { color: turn, role: Role::King };
        let rook_piece = Piece { color: turn, role: Role::Rook };
        let apart = king.0 != rook.0 && king_to.0 != rook_to.0 && king_to.0 != king.0 && king_to.0
            != rook.0 && rook_to.0 != king.0 && rook_to.0 != rook.0;
        let fits = apart && pos.piece_at(king) == Some(king_piece) && pos.piece_at(rook) == Some(
            rook_piece,
        ) && pos.piece_at(king_to).is_none() && pos.piece_at(rook_to).is_none();
        if !fits {
            return false;
        }
        self.state.nnue.move_update(king_piece, king, king_to, &self.state.net);
        self.state.nnue.move_update(rook_piece, rook, rook_to, &self.state.net);
        proof {
            let net = &self.state.net;
            let b0 = pos.board();
            let b1 = b0.update(king.spec_index(), None);
            let b2 = b1.update(king_to.spec_index(), Some(king_piece));
            let b3 = b2.update(rook.spec_index(), None);
            let b4 = b3.update(rook_to.spec_index(), Some(rook_piece));
            lift_piece(net, b0, true, king, king_piece);
            lift_piece(net, b0, false, king, king_piece);
            place_piece(net, b1, true, king_to, king_piece);
            place_piece(net, b1, false, king_to, king_piece);
            lift_piece(net, b2, true, rook, rook_piece);
            lift_piece(net, b2, false, rook, rook_piece);
            place_piece(net, b3, true, rook_to, rook_piece);
            place_piece(net, b3, false, rook_to, rook_piece);
            assert(b4 =~= board_after(b0, turn, Move::Castle { king, rook }));
        }
        true
    }

    /// Brings the accumulators at `current` up to the board after a move
    /// that is neither castling nor an en passant capture: a piece that is
    /// taken goes, and the moving piece leaves its square and arrives, as
    /// itself or as what it is promoted to. Nothing is done, and `false`
    /// returned, where the board does not hold the pieces where the move
    /// says.
    fn normal_update(
        &mut self,
        pos: &Position,
        turn: Color,
        m: Move,
        role: Role,
        from: Square,
        to: Square,
        promotion: Option<Role>,
    ) -> (r: bool)
        requires
            old(self).state.wf(),
            from.wf(),
            to.wf(),
            turn == pos.spec_turn(),
            m matches Move::Normal { role: r, from: f, to: t, promotion: p, .. } && r == role && f
                == from && t == to && p == promotion,
            old(self).state.nnue.top().reflects(&old(self).state.net, pos.board()),
        ensures
            final(self).state.wf(),
            final(self).state.same_setup(&old(self).state),
            final(self).state.same_tables(&old(self).state),
            final(self).state.hstack == old(self).state.hstack,
            final(self).state.nnue.same_but_top(&old(self).state.nnue),
            r == normal_fits(pos.board(), turn, m),
            r ==> final(self).state.nnue.top().reflects(
                &final(self).state.net,
                board_after(pos.board(), turn, m),
            ),
            !r ==> final(self).state.nnue == old(self).state.nnue,
    {
        let piece = Piece { color: turn, role };
        let target = pos.piece_at(to);
        let fits = from.0 != to.0 && pos.piece_at(from) == Some(piece) && (target.is_none()
            || m.is_capture());
        if !fits {
            return false;
        }
        let ghost net = &self.state.net;
        let ghost b0 = pos.board();
        let ghost b1 = b0.update(to.spec_index(), None);
        match target {
            Some(taken) => {
                if m.is_capture() {
                    self.state.nnue.manual_update(false, taken, to, &self.state.net);
                    proof {
                        lift_piece(net, b0, true, to, taken);
                        lift_piece(net, b0, false, to, taken);
                    }
                }
            },
            None => {
                proof {
                    assert(b1 =~= b0);
                }
            },
        }
        let arrives = match promotion {
            Some(promoted) => Piece { color: turn, role: promoted },
            None => piece,
        };
        let ghost b2 = b1.update(from.spec_index(), None);
        let ghost b3 = b2.update(to.spec_index(), Some(arrives));
        proof {
            lift_piece(net, b1, true, from, piece);
            lift_piece(net, b1, false, from, piece);
            place_piece(net, b2, true, to, arrives);
            place_piece(net, b2, false, to, arrives);
            assert(b3 =~= board_after(b0, turn, m));
        }
        match promotion {
            Some(promoted) => {
                self.state.nnue.manual_update(false, piece, from, &self.state.net);
                self.state.nnue.manual_update(true, arrives, to, &self.state.net);
            },
            None => {
                self.state.nnue.move_update(piece, from, to, &self.state.net);
            },
        }
        true
    }

    /// Takes the last move back: returns to the pair of accumulators below
    /// and takes the position off the history stack.
    pub fn undo_move(&mut self)
        requires
            old(self).state.nnue.current > 0,
        ensures
            final(self).state.same_setup(&old(self).state),
            final(self).state.same_tables(&old(self).state),
            gone_back(&old(self).state.nnue, &final(self).state.nnue),
            old(self).state.hstack@.len() > 0 ==>
                final(self).state.hstack@ == old(self).state.hstack@.drop_last(),
            old(self).state.hstack@.len() == 0 ==>
                final(self).state.hstack@ == old(self).state.hstack@,
    {
        self.state.nnue.pop();
        self.state.hstack.pop();
    }
}

/// Whether a board holds the pawns of an en passant capture where the move
/// says: the pawn that takes on the square it leaves, the pawn that is
/// taken beside it, and nothing on the square it arrives on; and the three
/// squares differ.
pub open spec fn en_passant_fits(board: Board, turn: Color, from: Square, to: Square) -> bool {
    let victim = en_passant_victim(from, to);
    &&& victim != from
    &&& victim != to
    &&& from != to
    &&& board[victim.spec_index()] == Some(Piece { color: turn.spec_other(), role: Role::Pawn })
    &&& board[from.spec_index()] == Some(Piece { color: turn, role: Role::Pawn })
    &&& board[to.spec_index()] is None
}

/// Whether a board holds king and rook of a castling where the move says,
/// with nothing on the squares they castle to; and the four squares differ.
pub open spec fn castle_fits(board: Board, turn: Color, king: Square, rook: Square) -> bool {
    let king_to = castle_king_target(king, rook);
    let rook_to = castle_rook_target(king, rook);
    &&& king != rook
    &&& king_to != rook_to
    &&& king_to != king
    &&& king_to != rook
    &&& rook_to != king
    &&& rook_to != rook
    &&& board[king.spec_index()] == Some(Piece { color: turn, role: Role::King })
    &&& board[rook.spec_index()] == Some(Piece { color: turn, role: Role::Rook })
    &&& board[king_to.spec_index()] is None
    &&& board[rook_to.spec_index()] is None
}

/// Whether a board holds the pieces of a move that is neither castling nor
/// an en passant capture where the move says: the moving piece on the
/// square it leaves, another square to arrive on, and on that square a piece
/// only where the move captures.
pub open spec fn normal_fits(board: Board, turn: Color, m: Move) -> bool {
    &&& m.spec_from() != m.spec_to()
    &&& board[m.spec_from().spec_index()] == Some(Piece { color: turn, role: m.spec_role() })
    &&& board[m.spec_to().spec_index()] is None || m.spec_is_capture()
}

/// The accumulators after a move was made: they stand one pair further, and
/// the pairs up to the one they stood at are as they were.
pub open spec fn moved_on(before: &NNUEState, made: &NNUEState) -> bool {
    &&& made.current == before.current + 1
    &&& made.stack.len() == before.stack.len()
    &&& forall|i: int| 0 <= i <= before.current ==> #[trigger] made.stack[i] == before.stack[i]
}

/// The accumulators after a move was taken back: they stand one pair back,
/// and no pair has changed.
pub open spec fn gone_back(made: &NNUEState, undone: &NNUEState) -> bool {
    made.current > 0 && undone.current == made.current - 1 && undone.stack == made.stack
}

/// Making a move and taking it back restores the accumulators: they stand
/// at the pair they stood at, and every value of that pair and of the pairs
/// below it is what it was.
pub proof fn make_then_undo_restores(before: &NNUEState, made: &NNUEState, undone: &NNUEState)
    requires
        moved_on(before, made),
        gone_back(made, undone),
    ensures
        undone.agrees_below(before),
        undone.top() == before.top(),
        undone.top().white@ == before.top().white@,
        undone.top().black@ == before.top().black@,
{
}

/// Accumulators that were rebuilt from a board and accumulators that were
/// brought up to the same board move by move give the position the same
/// evaluation: that of the board.
pub proof fn rebuilt_equals_incremental(
    net: &Network,
    incremental: &NNUEState,
    rebuilt: &NNUEState,
    pos: Position,
)
    requires
        incremental.reflects(net, pos.board()),
        rebuilt.reflects(net, pos.board()),
    ensures
        static_eval_of(net, incremental, pos.spec_turn()) == static_eval_of(
            net,
            rebuilt,
            pos.spec_turn(),
        ),
        static_eval_of(net, incremental, pos.spec_turn()) == position_eval(net, pos),
{
}

/// A score held within a window.
pub open spec fn clamp(score: int, alpha: int, beta: int) -> int {
    if score < alpha {
        alpha
    } else if score > beta {
        beta
    } else {
        score
    }
}

/// The captures that a quiescence search tries, in its order.
pub open spec fn capture_replies(pos: Position) -> Seq<Move> {
    crate::chess::decode_moves(
        crate::position::raw_legal_moves(pos).filter(|m: RawMove| m.capture is Some),
    )
}

/// The value of a position for the side to move when it may stand pat or
/// answer with one of its first `n` captures, and the other side likewise,
/// `limit` plies down at most: the better of its static evaluation and
/// what each of those captures leaves it with. Where no ply is left the
/// value is the static evaluation.
pub open spec fn stand_value(net: &Network, pos: Position, limit: nat, n: int) -> int
    decreases limit, n,
{
    if limit == 0 || n <= 0 {
        position_eval(net, pos)
    } else {
        let m = capture_replies(pos)[n - 1];
        let child = pos.spec_play(m);
        let before = stand_value(net, pos, limit, n - 1);
        let reply = -stand_value(net, child, (limit - 1) as nat, capture_replies(child).len() as int);
        if reply > before {
            reply
        } else {
            before
        }
    }
}

/// The value of a position in quiescence: the side to move may stand pat or
/// answer with any capture.
pub open spec fn quiet_value(net: &Network, pos: Position, limit: nat) -> int {
    stand_value(net, pos, limit, capture_replies(pos).len() as int)
}

/// The score of a quiescence search.
pub open spec fn quiescence_score(net: &Network, pos: Position, alpha: int, beta: int, limit: u8) -> int {
    if limit == 0 {
        position_eval(net, pos)
    } else {
        clamp(quiet_value(net, pos, limit as nat), alpha, beta)
    }
}

/// More captures to choose from make a position no worse.
pub proof fn stand_value_grows(net: &Network, pos: Position, limit: nat, i: int, n: int)
    requires
        0 <= i <= n,
    ensures
        stand_value(net, pos, limit, i) <= stand_value(net, pos, limit, n),
    decreases n - i,
{
    if i < n && limit > 0 {
        stand_value_grows(net, pos, limit, i, n - 1);
    }
}

/// A line is legal from a position when its first move is legal there and
/// the rest is legal from the position after that move.
pub open spec fn legal_line(pos: Position, line: Seq<Option<Move>>) -> bool
    decreases line.len(),
{
    line.len() == 0 || (line[0] matches Some(m) && m.wf() && pos.is_legal(m) && legal_line(
        pos.spec_play(m),
        line.drop_first(),
    ))
}

impl PvTable {
    /// The lines of the plies below `ply` are the same in both tables.
    pub open spec fn same_below(&self, other: &PvTable, ply: int) -> bool {
        &&& forall|p: int|
            0 <= p < ply && p < PV_PLIES ==> #[trigger] self.table[p] == other.table[p]
        &&& forall|p: int|
            0 <= p < ply && p < PV_PLIES ==> #[trigger] self.length[p] == other.length[p]
    }
}

/// Whether every evaluation of the network is above the score of being
/// mated at the root and below the score of mating there.
pub open spec fn evals_inside_mate(net: &Network) -> bool {
    forall|us: Seq<i16>, them: Seq<i16>|
        us.len() == net.hidden && them.len() == net.hidden ==> -MATE < #[trigger] net.spec_evaluate(
            us,
            them,
        ) < MATE
}

/// Whether a score is above the score of being mated at the root and below
/// the score of mating there.
pub open spec fn inside_mate(score: int) -> bool {
    -MATE < score < MATE
}

/// With evaluations inside the mate scores, the value of a position in
/// quiescence is inside them, and so is the score of a quiescence search.
pub proof fn quiescence_inside(net: &Network, pos: Position, limit: nat, n: int)
    requires
        evals_inside_mate(net),
    ensures
        inside_mate(stand_value(net, pos, limit, n)),
        inside_mate(position_eval(net, pos)),
    decreases limit, n,
{
    if limit > 0 && n > 0 {
        let m = capture_replies(pos)[n - 1];
        let child = pos.spec_play(m);
        quiescence_inside(net, pos, limit, n - 1);
        quiescence_inside(net, child, (limit - 1) as nat, capture_replies(child).len() as int);
    }
}

impl Killers {
    /// The killers of the plies below `ply` are the same in both tables.
    pub open spec fn same_below(&self, other: &Killers, ply: int) -> bool {
        forall|p: int|
            0 <= p < ply && p < KILLER_PLIES ==> #[trigger] self.table[p] == other.table[p]
    }
}

impl HistoryTable {
    /// No credit is lower than it is in `other`.
    pub open spec fn no_lower_than(&self, other: &HistoryTable) -> bool {
        forall|piece: Role, to: Square|
            to.wf() ==> #[trigger] self.credit(piece, to) >= other.credit(piece, to)
    }
}

/// A move has gained the depth as credit since `before`, unless its credit
/// has come so near the largest number that the depth no longer fits.
pub open spec fn credited(before: &HistoryTable, after: &HistoryTable, m: Move, depth: u8) -> bool {
    let was = before.credit(m.spec_role(), m.spec_to());
    let now = after.credit(m.spec_role(), m.spec_to());
    now >= was + depth || now > i32::MAX - depth
}

/// The evaluation kept on the history stack at an index, if the stack
/// reaches that far and keeps one there.
pub open spec fn kept_eval(stack: Seq<HistoryStackEntry>, index: int) -> Option<i32> {
    if 0 <= index < stack.len() {
        stack[index].eval
    } else {
        None
    }
}

/// The depth to which the moves of a node are searched: one less than the
/// node's depth where the table's entry names a move that is not legal
/// here and more than one ply is left, else the node's depth.
pub open spec fn depth_left(tt_move: Option<Move>, moves: Seq<Move>, depth: u8) -> u8 {
    match tt_move {
        Some(m) => if !moves.contains(m) && depth > 1 {
            (depth - 1) as u8
        } else {
            depth
        },
        None => depth,
    }
}

/// A score as a number without bound, where there is one.
pub open spec fn unbounded(score: Option<i32>) -> Option<int> {
    match score {
        Some(s) => Some(s as int),
        None => None,
    }
}

impl Search {
    /// What the search reads and never changes.
    pub open spec fn setup(&self) -> Setup {
        Setup {
            net: self.state.net,
            cfg: self.state.cfg,
            lmr: self.state.lmr,
            generation: self.state.tt.generation,
        }
    }

    /// What the search reads and changes.
    pub open spec fn tables(&self) -> Tables {
        Tables {
            slots: self.state.tt.table@,
            killers: self.state.km.lists(),
            credits: self.state.hist.credits(),
            lengths: self.state.pv.length@,
            rows: self.state.pv.rows(),
            nodes: self.state.info.nodes,
        }
    }

    /// Whether the time of the search is not limited.
    pub open spec fn unlimited(&self) -> bool {
        self.state.tc.time_mode == TimeMode::Infinite
    }

    /// Whether every score that the search starts from is inside the mate
    /// scores: the evaluations of the network, and the scores in the
    /// transposition table.
    pub open spec fn inside(&self) -> bool {
        &&& evals_inside_mate(&self.state.net)
        &&& forall|i: int|
            0 <= i < self.state.tt.table.len() ==> inside_mate(
                (#[trigger] self.state.tt.table[i]).score as int,
            )
    }

    /// What holds of the score of a node where every score that the search
    /// started from was inside the mate scores: the same holds after the
    /// search, and the score is inside the mate scores, unless the node is
    /// the root and its position has no legal move.
    pub open spec fn stays_inside(&self, before: &Search, pos: Position, ply: usize, r: int) -> bool {
        before.inside() ==> self.inside() && r < MATE && (ply > 0 || pos.spec_legal_moves().len()
            > 0 ==> r > -MATE)
    }

    /// What a search leaves as it was: the state is well formed, what no
    /// search changes is unchanged, the accumulators stand at the same pair
    /// with the same values at and below it, and the history stack holds the
    /// same positions.
    pub open spec fn kept(&self, before: &Search) -> bool {
        &&& self.state.wf()
        &&& self.state.same_setup(&before.state)
        &&& self.state.nnue.agrees_below(&before.state.nnue)
        &&& self.state.hstack@ == before.state.hstack@
    }

    /// What the search of a node at `ply` does to the tables at most: the
    /// lines and the killers of the plies below are as they were, no credit
    /// is lower, no node is uncounted, and the depth of the iteration
    /// stands.
    pub open spec fn grown(&self, before: &Search, ply: int) -> bool {
        &&& self.state.pv.same_below(&before.state.pv, ply)
        &&& self.state.km.same_below(&before.state.km, ply)
        &&& self.state.hist.no_lower_than(&before.state.hist)
        &&& self.state.info.nodes >= before.state.info.nodes
        &&& self.state.info.depth == before.state.info.depth
    }

    /// Nothing has changed in the tables but the line of `ply`, which is
    /// cut down to nothing.
    pub open spec fn line_cut(&self, before: &Search, ply: usize) -> bool {
        &&& self.state.tt == before.state.tt
        &&& self.state.km == before.state.km
        &&& self.state.hist == before.state.hist
        &&& self.state.pv.table == before.state.pv.table
        &&& self.state.pv.length@ == before.state.pv.length@.update(ply as int, ply)
    }

    /// What the search of a node's moves to the depth `left` leaves. Of a
    /// position without a legal move the score is that of mate or
    /// stalemate. Else the slot of the position in the transposition table
    /// holds the position's key, the depth, the score, the kind of the
    /// score for the window, the generation of the search, and a legal
    /// move; where the score is above alpha that move heads the line of the
    /// ply; where the score is beta or more and the move is quiet, the move
    /// has become a killer of the ply and has gained the depth as credit,
    /// and else the killers of the ply are as they were.
    pub open spec fn moves_end(
        &self,
        before: &Search,
        pos: Position,
        left: u8,
        alpha: int,
        beta: int,
        ply: usize,
        r: int,
    ) -> bool {
        let key = zobrist_of(pos);
        let e = self.state.tt.entry_for(key);
        if pos.spec_legal_moves().len() == 0 {
            r == spec_terminal_score(
                in_check(pos) && crate::position::raw_legal_moves(pos).len() == 0,
                ply,
            )
        } else {
            &&& e.key == key
            &&& e.depth == left
            &&& e.score == r
            &&& e.generation == before.state.tt.generation
            &&& e.bound == spec_classify(r, alpha, beta)
            &&& match e._move {
                Some(best) => {
                    let cut = r >= beta && best.spec_is_quiet();
                    &&& best.wf()
                    &&& pos.is_legal(best)
                    &&& r > alpha ==> self.state.pv.length[ply as int] > ply
                        && self.state.pv.table[ply as int][ply as int] == Some(best)
                    &&& self.state.km.at(ply as int) == (if cut {
                        killers_after(before.state.km.at(ply as int), best)
                    } else {
                        before.state.km.at(ply as int)
                    })
                    &&& cut ==> credited(&before.state.hist, &self.state.hist, best, left)
                },
                None => false,
            }
        }
    }

    /// How the search of a node ends, given whether the clock said that the
    /// time was over: the score `r` and what has become of the tables.
    ///
    /// With the time over the score is 0 and only the line of the ply is
    /// cut: the tables, the count of nodes, the accumulators and the
    /// history stack are as they were. At depth 0 the score is that of the
    /// quiescence search. Deeper, the node is counted. An entry of the
    /// transposition table that settles the window gives its score, and a
    /// position repeated away from the root scores 0; neither stores or
    /// searches anything. Where
    /// the side to move is not in check and the window is one point wide:
    /// after a null move search the score is beta or more, or that of
    /// reverse futility pruning, or that of the moves; without one, reverse
    /// futility pruning, where it applies, gives the static evaluation and
    /// nothing is searched. Else the moves are searched, as `moves_end`
    /// says, and where there are none nothing is stored or searched.
    pub open spec fn ended(
        &self,
        before: &Search,
        pos: Position,
        depth: u8,
        alpha: int,
        beta: int,
        ply: usize,
        time_up: bool,
        r: int,
    ) -> bool {
        let net = &before.state.net;
        let cfg = &before.state.cfg;
        let key = zobrist_of(pos);
        let entry = before.state.tt.entry_for(key);
        let counted = SearchInfo::next_count(before.state.info.nodes);
        let eval = position_eval(net, pos);
        let improving = spec_improving(ply, eval, kept_eval(before.state.hstack@, ply - 2));
        let null_move = spec_null_move_applies(
            cfg,
            depth,
            ply,
            has_officer(pos.board(), pos.spec_turn()),
        );
        let prunable = !in_check(pos) && beta - alpha == 1;
        let futile = spec_rfp_applies(cfg, depth, improving, eval, beta);
        let left = depth_left(entry._move, pos.spec_legal_moves(), depth);
        if time_up {
            &&& r == 0
            &&& self.line_cut(before, ply)
            &&& self.state.info == before.state.info
            &&& self.state.nnue == before.state.nnue
            &&& self.state.hstack == before.state.hstack
        } else if depth == 0 {
            r == quiescence_score(net, pos, alpha, beta, cfg.qsearch_depth.value) && self.line_cut(
                before,
                ply,
            ) && self.state.info.nodes >= counted
        } else if spec_tt_cutoff(entry, key, before.state.tt.generation, depth, alpha, beta, ply) {
            r == entry.score && self.line_cut(before, ply) && self.state.info.nodes == counted
        } else if ply > 0 && earlier_occurrences(before.state.hstack@, key) >= 1 {
            r == 0 && self.line_cut(before, ply) && self.state.info.nodes == counted
        } else if prunable && null_move {
            self.state.info.nodes >= counted && (r >= beta || (futile && r == eval)
                || self.moves_end(before, pos, left, alpha, beta, ply, r))
        } else if prunable && futile {
            r == eval && self.line_cut(before, ply) && self.state.info.nodes == counted
        } else {
            &&& self.state.info.nodes >= counted
            &&& self.moves_end(before, pos, left, alpha, beta, ply, r)
            &&& pos.spec_legal_moves().len() == 0 ==> self.line_cut(before, ply)
                && self.state.info.nodes == counted
        }
    }

    /// How the search of a node ends that neither the transposition table
    /// nor a repetition ends, seen from the state in which the node has
    /// been counted: as `ended` says of such a node. `tt_move` is the move
    /// of the table's entry for the position.
    pub open spec fn ended_on(
        &self,
        before: &Search,
        pos: Position,
        tt_move: Option<Move>,
        depth: u8,
        alpha: int,
        beta: int,
        ply: usize,
        eval: int,
        improving: bool,
        r: int,
    ) -> bool {
        let cfg = &before.state.cfg;
        let null_move = spec_null_move_applies(
            cfg,
            depth,
            ply,
            has_officer(pos.board(), pos.spec_turn()),
        );
        let prunable = !in_check(pos) && beta - alpha == 1;
        let futile = spec_rfp_applies(cfg, depth, improving, eval, beta);
        let left = depth_left(tt_move, pos.spec_legal_moves(), depth);
        if prunable && null_move {
            r >= beta || (futile && r == eval) || self.moves_end(
                before,
                pos,
                left,
                alpha,
                beta,
                ply,
                r,
            )
        } else if prunable && futile {
            r == eval && *self == *before
        } else {
            &&& self.moves_end(before, pos, left, alpha, beta, ply, r)
            &&& pos.spec_legal_moves().len() == 0 ==> *self == *before
        }
    }

    /// Whether a score is within the bound on the scores of this search.
    pub open spec fn in_limit(&self, score: int) -> bool {
        -score_limit(&self.state.net) <= score <= score_limit(&self.state.net)
    }

    /// The static evaluation of the position that the accumulators at
    /// `current` belong to. It is the evaluation of the position's board,
    /// and within the bound on scores.
    fn static_eval(&self, pos: &Position) -> (r: i32)
        requires
            self.state.wf(),
            self.state.nnue.reflects(&self.state.net, pos.board()),
        ensures
            r == position_eval(&self.state.net, *pos),
            self.in_limit(r as int),
            -EVAL_LIMIT <= r <= EVAL_LIMIT,
    {
        Eval::nnue_eval(&self.state.nnue, pos, &self.state.net)
    }

    /// The quiescence search: the value of the position when each side may
    /// stand pat or capture, `limit` plies down at most, held within the
    /// window from `alpha` to `beta`. Where no ply is left the result is the
    /// static evaluation as it is. Every position visited is counted as a
    /// node: `quiet_nodes` says how many there are.
    pub fn quiesce(&mut self, pos: &Position, alpha: i32, beta: i32, limit: u8) -> (r: i32)
        requires
            old(self).state.wf(),
            old(self).state.nnue.reflects(&old(self).state.net, pos.board()),
            old(self).state.nnue.current + limit < STACK_SIZE,
            -MATE <= alpha < beta <= MATE,
        ensures
            final(self).kept(old(self)),
            final(self).state.tt == old(self).state.tt,
            final(self).state.pv == old(self).state.pv,
            final(self).state.km == old(self).state.km,
            final(self).state.hist == old(self).state.hist,
            final(self).state.info.depth == old(self).state.info.depth,
            final(self).in_limit(r as int),
            r == quiescence_score(&old(self).state.net, *pos, alpha as int, beta as int, limit),
            final(self).state.info.nodes >= SearchInfo::next_count(old(self).state.info.nodes),
            final(self).state.info.nodes == count_after(
                old(self).state.info.nodes,
                quiet_nodes(&old(self).state.net, *pos, alpha as int, beta as int, limit as nat),
            ),
        decreases limit,
    {
        self.state.info.count_node();
        let stand_pat = self.static_eval(pos);
        if limit == 0 {
            return stand_pat;
        }
        let moves = pos.capture_moves();
        let ghost net = &old(self).state.net;
        let ghost deep = limit as nat;
        if stand_pat >= beta {
            proof {
                stand_value_grows(net, *pos, deep, 0, moves.len() as int);
            }
            return beta;
        }
        let mut best = alpha;
        if best < stand_pat {
            best = stand_pat;
        }
        let mut i: usize = 0;
        while i < moves.len()
            invariant
                i <= moves.len(),
                limit > 0,
                deep == limit as nat,
                net == &old(self).state.net,
                moves@ == capture_replies(*pos),
                self.kept(old(self)),
                self.state.tt == old(self).state.tt,
                self.state.pv == old(self).state.pv,
                self.state.km == old(self).state.km,
                self.state.hist == old(self).state.hist,
                self.state.info.depth == old(self).state.info.depth,
                self.state.info.nodes >= SearchInfo::next_count(old(self).state.info.nodes),
                count_after(
                    self.state.info.nodes,
                    quiet_nodes_from(net, *pos, beta as int, best as int, deep, i as int),
                ) == count_after(
                    old(self).state.info.nodes,
                    quiet_nodes(net, *pos, alpha as int, beta as int, deep),
                ),
                old(self).state.wf(),
                old(self).state.nnue.reflects(&old(self).state.net, pos.board()),
                old(self).state.nnue.current + limit < STACK_SIZE,
                forall|k: int|
                    0 <= k < moves.len() ==> (#[trigger] moves[k]).wf() && pos.is_legal(moves[k]),
                -MATE <= alpha <= best < beta <= MATE,
                stand_value(net, *pos, deep, i as int) < beta,
                best == (if stand_value(net, *pos, deep, i as int) > alpha {
                    stand_value(net, *pos, deep, i as int)
                } else {
                    alpha as int
                }),
            decreases moves.len() - i,
        {
            let m = moves[i];
            let ghost before = *self;
            let child = self.make_move(pos, m, stand_pat);
            let ghost made = *self;
            let answer = self.quiesce(&child, -beta, -best, limit - 1);
            let score = -answer;
            self.undo_move();
            proof {
                assert(self.state.hstack@ =~= before.state.hstack@);
                assert(self.state.nnue.agrees_below(&old(self).state.nnue));
                assert(made.state.net == *net);
                assert(m == capture_replies(*pos)[i as int]);
                assert(child == pos.spec_play(m));
                let so_far = stand_value(net, *pos, deep, i as int);
                let left = (deep - 1) as nat;
                let reply = -stand_value(net, child, left, capture_replies(child).len() as int);
                assert(stand_value(net, *pos, deep, i + 1) == if reply > so_far {
                    reply
                } else {
                    so_far
                });
                if left == 0 {
                    assert(answer == position_eval(net, child));
                    assert(reply == -position_eval(net, child));
                } else {
                    assert(answer == clamp(quiet_value(net, child, left), -beta, -best));
                    assert(quiet_value(net, child, left) == -reply);
                }
            }
            if score >= beta {
                proof {
                    stand_value_grows(net, *pos, deep, i + 1, moves.len() as int);
                }
                return beta;
            }
            if score > best {
                best = score;
            }
            i += 1;
        }
        best
    }

    /// Searches one move of a node: makes it, searches the position it
    /// leads to, and takes it back. The first move of a node is searched
    /// with the node's window and one ply less; a later move with a window
    /// of one point above alpha and with the depth reduced, and again with
    /// the node's window and one ply less where it beats alpha in a node of
    /// the principal variation. With the score comes whether futility
    /// pruning sets in for the moves that follow.
    #[verifier::rlimit(60)]
    fn search_move(
        &mut self,
        pos: &Position,
        m: Move,
        place: usize,
        depth: u8,
        alpha: i32,
        beta: i32,
        ply: usize,
        static_eval: i32,
        improving: bool,
    ) -> (r: (i32, bool))
        requires
            old(self).state.wf(),
            old(self).state.nnue.reflects(&old(self).state.net, pos.board()),
            -MATE <= alpha < beta <= MATE,
            -EVAL_LIMIT <= static_eval <= EVAL_LIMIT,
            depth >= 1,
            ply + depth <= MAX_PLY,
            old(self).state.nnue.current + depth + old(self).state.cfg.qsearch_depth.value
                < STACK_SIZE,
            m.wf(),
            pos.is_legal(m),
        ensures
            final(self).kept(old(self)),
            final(self).in_limit(r.0 as int),
            final(self).grown(old(self), ply + 1),
            final(self).state.pv.length[ply + 1] > ply,
            legal_line(pos.spec_play(m), final(self).state.pv.line(ply + 1)),
            old(self).inside() ==> final(self).inside() && inside_mate(r.0 as int),
            old(self).unlimited() ==> (final(self).tables(), r.0 as int, r.1) == one_move(
                old(self).setup(),
                old(self).tables(),
                old(self).state.hstack@,
                *pos,
                m,
                place,
                depth,
                alpha as int,
                beta as int,
                ply,
                static_eval as int,
                improving,
            ),
        decreases depth, 1int,
    {
        let ghost before = *self;
        let child = self.make_move(pos, m, static_eval);
        proof {
            assert(self.tables() == before.tables());
            assert(self.setup() == before.setup());
        }
        let mut r: u8 = 1;
        if depth >= self.state.cfg.lmr_depth.value
            && place >= self.state.cfg.lmr_move_margin.value {
            if reducible(&self.state.cfg, depth, place, child.is_check()) {
                r = self.state.lmr.reduction(m.is_quiet(), depth, place, improving);
            }
        }
        let sets_in = futile(&self.state.cfg, depth, r, static_eval, alpha);
        let mut score: i32;
        if place == 0 {
            score = -self.negamax(&child, depth - 1, -beta, -alpha, ply + 1);
        } else {
            score = -self.negamax(&child, depth - r, -(alpha + 1), -alpha, ply + 1);
            if score > alpha && beta - alpha > 1 {
                score = -self.negamax(&child, depth - 1, -beta, -alpha, ply + 1);
            }
        }
        self.undo_move();
        proof {
            assert(self.state.hstack@ =~= before.state.hstack@);
            assert(self.state.nnue.agrees_below(&before.state.nnue));
        }
        (score, sets_in)
    }

    /// Tries to end the search of a node before its moves are searched,
    /// where the side to move is not in check and the node is no node of the
    /// principal variation: by a null move search, which gives the move
    /// away and searches less deep, where its score is at least beta; and by
    /// reverse futility pruning, where the static evaluation is above beta
    /// by the margin. The result is the score that ends the search, if any.
    /// Where no null move search applies nothing is searched, and the result
    /// is that of reverse futility pruning alone.
    #[verifier::rlimit(50)]
    fn prune_early(
        &mut self,
        pos: &Position,
        depth: u8,
        beta: i32,
        ply: usize,
        static_eval: i32,
        improving: bool,
    ) -> (r: Option<i32>)
        requires
            old(self).state.wf(),
            old(self).state.nnue.reflects(&old(self).state.net, pos.board()),
            -MATE < beta <= MATE,
            -EVAL_LIMIT <= static_eval <= EVAL_LIMIT,
            old(self).in_limit(static_eval as int),
            static_eval == position_eval(&old(self).state.net, *pos),
            depth >= 1,
            ply + depth <= MAX_PLY,
            old(self).state.nnue.current + depth + old(self).state.cfg.qsearch_depth.value
                < STACK_SIZE,
        ensures
            final(self).kept(old(self)),
            r matches Some(score) ==> final(self).in_limit(score as int),
            r matches Some(score) ==> score >= beta || (score == static_eval && spec_rfp_applies(
                &old(self).state.cfg,
                depth,
                improving,
                static_eval as int,
                beta as int,
            )),
            final(self).grown(old(self), ply + 1),
            old(self).inside() ==> final(self).inside() && (r matches Some(score)
                ==> inside_mate(score as int)),
            old(self).unlimited() ==> (final(self).tables(), unbounded(r)) == pruning(
                old(self).setup(),
                old(self).tables(),
                old(self).state.hstack@,
                *pos,
                depth,
                beta as int,
                ply,
                static_eval as int,
                improving,
            ),
            !spec_null_move_applies(
                &old(self).state.cfg,
                depth,
                ply,
                has_officer(pos.board(), pos.spec_turn()),
            ) ==> *final(self) == *old(self) && r == (if spec_rfp_applies(
                &old(self).state.cfg,
                depth,
                improving,
                static_eval as int,
                beta as int,
            ) {
                Some(static_eval)
            } else {
                None
            }),
        decreases depth, 1int,
    {
        proof {
            if self.inside() {
                quiescence_inside(&self.state.net, *pos, 0, 0);
            }
        }
        let officer = if depth > self.state.cfg.nmp_depth.value && ply > 0 {
            Eval::has_pieces(pos)
        } else {
            false
        };
        if null_move_applies(&self.state.cfg, depth, ply, officer) {
            let r = null_reduction(&self.state.cfg, depth, improving);
            match pos.swap_turn() {
                Some(swapped) => {
                    let score = -self.negamax(&swapped, depth - r, -beta, -beta + 1, ply + 1);
                    if score >= beta {
                        return Some(score);
                    }
                },
                None => {},
            }
        }
        if depth <= self.state.cfg.rfp_depth.value {
            let margin = rfp_margin(&self.state.cfg, depth, improving);
            if static_eval >= beta + margin {
                return Some(static_eval);
            }
        }
        None
    }

    /// The negamax search of a position to a depth within the window from
    /// `alpha` to `beta`, at `ply` plies from the root: asks the clock, and
    /// searches the node with its answer. The score is that of the side to
    /// move. The node ends as `ended` says, for one of the two answers. A
    /// search without a time limit is never told that its time is over:
    /// its score and the tables it leaves are those that `node` gives for
    /// the tables and the history stack it started from.
    pub fn negamax(&mut self, pos: &Position, depth: u8, alpha: i32, beta: i32, ply: usize) -> (r:
        i32)
        requires
            old(self).state.wf(),
            old(self).state.nnue.reflects(&old(self).state.net, pos.board()),
            -MATE <= alpha < beta <= MATE,
            ply + depth <= MAX_PLY,
            old(self).state.nnue.current + depth + old(self).state.cfg.qsearch_depth.value
                < STACK_SIZE,
        ensures
            final(self).kept(old(self)),
            final(self).grown(old(self), ply as int),
            final(self).in_limit(r as int),
            evals_within_mate(&old(self).state.net) ==> -MATE <= r <= MATE,
            final(self).state.pv.length[ply as int] >= ply,
            legal_line(*pos, final(self).state.pv.line(ply as int)),
            final(self).stays_inside(old(self), *pos, ply, r as int),
            final(self).ended(old(self), *pos, depth, alpha as int, beta as int, ply, true, r as int)
                || final(self).ended(
                old(self),
                *pos,
                depth,
                alpha as int,
                beta as int,
                ply,
                false,
                r as int,
            ),
            old(self).state.tc.time_mode == TimeMode::Infinite ==> final(self).ended(
                old(self),
                *pos,
                depth,
                alpha as int,
                beta as int,
                ply,
                false,
                r as int,
            ),
            old(self).unlimited() ==> (final(self).tables(), r as int) == node(
                old(self).setup(),
                old(self).tables(),
                old(self).state.hstack@,
                *pos,
                depth,
                alpha as int,
                beta as int,
                ply,
            ),
        decreases depth, 5int,
    {
        let time_up = self.state.tc.is_time_up();
        self.search_node(pos, depth, alpha, beta, ply, time_up)
    }

    /// The search of a node, given whether the clock says that the time is
    /// over. The line of the ply is cut first. Then, in this order: with the
    /// time over the score is 0; at depth 0 it is that of the quiescence
    /// search; the node is counted; an entry of the transposition table
    /// that settles the window gives its score; a position that stands on
    /// the history stack already, away from the root, scores 0; a node
    /// outside the principal variation whose side is not in check may end
    /// by a null move search or by reverse futility pruning; a position
    /// without a legal move is mate or stalemate; and else the moves are
    /// searched and the result is stored. `ended` says what each leaves.
    /// Where the time is not limited and not over, the score and the tables
    /// are those that `node` gives.
    #[verifier::rlimit(50)]
    pub fn search_node(
        &mut self,
        pos: &Position,
        depth: u8,
        alpha: i32,
        beta: i32,
        ply: usize,
        time_up: bool,
    ) -> (r: i32)
        requires
            old(self).state.wf(),
            old(self).state.nnue.reflects(&old(self).state.net, pos.board()),
            -MATE <= alpha < beta <= MATE,
            ply + depth <= MAX_PLY,
            old(self).state.nnue.current + depth + old(self).state.cfg.qsearch_depth.value
                < STACK_SIZE,
        ensures
            final(self).kept(old(self)),
            final(self).grown(old(self), ply as int),
            final(self).in_limit(r as int),
            evals_within_mate(&old(self).state.net) ==> -MATE <= r <= MATE,
            final(self).state.pv.length[ply as int] >= ply,
            legal_line(*pos, final(self).state.pv.line(ply as int)),
            final(self).stays_inside(old(self), *pos, ply, r as int),
            final(self).ended(
                old(self),
                *pos,
                depth,
                alpha as int,
                beta as int,
                ply,
                time_up,
                r as int,
            ),
            old(self).unlimited() && !time_up ==> (final(self).tables(), r as int) == node(
                old(self).setup(),
                old(self).tables(),
                old(self).state.hstack@,
                *pos,
                depth,
                alpha as int,
                beta as int,
                ply,
            ),
        decreases depth, 4int,
    {
        proof {
            if self.inside() {
                let limit = self.state.cfg.qsearch_depth.value as nat;
                quiescence_inside(
                    &self.state.net,
                    *pos,
                    limit,
                    capture_replies(*pos).len() as int,
                );
            }
        }
        self.state.pv.update_length(ply);
        if time_up {
            return 0;
        }
        if depth == 0 {
            let limit = self.state.cfg.qsearch_depth.value;
            return self.quiesce(pos, alpha, beta, limit);
        }
        self.state.info.count_node();
        let key = pos.zobrist();
        let entry = self.state.tt.probe(key);
        if tt_cutoff(&entry, key, self.state.tt.generation, depth, alpha, beta, ply) {
            return entry.score;
        }
        let static_eval = self.static_eval(pos);
        let earlier = if ply >= 2 {
            self.state.hstack.get_eval(ply - 2)
        } else {
            None
        };
        let improving = improving_at(ply, static_eval, earlier);
        if ply > 0 && self.state.hstack.count_zobrist(key) >= 1 {
            return 0;
        }
        let ghost counted = *self;
        let r = self.search_on(pos, &entry, key, depth, alpha, beta, ply, static_eval, improving);
        proof {
            assert(counted.state.km.table[ply as int] == old(self).state.km.table[ply as int]);
            assert(counted.tables() == old(self).tables().line_cut(ply).counted(1));
        }
        r
    }

    /// Searches a node on that neither the transposition table nor a
    /// repetition has ended. Where the side to move is not in check and the
    /// window is one point wide, the node may be pruned. Else a position
    /// without a legal move has the score of mate or stalemate; and else
    /// the moves are searched, one ply less deep where the table's entry
    /// names a move that is not legal here, and the result is stored.
    #[verifier::rlimit(50)]
    fn search_on(
        &mut self,
        pos: &Position,
        entry: &TranspositionTableEntry,
        key: u64,
        depth: u8,
        alpha: i32,
        beta: i32,
        ply: usize,
        static_eval: i32,
        improving: bool,
    ) -> (r: i32)
        requires
            old(self).state.wf(),
            old(self).state.nnue.reflects(&old(self).state.net, pos.board()),
            -MATE <= alpha < beta <= MATE,
            -EVAL_LIMIT <= static_eval <= EVAL_LIMIT,
            old(self).in_limit(static_eval as int),
            static_eval == position_eval(&old(self).state.net, *pos),
            depth >= 1,
            ply + depth <= MAX_PLY,
            old(self).state.nnue.current + depth + old(self).state.cfg.qsearch_depth.value
                < STACK_SIZE,
            key == zobrist_of(*pos),
            old(self).state.pv.length[ply as int] == ply,
        ensures
            final(self).kept(old(self)),
            final(self).grown(old(self), ply as int),
            final(self).in_limit(r as int),
            final(self).state.pv.length[ply as int] >= ply,
            legal_line(*pos, final(self).state.pv.line(ply as int)),
            final(self).stays_inside(old(self), *pos, ply, r as int),
            final(self).ended_on(
                old(self),
                *pos,
                entry._move,
                depth,
                alpha as int,
                beta as int,
                ply,
                static_eval as int,
                improving,
                r as int,
            ),
            old(self).unlimited() ==> (final(self).tables(), r as int) == searched_on(
                old(self).setup(),
                old(self).tables(),
                old(self).state.hstack@,
                *pos,
                entry._move,
                depth,
                alpha as int,
                beta as int,
                ply,
                static_eval as int,
                improving,
            ),
        decreases depth, 3int,
    {
        proof {
            assert(self.state.pv.line(ply as int) =~= Seq::<Option<Move>>::empty());
        }
        let is_check = pos.is_check();
        if !is_check && beta - alpha == 1 {
            match self.prune_early(pos, depth, beta, ply, static_eval, improving) {
                Some(score) => {
                    return score;
                },
                None => {},
            }
        }
        let moves = pos.legal_moves();
        if moves.len() == 0 {
            return terminal_score(pos.is_checkmate(), ply);
        }
        let mut left = depth;
        match entry._move {
            Some(tt_move) => {
                if !holds_move(&moves, tt_move) && left > 1 {
                    left -= 1;
                }
            },
            None => {},
        }
        let ghost before = *self;
        let r = self.search_moves(
            pos,
            &moves,
            entry,
            key,
            left,
            alpha,
            beta,
            ply,
            static_eval,
            improving,
            is_check,
        );
        proof {
            assert(before.state.km.table[ply as int] == old(self).state.km.table[ply as int]);
            assert(self.moves_end(
                old(self),
                *pos,
                left,
                alpha as int,
                beta as int,
                ply,
                r as int,
            ));
        }
        r
    }

    /// Searches the moves of a node by falling rank, and stores the result
    /// in the transposition table: the best score, its kind for the window
    /// that the node began with, and the move that gave it. A move that
    /// beats alpha becomes the head of the line of the ply. A score of beta
    /// or more ends the node; a quiet move that does so becomes a killer of
    /// the ply and gains the depth as credit.
    #[verifier::rlimit(100)]
    fn search_moves(
        &mut self,
        pos: &Position,
        moves: &Vec<Move>,
        entry: &TranspositionTableEntry,
        key: u64,
        left: u8,
        alpha: i32,
        beta: i32,
        ply: usize,
        static_eval: i32,
        improving: bool,
        is_check: bool,
    ) -> (r: i32)
        requires
            old(self).state.wf(),
            old(self).state.nnue.reflects(&old(self).state.net, pos.board()),
            -MATE <= alpha < beta <= MATE,
            -EVAL_LIMIT <= static_eval <= EVAL_LIMIT,
            left >= 1,
            ply + left <= MAX_PLY,
            old(self).state.nnue.current + left + old(self).state.cfg.qsearch_depth.value
                < STACK_SIZE,
            key == zobrist_of(*pos),
            moves@ == pos.spec_legal_moves(),
            moves.len() > 0,
            forall|k: int| 0 <= k < moves.len() ==> (#[trigger] moves[k]).wf() && pos.is_legal(moves[k]),
            old(self).state.pv.length[ply as int] == ply,
            is_check == in_check(*pos),
        ensures
            final(self).kept(old(self)),
            final(self).grown(old(self), ply as int),
            final(self).in_limit(r as int),
            final(self).state.pv.length[ply as int] >= ply,
            legal_line(*pos, final(self).state.pv.line(ply as int)),
            old(self).inside() ==> final(self).inside() && inside_mate(r as int),
            final(self).moves_end(old(self), *pos, left, alpha as int, beta as int, ply, r as int),
            old(self).unlimited() ==> ({
                let found = moves_from(
                    old(self).setup(),
                    old(self).tables(),
                    old(self).state.hstack@,
                    *pos,
                    picked(
                        moves@,
                        old(self).tables().ranks(&old(self).state.cfg, entry._move, ply, moves@),
                    ),
                    0,
                    left,
                    alpha as int,
                    beta as int,
                    ply,
                    static_eval as int,
                    improving,
                    -MATE as int,
                    moves[0],
                    false,
                );
                &&& r == found.1
                &&& final(self).tables() == found.0.result_stored(
                    key,
                    TranspositionTableEntry {
                        key,
                        score: r,
                        depth: left,
                        generation: old(self).state.tt.generation,
                        bound: spec_classify(r as int, alpha as int, beta as int),
                        _move: Some(found.2),
                    },
                )
            }),
        decreases left, 2int,
    {
        let picker = MovePicker::new(moves, &self.state, entry, ply);
        proof {
            let from = choose|from: Seq<int>| #[trigger]
                ordered_by(moves@, picker.order@, rank_at(&self.state, entry, ply), from);
            assert forall|k: int| 0 <= k < picker.order.len() implies (
            #[trigger] picker.order[k]).wf() && pos.is_legal(picker.order[k]) by {
                assert(picker.order@[k] == moves@[from[k]]);
            }
            assert(self.state.pv.line(ply as int) =~= Seq::<Option<Move>>::empty());
            assert(ranks_under(moves@, rank_at(&self.state, entry, ply)) =~= self.tables().ranks(
                &self.state.cfg,
                entry._move,
                ply,
                moves@,
            ));
        }
        let ghost setup = self.setup();
        let ghost stack = self.state.hstack@;
        let ghost order = picker.order@;
        let ghost target = moves_from(
            setup,
            self.tables(),
            stack,
            *pos,
            order,
            0,
            left,
            alpha as int,
            beta as int,
            ply,
            static_eval as int,
            improving,
            -MATE as int,
            moves[0],
            false,
        );
        let start_alpha = alpha;
        let mut alpha = alpha;
        let mut best_score: i32 = -MATE;
        let mut skip_quiets = false;
        let mut best_move = moves[0];
        let mut cut = false;
        let mut i: usize = 0;
        while i < picker.order.len() && !cut
            invariant
                i <= picker.order.len(),
                self.kept(old(self)),
                self.grown(old(self), ply as int),
                old(self).state.wf(),
                old(self).state.nnue.reflects(&old(self).state.net, pos.board()),
                left >= 1,
                ply + left <= MAX_PLY,
                old(self).state.nnue.current + left + old(self).state.cfg.qsearch_depth.value
                    < STACK_SIZE,
                forall|k: int|
                    0 <= k < picker.order.len() ==> (#[trigger] picker.order[k]).wf()
                        && pos.is_legal(picker.order[k]),
                best_move.wf(),
                pos.is_legal(best_move),
                -MATE <= start_alpha <= alpha,
                start_alpha < beta,
                alpha == (if best_score > start_alpha {
                    best_score
                } else {
                    start_alpha
                }),
                cut == (best_score >= beta),
                beta <= MATE,
                self.in_limit(best_score as int),
                self.in_limit(alpha as int),
                -EVAL_LIMIT <= static_eval <= EVAL_LIMIT,
                self.state.pv.length[ply as int] >= ply,
                legal_line(*pos, self.state.pv.line(ply as int)),
                best_score > start_alpha ==> self.state.pv.length[ply as int] > ply
                    && self.state.pv.table[ply as int][ply as int] == Some(best_move),
                self.state.km.at(ply as int) == (if cut && best_move.spec_is_quiet() {
                    killers_after(old(self).state.km.at(ply as int), best_move)
                } else {
                    old(self).state.km.at(ply as int)
                }),
                cut && best_move.spec_is_quiet() ==> credited(
                    &old(self).state.hist,
                    &self.state.hist,
                    best_move,
                    left,
                ),
                i == 0 && !cut ==> !skip_quiets && best_score == -MATE,
                old(self).inside() ==> self.inside() && best_score < MATE && (i >= 1 || cut
                    ==> best_score > -MATE),
                picker.order.len() == moves.len(),
                setup == old(self).setup(),
                stack == old(self).state.hstack@,
                order == picker.order@,
                is_check == in_check(*pos),
                old(self).unlimited() ==> moves_from(
                    setup,
                    self.tables(),
                    stack,
                    *pos,
                    order,
                    if cut {
                        order.len() as int
                    } else {
                        i as int
                    },
                    left,
                    alpha as int,
                    beta as int,
                    ply,
                    static_eval as int,
                    improving,
                    best_score as int,
                    best_move,
                    skip_quiets,
                ) == target,
            decreases picker.order.len() - i, if cut { 0int } else { 1int },
        {
            let m = picker.order[i];
            let skipped = (skip_quiets && m.is_quiet()) || late_move_pruned(
                &self.state.cfg,
                m,
                is_check,
                i,
                left,
            );
            if !skipped {
                let (score, sets_in) = self.search_move(
                    pos,
                    m,
                    i,
                    left,
                    alpha,
                    beta,
                    ply,
                    static_eval,
                    improving,
                );
                if sets_in {
                    skip_quiets = true;
                }
                if score > best_score {
                    best_score = score;
                    best_move = m;
                    if best_score > alpha {
                        let ghost below = self.state.pv.line(ply + 1);
                        self.state.pv.store(ply, m);
                        proof {
                            let line = self.state.pv.line(ply as int);
                            assert(line == seq![Some(m)] + below);
                            assert(line.drop_first() =~= below);
                        }
                        alpha = best_score;
                    }
                }
                if score >= beta {
                    if m.is_quiet() {
                        self.state.km.store(ply, m);
                        let credit = self.state.hist.get(m.role(), m.to());
                        if credit <= i32::MAX - left as i32 {
                            self.state.hist.update(m.role(), m.to(), left as i32);
                        }
                    }
                    cut = true;
                }
            }
            if !cut {
                i += 1;
            }
        }
        let bound = Bound::classify(best_score, start_alpha, beta);
        self.state.tt.store(key, left, best_score, bound, best_move);
        best_score
    }
}

/// The texts of the moves of a line, in the notation of the protocol.
pub open spec fn line_texts(line: Seq<Option<Move>>) -> Seq<Seq<char>> {
    Seq::new(line.len(), |i: int| slot_text(line[i]))
}

/// Whether a line reports a finished iteration with these nodes, this score
/// and this principal variation, after whatever time.
pub open spec fn reports(line: Seq<char>, depth: u8, nodes: u32, score: i32, pv: Seq<Seq<char>>) -> bool {
    exists|elapsed: i64| line == #[trigger] info_text(depth, nodes, elapsed, score, pv)
}

/// The line of the root in tables.
pub open spec fn root_line(t: Tables) -> Seq<Option<Move>> {
    if t.lengths[0] <= 0 {
        Seq::empty()
    } else {
        t.rows[0].subrange(0, t.lengths[0] as int)
    }
}

/// The largest depth that a search of these limits reaches.
pub open spec fn depth_cap(depth: u8) -> u8 {
    if depth <= MAX_PLY {
        depth
    } else {
        MAX_PLY as u8
    }
}

/// The iterations that a search of a position runs where the time lets it:
/// one where the position has exactly one legal move, which is then the
/// move to play whatever a deeper search would find; else as many as the
/// depth of the limits says, `MAX_PLY` at most.
pub open spec fn iterations_for(game: Position, depth: u8) -> u8 {
    if game.spec_legal_moves().len() == 1 && depth_cap(depth) >= 1 {
        1
    } else {
        depth_cap(depth)
    }
}

impl Search {
    /// The iterations that a search of the game's position runs where the
    /// time lets it.
    pub open spec fn iterations(&self) -> u8 {
        iterations_for(self.state.game, self.state.params.depth)
    }

    /// How the loop of the search goes on after a round, given the move to
    /// play and the iterations finished before it, and what the clock said:
    /// `too_late` before the round, that it is too late to start another
    /// iteration, and `time_up` after the iteration, that the time ran out.
    /// In either case nothing counts and the search stops. Else the
    /// iteration counts: the move to play is the head of the line of the
    /// root, where it has one, and the search stops if the position has a
    /// single legal move. The result is the move to play, the iterations
    /// finished, and whether the search stops.
    pub open spec fn round_after(
        &self,
        best: Option<Move>,
        done: u8,
        too_late: bool,
        time_up: bool,
        single: bool,
    ) -> (Option<Move>, u8, bool) {
        if too_late || time_up {
            (best, done, true)
        } else {
            (
                if self.state.pv.length[0] == 0 {
                    best
                } else {
                    self.state.pv.table[0][0]
                },
                (done + 1) as u8,
                single,
            )
        }
    }

    /// The score of the game's position as the last finished search of it
    /// left it: that of mate or stalemate where the position has no legal
    /// move, else the score in the position's slot of the transposition
    /// table.
    pub open spec fn root_score(&self) -> i32 {
        let game = self.state.game;
        if game.spec_legal_moves().len() == 0 {
            spec_terminal_score(
                in_check(game) && crate::position::raw_legal_moves(game).len() == 0,
                0,
            ) as i32
        } else {
            self.state.tt.entry_for(zobrist_of(game)).score
        }
    }

    /// What a finished search of the game's position to a depth leaves.
    /// Where the position has no legal move its line is empty. Else its
    /// slot in the transposition table holds its key, the depth or one
    /// less, the generation of the search, the kind of the score for the
    /// full window, and a legal move, which heads the line of the root
    /// unless the score is the lowest there is.
    pub open spec fn root_done(&self, depth: u8) -> bool {
        let game = self.state.game;
        let key = zobrist_of(game);
        let e = self.state.tt.entry_for(key);
        if game.spec_legal_moves().len() == 0 {
            self.state.pv.length[0] == 0
        } else {
            &&& e.key == key
            &&& (e.depth == depth || e.depth + 1 == depth)
            &&& e.generation == self.state.tt.generation
            &&& e.bound == spec_classify(e.score as int, -MATE as int, MATE as int)
            &&& match e._move {
                Some(best) => best.wf() && game.is_legal(best) && (e.score > -MATE
                    ==> self.state.pv.length[0] > 0 && self.state.pv.table[0][0] == Some(best)),
                None => false,
            }
        }
    }

    /// The move to play after an iteration, given the move to play before
    /// it and whether the clock said after it that the time was over: an
    /// iteration that the time ended counts for nothing, and so does one
    /// that left no line; else the move is the first of the line of the
    /// root.
    pub fn best_after(&self, best: Option<Move>, time_up: bool) -> (r: Option<Move>)
        requires
            self.state.pv.wf(),
        ensures
            r == (if time_up || self.state.pv.length[0] == 0 {
                best
            } else {
                self.state.pv.table[0][0]
            }),
    {
        if time_up || self.state.pv.length[0] == 0 {
            best
        } else {
            self.state.pv.get_best_move()
        }
    }

    /// The searcher with other limits: the depth and the times of `params`
    /// and the way `mode` of taking the time.
    pub open spec fn limited(&self, params: SearchParams, mode: TimeMode) -> Search {
        Search {
            state: SearchState {
                params,
                tc: TimeController { time_mode: mode, ..self.state.tc },
                ..self.state
            },
        }
    }

    /// What the iterations of a search read and never change: what this
    /// searcher reads, with the transposition table in its next generation.
    pub open spec fn setup_of_search(&self) -> Setup {
        Setup {
            net: self.state.net,
            cfg: self.state.cfg,
            lmr: self.state.lmr,
            generation: if self.state.tt.generation == 255 {
                0u8
            } else {
                (self.state.tt.generation + 1) as u8
            },
        }
    }

    /// The tables and the score after iteration `depth` of a search of the
    /// game's position without a time limit that starts from this state.
    pub open spec fn iterated(&self, depth: int) -> (Tables, int) {
        iteration(
            self.setup_of_search(),
            self.tables().begun(),
            self.state.hstack@,
            self.state.game,
            depth,
        )
    }

    /// The tables after a search of the game's position without a time
    /// limit that starts from this state, and the move to play.
    pub open spec fn searched(&self) -> (Tables, Option<Move>) {
        deepened(
            self.setup_of_search(),
            self.tables().begun(),
            self.state.hstack@,
            self.state.game,
            1,
            self.iterations(),
            None,
        )
    }

    /// What a search of the game's position leaves: the state after it, the
    /// move to play, and, where `print` is set, the lines said.
    ///
    /// What no search changes is as it was, and the transposition table has
    /// entered the next generation. The move to play is a legal move of the
    /// game's position and heads a legal line; there is none where the
    /// position has no legal move. No credit of the history is below half
    /// of what it was. The depth of the search's progress is the number of
    /// the last iteration begun, which is no more than `iterations`; where
    /// it is 0 nothing was searched: the tables are those that a search
    /// begins with, every credit halved and no node counted, and no move is
    /// named.
    ///
    /// A search without a time limit finishes its iterations, all of
    /// `iterations`: its tables and its move are those of `searched`, it
    /// leaves what the search of the root to the last depth leaves, the
    /// move to play is the head of the line of the root where there is one,
    /// and the report of each iteration carries the nodes, the score and
    /// the line of that iteration, as `iterated` gives them. Where every
    /// score it started from was inside the mate scores it names a move for
    /// a position that has one.
    ///
    /// The lines said are one report for each iteration that counted, in
    /// the order of their depths, and the line that names the move to play;
    /// where no iteration counted, no move is named. At most one iteration
    /// was begun and did not count.
    pub open spec fn gone(
        &self,
        before: &Search,
        best: Option<Move>,
        print: bool,
        said_before: Seq<Seq<char>>,
        said: Seq<Seq<char>>,
    ) -> bool {
        &&& self.state.wf()
        &&& self.state.net == before.state.net
        &&& self.state.lmr == before.state.lmr
        &&& self.state.cfg == before.state.cfg
        &&& self.state.game == before.state.game
        &&& self.state.params == before.state.params
        &&& self.state.tc.time_mode == before.state.tc.time_mode
        &&& self.state.tt.length == before.state.tt.length
        &&& self.state.tt.generation == (if before.state.tt.generation == 255 {
            0u8
        } else {
            (before.state.tt.generation + 1) as u8
        })
        &&& self.state.nnue.agrees_below(&before.state.nnue)
        &&& self.state.hstack@ == before.state.hstack@
        &&& best matches Some(m) ==> m.wf() && before.state.game.is_legal(m)
        &&& best is Some ==> legal_line(before.state.game, self.state.pv.line(0))
        &&& before.state.game.spec_legal_moves().len() == 0 ==> best is None
        &&& forall|piece: Role, to: Square|
            to.wf() ==> #[trigger] self.state.hist.credit(piece, to) >= quot(
                before.state.hist.credit(piece, to) as int,
                2,
            )
        &&& self.state.info.depth <= before.iterations()
        &&& self.state.info.depth == 0 ==> best is None && self.tables()
            == before.tables().begun()
        &&& before.unlimited() && before.iterations() >= 1 ==> {
            let count = before.iterations();
            &&& self.root_done(count)
            &&& self.state.info.nodes >= 1
            &&& self.state.pv.length[0] > 0 ==> best == self.state.pv.table[0][0]
            &&& print ==> reports(
                said[said.len() - 2],
                count,
                self.state.info.nodes,
                self.root_score(),
                line_texts(self.state.pv.line(0)),
            )
        }
        &&& before.unlimited() ==> self.state.info.depth == before.iterations()
        &&& before.unlimited() ==> (self.tables(), best) == before.searched()
        &&& before.inside() ==> self.inside()
        &&& before.inside() && before.unlimited() && before.iterations() >= 1
            && before.state.game.spec_legal_moves().len() > 0 ==> best is Some
            && self.state.pv.length[0] > 0
        &&& before.unlimited() && print ==> forall|d: int|
            1 <= d <= before.iterations() ==> reports(
                #[trigger] said[said_before.len() + d - 1],
                d as u8,
                before.iterated(d).0.nodes,
                before.iterated(d).1 as i32,
                line_texts(root_line(before.iterated(d).0)),
            )
        &&& !print ==> said == said_before
        &&& print && before.unlimited() ==> said.len() == said_before.len() + 1
            + before.iterations()
        &&& print ==> forall|k: int|
            said_before.len() <= k < said.len() - 1 ==> reports_depth(
                #[trigger] said[k],
                k - said_before.len() + 1,
            )
        &&& print ==> {
            &&& said.len() > said_before.len()
            &&& said.len() == said_before.len() + 1 ==> best is None
            &&& said.last() == bestmove_text(best)
            &&& said.subrange(0, said_before.len() as int) == said_before
            &&& said.len() <= said_before.len() + 1 + before.iterations()
            &&& said.len() - said_before.len() - 1 <= self.state.info.depth <= said.len()
                - said_before.len()
        }
    }

    /// What a round of the loop of the search leaves, given whether the
    /// clock said before it that it is too late to begin another iteration:
    /// the state after it, the lines said, and in `r` the move to play, the
    /// iterations finished and whether the search stops.
    ///
    /// Too late, nothing is searched or said: the state is as it was, and
    /// the search stops. Else the game's position is searched from the root
    /// one ply deeper than the iterations finished, with the full window.
    /// Where the time ran out over it, the iteration counts for nothing,
    /// nothing is said and the search stops; else it counts, as
    /// `round_after` says, and is reported. Without a time limit the
    /// iteration always counts: the tables and the score are those of
    /// `node`, and the report carries the nodes, the score and the line.
    pub open spec fn rounded(
        &self,
        before: &Search,
        best: Option<Move>,
        done: u8,
        too_late: bool,
        single: bool,
        print: bool,
        said_before: Seq<Seq<char>>,
        said: Seq<Seq<char>>,
        r: (Option<Move>, u8, bool),
    ) -> bool {
        let game = before.state.game;
        let depth = (done + 1) as u8;
        if too_late {
            &&& *self == *before
            &&& said == said_before
            &&& r == (best, done, true)
        } else {
            &&& self.state.wf()
            &&& self.state.same_setup(&before.state)
            &&& self.state.nnue.agrees_below(&before.state.nnue)
            &&& self.state.hstack@ == before.state.hstack@
            &&& self.state.info.depth == depth
            &&& self.state.info.nodes >= before.state.info.nodes
            &&& self.state.hist.no_lower_than(&before.state.hist)
            &&& before.inside() ==> self.inside()
            &&& legal_line(game, self.state.pv.line(0))
            &&& game.spec_legal_moves().len() == 0 ==> self.state.pv.length[0] == 0
            &&& r.1 == done || r.1 == done + 1
            &&& r.1 == done ==> r == (best, done, true) && said == said_before
            &&& r.1 == done + 1 ==> {
                &&& r == self.round_after(best, done, false, false, single)
                &&& !print ==> said == said_before
                &&& print ==> said.len() == said_before.len() + 1 && said.drop_last()
                    == said_before && reports_depth(said.last(), depth as int)
            }
            &&& before.unlimited() ==> {
                let found = node(
                    before.setup(),
                    before.tables(),
                    before.state.hstack@,
                    game,
                    depth,
                    -MATE as int,
                    MATE as int,
                    0,
                );
                &&& r.1 == done + 1
                &&& self.tables() == found.0
                &&& self.root_done(depth)
                &&& self.state.info.nodes >= 1
                &&& self.root_score() == found.1
                &&& print ==> reports(
                    said.last(),
                    depth,
                    self.state.info.nodes,
                    self.root_score(),
                    line_texts(self.state.pv.line(0)),
                )
                &&& before.inside() && game.spec_legal_moves().len() > 0
                    ==> self.state.pv.length[0] > 0
            }
        }
    }

    /// Runs one round of the loop of the search, given whether the clock
    /// said that it is too late to begin another iteration, the move to
    /// play and the iterations finished so far, and whether the game's
    /// position has a single legal move. The result is the move to play,
    /// the iterations finished, and whether the search stops.
    #[verifier::rlimit(100)]
    pub fn iterate(
        &mut self,
        best: Option<Move>,
        done: u8,
        too_late: bool,
        single: bool,
        print: bool,
        logger: &mut Logger,
    ) -> (r: (Option<Move>, u8, bool))
        requires
            old(self).state.wf(),
            old(self).state.nnue.current == 0,
            old(self).state.nnue.reflects(&old(self).state.net, old(self).state.game.board()),
            done < MAX_PLY,
        ensures
            final(self).rounded(
                old(self),
                best,
                done,
                too_late,
                single,
                print,
                old(logger)@,
                final(logger)@,
                r,
            ),
    {
        if too_late {
            return self.after_iteration(best, done, true, false, single);
        }
        self.state.info.depth = done + 1;
        let pos = self.state.game.copy();
        let score = self.negamax(&pos, done + 1, -MATE, MATE, 0);
        let time_up = self.state.tc.is_time_up();
        let next = self.after_iteration(best, done, false, time_up, single);
        if !time_up {
            let elapsed = self.state.tc.elapsed();
            let pv = self.state.pv.collect();
            proof {
                assert(views(pv@) =~= line_texts(self.state.pv.line(0)));
            }
            if print {
                let ghost said = logger@;
                logger.log_line(info_line(done + 1, self.state.info.nodes, elapsed, score, &pv));
                proof {
                    assert(logger@.last() == info_text(
                        (done + 1) as u8,
                        self.state.info.nodes,
                        elapsed,
                        score,
                        views(pv@),
                    ));
                    assert(reports_depth(logger@.last(), done + 1));
                    assert(logger@.drop_last() =~= said);
                }
            }
        }
        next
    }

    /// Decides how the loop of the search goes on after a round, from what
    /// the clock said before the round and after its iteration.
    pub fn after_iteration(
        &self,
        best: Option<Move>,
        done: u8,
        too_late: bool,
        time_up: bool,
        single: bool,
    ) -> (r: (Option<Move>, u8, bool))
        requires
            self.state.pv.wf(),
            done < u8::MAX,
        ensures
            r == self.round_after(best, done, too_late, time_up, single),
    {
        if too_late || time_up {
            (best, done, true)
        } else {
            (self.best_after(best, false), done + 1, single)
        }
    }

    /// Searches the game's position: deeper with each iteration, up to the
    /// depth of the limits and `MAX_PLY` at most, and no further once the
    /// time is over or too far gone to start another iteration, nor once
    /// one iteration has counted for a position with a single legal move:
    /// that move is played at the cost of one iteration. Before the
    /// first iteration every credit of the history is halved, the nodes are
    /// counted from 0, the depth of the progress is 0 and the transposition
    /// table enters a new generation. Each round of the loop asks the clock
    /// whether it is too late and hands the answer to `iterate`. An
    /// iteration that the time ended counts for nothing. The result is
    /// the first move of the principal variation of the last iteration that
    /// counted, a legal move of the game's position; `None` where no
    /// iteration found one, as in a position without a legal move. With
    /// `print` each iteration that counted is reported in a line, and a
    /// last line names the move to play.
    ///
    /// A search without a time limit finishes its iterations: it leaves
    /// what the search of the root to the last depth leaves, the move to
    /// play is the head of the line of the root where there is one, and the
    /// last report carries the nodes counted, the score of the root and the
    /// line of the root.
    #[verifier::rlimit(100)]
    pub fn go(&mut self, print: bool, logger: &mut Logger) -> (best: Option<Move>)
        requires
            old(self).state.wf(),
            old(self).state.nnue.current == 0,
            old(self).state.nnue.reflects(&old(self).state.net, old(self).state.game.board()),
        ensures
            final(self).state.wf(),
            final(self).gone(old(self), best, print, old(logger)@, final(logger)@),
    {
        proof {
            assert(logger@.subrange(0, logger@.len() as int) =~= logger@);
        }
        self.state.tc.setup(&self.state.params, &self.state.game, &self.state.cfg);
        self.state.hist.new_search();
        self.state.info.nodes = 0;
        self.state.info.depth = 0;
        self.state.tt.new_search();
        let single = self.state.game.legal_moves().len() == 1;
        let mut best: Option<Move> = None;
        let cap: u8 = if self.state.params.depth as usize <= MAX_PLY {
            self.state.params.depth
        } else {
            MAX_PLY as u8
        };
        let mut done: u8 = 0;
        let mut stopped = false;
        let ghost mut searched = false;
        let ghost unlimited = old(self).state.tc.time_mode == TimeMode::Infinite;
        let ghost setup = old(self).setup_of_search();
        let ghost stack = old(self).state.hstack@;
        let ghost game = old(self).state.game;
        let ghost target = old(self).searched();
        let ghost count = old(self).iterations();
        proof {
            assert(self.tables() == old(self).tables().begun());
        }
        while done < cap && !stopped
            invariant
                done <= cap <= MAX_PLY,
                self.state.wf(),
                self.state.net == old(self).state.net,
                self.state.lmr == old(self).state.lmr,
                self.state.cfg == old(self).state.cfg,
                self.state.game == old(self).state.game,
                self.state.params == old(self).state.params,
                self.state.tc.time_mode == old(self).state.tc.time_mode,
                self.state.tt.length == old(self).state.tt.length,
                self.state.tt.generation == (if old(self).state.tt.generation == 255 {
                    0u8
                } else {
                    (old(self).state.tt.generation + 1) as u8
                }),
                print ==> logger@.len() == old(logger)@.len() + done,
                forall|k: int|
                    old(logger)@.len() <= k < logger@.len() ==> reports_depth(
                        #[trigger] logger@[k],
                        k - old(logger)@.len() + 1,
                    ),
                self.state.nnue.agrees_below(&old(self).state.nnue),
                self.state.hstack@ == old(self).state.hstack@,
                old(self).state.wf(),
                old(self).state.nnue.current == 0,
                old(self).state.nnue.reflects(&old(self).state.net, old(self).state.game.board()),
                best matches Some(m) ==> m.wf() && old(self).state.game.is_legal(m),
                best is Some ==> legal_line(old(self).state.game, self.state.pv.line(0)),
                old(self).state.game.spec_legal_moves().len() == 0 ==> best is None,
                forall|piece: Role, to: Square|
                    to.wf() ==> #[trigger] self.state.hist.credit(piece, to) >= quot(
                        old(self).state.hist.credit(piece, to) as int,
                        2,
                    ),
                !searched ==> best is None && self.tables() == old(self).tables().begun(),
                self.state.info.depth == 0 ==> !searched,
                done <= self.state.info.depth <= done + 1,
                !stopped ==> self.state.info.depth == done,
                single == (old(self).state.game.spec_legal_moves().len() == 1),
                count == old(self).iterations(),
                done <= count,
                self.state.info.depth <= count,
                single && done >= 1 ==> stopped,
                unlimited && stopped ==> single && done == 1,
                unlimited == (old(self).state.tc.time_mode == TimeMode::Infinite),
                unlimited && done >= 1 ==> {
                    &&& self.root_done(done)
                    &&& self.state.info.depth == done
                    &&& self.state.info.nodes >= 1
                    &&& self.state.pv.length[0] > 0 ==> best == self.state.pv.table[0][0]
                    &&& print ==> reports(
                        logger@.last(),
                        done,
                        self.state.info.nodes,
                        self.root_score(),
                        line_texts(self.state.pv.line(0)),
                    )
                },
                setup == old(self).setup_of_search(),
                stack == old(self).state.hstack@,
                game == old(self).state.game,
                target == old(self).searched(),
                done == 0 ==> best is None,
                old(self).inside() ==> self.inside(),
                old(self).inside() && unlimited && done >= 1 && game.spec_legal_moves().len() > 0
                    ==> best is Some && self.state.pv.length[0] > 0,
                unlimited ==> self.tables() == old(self).iterated(done as int).0,
                unlimited ==> deepened(setup, self.tables(), stack, game, done + 1, count, best)
                    == target,
                unlimited && print ==> forall|d: int|
                    1 <= d <= done ==> reports(
                        #[trigger] logger@[old(logger)@.len() + d - 1],
                        d as u8,
                        old(self).iterated(d).0.nodes,
                        old(self).iterated(d).1 as i32,
                        line_texts(root_line(old(self).iterated(d).0)),
                    ),
                cap == depth_cap(old(self).state.params.depth),
                !print ==> logger@ == old(logger)@,
                old(logger)@.len() <= logger@.len() <= old(logger)@.len() + done,
                logger@.subrange(0, old(logger)@.len() as int) == old(logger)@,
            decreases cap - done, if stopped { 0int } else { 1int },
        {
            let elapsed = self.state.tc.elapsed();
            let too_late = soft_stop(
                self.state.tc.time_mode,
                elapsed,
                self.state.cfg.tc_elapsed_factor.value,
                self.state.tc.play_time,
            );
            let ghost before = *self;
            let ghost said = logger@;
            let next = self.iterate(best, done, too_late, single, print, logger);
            proof {
                if !too_late {
                    searched = true;
                    assert(self.state.pv.length[0] > 0 ==> self.state.pv.line(0)[0]
                        == self.state.pv.table[0][0]);
                    assert(self.state.pv.line(0) =~= root_line(self.tables()));
                    assert(before.setup() == setup);
                }
                if next.1 > done && print {
                    assert(logger@.drop_last() == said);
                    assert forall|k: int|
                        old(logger)@.len() <= k < logger@.len() implies reports_depth(
                        #[trigger] logger@[k],
                        k - old(logger)@.len() + 1,
                    ) by {
                        if k < said.len() {
                            assert(logger@[k] == logger@.drop_last()[k]);
                        }
                    }
                    assert(logger@.subrange(0, old(logger)@.len() as int) =~= said.subrange(
                        0,
                        old(logger)@.len() as int,
                    ));
                    if unlimited {
                        assert forall|d: int| 1 <= d <= done + 1 implies reports(
                            #[trigger] logger@[old(logger)@.len() + d - 1],
                            d as u8,
                            old(self).iterated(d).0.nodes,
                            old(self).iterated(d).1 as i32,
                            line_texts(root_line(old(self).iterated(d).0)),
                        ) by {
                            if d <= done {
                                assert(logger@[old(logger)@.len() + d - 1]
                                    == logger@.drop_last()[old(logger)@.len() + d - 1]);
                            }
                        }
                    }
                }
            }
            best = next.0;
            done = next.1;
            stopped = next.2;
        }
        if print {
            let ghost said = logger@;
            logger.log_line(bestmove_line(best));
            proof {
                assert forall|k: int|
                    old(logger)@.len() <= k < logger@.len() - 1 implies reports_depth(
                    #[trigger] logger@[k],
                    k - old(logger)@.len() + 1,
                ) by {
                    assert(logger@[k] == said[k]);
                }
                assert(logger@.subrange(0, old(logger)@.len() as int) =~= said.subrange(
                    0,
                    old(logger)@.len() as int,
                ));
                if done >= 1 {
                    assert(logger@[logger@.len() - 2] == said.last());
                }
                if unlimited {
                    assert forall|d: int| 1 <= d <= done implies reports(
                        #[trigger] logger@[old(logger)@.len() + d - 1],
                        d as u8,
                        old(self).iterated(d).0.nodes,
                        old(self).iterated(d).1 as i32,
                        line_texts(root_line(old(self).iterated(d).0)),
                    ) by {
                        assert(logger@[old(logger)@.len() + d - 1] == said[old(logger)@.len() + d
                            - 1]);
                    }
                }
            }
        }
        best
    }
}

/// A position with one legal move costs one iteration at most, whatever
/// the depth of the limits and whatever the clock says: no iteration
/// deeper than the first is begun, at most one is reported, and the move
/// named, if any, is that move. A search of it without a time limit, to a
/// depth of one ply or more, leaves the tables of the search of the root
/// to depth 1; and where it starts with every score inside the mate scores
/// it names that move.
pub proof fn the_only_move_is_played(
    before: &Search,
    after: &Search,
    best: Option<Move>,
    only: Move,
    print: bool,
    said_before: Seq<Seq<char>>,
    said: Seq<Seq<char>>,
)
    requires
        before.state.game.spec_legal_moves() == seq![only],
        after.gone(before, best, print, said_before, said),
    ensures
        after.state.info.depth <= 1,
        print ==> said.len() <= said_before.len() + 2,
        best is None || best == Some(only),
        before.unlimited() && depth_cap(before.state.params.depth) >= 1 ==> after.tables()
            == node(
            before.setup_of_search(),
            before.tables().begun(),
            before.state.hstack@,
            before.state.game,
            1,
            -MATE as int,
            MATE as int,
            0,
        ).0,
        before.unlimited() && before.inside() && depth_cap(before.state.params.depth) >= 1
            ==> best == Some(only),
{
    if best is Some {
        only_move_is_the_move(before.state.game, only, best.unwrap());
    }
    if before.unlimited() && depth_cap(before.state.params.depth) >= 1 {
        let setup = before.setup_of_search();
        let begun = before.tables().begun();
        let stack = before.state.hstack@;
        let game = before.state.game;
        let first = node(setup, begun, stack, game, 1, -MATE as int, MATE as int, 0);
        assert(before.iterations() == 1);
        assert(deepened(setup, begun, stack, game, 1, 1, None) == deepened(
            setup,
            first.0,
            stack,
            game,
            2,
            1,
            crate::search::model::head_or(first.0, None),
        ));
    }
}

/// At depth 0 a node is a quiescence search and nothing else: its score is
/// that of the quiescence search, as many nodes are counted as that search
/// visits, the line of the ply is cut, and the transposition table, the
/// killers, the credits and the rows of the lines are as they were.
pub proof fn a_leaf_is_a_quiescence_search(
    setup: Setup,
    t: Tables,
    stack: Seq<HistoryStackEntry>,
    pos: Position,
    alpha: int,
    beta: int,
    ply: usize,
)
    ensures
        node(setup, t, stack, pos, 0, alpha, beta, ply).1 == quiescence_score(
            &setup.net,
            pos,
            alpha,
            beta,
            setup.cfg.qsearch_depth.value,
        ),
        node(setup, t, stack, pos, 0, alpha, beta, ply).0 == (Tables {
            lengths: t.lengths.update(ply as int, ply),
            nodes: count_after(
                t.nodes,
                quiet_nodes(&setup.net, pos, alpha, beta, setup.cfg.qsearch_depth.value as nat),
            ),
            ..t
        }),
{
}

/// A side with nothing but its king and pawns gets no null move search:
/// the pruning of its node searches nothing and leaves the tables as they
/// were, and ends the node only by reverse futility pruning, with the
/// static evaluation.
pub proof fn no_null_move_without_officers(
    setup: Setup,
    t: Tables,
    stack: Seq<HistoryStackEntry>,
    pos: Position,
    depth: u8,
    beta: int,
    ply: usize,
    eval: int,
    improving: bool,
)
    requires
        !has_officer(pos.board(), pos.spec_turn()),
    ensures
        pruning(setup, t, stack, pos, depth, beta, ply, eval, improving) == (
            t,
            if spec_rfp_applies(&setup.cfg, depth, improving, eval, beta) {
                Some(eval)
            } else {
                None::<int>
            },
        ),
{
}

/// A node in which the side to move is checkmated scores the mate: at the
/// root, and at any other node that neither the transposition table nor a
/// repetition ends, a search without a time limit to a depth of one ply or
/// more scores it `-(MATE - ply)`, leaves the line of the ply empty, and
/// counts the node and nothing else.
pub proof fn a_mated_node_scores_the_mate(
    setup: Setup,
    t: Tables,
    stack: Seq<HistoryStackEntry>,
    pos: Position,
    depth: u8,
    alpha: int,
    beta: int,
    ply: usize,
)
    requires
        depth >= 1,
        in_check(pos),
        crate::position::raw_legal_moves(pos).len() == 0,
        ply == 0 || (!spec_tt_cutoff(
            t.entry_for(zobrist_of(pos)),
            zobrist_of(pos),
            setup.generation,
            depth,
            alpha,
            beta,
            ply,
        ) && earlier_occurrences(stack, zobrist_of(pos)) == 0),
    ensures
        node(setup, t, stack, pos, depth, alpha, beta, ply).1 == -(MATE - ply),
        node(setup, t, stack, pos, depth, alpha, beta, ply).0 == t.line_cut(ply).counted(1),
        node(setup, t, stack, pos, depth, alpha, beta, ply).0.lengths == t.lengths.update(
            ply as int,
            ply,
        ),
{
    crate::chess::decode_moves_len(crate::position::raw_legal_moves(pos));
    let counted = t.line_cut(ply).counted(1);
    assert(counted.entry_for(zobrist_of(pos)) == t.entry_for(zobrist_of(pos)));
}

/// A forced mate in one move: where the root has a single legal move and
/// that move leaves the other side checkmated, in a position that neither
/// the transposition table settles nor the history stack holds already, a
/// search of the root without a time limit whose moves are searched two
/// plies deep or more, with alpha below the score of a mate in one and
/// with nothing pruned before the moves, scores `MATE - 1`, and the line
/// of the root is that move and no more.
pub proof fn a_forced_mate_in_one_is_found(
    setup: Setup,
    t: Tables,
    stack: Seq<HistoryStackEntry>,
    pos: Position,
    only: Move,
    depth: u8,
    alpha: int,
    beta: int,
)
    requires
        setup.cfg.wf(),
        t.lengths.len() == PV_PLIES,
        t.rows.len() == PV_PLIES,
        depth_left(t.entry_for(zobrist_of(pos))._move, seq![only], depth) >= 2,
        -MATE <= alpha < MATE - 1,
        alpha < beta <= MATE,
        in_check(pos) || beta - alpha != 1,
        pos.spec_legal_moves() == seq![only],
        in_check(pos.spec_play(only)),
        crate::position::raw_legal_moves(pos.spec_play(only)).len() == 0,
        !spec_tt_cutoff(
            t.entry_for(zobrist_of(pos.spec_play(only))),
            zobrist_of(pos.spec_play(only)),
            setup.generation,
            (depth_left(t.entry_for(zobrist_of(pos))._move, seq![only], depth) - 1) as u8,
            -beta,
            -alpha,
            1,
        ),
        -EVAL_LIMIT <= position_eval(&setup.net, pos) <= EVAL_LIMIT,
        earlier_occurrences(
            stack.push(
                HistoryStackEntry {
                    key: zobrist_of(pos.spec_play(only)),
                    eval: Some(position_eval(&setup.net, pos) as i32),
                },
            ),
            zobrist_of(pos.spec_play(only)),
        ) == 0,
    ensures
        node(setup, t, stack, pos, depth, alpha, beta, 0).1 == MATE - 1,
        node(setup, t, stack, pos, depth, alpha, beta, 0).0.lengths[0] == 1,
        node(setup, t, stack, pos, depth, alpha, beta, 0).0.rows[0][0] == Some(only),
{
    let counted = t.line_cut(0).counted(1);
    let eval = position_eval(&setup.net, pos);
    let improving = spec_improving(0, eval, kept_eval(stack, -2));
    let moves = pos.spec_legal_moves();
    let tt_move = counted.entry_for(zobrist_of(pos))._move;
    assert(tt_move == t.entry_for(zobrist_of(pos))._move);
    let ranks = counted.ranks(&setup.cfg, tt_move, 0, moves);
    let left = depth_left(tt_move, moves, depth);
    let order = picked(moves, ranks);
    assert(order =~= seq![only]) by {
        let none = crate::search::move_picker::picked_of(moves, ranks, 0);
        let one = crate::search::move_picker::picked_of(moves, ranks, 1);
        assert(none.1.len() == 0);
        assert(crate::search::move_picker::place_for(none.1, ranks[0]) == 0);
        assert(one.0 == none.0.insert(0, moves[0]));
    }
    let child = pos.spec_play(only);
    let deeper = stack.push(HistoryStackEntry { key: zobrist_of(child), eval: Some(eval as i32) });
    assert(counted.entry_for(zobrist_of(child)) == t.entry_for(zobrist_of(child)));
    a_mated_node_scores_the_mate(
        setup,
        counted,
        deeper,
        child,
        (left - 1) as u8,
        -beta,
        -alpha,
        1,
    );
    let found = one_move(setup, counted, stack, pos, only, 0, left, alpha, beta, 0, eval, improving);
    assert(found.1 == MATE - 1);
    assert(found.0.lengths[1] == 1);
    let stored = found.0.line_stored(0, only);
    assert(stored.lengths[0] == 1);
    assert(stored.rows[0][0] == Some(only));
    let through = moves_from(
        setup,
        counted,
        stack,
        pos,
        order,
        0,
        left,
        alpha,
        beta,
        0,
        eval,
        improving,
        -MATE as int,
        moves[0],
        false,
    );
    assert(!spec_late_move_pruned(&setup.cfg, only, in_check(pos), 0, left));
    assert(order[0] == only && moves[0] == only && order.len() == 1);
    if MATE - 1 >= beta {
        assert(stored.cutoff_kept(0, only, left).lengths == stored.lengths);
        assert(stored.cutoff_kept(0, only, left).rows == stored.rows);
    } else {
        let rest = moves_from(
            setup,
            stored,
            stack,
            pos,
            order,
            1,
            left,
            MATE - 1,
            beta,
            0,
            eval,
            improving,
            MATE - 1,
            only,
            found.2,
        );
        assert(rest == (stored, MATE - 1, only));
    }
    assert(through.1 == MATE - 1);
    assert(through.0.lengths[0] == 1);
    assert(through.0.rows[0][0] == Some(only));
    assert(searched_on(
        setup,
        counted,
        stack,
        pos,
        tt_move,
        depth,
        alpha,
        beta,
        0,
        eval,
        improving,
    ).1 == MATE - 1);
}

/// A shorter mate scores higher than a longer one: of two nodes in which
/// the side to move is mated, the one nearer the root scores lower for the
/// side that is mated, and so higher for the side that mates.
pub proof fn shorter_mates_score_higher(nearer: usize, further: usize)
    requires
        nearer < further,
    ensures
        spec_terminal_score(true, nearer) < spec_terminal_score(true, further),
        -spec_terminal_score(true, nearer) > -spec_terminal_score(true, further),
        spec_terminal_score(true, nearer) == -MATE + nearer,
{
}

/// A search without a time limit is determined by what it starts from:
/// two searches of one position to one depth, with the same network,
/// options and reductions, that start from the same tables, the same
/// history stack and the same generation of the transposition table, name
/// the same move to play, count the same nodes, and leave the same tables.
pub proof fn search_is_determined(
    one: &Search,
    other: &Search,
    after_one: &Search,
    after_other: &Search,
    best_one: Option<Move>,
    best_other: Option<Move>,
)
    requires
        one.unlimited(),
        other.unlimited(),
        one.setup() == other.setup(),
        one.tables() == other.tables(),
        one.state.hstack@ == other.state.hstack@,
        one.state.game == other.state.game,
        one.state.params.depth == other.state.params.depth,
        after_one.gone(one, best_one, false, Seq::empty(), Seq::empty()),
        after_other.gone(other, best_other, false, Seq::empty(), Seq::empty()),
    ensures
        best_one == best_other,
        after_one.state.info.nodes == after_other.state.info.nodes,
        after_one.tables() == after_other.tables(),
{
    assert(one.setup_of_search() == other.setup_of_search());
}

} // verus!
