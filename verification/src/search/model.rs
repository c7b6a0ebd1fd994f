//! The search as a function: what a search without a time limit returns and
//! leaves in its tables, written down as a mathematical function of what it
//! starts from. The searcher proves that it computes these functions.

use crate::bound::spec_classify;
use crate::chess::Move;
use crate::config::Config;
use crate::eval::has_officer;
use crate::nnue::Network;
use crate::position::{after_null_move, in_check, raw_legal_moves, zobrist_of, Position};
use crate::search::history::{credits_halved, credits_with};
use crate::search::history_stack::{earlier_occurrences, HistoryStackEntry};
use crate::search::killers::killers_after;
use crate::search::lmr::{held_reduction, Reductions};
use crate::search::move_picker::{picked, ranked};
use crate::search::pv::row_with;
use crate::search::search::{
    capture_replies, depth_left, kept_eval, position_eval, quiescence_score, spec_futile,
    spec_improving, spec_late_move_pruned, spec_null_move_applies, spec_null_reduction,
    spec_reducible, spec_rfp_applies, spec_terminal_score, spec_tt_cutoff,
};
use crate::search::tt::TranspositionTableEntry;
use crate::search::MATE;
use vstd::prelude::*;

verus! {

/// What a search reads and never changes: the network, the options, the
/// late move reductions, and the generation of the transposition table.
pub struct Setup {
    pub net: Network,
    pub cfg: Config,
    pub lmr: Reductions,
    pub generation: u8,
}

/// What a search reads and changes: the slots of the transposition table,
/// the killers of each ply, the credits of the history, the lengths and the
/// rows of the principal variation, and the count of nodes.
pub struct Tables {
    pub slots: Seq<TranspositionTableEntry>,
    pub killers: Seq<Seq<Move>>,
    pub credits: Seq<Seq<i32>>,
    pub lengths: Seq<usize>,
    pub rows: Seq<Seq<Option<Move>>>,
    pub nodes: u32,
}

/// A count of nodes after `more` nodes. The count stops at the largest
/// number it can hold.
pub open spec fn count_after(nodes: u32, more: nat) -> u32 {
    if nodes + more >= u32::MAX {
        u32::MAX
    } else {
        (nodes + more) as u32
    }
}

impl Tables {
    /// What the slot of a key holds.
    pub open spec fn entry_for(self, key: u64) -> TranspositionTableEntry {
        self.slots[key as int % self.slots.len() as int]
    }

    /// The tables after `more` nodes were counted.
    pub open spec fn counted(self, more: nat) -> Tables {
        Tables { nodes: count_after(self.nodes, more), ..self }
    }

    /// The tables with the line of a ply cut down to nothing.
    pub open spec fn line_cut(self, ply: usize) -> Tables {
        Tables { lengths: self.lengths.update(ply as int, ply), ..self }
    }

    /// The tables after a move became the best of a ply: the line of the
    /// ply is the move and, after it, the line of the next ply.
    pub open spec fn line_stored(self, ply: usize, m: Move) -> Tables {
        Tables {
            lengths: self.lengths.update(ply as int, self.lengths[ply + 1]),
            rows: self.rows.update(
                ply as int,
                row_with(
                    self.rows[ply as int],
                    self.rows[ply + 1],
                    ply as int,
                    self.lengths[ply + 1] as int,
                    m,
                ),
            ),
            ..self
        }
    }

    /// The tables after a quiet move cut the search of a node off: the
    /// move is a killer of the ply, and it has gained the depth as credit
    /// unless its credit is too near the largest number for that.
    pub open spec fn cutoff_kept(self, ply: usize, m: Move, depth: u8) -> Tables {
        let credit = self.credits[m.spec_role().spec_code() - 1][m.spec_to().spec_index()];
        Tables {
            killers: self.killers.update(ply as int, killers_after(self.killers[ply as int], m)),
            credits: if credit <= i32::MAX - depth {
                credits_with(self.credits, m.spec_role(), m.spec_to(), credit + depth)
            } else {
                self.credits
            },
            ..self
        }
    }

    /// The tables with a result in the slot of a key.
    pub open spec fn result_stored(self, key: u64, entry: TranspositionTableEntry) -> Tables {
        Tables { slots: self.slots.update(key as int % self.slots.len() as int, entry), ..self }
    }

    /// The tables as a new search finds them: every credit halved, and no
    /// node counted.
    pub open spec fn begun(self) -> Tables {
        Tables { credits: credits_halved(self.credits), nodes: 0, ..self }
    }

    /// The ranks of moves at a ply.
    pub open spec fn ranks(self, cfg: &Config, tt_move: Option<Move>, ply: usize, moves: Seq<Move>) -> Seq<
        int,
    > {
        Seq::new(
            moves.len(),
            |k: int|
                ranked(
                    cfg,
                    self.killers[ply as int],
                    self.credits[moves[k].spec_role().spec_code() - 1][moves[k].spec_to().spec_index()] as int,
                    tt_move,
                    moves[k],
                ),
        )
    }
}

/// The nodes that a quiescence search visits: the position itself, and,
/// unless no ply is left or standing pat reaches beta, those of the
/// searches of its captures up to the first that reaches beta.
pub open spec fn quiet_nodes(net: &Network, pos: Position, alpha: int, beta: int, limit: nat) -> nat
    decreases limit, 1int, 0int,
{
    let stand = position_eval(net, pos);
    if limit == 0 || stand >= beta {
        1
    } else {
        1 + quiet_nodes_from(
            net,
            pos,
            beta,
            if alpha < stand {
                stand
            } else {
                alpha
            },
            limit,
            0,
        )
    }
}

/// The nodes that a quiescence search visits from its capture `i` on, with
/// `best` the best score so far.
pub open spec fn quiet_nodes_from(
    net: &Network,
    pos: Position,
    beta: int,
    best: int,
    limit: nat,
    i: int,
) -> nat
    decreases limit, 0int, capture_replies(pos).len() - i,
{
    let moves = capture_replies(pos);
    if limit == 0 || i < 0 || i >= moves.len() {
        0
    } else {
        let child = pos.spec_play(moves[i]);
        let left = (limit - 1) as nat;
        let visited = quiet_nodes(net, child, -beta, -best, left);
        let score = -quiescence_score(net, child, -beta, -best, left as u8);
        if score >= beta {
            visited
        } else {
            visited + quiet_nodes_from(
                net,
                pos,
                beta,
                if score > best {
                    score
                } else {
                    best
                },
                limit,
                i + 1,
            )
        }
    }
}

/// The search of a node without a time limit: the tables after it, and its
/// score. The steps are those of the searcher, in its order: the line of
/// the ply is cut; at depth 0 the quiescence search gives the score; else
/// the node is counted, an entry of the transposition table that settles
/// the window gives its score, a position that stands on the history stack
/// already, away from the root, scores 0, and else the node is searched on.
pub open spec fn node(
    setup: Setup,
    t: Tables,
    stack: Seq<HistoryStackEntry>,
    pos: Position,
    depth: u8,
    alpha: int,
    beta: int,
    ply: usize,
) -> (Tables, int)
    decreases depth, 4int, 0int,
{
    let cut = t.line_cut(ply);
    if depth == 0 {
        let limit = setup.cfg.qsearch_depth.value;
        (
            cut.counted(quiet_nodes(&setup.net, pos, alpha, beta, limit as nat)),
            quiescence_score(&setup.net, pos, alpha, beta, limit),
        )
    } else {
        let t = cut.counted(1);
        let key = zobrist_of(pos);
        let entry = t.entry_for(key);
        let eval = position_eval(&setup.net, pos);
        let improving = spec_improving(ply, eval, kept_eval(stack, ply - 2));
        if spec_tt_cutoff(entry, key, setup.generation, depth, alpha, beta, ply) {
            (t, entry.score as int)
        } else if ply > 0 && earlier_occurrences(stack, key) >= 1 {
            (t, 0)
        } else {
            searched_on(
                setup,
                t,
                stack,
                pos,
                entry._move,
                depth,
                alpha,
                beta,
                ply,
                eval,
                improving,
            )
        }
    }
}

/// The search of a node that neither the transposition table nor a
/// repetition ends: the tables after it, and its score. Where the side to
/// move is not in check and the window is one point wide, the node may be
/// pruned. Else a position without a legal move has the score of mate or
/// stalemate; and else the moves are searched by falling rank and the
/// result is stored in the slot of the position. `tt_move` is the move of
/// the table's entry for the position.
pub open spec fn searched_on(
    setup: Setup,
    t: Tables,
    stack: Seq<HistoryStackEntry>,
    pos: Position,
    tt_move: Option<Move>,
    depth: u8,
    alpha: int,
    beta: int,
    ply: usize,
    eval: int,
    improving: bool,
) -> (Tables, int)
    decreases depth, 3int, 0int,
{
    let key = zobrist_of(pos);
    let pruned = if !in_check(pos) && beta - alpha == 1 {
        pruning(setup, t, stack, pos, depth, beta, ply, eval, improving)
    } else {
        (t, None)
    };
    let moves = pos.spec_legal_moves();
    match pruned.1 {
        Some(score) => (pruned.0, score),
        None => if moves.len() == 0 {
            (pruned.0, spec_terminal_score(in_check(pos) && raw_legal_moves(pos).len() == 0, ply))
        } else {
            let left = depth_left(tt_move, moves, depth);
            let order = picked(moves, pruned.0.ranks(&setup.cfg, tt_move, ply, moves));
            let found = moves_from(
                setup,
                pruned.0,
                stack,
                pos,
                order,
                0,
                left,
                alpha,
                beta,
                ply,
                eval,
                improving,
                -MATE as int,
                moves[0],
                false,
            );
            (
                found.0.result_stored(
                    key,
                    TranspositionTableEntry {
                        key,
                        score: found.1 as i32,
                        depth: left,
                        generation: setup.generation,
                        bound: spec_classify(found.1, alpha, beta),
                        _move: Some(found.2),
                    },
                ),
                found.1,
            )
        },
    }
}

/// The pruning of a node before its moves are searched: the tables after
/// it, and the score that ends the search of the node, if any. A null move
/// search, where it applies, comes first and ends the node where its score
/// is beta or more; reverse futility pruning then ends it with the static
/// evaluation where it applies.
pub open spec fn pruning(
    setup: Setup,
    t: Tables,
    stack: Seq<HistoryStackEntry>,
    pos: Position,
    depth: u8,
    beta: int,
    ply: usize,
    eval: int,
    improving: bool,
) -> (Tables, Option<int>)
    decreases depth, 1int, 0int,
{
    let r = spec_null_reduction(&setup.cfg, depth, improving);
    let passed = if spec_null_move_applies(
        &setup.cfg,
        depth,
        ply,
        has_officer(pos.board(), pos.spec_turn()),
    ) && 1 <= r <= depth {
        match after_null_move(pos) {
            Some(swapped) => {
                let answer = node(
                    setup,
                    t,
                    stack,
                    swapped,
                    (depth - r) as u8,
                    -beta,
                    -beta + 1,
                    (ply + 1) as usize,
                );
                (answer.0, Some(-answer.1))
            },
            None => (t, None),
        }
    } else {
        (t, None)
    };
    if passed.1 matches Some(score) && score >= beta {
        passed
    } else if spec_rfp_applies(&setup.cfg, depth, improving, eval, beta) {
        (passed.0, Some(eval))
    } else {
        (passed.0, None)
    }
}

/// The search of one move of a node: the tables after it, the move's
/// score, and whether futility pruning sets in for the moves that follow.
pub open spec fn one_move(
    setup: Setup,
    t: Tables,
    stack: Seq<HistoryStackEntry>,
    pos: Position,
    m: Move,
    place: usize,
    depth: u8,
    alpha: int,
    beta: int,
    ply: usize,
    eval: int,
    improving: bool,
) -> (Tables, int, bool)
    decreases depth, 1int, 0int,
{
    let child = pos.spec_play(m);
    let deeper = stack.push(HistoryStackEntry { key: zobrist_of(child), eval: Some(eval as i32) });
    let held = held_reduction(setup.lmr.raw(m.spec_is_quiet(), depth, place), improving, depth);
    let r = if spec_reducible(&setup.cfg, depth, place, in_check(child)) && 1 <= held <= depth {
        held
    } else {
        1
    };
    let sets_in = spec_futile(&setup.cfg, depth, r as u8, eval, alpha);
    let below = (ply + 1) as usize;
    if depth == 0 {
        (t, 0, false)
    } else if place == 0 {
        let first = node(setup, t, deeper, child, (depth - 1) as u8, -beta, -alpha, below);
        (first.0, -first.1, sets_in)
    } else {
        let narrow = node(setup, t, deeper, child, (depth - r) as u8, -(alpha + 1), -alpha, below);
        if -narrow.1 > alpha && beta - alpha > 1 {
            let wide = node(setup, narrow.0, deeper, child, (depth - 1) as u8, -beta, -alpha, below);
            (wide.0, -wide.1, sets_in)
        } else {
            (narrow.0, -narrow.1, sets_in)
        }
    }
}

/// The search of the moves of a node from place `i` of their order on: the
/// tables after it, the best score, and the move that gave it. `alpha` is
/// what the moves before have raised alpha to, `best_score` and
/// `best_move` the best of them, and `skip_quiets` whether futility
/// pruning has set in.
pub open spec fn moves_from(
    setup: Setup,
    t: Tables,
    stack: Seq<HistoryStackEntry>,
    pos: Position,
    order: Seq<Move>,
    i: int,
    depth: u8,
    alpha: int,
    beta: int,
    ply: usize,
    eval: int,
    improving: bool,
    best_score: int,
    best_move: Move,
    skip_quiets: bool,
) -> (Tables, int, Move)
    decreases depth, 2int, order.len() - i,
{
    if i < 0 || i >= order.len() {
        (t, best_score, best_move)
    } else {
        let m = order[i];
        let skipped = (skip_quiets && m.spec_is_quiet()) || spec_late_move_pruned(
            &setup.cfg,
            m,
            in_check(pos),
            i as usize,
            depth,
        );
        if skipped {
            moves_from(
                setup,
                t,
                stack,
                pos,
                order,
                i + 1,
                depth,
                alpha,
                beta,
                ply,
                eval,
                improving,
                best_score,
                best_move,
                skip_quiets,
            )
        } else {
            let found = one_move(
                setup,
                t,
                stack,
                pos,
                m,
                i as usize,
                depth,
                alpha,
                beta,
                ply,
                eval,
                improving,
            );
            let score = found.1;
            let better = score > best_score;
            let raised = better && score > alpha;
            let after = if raised {
                found.0.line_stored(ply, m)
            } else {
                found.0
            };
            let best = if better {
                (score, m)
            } else {
                (best_score, best_move)
            };
            if score >= beta {
                (
                    if m.spec_is_quiet() {
                        after.cutoff_kept(ply, m, depth)
                    } else {
                        after
                    },
                    best.0,
                    best.1,
                )
            } else {
                moves_from(
                    setup,
                    after,
                    stack,
                    pos,
                    order,
                    i + 1,
                    depth,
                    if raised {
                        score
                    } else {
                        alpha
                    },
                    beta,
                    ply,
                    eval,
                    improving,
                    best.0,
                    best.1,
                    skip_quiets || found.2,
                )
            }
        }
    }
}

/// The iterations of a search without a time limit from depth `next` up to
/// depth `cap`: the tables after them, and the move to play. Each iteration
/// searches the game's position from the root with the full window; the
/// move to play is the head of the line of the root after the last
/// iteration that left one, else `best`.
pub open spec fn deepened(
    setup: Setup,
    t: Tables,
    stack: Seq<HistoryStackEntry>,
    game: Position,
    next: int,
    cap: u8,
    best: Option<Move>,
) -> (Tables, Option<Move>)
    decreases cap + 1 - next,
{
    if next < 1 || next > cap {
        (t, best)
    } else {
        let searched = node(setup, t, stack, game, next as u8, -MATE as int, MATE as int, 0);
        deepened(setup, searched.0, stack, game, next + 1, cap, head_or(searched.0, best))
    }
}

/// The head of the line of the root, or `best` where the root has no line.
pub open spec fn head_or(t: Tables, best: Option<Move>) -> Option<Move> {
    if t.lengths[0] > 0 {
        t.rows[0][0]
    } else {
        best
    }
}

/// The score of iteration `depth` of a search without a time limit that
/// starts with the tables `t`, and the tables after that iteration.
pub open spec fn iteration(
    setup: Setup,
    t: Tables,
    stack: Seq<HistoryStackEntry>,
    game: Position,
    depth: int,
) -> (Tables, int)
    decreases depth,
{
    if depth < 1 || depth > u8::MAX {
        (t, 0)
    } else {
        node(
            setup,
            iteration(setup, t, stack, game, depth - 1).0,
            stack,
            game,
            depth as u8,
            -MATE as int,
            MATE as int,
            0,
        )
    }
}

} // verus!
