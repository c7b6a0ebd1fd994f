//! The search and the tables that serve it.

pub mod counter;
pub mod history;
pub mod history_stack;
pub mod info;
pub mod killers;
pub mod lmr;
pub mod model;
pub mod move_picker;
pub mod params;
pub mod pv;
pub mod search;
pub mod tt;

use crate::chess::{Move, Role, Square};
use crate::config::Config;
use crate::nnue::{NNUEState, Network, EVAL_LIMIT};
use crate::position::Position;
use crate::search::history::HistoryTable;
use crate::search::history_stack::HistoryStack;
use crate::search::info::SearchInfo;
use crate::search::killers::{Killers, KILLER_PLIES};
use crate::search::lmr::Reductions;
use crate::search::params::SearchParams;
use crate::search::pv::{PvTable, PV_PLIES};
use crate::search::tt::{entries_for, TranspositionTable, TranspositionTableEntry};
use crate::time_control::time_controller::TimeController;
use crate::time_control::time_mode::TimeMode;
use vstd::prelude::*;

verus! {

/// The size of a mate score: a mate at the root.
pub const MATE: i32 = 100_000;

/// The deepest ply that a search goes down to before quiescence.
pub const MAX_PLY: usize = 63;

/// Everything a search works on.
pub struct SearchState {
    pub game: Position,
    pub params: SearchParams,
    pub info: SearchInfo,
    pub tc: TimeController,
    pub nnue: NNUEState,
    pub tt: TranspositionTable,
    pub hstack: HistoryStack,
    pub pv: PvTable,
    pub km: Killers,
    pub cfg: Config,
    pub hist: HistoryTable,
    pub net: Network,
    pub lmr: Reductions,
}

/// Whether a network gives every pair of accumulators an evaluation that is
/// no mate score: one from `-MATE` to `MATE`.
pub open spec fn evals_within_mate(net: &Network) -> bool {
    forall|us: Seq<i16>, them: Seq<i16>|
        us.len() == net.hidden && them.len() == net.hidden ==>
            -MATE <= #[trigger] net.spec_evaluate(
            us,
            them,
        ) <= MATE
}

/// The bound on the size of every score of a search with a network: `MATE`
/// where the network's evaluations are within it, else the bound on the
/// size of every evaluation.
pub open spec fn score_limit(net: &Network) -> int {
    if evals_within_mate(net) {
        MATE as int
    } else {
        EVAL_LIMIT as int
    }
}

impl SearchState {
    /// Every part is well formed, the accumulators fit the network, and no
    /// score in the transposition table is beyond the bound on scores.
    pub open spec fn wf(&self) -> bool {
        &&& self.net.wf()
        &&& self.lmr.wf()
        &&& self.cfg.wf()
        &&& self.nnue.wf(&self.net)
        &&& self.tt.wf()
        &&& self.pv.wf()
        &&& self.km.wf()
        &&& self.hist.wf()
        &&& forall|i: int|
            0 <= i < self.tt.table.len() ==> -score_limit(&self.net) <= (
            #[trigger] self.tt.table[i]).score <= score_limit(&self.net)
        &&& forall|i: int|
            0 <= i < self.tt.table.len() ==> ((#[trigger] self.tt.table[i])._move matches Some(m)
                ==> m.wf())
    }

    /// Nothing has been searched yet: the transposition table is empty, no
    /// ply has a line or a killer, and no move has credit.
    pub open spec fn is_fresh(&self) -> bool {
        &&& forall|i: int|
            0 <= i < self.tt.table.len() ==> #[trigger] self.tt.table[i]
                == TranspositionTableEntry::empty()
        &&& forall|p: int| 0 <= p < PV_PLIES ==> #[trigger] self.pv.length[p] == 0
        &&& forall|p: int| 0 <= p < KILLER_PLIES ==>
            #[trigger] self.km.at(p) == Seq::<Move>::empty()
        &&& forall|piece: Role, to: Square|
            to.wf() ==> #[trigger] self.hist.credit(piece, to) == 0
    }

    /// A state for the starting position, with the default options, an
    /// empty transposition table of the default size, and accumulators that
    /// belong to the starting position.
    pub fn new(net: Network, lmr: Reductions) -> (r: SearchState)
        requires
            net.wf(),
            lmr.wf(),
        ensures
            r.wf(),
            r.cfg.is_default(),
            r.game.board() == crate::chess::initial_board(),
            r.game.spec_turn() == crate::chess::Color::White,
            r.nnue.reflects(&r.net, r.game.board()),
            r.nnue.current == 0,
            r.hstack@.len() == 0,
            r.info.nodes == 0,
            r.info.depth == 0,
            r.params.depth == 5,
            r.tc.time_mode == TimeMode::Infinite,
            r.tt.spec_len() == entries_for(255),
            r.tt.generation == 0,
            r.is_fresh(),
            r.net == net,
            r.lmr == lmr,
    {
        SearchState::with_config(net, lmr, Config::default())
    }

    /// A state for the starting position with the given options.
    pub fn with_config(net: Network, lmr: Reductions, cfg: Config) -> (r: SearchState)
        requires
            net.wf(),
            lmr.wf(),
            cfg.wf(),
        ensures
            r.wf(),
            r.cfg == cfg,
            r.game.board() == crate::chess::initial_board(),
            r.game.spec_turn() == crate::chess::Color::White,
            r.nnue.reflects(&r.net, r.game.board()),
            r.nnue.current == 0,
            r.hstack@.len() == 0,
            r.info.nodes == 0,
            r.info.depth == 0,
            r.params.depth == 5,
            r.tc.time_mode == TimeMode::Infinite,
            r.tt.spec_len() == entries_for(cfg.hash.value as int),
            r.tt.generation == 0,
            r.is_fresh(),
            r.net == net,
            r.lmr == lmr,
    {
        let game = Position::startpos();
        let tt = match TranspositionTable::with_megabytes(cfg.hash.value) {
            Some(tt) => tt,
            None => TranspositionTable::new(1),
        };
        let nnue = NNUEState::from_board(&net, &game);
        SearchState {
            game,
            tt,
            info: SearchInfo::default(),
            tc: TimeController::default(),
            params: SearchParams::default(),
            nnue,
            hstack: HistoryStack::new(),
            pv: PvTable::default(),
            km: Killers::new(),
            hist: HistoryTable::new(),
            cfg,
            net,
            lmr,
        }
    }
}

} // verus!
