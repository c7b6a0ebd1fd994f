use castled_engine::bound::Bound;
use castled_engine::chess::{Color, Move, Role, Square};
use castled_engine::config::Config;
use castled_engine::eval::Eval;
use castled_engine::logger::Logger;
use castled_engine::nnue::{Activation, NNUEState, Network};
use castled_engine::position::Position;
use castled_engine::search::history_stack::HistoryStackEntry;
use castled_engine::search::lmr::Reductions;
use castled_engine::search::move_picker::MovePicker;
use castled_engine::search::search::{
    bestmove_line, futile, holds_move, improving_at, info_line, late_move_pruned,
    null_move_applies, null_reduction, nps, reducible, rfp_margin, terminal_score, tt_cutoff,
    Search,
};
use castled_engine::search::tt::TranspositionTableEntry;
use castled_engine::search::SearchState;
use castled_engine::time_control::time_mode::TimeMode;

/// A small network whose evaluation is the balance of material in
/// centipawns, seen from the side to move.
fn material_network() -> Network {
    let values: [i16; 6] = [5, 15, 16, 25, 45, 0];
    let mut feature_weights: Vec<Vec<i16>> = Vec::new();
    for feature in 0..768usize {
        let role = (feature % 384) / 64;
        let mut column = vec![0i16; 2];
        if feature < 384 {
            column[1] = values[role];
        } else {
            column[0] = values[role];
        }
        feature_weights.push(column);
    }
    Network {
        hidden: 2,
        activation: Activation::CReLU,
        feature_weights,
        feature_bias: vec![0, 0],
        output_weights: vec![408, -408, -408, 408],
        output_bias: 0,
    }
}

/// A network whose weights come from a fixed rule that mixes signs and
/// sizes.
fn mixed_network(hidden: usize) -> Network {
    let mut seed: u32 = 2024;
    let mut next = move || {
        seed = seed.wrapping_mul(1664525).wrapping_add(1013904223);
        (seed >> 16) as u16 as i16
    };
    Network {
        hidden,
        activation: Activation::SCReLU,
        feature_weights: (0..768).map(|_| (0..hidden).map(|_| next()).collect()).collect(),
        feature_bias: (0..hidden).map(|_| next()).collect(),
        output_weights: (0..2 * hidden).map(|_| next() / 256).collect(),
        output_bias: -12,
    }
}

fn small_config() -> Config {
    let mut cfg = Config::default();
    cfg.hash.value = 1;
    cfg
}

fn searcher(net: Network, fen: &str) -> Search {
    let mut search =
        Search { state: SearchState::with_config(net, Reductions::uniform(1, 1), small_config()) };
    search.state.game = Position::from_fen(fen).expect("a position");
    search.state.hstack.clear();
    search.state.nnue.refresh(&search.state.net, &search.state.game);
    search
}

fn values(state: &NNUEState) -> (Vec<i16>, Vec<i16>) {
    let top = &state.stack[state.current];
    (top.white.vals.clone(), top.black.vals.clone())
}

fn fresh_eval(net: &Network, pos: &Position) -> i32 {
    Eval::nnue_eval(&NNUEState::from_board(net, pos), pos, net)
}

/// The value of a position when each side may stand pat or capture.
fn quiet_value(net: &Network, pos: &Position, limit: u8) -> i32 {
    let mut best = fresh_eval(net, pos);
    if limit == 0 {
        return best;
    }
    for m in pos.capture_moves() {
        best = best.max(-quiet_value(net, &pos.play(m), limit - 1));
    }
    best
}

fn entry(key: u64, depth: u8, score: i32, bound: Bound, generation: u8) -> TranspositionTableEntry {
    TranspositionTableEntry { key, score, depth, generation, bound, _move: None }
}

#[test]
fn the_table_cuts_a_search_off_only_when_everything_fits() {
    let e = entry(9, 4, 50, Bound::Exact, 2);
    assert!(tt_cutoff(&e, 9, 2, 4, 0, 10, 1));
    assert!(tt_cutoff(&e, 9, 2, 3, 0, 10, 7));
    assert!(!tt_cutoff(&e, 8, 2, 4, 0, 10, 1));
    assert!(!tt_cutoff(&e, 9, 3, 4, 0, 10, 1));
    assert!(!tt_cutoff(&e, 9, 2, 5, 0, 10, 1));
    assert!(!tt_cutoff(&e, 9, 2, 4, 0, 10, 0));
    let upper = entry(9, 4, 50, Bound::Alpha, 2);
    assert!(tt_cutoff(&upper, 9, 2, 4, 50, 60, 1));
    assert!(!tt_cutoff(&upper, 9, 2, 4, 49, 60, 1));
    let lower = entry(9, 4, 50, Bound::Beta, 2);
    assert!(tt_cutoff(&lower, 9, 2, 4, 0, 50, 1));
    assert!(!tt_cutoff(&lower, 9, 2, 4, 0, 51, 1));
}

#[test]
fn a_side_is_improving_from_the_second_ply_on() {
    assert!(!improving_at(0, 100, Some(0)));
    assert!(!improving_at(1, 100, None));
    assert!(improving_at(2, 100, Some(100)));
    assert!(improving_at(2, 101, Some(100)));
    assert!(!improving_at(2, 99, Some(100)));
    assert!(improving_at(2, -500, None));
    assert!(improving_at(40, 0, Some(-1)));
}

#[test]
fn null_moves_need_depth_ply_and_pieces() {
    let cfg = Config::default();
    assert!(null_move_applies(&cfg, 6, 1, true));
    assert!(!null_move_applies(&cfg, 5, 1, true));
    assert!(!null_move_applies(&cfg, 6, 0, true));
    assert!(!null_move_applies(&cfg, 6, 1, false));
    assert!(!null_move_applies(&cfg, 60, 30, false));
}

#[test]
fn the_reduction_of_a_null_move() {
    let cfg = Config::default();
    // 10 + 6 / 6 = 11, but no more than the depth.
    assert_eq!(null_reduction(&cfg, 6, false), 6);
    assert_eq!(null_reduction(&cfg, 12, false), 12);
    assert_eq!(null_reduction(&cfg, 13, false), 12);
    assert_eq!(null_reduction(&cfg, 30, false), 15);
    assert_eq!(null_reduction(&cfg, 30, true), 16);
    assert_eq!(null_reduction(&cfg, 63, true), 22);
    assert_eq!(null_reduction(&cfg, 1, true), 1);
    let mut low = Config::default();
    low.nmp_margin.value = 1;
    low.nmp_divisor.value = 20;
    assert_eq!(null_reduction(&low, 19, false), 1);
    assert_eq!(null_reduction(&low, 40, false), 3);
}

#[test]
fn the_margin_of_reverse_futility_pruning() {
    let cfg = Config::default();
    assert_eq!(rfp_margin(&cfg, 1, false), 55);
    assert_eq!(rfp_margin(&cfg, 1, true), 32);
    assert_eq!(rfp_margin(&cfg, 11, false), 605);
    assert_eq!(rfp_margin(&cfg, 11, true), 582);
    assert_eq!(rfp_margin(&cfg, 0, true), -23);
}

#[test]
fn late_quiet_moves_are_pruned() {
    let cfg = Config::default();
    let quiet = Move::Normal {
        role: Role::Knight,
        from: Square(1),
        capture: None,
        to: Square(18),
        promotion: None,
    };
    let capture = Move::Normal {
        role: Role::Knight,
        from: Square(1),
        capture: Some(Role::Pawn),
        to: Square(18),
        promotion: None,
    };
    let promotion = Move::Normal {
        role: Role::Pawn,
        from: Square(48),
        capture: None,
        to: Square(56),
        promotion: Some(Role::Queen),
    };
    // The margin is 2 + 5 * depth.
    assert!(late_move_pruned(&cfg, quiet, false, 7, 1));
    assert!(!late_move_pruned(&cfg, quiet, false, 6, 1));
    assert!(late_move_pruned(&cfg, quiet, false, 17, 3));
    assert!(!late_move_pruned(&cfg, quiet, false, 16, 3));
    assert!(late_move_pruned(&cfg, quiet, false, 100, 1));
    assert!(!late_move_pruned(&cfg, quiet, true, 100, 1));
    assert!(!late_move_pruned(&cfg, capture, false, 100, 1));
    assert!(!late_move_pruned(&cfg, promotion, false, 100, 1));
    assert!(late_move_pruned(&cfg, quiet, false, 2 + 5 * 60, 60));
    assert!(!late_move_pruned(&cfg, quiet, false, 1 + 5 * 60, 60));
}

#[test]
fn late_moves_are_reduced_in_a_deep_search() {
    let cfg = Config::default();
    assert!(reducible(&cfg, 12, 9, false));
    assert!(reducible(&cfg, 40, 200, false));
    assert!(!reducible(&cfg, 11, 9, false));
    assert!(!reducible(&cfg, 12, 8, false));
    assert!(!reducible(&cfg, 12, 9, true));
}

#[test]
fn futility_pruning_sets_in_below_alpha() {
    let cfg = Config::default();
    // The margin is 40 + 30 * (depth - r) up to a reduced depth of 7.
    assert!(futile(&cfg, 3, 1, 0, 101));
    assert!(!futile(&cfg, 3, 1, 0, 100));
    assert!(futile(&cfg, 8, 1, -1000, 0));
    assert!(!futile(&cfg, 9, 1, -1000, 0));
    assert!(futile(&cfg, 9, 2, -251, 0));
    assert!(!futile(&cfg, 9, 2, -250, 0));
    assert!(futile(&cfg, 1, 1, -41, 0));
    assert!(!futile(&cfg, 1, 1, -40, 0));
}

#[test]
fn the_score_of_a_position_without_moves() {
    assert_eq!(terminal_score(true, 0), -100000);
    assert_eq!(terminal_score(true, 1), -99999);
    assert_eq!(terminal_score(true, 63), -99937);
    assert_eq!(terminal_score(false, 0), 0);
    assert_eq!(terminal_score(false, 17), 0);
}

#[test]
fn nodes_in_a_second() {
    assert_eq!(nps(0, 0), 0);
    assert_eq!(nps(1000, 0), 1_000_000);
    assert_eq!(nps(1000, 999), 1000);
    assert_eq!(nps(12345, 99), 123450);
    assert_eq!(nps(500, -3), 500_000);
    assert_eq!(nps(u32::MAX, i64::MAX), 0);
    assert_eq!(nps(u32::MAX, 0), u32::MAX as u128 * 1000);
}

#[test]
fn the_lines_of_a_search() {
    let pv = vec![String::from("e2e4"), String::from("e7e5")];
    assert_eq!(
        info_line(3, 1234, 9, -27, &pv),
        "info depth 3 nodes 1234 nps 123400 score cp -27 time 9 pv e2e4 e7e5"
    );
    assert_eq!(
        info_line(1, 0, 0, 99999, &vec![]),
        "info depth 1 nodes 0 nps 0 score cp 99999 time 0 pv "
    );
    let m = Move::Castle { king: Square(4), rook: Square(7) };
    assert_eq!(bestmove_line(Some(m)), "bestmove e1g1");
    assert_eq!(bestmove_line(None), "bestmove 0000");
}

#[test]
fn a_list_holds_its_moves() {
    let pos = Position::startpos();
    let moves = pos.legal_moves();
    assert!(holds_move(&moves, moves[7]));
    assert!(!holds_move(&moves, Move::Castle { king: Square(4), rook: Square(7) }));
    assert!(!holds_move(&vec![], moves[0]));
}

#[test]
fn moves_are_ranked() {
    let search = searcher(
        material_network(),
        "r3k3/1P6/8/3q4/4P3/8/8/R3K2R w KQ - 0 1",
    );
    let state = &search.state;
    let none = TranspositionTableEntry::default();
    let pos = &state.game;
    let find = |text: &str| pos.find_uci_move(text).expect("a legal move");
    // The pawn takes the queen: 60 * 5 - 1.
    assert_eq!(MovePicker::move_importance(state, &none, 0, find("e4d5")), 2_990_000);
    // The rook takes the rook: 60 * 4 - 4.
    assert_eq!(MovePicker::move_importance(state, &none, 0, find("a1a8")), 2_360_000);
    // The pawn takes the rook and is promoted: a capture first of all.
    assert_eq!(MovePicker::move_importance(state, &none, 0, find("b7a8q")), 2_390_000);
    // A promotion without a capture ranks by the new role.
    assert_eq!(MovePicker::move_importance(state, &none, 0, find("b7b8q")), 5);
    assert_eq!(MovePicker::move_importance(state, &none, 0, find("b7b8n")), 2);
    // A quiet move ranks by its history.
    assert_eq!(MovePicker::move_importance(state, &none, 0, find("e1g1")), 0);
    // The move of the table ranks above everything.
    let hinted = TranspositionTableEntry { _move: Some(find("e1g1")), ..none };
    assert_eq!(MovePicker::move_importance(state, &hinted, 0, find("e1g1")), 2_330_000);
    assert_eq!(MovePicker::move_importance(state, &hinted, 0, find("e4d5")), 2_990_000);
}

#[test]
fn killers_and_history_rank_quiet_moves() {
    let mut search = searcher(material_network(), "4k3/8/8/8/8/8/8/R3K2R w KQ - 0 1");
    let pos = search.state.game.copy();
    let find = |text: &str| pos.find_uci_move(text).expect("a legal move");
    let none = TranspositionTableEntry::default();
    search.state.km.store(4, find("a1a5"));
    search.state.hist.update(Role::Rook, Square(63), 40);
    search.state.hist.update(Role::King, Square(7), -3);
    let state = &search.state;
    assert_eq!(MovePicker::move_importance(state, &none, 4, find("a1a5")), 760_000);
    assert_eq!(MovePicker::move_importance(state, &none, 3, find("a1a5")), 0);
    assert_eq!(MovePicker::move_importance(state, &none, 64, find("a1a5")), 0);
    assert_eq!(MovePicker::move_importance(state, &none, 4, find("h1h8")), 40);
    // Castling counts as a move of the king to the rook's square.
    assert_eq!(MovePicker::move_importance(state, &none, 4, find("e1g1")), -3);
}

#[test]
fn the_picker_hands_out_moves_by_falling_rank() {
    let mut search = searcher(
        material_network(),
        "r3k3/1P6/8/3q4/4P3/8/8/R3K2R w KQ - 0 1",
    );
    let pos = search.state.game.copy();
    let moves = pos.legal_moves();
    let find = |text: &str| pos.find_uci_move(text).expect("a legal move");
    search.state.km.store(2, find("h1h5"));
    search.state.hist.update(Role::King, Square(12), 9);
    let hinted = TranspositionTableEntry { _move: Some(find("a1a2")), ..Default::default() };
    let mut picker = MovePicker::new(&moves, &search.state, &hinted, 2);
    assert_eq!(picker.curr, 0);
    assert_eq!(picker.order.len(), moves.len());
    let ranks: Vec<i32> = picker
        .order
        .iter()
        .map(|m| MovePicker::move_importance(&search.state, &hinted, 2, *m))
        .collect();
    assert!(ranks.windows(2).all(|w| w[0] >= w[1]));
    // Moves of one rank keep the order they were given in.
    let mut wanted: Vec<(i32, usize)> = moves
        .iter()
        .enumerate()
        .map(|(i, m)| (MovePicker::move_importance(&search.state, &hinted, 2, *m), i))
        .collect();
    wanted.sort_by(|a, b| b.0.cmp(&a.0).then(a.1.cmp(&b.1)));
    let wanted: Vec<Move> = wanted.iter().map(|(_, i)| moves[*i]).collect();
    assert_eq!(picker.order, wanted);
    let first: Vec<String> = picker.order.iter().take(6).map(|m| m.to_uci()).collect();
    assert_eq!(first, vec!["e4d5", "b7a8q", "b7a8r", "b7a8b", "b7a8n", "a1a8"]);
    assert_eq!(picker.order[6].to_uci(), "a1a2");
    assert_eq!(picker.order[7].to_uci(), "h1h5");
    assert_eq!(picker.order[8].to_uci(), "e1e2");
    let mut handed = Vec::new();
    while let Some(m) = picker.next() {
        handed.push(m);
    }
    assert_eq!(handed, wanted);
    assert_eq!(picker.next(), None);
    assert_eq!(picker.curr, moves.len());
}

#[test]
fn making_a_move_brings_the_accumulators_up_to_the_board() {
    let games = [
        ("rnbqkbnr/pppppppp/8/8/8/8/PPPPPPPP/RNBQKBNR w KQkq - 0 1", vec!["e2e4", "g1f3"]),
        ("r3k2r/p1ppqpb1/bn2pnp1/3PN3/1p2P3/2N2Q1p/PPPBBPPP/R3K2R w KQkq - 0 1",
         vec!["e1g1", "e1c1", "e5f7", "d5e6", "f3f6", "g2h3"]),
        ("r3k2r/8/8/8/8/8/8/R3K2R b KQkq - 0 1", vec!["e8g8", "e8c8", "a8a1", "h8h1"]),
        ("1r2k3/P6P/8/8/8/8/p7/1R2K3 w - - 0 1", vec!["a7b8q", "a7b8n", "a7a8r", "h7h8b"]),
        ("1r2k3/P6P/8/8/8/8/p7/1R2K3 b - - 0 1", vec!["a2b1q", "a2a1n", "b8b1"]),
        ("rnbqkbnr/ppp1p1pp/8/3pPp2/8/8/PPPP1PPP/RNBQKBNR w KQkq f6 0 3", vec!["e5f6", "e5e6"]),
        ("rnbqkbnr/pppp1ppp/8/8/3Pp3/8/PPP1PPPP/RNBQKBNR b KQkq d3 0 3", vec!["e4d3"]),
    ];
    for (fen, moves) in games {
        for text in moves {
            let mut search = searcher(mixed_network(16), fen);
            let pos = search.state.game.copy();
            let before = values(&search.state.nnue);
            let m = pos.find_uci_move(text).expect("a legal move");
            let child = search.make_move(&pos, m, 11);
            assert_eq!(search.state.nnue.current, 1);
            let rebuilt = NNUEState::from_board(&search.state.net, &child);
            assert_eq!(values(&search.state.nnue), values(&rebuilt), "{fen} {text}");
            assert_eq!(
                Eval::nnue_eval(&search.state.nnue, &child, &search.state.net),
                fresh_eval(&search.state.net, &child)
            );
            assert_eq!(
                search.state.hstack.stack.last(),
                Some(&HistoryStackEntry { key: child.zobrist(), eval: Some(11) })
            );
            search.undo_move();
            assert_eq!(search.state.nnue.current, 0);
            assert_eq!(values(&search.state.nnue), before, "{fen} {text}");
            assert!(search.state.hstack.stack.is_empty());
        }
    }
}

#[test]
fn en_passant_keeps_the_accumulators_true() {
    let mut search = searcher(
        mixed_network(32),
        "rnbqkbnr/ppp1p1pp/8/3pPp2/8/8/PPPP1PPP/RNBQKBNR w KQkq f6 0 3",
    );
    let pos = search.state.game.copy();
    let m = pos.find_uci_move("e5f6").expect("a legal move");
    assert_eq!(m, Move::EnPassant { from: Square(36), to: Square(45) });
    let child = search.make_move(&pos, m, 0);
    let rebuilt = NNUEState::from_board(&search.state.net, &child);
    assert_eq!(values(&search.state.nnue), values(&rebuilt));
    assert_eq!(child.turn(), Color::Black);
}

#[test]
fn a_game_of_moves_keeps_the_accumulators_true() {
    let mut search = searcher(
        mixed_network(8),
        "rnbqkbnr/pppppppp/8/8/8/8/PPPPPPPP/RNBQKBNR w KQkq - 0 1",
    );
    let game = [
        "e2e4", "d7d5", "e4d5", "d8d5", "b1c3", "d5a5", "d2d4", "c7c6", "g1f3", "g8f6", "f1c4",
        "c8f5", "e1g1", "e7e6", "c1d2", "f8b4", "a2a3", "b4c3", "d2c3", "a5c7", "d4d5", "c6d5",
        "c4b5", "b8c6", "c3f6", "g7f6", "f3d4", "e8c8",
    ];
    let mut pos = search.state.game.copy();
    for (ply, text) in game.iter().enumerate() {
        let m = pos.find_uci_move(text).expect("a legal move");
        pos = search.make_move(&pos, m, ply as i32);
        let rebuilt = NNUEState::from_board(&search.state.net, &pos);
        assert_eq!(values(&search.state.nnue), values(&rebuilt), "after {text}");
    }
    assert_eq!(search.state.nnue.current, game.len());
    assert_eq!(search.state.hstack.len(), game.len());
    for _ in 0..game.len() {
        search.undo_move();
    }
    let start = NNUEState::from_board(&search.state.net, &search.state.game);
    assert_eq!(values(&search.state.nnue), values(&start));
}

#[test]
fn quiescence_gives_the_value_of_the_captures() {
    let fens = [
        "r1bqkbnr/pppp1ppp/2n5/4p3/3PP3/5N2/PPP2PPP/RNBQKB1R b KQkq - 0 3",
        "r3k2r/p1ppqpb1/bn2pnp1/3PN3/1p2P3/2N2Q1p/PPPBBPPP/R3K2R w KQkq - 0 1",
        "4k3/8/8/3q4/4P3/8/8/4K3 w - - 0 1",
        "4k3/8/8/3q4/4P3/8/8/4K3 b - - 0 1",
        "rnbqkbnr/pppppppp/8/8/8/8/PPPPPPPP/RNBQKBNR w KQkq - 0 1",
    ];
    for fen in fens {
        for limit in 0..4u8 {
            let mut search = searcher(material_network(), fen);
            let pos = search.state.game.copy();
            let value = quiet_value(&search.state.net, &pos, limit);
            let wide = search.quiesce(&pos, -100000, 100000, limit);
            assert_eq!(wide, value, "{fen} to {limit}");
            for (alpha, beta) in [(-50, 50), (0, 1), (-1000, -999), (300, 900), (-900, -300)] {
                let score = search.quiesce(&pos, alpha, beta, limit);
                let wanted = if limit == 0 { value } else { value.clamp(alpha, beta) };
                assert_eq!(score, wanted, "{fen} to {limit} in {alpha}..{beta}");
            }
            assert_eq!(search.state.nnue.current, 0);
            assert!(search.state.hstack.stack.is_empty());
        }
    }
}

#[test]
fn quiescence_counts_its_nodes() {
    let mut search = searcher(material_network(), "4k3/8/8/3q4/4P3/8/8/4K3 w - - 0 1");
    let pos = search.state.game.copy();
    search.state.info.nodes = 0;
    // The pawn takes the queen, and nothing can be taken after that.
    assert_eq!(search.quiesce(&pos, -100000, 100000, 5), 100);
    assert_eq!(search.state.info.nodes, 2);
    assert_eq!(search.quiesce(&pos, -100000, 100000, 0), -800);
    assert_eq!(search.state.info.nodes, 3);
}

#[test]
fn at_depth_nothing_the_search_is_the_quiescence_search() {
    let fen = "r1bqkbnr/pppp1ppp/2n5/4p3/3PP3/5N2/PPP2PPP/RNBQKB1R b KQkq - 0 3";
    for (alpha, beta) in [(-100000, 100000), (-30, 70), (0, 1)] {
        let mut search = searcher(material_network(), fen);
        search.state.tc.time_mode = TimeMode::Infinite;
        let pos = search.state.game.copy();
        let limit = search.state.cfg.qsearch_depth.value;
        let quiet = search.quiesce(&pos, alpha, beta, limit);
        let nodes = search.state.info.nodes;
        search.state.info.nodes = 0;
        let score = search.negamax(&pos, 0, alpha, beta, 3);
        assert_eq!(score, quiet);
        assert_eq!(search.state.info.nodes, nodes);
        assert_eq!(search.state.pv.length[3], 3);
    }
}

#[test]
fn mate_and_stalemate_score_as_they_should() {
    let mut search = searcher(material_network(), "4k2R/8/4K3/8/8/8/8/8 b - - 0 1");
    let mated = search.state.game.copy();
    assert_eq!(search.negamax(&mated, 1, -100000, 100000, 0), -100000);
    assert_eq!(search.negamax(&mated, 3, -100000, 100000, 4), -99996);
    assert_eq!(search.negamax(&mated, 2, -100000, 100000, 7), -99993);
    let mut search = searcher(material_network(), "7k/5Q2/7K/8/8/8/8/8 b - - 0 1");
    let stale = search.state.game.copy();
    assert_eq!(search.negamax(&stale, 1, -100000, 100000, 0), 0);
    assert_eq!(search.negamax(&stale, 4, -100000, 100000, 5), 0);
}

#[test]
fn a_repeated_position_is_a_draw_away_from_the_root() {
    let fen = "4k3/8/8/8/8/8/8/Q3K3 w - - 0 1";
    let mut search = searcher(material_network(), fen);
    let pos = search.state.game.copy();
    let unrepeated = search.negamax(&pos, 2, -100000, 100000, 1);
    assert!(unrepeated >= 900);
    let mut search = searcher(material_network(), fen);
    search.state.hstack.push(pos.zobrist(), None);
    search.state.hstack.push(12345, None);
    search.state.hstack.push(pos.zobrist(), None);
    assert_eq!(search.negamax(&pos, 2, -100000, 100000, 1), 0);
    // At the root the position is searched all the same.
    assert!(search.negamax(&pos, 2, -100000, 100000, 0) >= 900);
    // The topmost entry is the position itself and does not count.
    let mut search = searcher(material_network(), fen);
    search.state.hstack.push(7, None);
    search.state.hstack.push(pos.zobrist(), None);
    assert!(search.negamax(&pos, 2, -100000, 100000, 1) >= 900);
}

#[test]
fn the_search_stays_within_the_mate_scores() {
    let fens = [
        "rnbqkbnr/pppppppp/8/8/8/8/PPPPPPPP/RNBQKBNR w KQkq - 0 1",
        "r3k2r/p1ppqpb1/bn2pnp1/3PN3/1p2P3/2N2Q1p/PPPBBPPP/R3K2R w KQkq - 0 1",
        "8/2p5/3p4/KP5r/1R3p1k/8/4P1P1/8 w - - 0 1",
        "4k3/8/4K3/8/8/8/8/6R1 w - - 0 1",
    ];
    for fen in fens {
        for depth in 0..4u8 {
            let mut search = searcher(material_network(), fen);
            let pos = search.state.game.copy();
            let score = search.negamax(&pos, depth, -100000, 100000, 0);
            assert!((-100000..=100000).contains(&score), "{fen} at {depth}: {score}");
            assert_eq!(search.state.nnue.current, 0);
            assert!(search.state.hstack.stack.is_empty());
        }
    }
}

#[test]
fn the_principal_variation_is_a_line_of_legal_moves() {
    let fens = [
        "rnbqkbnr/pppppppp/8/8/8/8/PPPPPPPP/RNBQKBNR w KQkq - 0 1",
        "r3k2r/p1ppqpb1/bn2pnp1/3PN3/1p2P3/2N2Q1p/PPPBBPPP/R3K2R w KQkq - 0 1",
        "8/2p5/3p4/KP5r/1R3p1k/8/4P1P1/8 w - - 0 1",
        "4r1k1/5ppp/8/8/8/8/4qPPP/R5K1 b - - 0 1",
    ];
    for fen in fens {
        let mut search = searcher(material_network(), fen);
        search.state.params.depth = 4;
        let mut logger = Logger::new();
        let best = search.go(false, &mut logger);
        let line = search.state.pv.collect();
        assert!(!line.is_empty());
        assert_eq!(best.expect("a move").to_uci(), line[0]);
        let mut pos = search.state.game.copy();
        for text in line {
            let m = pos.find_uci_move(&text).expect("a legal move of the line");
            pos = pos.play(m);
        }
    }
}

#[test]
fn a_searcher_starts_at_the_starting_position() {
    let search = Search::new(material_network(), Reductions::uniform(1, 1));
    assert_eq!(search.state.game.zobrist(), Position::startpos().zobrist());
    assert_eq!(search.state.nnue.current, 0);
    assert_eq!(search.state.hstack.len(), 0);
    assert_eq!(search.state.info.nodes, 0);
    assert_eq!(search.state.tt.len(), 255 * 1048576 / 24);
    assert_eq!(search.state.cfg.hash.value, 255);
    assert_eq!(search.state.tc.time_mode, TimeMode::Infinite);
    assert_eq!(
        values(&search.state.nnue),
        values(&NNUEState::from_board(&search.state.net, &Position::startpos()))
    );
}
