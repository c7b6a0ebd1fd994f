use castled_engine::bound::Bound;
use castled_engine::chess::Move;
use castled_engine::config::Config;
use castled_engine::logger::Logger;
use castled_engine::nnue::{Activation, Network};
use castled_engine::position::Position;
use castled_engine::search::lmr::Reductions;
use castled_engine::search::search::Search;
use castled_engine::search::tt::TranspositionTableEntry;
use castled_engine::search::{SearchState, MATE};
use castled_engine::time_control::time_mode::TimeMode;
use castled_engine::uci::{bench_line, UciController};

fn balance_network() -> Network {
    let values: [i16; 6] = [5, 15, 16, 25, 45, 0];
    let mut feature_weights: Vec<Vec<i16>> = Vec::new();
    for feature in 0..768usize {
        let role = (feature % 384) / 64;
        let mut column = vec![0i16; 2];
        if feature < 384 {
            column[1] = values[role];
        } else {
            column[0] = values[role];
        }
        feature_weights.push(column);
    }
    Network {
        hidden: 2,
        activation: Activation::CReLU,
        feature_weights,
        feature_bias: vec![0, 0],
        output_weights: vec![408, -408, -408, 408],
        output_bias: 0,
    }
}

fn node_searcher(fen: &str) -> Search {
    let mut cfg = Config::default();
    cfg.hash.value = 1;
    let lmr = Reductions { quiet: vec![vec![1u8; 256]; 64], noisy: vec![vec![1u8; 256]; 64] };
    let mut search = Search { state: SearchState::with_config(balance_network(), lmr, cfg) };
    search.state.game = Position::from_fen(fen).expect("a position");
    search.state.hstack.clear();
    search.state.nnue.refresh(&search.state.net, &search.state.game);
    search.state.tc.time_mode = TimeMode::Infinite;
    search
}

fn slot_of(search: &Search, pos: &Position) -> TranspositionTableEntry {
    search.state.tt.probe(pos.zobrist())
}

const ROOK_MATE: &str = "4k3/8/4K3/8/8/8/8/6R1 w - - 0 1";
const OPEN_GAME: &str = "r1bqkbnr/pppp1ppp/2n5/4p3/4P3/5N2/PPPP1PPP/RNBQKB1R w KQkq - 2 3";

#[test]
fn a_node_with_the_time_over_scores_nothing_and_only_cuts_its_line() {
    let mut search = node_searcher(OPEN_GAME);
    let pos = search.state.game.copy();
    search.negamax(&pos, 2, -MATE, MATE, 0);
    let nodes = search.state.info.nodes;
    let table = search.state.tt.table.clone();
    let killers = search.state.km.table.clone();
    let credits = search.state.hist.table.clone();
    let lines = search.state.pv.table.clone();
    assert!(search.state.pv.length[0] > 0);
    assert_eq!(search.search_node(&pos, 3, -MATE, MATE, 0, true), 0);
    assert_eq!(search.state.info.nodes, nodes);
    assert!(search.state.tt.table == table);
    assert!(search.state.km.table == killers);
    assert!(search.state.hist.table == credits);
    assert!(search.state.pv.table == lines);
    assert_eq!(search.state.pv.length[0], 0);
    assert_eq!(search.state.nnue.current, 0);
    assert!(search.state.hstack.stack.is_empty());
}

#[test]
fn a_node_at_depth_nothing_is_a_quiescence_search() {
    let mut search = node_searcher(OPEN_GAME);
    let pos = search.state.game.copy();
    let limit = search.state.cfg.qsearch_depth.value;
    let quiet = search.quiesce(&pos, -MATE, MATE, limit);
    let counted = search.state.info.nodes;
    assert!(counted >= 1);
    let table = search.state.tt.table.clone();
    search.state.pv.length[3] = 9;
    assert_eq!(search.search_node(&pos, 0, -MATE, MATE, 3, false), quiet);
    assert_eq!(search.state.info.nodes, 2 * counted);
    assert!(search.state.tt.table == table);
    assert_eq!(search.state.pv.length[3], 3);
    assert!(search.state.km.table.iter().all(|row| row.is_empty()));
    assert!(search.state.hist.table.iter().all(|row| row.iter().all(|c| *c == 0)));
}

#[test]
fn a_searched_node_stores_its_result() {
    let mut search = node_searcher(ROOK_MATE);
    search.state.tt.new_search();
    let pos = search.state.game.copy();
    let score = search.negamax(&pos, 4, -MATE, MATE, 0);
    assert_eq!(score, 99999);
    let entry = slot_of(&search, &pos);
    assert_eq!(entry.key, pos.zobrist());
    assert_eq!(entry.depth, 4);
    assert_eq!(entry.score, score);
    assert_eq!(entry.generation, search.state.tt.generation);
    assert!(entry.bound == Bound::Exact);
    let best = entry._move.expect("a move");
    assert_eq!(best.to_uci(), "g1g8");
    assert!(search.state.pv.table[0][0] == Some(best));
    assert!(search.state.pv.length[0] > 0);
    assert!(search.state.info.nodes >= 1);
}

#[test]
fn a_score_below_the_window_is_stored_as_an_upper_bound() {
    let mut search = node_searcher(OPEN_GAME);
    let pos = search.state.game.copy();
    let score = search.negamax(&pos, 1, 5000, MATE, 0);
    assert!(score <= 5000);
    let entry = slot_of(&search, &pos);
    assert_eq!(entry.score, score);
    assert!(entry.bound == Bound::Alpha);
    assert!(entry._move.is_some());
    assert_eq!(search.state.pv.length[0], 0);
    assert!(search.state.km.table[0].is_empty());
}

#[test]
fn a_quiet_move_that_cuts_off_becomes_a_killer_with_credit() {
    let mut search = node_searcher(OPEN_GAME);
    let pos = search.state.game.copy();
    let score = search.negamax(&pos, 1, -MATE, -5000, 0);
    assert!(score >= -5000);
    let entry = slot_of(&search, &pos);
    assert!(entry.bound == Bound::Beta);
    let best = entry._move.expect("a move");
    assert!(pos.legal_moves().contains(&best));
    if best.is_quiet() {
        assert!(search.state.km.table[0] == vec![best]);
        assert_eq!(search.state.hist.get(best.role(), best.to()), 1);
    } else {
        assert!(search.state.km.table[0].is_empty());
        assert!(search.state.hist.table.iter().all(|row| row.iter().all(|c| *c == 0)));
    }
}

#[test]
fn a_promotion_that_cuts_off_is_no_killer() {
    // The pawn promotes; every other move leaves White far worse off.
    let mut search = node_searcher("8/4P1k1/8/8/8/8/8/K7 w - - 0 1");
    let pos = search.state.game.copy();
    let score = search.negamax(&pos, 1, -MATE, 101, 0);
    assert!(score >= 101);
    let best = slot_of(&search, &pos)._move.expect("a move");
    assert!(best.is_promotion());
    assert!(!best.is_capture());
    assert!(search.state.km.table[0].is_empty());
    assert!(search.state.hist.table.iter().all(|row| row.iter().all(|c| *c == 0)));
}

#[test]
fn a_repeated_position_away_from_the_root_scores_nothing() {
    let mut search = node_searcher(OPEN_GAME);
    let pos = search.state.game.copy();
    search.state.hstack.push(pos.zobrist(), None);
    search.state.hstack.push(1, None);
    let table = search.state.tt.table.clone();
    assert_eq!(search.search_node(&pos, 3, -MATE, MATE, 2, false), 0);
    assert_eq!(search.state.info.nodes, 1);
    assert!(search.state.tt.table == table);
    assert_eq!(search.state.pv.length[2], 2);
}

#[test]
fn an_entry_of_the_table_that_settles_the_window_ends_the_node() {
    let mut search = node_searcher(OPEN_GAME);
    let pos = search.state.game.copy();
    let m: Move = pos.legal_moves()[0];
    search.state.tt.store(pos.zobrist(), 4, 77, Bound::Exact, m);
    let table = search.state.tt.table.clone();
    assert_eq!(search.search_node(&pos, 3, -MATE, MATE, 1, false), 77);
    assert_eq!(search.state.info.nodes, 1);
    assert!(search.state.tt.table == table);
    // At the root the entry ends nothing.
    search.search_node(&pos, 1, -MATE, MATE, 0, false);
    assert!(search.state.info.nodes > 2);
}

#[test]
fn a_search_begins_with_half_the_credit_and_no_nodes() {
    let mut search = node_searcher(OPEN_GAME);
    search.state.hist.table[2][17] = 9;
    search.state.hist.table[0][5] = -7;
    search.state.info.nodes = 55;
    search.state.params.depth = 0;
    let generation = search.state.tt.generation;
    let mut logger = Logger::new();
    assert!(search.go(true, &mut logger).is_none());
    assert_eq!(search.state.hist.table[2][17], 4);
    assert_eq!(search.state.hist.table[0][5], -3);
    assert_eq!(search.state.info.nodes, 0);
    assert_eq!(search.state.tt.generation, generation + 1);
    assert_eq!(logger.take(), vec!["bestmove 0000".to_string()]);
}

#[test]
fn the_move_to_play_heads_the_line_and_the_last_report_tells_the_state() {
    let mut search = node_searcher(OPEN_GAME);
    search.state.params.depth = 3;
    let mut logger = Logger::new();
    let best = search.go(true, &mut logger);
    let lines = logger.take();
    assert_eq!(lines.len(), 4);
    assert!(best.is_some());
    assert!(best == search.state.pv.table[0][0]);
    let game = search.state.game.copy();
    let entry = slot_of(&search, &game);
    assert!(entry._move == best);
    assert!(entry.depth == 3 || entry.depth == 2);
    assert_eq!(search.state.info.depth, 3);
    let pv: Vec<String> = search.state.pv.collect();
    let report = &lines[2];
    assert!(report.starts_with(&format!("info depth 3 nodes {} nps ", search.state.info.nodes)));
    assert!(report.contains(&format!(" score cp {} time ", entry.score)));
    assert!(report.ends_with(&format!(" pv {}", pv.join(" "))));
    assert_eq!(lines[3], format!("bestmove {}", best.expect("a move").to_uci()));
}

#[test]
fn the_move_after_an_iteration() {
    let mut search = node_searcher(ROOK_MATE);
    let pos = search.state.game.copy();
    let kept = pos.legal_moves()[0];
    assert!(search.best_after(Some(kept), false) == Some(kept));
    search.negamax(&pos, 4, -MATE, MATE, 0);
    let head = search.state.pv.table[0][0];
    assert_eq!(head.expect("a move").to_uci(), "g1g8");
    assert!(search.best_after(Some(kept), false) == head);
    assert!(search.best_after(Some(kept), true) == Some(kept));
    assert!(search.best_after(None, true).is_none());
}

#[test]
fn the_line_of_the_benchmark() {
    assert_eq!(bench_line(0, 0), "0 nodes 0 nps");
    assert_eq!(bench_line(1500, 2), "1500 nodes 500000 nps");
    assert_eq!(bench_line(1500, -4), "1500 nodes 1500000 nps");
    assert_eq!(bench_line(u64::MAX, 999), "18446744073709551615 nodes 18446744073709551615 nps");
}

#[test]
fn the_history_stack_holds_the_positions_replayed() {
    let mut cfg = Config::default();
    cfg.hash.value = 1;
    let lmr = Reductions { quiet: vec![vec![1u8; 256]; 64], noisy: vec![vec![1u8; 256]; 64] };
    let search = Search { state: SearchState::with_config(balance_network(), lmr, cfg) };
    let mut uci = UciController::new(search);
    uci.parse_command("position startpos moves e2e4 e7e5 g1f3 e7e5 d2d4");
    let start = Position::startpos();
    let first = start.play(start.find_uci_move("e2e4").expect("a move"));
    let second = first.play(first.find_uci_move("e7e5").expect("a move"));
    let third = second.play(second.find_uci_move("g1f3").expect("a move"));
    let keys: Vec<u64> = uci.search.state.hstack.stack.iter().map(|e| e.key).collect();
    assert_eq!(keys, vec![first.zobrist(), second.zobrist(), third.zobrist()]);
    assert!(uci.search.state.hstack.stack.iter().all(|e| e.eval.is_none()));
    assert_eq!(uci.search.state.game.zobrist(), third.zobrist());
    uci.parse_command("position fen 4k3/8/4K3/8/8/8/8/6R1 w - - 0 1 moves g1g7");
    assert_eq!(uci.search.state.hstack.stack.len(), 1);
    assert_eq!(uci.search.state.hstack.stack[0].key, uci.search.state.game.zobrist());
    uci.parse_command("position startpos");
    assert!(uci.search.state.hstack.stack.is_empty());
}

#[test]
fn a_new_size_gives_an_empty_table() {
    let mut cfg = Config::default();
    cfg.hash.value = 1;
    let lmr = Reductions { quiet: vec![vec![1u8; 256]; 64], noisy: vec![vec![1u8; 256]; 64] };
    let search = Search { state: SearchState::with_config(balance_network(), lmr, cfg) };
    let mut uci = UciController::new(search);
    uci.parse_command("go depth 2");
    assert!(uci.search.state.tt.table.iter().any(|e| e._move.is_some()));
    uci.parse_command("setoption name Hash value 2");
    assert_eq!(uci.search.state.tt.table.len(), 2 * 1048576 / 24);
    assert!(uci.search.state.tt.table.iter().all(|e| *e == TranspositionTableEntry::default()));
    assert_eq!(uci.search.state.tt.generation, 0);
}

#[test]
fn a_quiescence_search_counts_the_positions_it_visits() {
    // No capture is at hand: the position itself is the only node.
    let mut search = node_searcher("4k3/8/4K3/8/8/8/8/6R1 w - - 0 1");
    let pos = search.state.game.copy();
    search.quiesce(&pos, -MATE, MATE, 5);
    assert_eq!(search.state.info.nodes, 1);
    // One capture is at hand, and none after it: two nodes; with no ply left, one.
    let mut search = node_searcher("4k3/8/8/8/3p4/4P3/8/4K3 b - - 0 1");
    let pos = search.state.game.copy();
    assert_eq!(pos.capture_moves().len(), 1);
    search.quiesce(&pos, -MATE, MATE, 5);
    assert_eq!(search.state.info.nodes, 2);
    search.quiesce(&pos, -MATE, MATE, 0);
    assert_eq!(search.state.info.nodes, 3);
    // Standing pat at beta or above ends the search at its first node.
    search.quiesce(&pos, -MATE, -MATE + 1, 5);
    assert_eq!(search.state.info.nodes, 4);
    // The count stops at the largest number.
    search.state.info.nodes = u32::MAX;
    search.quiesce(&pos, -MATE, MATE, 5);
    assert_eq!(search.state.info.nodes, u32::MAX);
}

#[test]
fn a_search_that_starts_inside_the_mate_scores_names_a_move() {
    for fen in [OPEN_GAME, ROOK_MATE, "7k/5Q2/6K1/8/8/8/8/8 w - - 0 1", "8/8/8/8/8/5k2/6p1/6K1 w - - 0 1"] {
        let mut search = node_searcher(fen);
        let moves = search.state.game.legal_moves();
        assert!(!moves.is_empty());
        search.state.params.depth = 2;
        let mut logger = Logger::new();
        let best = search.go(false, &mut logger).expect("a move");
        assert!(moves.contains(&best));
        assert!(search.state.pv.table[0][0] == Some(best));
        assert!(search.state.pv.length[0] > 0);
        assert!(search.state.tt.table.iter().all(|e| -MATE < e.score && e.score < MATE));
        if moves.len() == 1 {
            assert!(best == moves[0]);
        }
    }
}

#[test]
fn a_late_quiet_move_is_pruned_in_every_node() {
    // The rook's mating move comes late among the quiet moves: two plies deep
    // it is pruned, at the root as anywhere, and four plies deep it is found.
    let mut search = node_searcher(ROOK_MATE);
    let pos = search.state.game.copy();
    assert!(pos.legal_moves().len() > 12);
    assert_eq!(search.negamax(&pos, 2, -MATE, MATE, 0), 500);
    let mut search = node_searcher(ROOK_MATE);
    assert_eq!(search.negamax(&pos, 4, -MATE, MATE, 0), 99999);
}

#[test]
fn one_legal_move_costs_one_iteration() {
    // The king is in check and has one square to go to.
    let fen = "7k/8/8/8/8/8/5PPq/7K w - - 0 1";
    let mut search = node_searcher(fen);
    let moves = search.state.game.legal_moves();
    assert_eq!(moves.len(), 1);
    search.state.params.depth = 6;
    let mut logger = Logger::new();
    let best = search.go(true, &mut logger);
    assert!(best == Some(moves[0]));
    let lines = logger.take();
    assert_eq!(lines.len(), 2);
    assert!(lines[0].starts_with("info depth 1 nodes "));
    assert_eq!(lines[1], format!("bestmove {}", moves[0].to_uci()));
    assert_eq!(search.state.info.depth, 1);
    // The same work as a search to depth 1.
    let mut shallow = node_searcher(fen);
    shallow.state.params.depth = 1;
    let mut quiet = Logger::new();
    assert!(shallow.go(false, &mut quiet) == best);
    assert_eq!(shallow.state.info.nodes, search.state.info.nodes);
    assert!(shallow.state.tt.table == search.state.tt.table);
    // With more than one legal move every iteration is run.
    let mut search = node_searcher(OPEN_GAME);
    search.state.params.depth = 3;
    let mut logger = Logger::new();
    search.go(true, &mut logger);
    assert_eq!(logger.take().len(), 4);
    assert_eq!(search.state.info.depth, 3);
}

#[test]
fn the_loop_of_the_search_after_a_round() {
    let mut search = node_searcher(ROOK_MATE);
    let pos = search.state.game.copy();
    let kept = pos.legal_moves()[0];
    // No line yet: an iteration that counts keeps the move at hand.
    assert!(search.after_iteration(Some(kept), 2, false, false, false) == (Some(kept), 3, false));
    search.negamax(&pos, 4, -MATE, MATE, 0);
    let head = search.state.pv.table[0][0];
    assert!(head.is_some() && head != Some(kept));
    assert!(search.after_iteration(Some(kept), 0, false, false, false) == (head, 1, false));
    assert!(search.after_iteration(Some(kept), 0, false, false, true) == (head, 1, true));
    assert!(search.after_iteration(Some(kept), 3, true, false, false) == (Some(kept), 3, true));
    assert!(search.after_iteration(Some(kept), 3, false, true, false) == (Some(kept), 3, true));
    assert!(search.after_iteration(None, 0, true, true, true) == (None, 0, true));
}

#[test]
fn a_search_that_the_clock_stops_at_once_has_searched_nothing() {
    let mut search = node_searcher(OPEN_GAME);
    search.state.hist.table[1][9] = 6;
    search.state.info.nodes = 77;
    search.state.info.depth = 9;
    search.state.params.depth = 4;
    search.state.params.move_time = 0;
    search.state.tc.time_mode = TimeMode::MoveTime;
    let table = search.state.tt.table.clone();
    let mut logger = Logger::new();
    let best = search.go(true, &mut logger);
    let lines = logger.take();
    // Whatever the clock said, at most one iteration was begun and did not count.
    assert!(search.state.info.depth as usize <= lines.len());
    assert!(search.state.info.depth as usize + 1 >= lines.len());
    if search.state.info.depth == 0 {
        assert!(best.is_none());
        assert_eq!(lines, vec!["bestmove 0000".to_string()]);
        assert_eq!(search.state.info.nodes, 0);
        assert_eq!(search.state.hist.table[1][9], 3);
        assert!(search.state.tt.table == table);
    }
}

#[test]
fn a_round_of_the_loop_of_the_search() {
    let mut search = node_searcher(OPEN_GAME);
    let game = search.state.game.copy();
    let kept = game.legal_moves()[3];
    search.state.info.depth = 7;
    let table = search.state.tt.table.clone();
    let mut logger = Logger::new();
    // Too late: nothing is searched or said, and the search stops.
    assert!(search.iterate(Some(kept), 2, true, false, true, &mut logger) == (Some(kept), 2, true));
    assert_eq!(search.state.info.depth, 7);
    assert_eq!(search.state.info.nodes, 0);
    assert!(search.state.tt.table == table);
    assert!(search.state.pv.length.iter().all(|l| *l == 0));
    assert!(logger.lines.is_empty());
    // In time: the root is searched one ply deeper, and the iteration reported.
    let next = search.iterate(Some(kept), 2, false, false, true, &mut logger);
    assert_eq!(search.state.info.depth, 3);
    assert!(search.state.info.nodes >= 1);
    assert!(next == (search.state.pv.table[0][0], 3, false));
    assert!(next.0.is_some());
    let entry = slot_of(&search, &game);
    assert_eq!(entry.key, game.zobrist());
    assert_eq!(entry.depth, 3);
    let lines = logger.take();
    assert_eq!(lines.len(), 1);
    assert!(lines[0].starts_with(&format!("info depth 3 nodes {} nps ", search.state.info.nodes)));
    assert!(lines[0].contains(&format!(" score cp {} time ", entry.score)));
    // Without `print` nothing is said; with a single legal move the search stops.
    let next = search.iterate(None, 0, false, true, false, &mut logger);
    assert!(next == (search.state.pv.table[0][0], 1, true));
    assert!(logger.lines.is_empty());
}
