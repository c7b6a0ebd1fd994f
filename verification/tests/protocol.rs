use castled_engine::config::Config;
use castled_engine::nnue::{Activation, NNUEState, Network};
use castled_engine::position::Position;
use castled_engine::search::lmr::Reductions;
use castled_engine::search::search::Search;
use castled_engine::search::SearchState;
use castled_engine::time_control::time_mode::TimeMode;
use castled_engine::uci::{
    bench_position, command_index, split_words, UciController, UciOutcome, BENCH_DEPTH,
    BENCH_POSITIONS,
};

fn material_network() -> Network {
    let values: [i16; 6] = [5, 15, 16, 25, 45, 0];
    let mut feature_weights: Vec<Vec<i16>> = Vec::new();
    for feature in 0..768usize {
        let role = (feature % 384) / 64;
        let mut column = vec![0i16; 2];
        if feature < 384 {
            column[1] = values[role];
        } else {
            column[0] = values[role];
        }
        feature_weights.push(column);
    }
    Network {
        hidden: 2,
        activation: Activation::CReLU,
        feature_weights,
        feature_bias: vec![0, 0],
        output_weights: vec![408, -408, -408, 408],
        output_bias: 0,
    }
}

fn controller() -> UciController {
    let mut cfg = Config::default();
    cfg.hash.value = 1;
    let state = SearchState::with_config(material_network(), Reductions::uniform(1, 1), cfg);
    UciController::new(Search { state })
}

fn say(controller: &mut UciController, command: &str) -> (UciOutcome, Vec<String>) {
    let outcome = controller.parse_command(command);
    (outcome, controller.logger.take())
}

fn accumulators(controller: &UciController) -> (Vec<i16>, Vec<i16>) {
    let state = &controller.search.state.nnue;
    let top = &state.stack[state.current];
    (top.white.vals.clone(), top.black.vals.clone())
}

fn rebuilt(controller: &UciController) -> (Vec<i16>, Vec<i16>) {
    let state = NNUEState::from_board(&controller.search.state.net, &controller.search.state.game);
    (state.stack[0].white.vals.clone(), state.stack[0].black.vals.clone())
}

#[test]
fn a_command_is_split_into_its_words() {
    assert_eq!(split_words("go depth 5"), vec!["go", "depth", "5"]);
    assert_eq!(split_words("  position\tstartpos \n"), vec!["position", "startpos"]);
    assert_eq!(split_words(""), Vec::<String>::new());
    assert_eq!(split_words(" \t "), Vec::<String>::new());
    assert_eq!(split_words("x"), vec!["x"]);
    assert_eq!(split_words("a  b"), vec!["a", "b"]);
    assert_eq!(split_words("a\rb\nc\td e/f"), vec!["a", "b", "c", "d", "e/f"]);
}

#[test]
fn commands_are_known_by_their_first_word() {
    assert_eq!(command_index("quit"), 0);
    assert_eq!(command_index("isready"), 1);
    assert_eq!(command_index("print"), 2);
    assert_eq!(command_index("bench"), 3);
    assert_eq!(command_index("uci"), 4);
    assert_eq!(command_index("setoption"), 5);
    assert_eq!(command_index("ucinewgame"), 6);
    assert_eq!(command_index("position"), 7);
    assert_eq!(command_index("go"), 8);
    assert_eq!(command_index("stop"), 9);
    assert_eq!(command_index("UCI"), 9);
}

#[test]
fn an_empty_command_does_nothing() {
    let mut uci = controller();
    assert_eq!(say(&mut uci, ""), (UciOutcome::Continue, vec![]));
    assert_eq!(say(&mut uci, "   "), (UciOutcome::Continue, vec![]));
}

#[test]
fn isready_is_answered() {
    let mut uci = controller();
    assert_eq!(say(&mut uci, "isready"), (UciOutcome::Continue, vec![String::from("readyok")]));
}

#[test]
fn quit_ends_the_program() {
    let mut uci = controller();
    assert_eq!(say(&mut uci, "quit"), (UciOutcome::Quit, vec![]));
    assert_eq!(say(&mut uci, " quit now"), (UciOutcome::Quit, vec![]));
}

#[test]
fn an_unknown_command_is_reported() {
    let mut uci = controller();
    assert_eq!(
        say(&mut uci, "stop"),
        (UciOutcome::Continue, vec![String::from("info string unknown command: stop")])
    );
}

#[test]
fn uci_is_answered_with_the_options() {
    let mut uci = controller();
    let (outcome, lines) = say(&mut uci, "uci");
    assert_eq!(outcome, UciOutcome::Continue);
    assert_eq!(lines.len(), 30);
    assert_eq!(lines[0], "id name Pluto");
    assert_eq!(lines[1], "id author CastledChess");
    assert_eq!(lines[2], "option name MoveOverhead type spin default 0 min 0 max 10000");
    assert_eq!(lines[3], "option name Threads type spin default 1 min 1 max 1");
    assert_eq!(lines[4], "option name Hash type spin default 1 min 1 max 1024");
    assert_eq!(lines[20], "option name LMRQuietMargin type string default 2.74 min 0 max 10");
    assert_eq!(lines[28], "option name TCElapsedFactor type spin default 5 min 1 max 10");
    assert_eq!(lines[29], "uciok");
}

#[test]
fn the_workload_of_a_tuner_is_printed() {
    let mut uci = controller();
    let (outcome, lines) = say(&mut uci, "print spsa workload");
    assert_eq!(outcome, UciOutcome::Continue);
    assert_eq!(lines.len(), 24);
    assert_eq!(lines[0], "QSearchDepth, int, 15, 1, 20, 2.25, 0.002");
    assert_eq!(lines[23], "TCElapsedFactor, int, 5, 1, 10, 2.25, 0.002");
    assert_eq!(say(&mut uci, "print spsa dinner").1, vec!["info string unknown target: dinner"]);
    assert_eq!(say(&mut uci, "print money").1, vec!["info string unknown scope: money"]);
    assert!(say(&mut uci, "print").1.is_empty());
}

#[test]
fn options_are_set() {
    let mut uci = controller();
    assert_eq!(say(&mut uci, "setoption name QSearchDepth value 3"), (UciOutcome::Continue, vec![]));
    assert_eq!(uci.search.state.cfg.qsearch_depth.value, 3);
    assert_eq!(say(&mut uci, "setoption name Hash value 2"), (UciOutcome::Continue, vec![]));
    assert_eq!(uci.search.state.cfg.hash.value, 2);
    assert_eq!(uci.search.state.tt.len(), 2 * 1048576 / 24);
    assert_eq!(
        say(&mut uci, "setoption name LMRQuietMargin value 3.25"),
        (UciOutcome::Retune, vec![])
    );
    assert_eq!(uci.search.state.cfg.lmr_quiet_margin.value, "3.25");
    assert_eq!(
        say(&mut uci, "setoption name Threads value 4").1,
        vec!["info string Multithreading is not yet supported."]
    );
    assert_eq!(say(&mut uci, "setoption name Threads value 1"), (UciOutcome::Continue, vec![]));
    assert_eq!(uci.search.state.cfg.threads.value, 1);
    assert_eq!(
        say(&mut uci, "setoption name MoveOverhead value 10").1,
        vec!["info string MoveOverhead is not yet supported."]
    );
    assert_eq!(
        say(&mut uci, "setoption name Contempt value 10").1,
        vec!["info string unknown option: Contempt"]
    );
    assert_eq!(
        say(&mut uci, "setoption name QSearchDepth value 99").1,
        vec!["info string invalid value for option: QSearchDepth"]
    );
    assert_eq!(uci.search.state.cfg.qsearch_depth.value, 3);
    // Too few words set nothing.
    assert_eq!(say(&mut uci, "setoption name Hash"), (UciOutcome::Continue, vec![]));
    assert_eq!(uci.search.state.cfg.hash.value, 2);
}

#[test]
fn reductions_are_handed_over() {
    let mut uci = controller();
    let mut table = Reductions::uniform(1, 1);
    table.quiet[12][40] = 5;
    uci.set_reductions(table);
    assert_eq!(uci.search.state.lmr.reduction(true, 12, 40, true), 5);
    assert_eq!(uci.search.state.lmr.reduction(true, 12, 41, true), 1);
}

#[test]
fn a_position_is_set_up_from_the_start() {
    let mut uci = controller();
    assert_eq!(
        say(&mut uci, "position startpos moves e2e4 e7e5 g1f3"),
        (UciOutcome::Continue, vec![])
    );
    let mut wanted = Position::startpos();
    let mut keys = Vec::new();
    for text in ["e2e4", "e7e5", "g1f3"] {
        wanted = wanted.play(wanted.find_uci_move(text).expect("a legal move"));
        keys.push(wanted.zobrist());
    }
    assert_eq!(uci.search.state.game.zobrist(), wanted.zobrist());
    let stacked: Vec<u64> = uci.search.state.hstack.stack.iter().map(|e| e.key).collect();
    assert_eq!(stacked, keys);
    assert!(uci.search.state.hstack.stack.iter().all(|e| e.eval.is_none()));
    assert_eq!(uci.search.state.nnue.current, 0);
    assert_eq!(accumulators(&uci), rebuilt(&uci));
    say(&mut uci, "position startpos");
    assert_eq!(uci.search.state.game.zobrist(), Position::startpos().zobrist());
    assert!(uci.search.state.hstack.stack.is_empty());
    assert_eq!(accumulators(&uci), rebuilt(&uci));
}

#[test]
fn a_position_is_set_up_from_a_record() {
    let mut uci = controller();
    let fen = "r3k2r/p1ppqpb1/bn2pnp1/3PN3/1p2P3/2N2Q1p/PPPBBPPP/R3K2R w KQkq - 0 1";
    say(&mut uci, &format!("position fen {fen} moves e1g1 e8c8"));
    let mut wanted = Position::from_fen(fen).expect("a position");
    for text in ["e1g1", "e8c8"] {
        wanted = wanted.play(wanted.find_uci_move(text).expect("a legal move"));
    }
    assert_eq!(uci.search.state.game.zobrist(), wanted.zobrist());
    assert_eq!(uci.search.state.hstack.len(), 2);
    assert_eq!(accumulators(&uci), rebuilt(&uci));
    say(&mut uci, &format!("position fen {fen}"));
    assert_eq!(
        uci.search.state.game.zobrist(),
        Position::from_fen(fen).expect("a position").zobrist()
    );
    assert_eq!(uci.search.state.hstack.len(), 0);
}

#[test]
fn a_record_that_is_no_position_leaves_the_game_as_it_is() {
    let mut uci = controller();
    say(&mut uci, "position startpos moves d2d4");
    let key = uci.search.state.game.zobrist();
    assert_eq!(
        say(&mut uci, "position fen 6k1/5ppp/8/8/8/8/5PPP/4q1K1 b - - 0 1"),
        (
            UciOutcome::Continue,
            vec![String::from("info string invalid fen: 6k1/5ppp/8/8/8/8/5PPP/4q1K1 b - - 0 1")]
        )
    );
    assert_eq!(uci.search.state.game.zobrist(), key);
    assert_eq!(uci.search.state.hstack.len(), 1);
    assert_eq!(
        say(&mut uci, "position fen nonsense moves e2e4").1,
        vec!["info string invalid fen: nonsense"]
    );
    assert_eq!(uci.search.state.game.zobrist(), key);
    assert_eq!(say(&mut uci, "position fen").1, vec!["info string invalid fen: "]);
    assert_eq!(uci.search.state.game.zobrist(), key);
    assert_eq!(
        say(&mut uci, "position here").1,
        vec!["info string unknown position command: here"]
    );
    assert_eq!(uci.search.state.game.zobrist(), key);
    assert!(say(&mut uci, "position").1.is_empty());
}

#[test]
fn a_move_that_is_not_legal_ends_the_moves() {
    let mut uci = controller();
    say(&mut uci, "position startpos moves e2e4 e7e5 e1e3 g1f3");
    let mut wanted = Position::startpos();
    for text in ["e2e4", "e7e5"] {
        wanted = wanted.play(wanted.find_uci_move(text).expect("a legal move"));
    }
    assert_eq!(uci.search.state.game.zobrist(), wanted.zobrist());
    assert_eq!(uci.search.state.hstack.len(), 2);
    assert_eq!(accumulators(&uci), rebuilt(&uci));
    say(&mut uci, "position startpos moves e2e4 nonsense");
    assert_eq!(uci.search.state.hstack.len(), 1);
    // Without the word `moves` nothing is played.
    say(&mut uci, "position startpos e2e4");
    assert_eq!(uci.search.state.game.zobrist(), Position::startpos().zobrist());
}

#[test]
fn a_new_game_starts_from_the_start() {
    let mut uci = controller();
    say(&mut uci, "position startpos moves e2e4 e7e5");
    say(&mut uci, "go depth 2");
    assert_eq!(say(&mut uci, "ucinewgame"), (UciOutcome::Continue, vec![]));
    assert_eq!(uci.search.state.game.zobrist(), Position::startpos().zobrist());
    assert!(uci.search.state.hstack.stack.is_empty());
    assert!(uci.search.state.tt.table.iter().all(|e| e._move.is_none() && e.key == 0));
    assert_eq!(accumulators(&uci), rebuilt(&uci));
}

#[test]
fn go_searches_and_names_a_move() {
    let mut uci = controller();
    say(&mut uci, "position fen 4k3/8/4K3/8/8/8/8/6R1 w - - 0 1");
    let (outcome, lines) = say(&mut uci, "go depth 3");
    assert_eq!(outcome, UciOutcome::Continue);
    assert_eq!(lines.len(), 4);
    assert!(lines[0].starts_with("info depth 1 nodes "));
    assert!(lines[1].starts_with("info depth 2 nodes "));
    assert!(lines[2].starts_with("info depth 3 nodes "));
    assert!(lines[2].contains(" score cp 99999 "));
    assert!(lines[2].ends_with(" pv g1g8"));
    assert_eq!(lines[3], "bestmove g1g8");
    assert_eq!(uci.search.state.params.depth, 3);
    assert_eq!(uci.search.state.tc.time_mode, TimeMode::Infinite);
}

#[test]
fn go_reads_its_limits() {
    let mut uci = controller();
    let (_, lines) = say(&mut uci, "go wtime 1000 btime 2000 winc 10 binc 20 depth 1");
    assert_eq!(lines.len(), 2);
    let params = &uci.search.state.params;
    assert_eq!((params.depth, params.w_time, params.b_time), (1, 1000, 2000));
    assert_eq!(uci.search.state.tc.time_mode, TimeMode::Infinite);
    let (_, lines) = say(&mut uci, "go depth 1 movetime 40");
    assert!(lines.last().expect("a line").starts_with("bestmove "));
    assert_eq!(uci.search.state.params.depth, 255);
    assert_eq!(uci.search.state.params.move_time, 40);
    assert_eq!(uci.search.state.tc.time_mode, TimeMode::MoveTime);
    assert_eq!(uci.search.state.tc.play_time, 40);
    let (_, lines) = say(&mut uci, "go btime 80000 wtime 400");
    assert!(lines.last().expect("a line").starts_with("bestmove "));
    assert_eq!(uci.search.state.tc.time_mode, TimeMode::WOrBTime);
    assert_eq!(uci.search.state.tc.play_time, 50);
    assert!(uci.search.state.tc.is_time_up() || uci.search.state.tc.elapsed() * 5 > 50);
}

#[test]
fn go_with_limits_that_cannot_be_read_searches_nothing() {
    let mut uci = controller();
    for command in ["go depth", "go depth five", "go depth 256", "go faster", "go wtime -5"] {
        let (outcome, lines) = say(&mut uci, command);
        assert_eq!(outcome, UciOutcome::Continue);
        assert_eq!(lines, vec!["info string unknown or incomplete go command"], "{command}");
    }
}

#[test]
fn a_search_with_a_time_that_is_over_names_no_move() {
    let mut uci = controller();
    let (_, lines) = say(&mut uci, "go movetime 0 depth 0");
    assert_eq!(lines, vec!["bestmove 0000"]);
}

#[test]
fn the_positions_of_the_benchmark() {
    assert_eq!(BENCH_POSITIONS, 5);
    assert_eq!(BENCH_DEPTH, 5);
    for i in 0..BENCH_POSITIONS {
        assert!(Position::from_fen(bench_position(i)).is_some());
    }
    assert_eq!(
        bench_position(1),
        "8/2p5/3p4/KP5r/1R3p1k/8/4P1P1/8 w - - 0 1 "
    );
}

#[test]
fn the_benchmark_counts_the_same_nodes_each_time() {
    let mut uci = controller();
    say(&mut uci, "setoption name QSearchDepth value 2");
    let (outcome, first) = say(&mut uci, "bench");
    assert_eq!(outcome, UciOutcome::Continue);
    assert_eq!(first.len(), 1);
    let words: Vec<&str> = first[0].split(' ').collect();
    assert_eq!(words.len(), 4);
    assert_eq!((words[1], words[3]), ("nodes", "nps"));
    let nodes: u64 = words[0].parse().expect("a number");
    assert!(nodes > 0);
    // Another engine, started the same way, counts the same nodes.
    let mut other = controller();
    say(&mut other, "setoption name QSearchDepth value 2");
    let (_, second) = say(&mut other, "bench");
    assert_eq!(second[0].split(' ').next(), Some(words[0]));
    assert_eq!(uci.search.state.params.depth, BENCH_DEPTH);
    assert_eq!(uci.search.state.info.depth, BENCH_DEPTH);
}
