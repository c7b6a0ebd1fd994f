use castled_engine::bound::Bound;
use castled_engine::chess::{Move, Role, Square};
use castled_engine::logger::Logger;
use castled_engine::search::counter::CounterMovesTable;
use castled_engine::search::history::HistoryTable;
use castled_engine::search::history_stack::{HistoryStack, HistoryStackEntry};
use castled_engine::search::info::SearchInfo;
use castled_engine::search::killers::Killers;
use castled_engine::search::lmr::Reductions;
use castled_engine::search::params::SearchParams;
use castled_engine::search::pv::PvTable;
use castled_engine::search::tt::{megabytes_for, TranspositionTable, TranspositionTableEntry};

fn quiet(from: u8, to: u8) -> Move {
    Move::Normal { role: Role::Knight, from: Square(from), capture: None, to: Square(to), promotion: None }
}

#[test]
fn bounds_settle_a_window() {
    assert!(Bound::Exact.confirms(5, 0, 10));
    assert!(Bound::Exact.confirms(-50, 0, 10));
    assert!(Bound::Alpha.confirms(0, 0, 10));
    assert!(Bound::Alpha.confirms(-1, 0, 10));
    assert!(!Bound::Alpha.confirms(1, 0, 10));
    assert!(Bound::Beta.confirms(10, 0, 10));
    assert!(Bound::Beta.confirms(11, 0, 10));
    assert!(!Bound::Beta.confirms(9, 0, 10));
}

#[test]
fn a_new_table_is_empty() {
    let table = TranspositionTable::new(8);
    assert_eq!(table.len(), 8);
    assert_eq!(table.generation, 0);
    let empty = TranspositionTableEntry::default();
    assert_eq!(
        empty,
        TranspositionTableEntry {
            key: 0,
            score: 0,
            depth: 0,
            generation: 0,
            bound: Bound::Alpha,
            _move: None
        }
    );
    for key in 0..40u64 {
        assert_eq!(table.probe(key), empty);
    }
}

#[test]
fn the_size_of_a_table_in_mebibytes() {
    let table = TranspositionTable::with_megabytes(1).expect("a table");
    assert_eq!(table.len(), 1048576 / 24);
    assert_eq!(table.len(), 43690);
    let table = TranspositionTable::with_megabytes(3).expect("a table");
    assert_eq!(table.len(), 131072);
    assert!(TranspositionTable::with_megabytes(0).is_none());
    assert!(TranspositionTable::with_megabytes(1025).is_none());
}

#[test]
fn a_probe_finds_what_was_stored() {
    let mut table = TranspositionTable::new(8);
    let m = quiet(1, 18);
    table.store(42, 3, -17, Bound::Exact, m);
    let entry = table.probe(42);
    assert_eq!(
        entry,
        TranspositionTableEntry {
            key: 42,
            score: -17,
            depth: 3,
            generation: 0,
            bound: Bound::Exact,
            _move: Some(m)
        }
    );
    // The slot is that of the key's remainder: key 2 and key 50 share it.
    assert_eq!(table.probe(2), entry);
    assert_eq!(table.probe(50), entry);
    assert_eq!(table.probe(3), TranspositionTableEntry::default());
    assert_eq!(table.table[2], entry);
}

#[test]
fn the_last_store_under_a_key_is_what_a_probe_finds() {
    let mut table = TranspositionTable::new(5);
    table.store(7, 3, 100, Bound::Beta, quiet(1, 18));
    table.store(7, 2, -30, Bound::Alpha, quiet(6, 21));
    let entry = table.probe(7);
    assert_eq!(entry.score, -30);
    assert_eq!(entry.depth, 2);
    assert_eq!(entry.bound, Bound::Alpha);
    assert_eq!(entry._move, Some(quiet(6, 21)));
    // Another position of the same slot replaces it as well.
    table.store(12, 9, 1, Bound::Exact, quiet(1, 16));
    assert_eq!(table.probe(7).key, 12);
    assert_eq!(table.probe(7).depth, 9);
}

#[test]
fn generations_mark_the_searches() {
    let mut table = TranspositionTable::new(4);
    table.store(1, 1, 1, Bound::Exact, quiet(1, 18));
    table.new_search();
    assert_eq!(table.generation, 1);
    table.store(2, 1, 1, Bound::Exact, quiet(1, 18));
    assert_eq!(table.probe(1).generation, 0);
    assert_eq!(table.probe(2).generation, 1);
    for _ in 0..254 {
        table.new_search();
    }
    assert_eq!(table.generation, 255);
    table.new_search();
    assert_eq!(table.generation, 0);
    assert_eq!(table.probe(2).generation, 1);
}

#[test]
fn clearing_empties_every_slot() {
    let mut table = TranspositionTable::new(4);
    for key in 0..4u64 {
        table.store(key, 1, 5, Bound::Exact, quiet(1, 18));
    }
    table.new_search();
    table.clear();
    assert_eq!(table.len(), 4);
    assert_eq!(table.generation, 1);
    for key in 0..4u64 {
        assert_eq!(table.probe(key), TranspositionTableEntry::default());
    }
}

#[test]
fn history_starts_without_credit() {
    let table = HistoryTable::new();
    for role in [Role::Pawn, Role::Knight, Role::Bishop, Role::Rook, Role::Queen, Role::King] {
        for square in 0..64u8 {
            assert_eq!(table.get(role, Square(square)), 0);
        }
    }
}

#[test]
fn history_adds_up_credit() {
    let mut table = HistoryTable::new();
    table.update(Role::Knight, Square(21), 5);
    table.update(Role::Knight, Square(21), 7);
    table.update(Role::King, Square(63), 3);
    table.update(Role::Pawn, Square(0), -4);
    assert_eq!(table.get(Role::Knight, Square(21)), 12);
    assert_eq!(table.get(Role::King, Square(63)), 3);
    assert_eq!(table.get(Role::Pawn, Square(0)), -4);
    assert_eq!(table.get(Role::Knight, Square(22)), 0);
    assert_eq!(table.get(Role::Bishop, Square(21)), 0);
}

#[test]
fn a_new_search_halves_the_credit() {
    let mut table = HistoryTable::new();
    table.update(Role::Queen, Square(10), 101);
    table.update(Role::Rook, Square(11), -101);
    table.update(Role::Pawn, Square(12), 1);
    table.new_search();
    assert_eq!(table.get(Role::Queen, Square(10)), 50);
    assert_eq!(table.get(Role::Rook, Square(11)), -50);
    assert_eq!(table.get(Role::Pawn, Square(12)), 0);
    table.new_search();
    table.new_search();
    // 101 / 2 / 2 / 2 is 101 / 8.
    assert_eq!(table.get(Role::Queen, Square(10)), 12);
    assert_eq!(table.get(Role::Rook, Square(11)), -12);
}

#[test]
fn credit_after_many_searches_is_the_first_credit_over_a_power_of_two() {
    for credit in [1i32, 2, 3, 1000, 65535, i32::MAX, -1, -7, -1000, i32::MIN + 1] {
        let mut table = HistoryTable::new();
        table.update(Role::Bishop, Square(33), credit);
        let mut power: i64 = 1;
        for _ in 0..12 {
            table.new_search();
            power *= 2;
            let now = table.get(Role::Bishop, Square(33)) as i64;
            assert_eq!(now, credit as i64 / power);
            assert!(now.abs() * power <= (credit as i64).abs());
        }
    }
}

#[test]
fn the_history_stack_counts_keys_below_the_top() {
    let mut stack = HistoryStack::new();
    assert_eq!(stack.count_zobrist(1), 0);
    stack.push(1, None);
    assert_eq!(stack.count_zobrist(1), 0);
    stack.push(2, Some(5));
    assert_eq!(stack.count_zobrist(1), 1);
    assert_eq!(stack.count_zobrist(2), 0);
    stack.push(1, None);
    stack.push(1, Some(-3));
    assert_eq!(stack.count_zobrist(1), 2);
    assert_eq!(stack.count_zobrist(2), 1);
    assert_eq!(stack.count_zobrist(3), 0);
    assert_eq!(stack.len(), 4);
}

#[test]
fn the_history_stack_keeps_evaluations() {
    let mut stack = HistoryStack::new();
    stack.push(1, None);
    stack.push(2, Some(5));
    assert_eq!(stack.get_eval(0), None);
    assert_eq!(stack.get_eval(1), Some(5));
    assert_eq!(stack.get_eval(2), None);
    assert_eq!(stack.get_eval(usize::MAX), None);
    assert_eq!(stack.pop(), Some(HistoryStackEntry { key: 2, eval: Some(5) }));
    assert_eq!(stack.pop(), Some(HistoryStackEntry { key: 1, eval: None }));
    assert_eq!(stack.pop(), None);
    stack.push(9, None);
    stack.clear();
    assert_eq!(stack.len(), 0);
    assert_eq!(stack.pop(), None);
}

#[test]
fn killers_keep_the_latest_two_moves() {
    let mut killers = Killers::new();
    assert!(killers.get(0).is_empty());
    let (a, b, c) = (quiet(1, 18), quiet(6, 21), quiet(1, 16));
    killers.store(3, a);
    assert_eq!(killers.get(3), &vec![a]);
    killers.store(3, a);
    assert_eq!(killers.get(3), &vec![a]);
    killers.store(3, b);
    assert_eq!(killers.get(3), &vec![b, a]);
    killers.store(3, c);
    assert_eq!(killers.get(3), &vec![c, b]);
    // The second killer comes to the front again.
    killers.store(3, b);
    assert_eq!(killers.get(3), &vec![b, c]);
    assert!(killers.contains(3, b));
    assert!(killers.contains(3, c));
    assert!(!killers.contains(3, a));
    assert!(killers.get(2).is_empty());
    assert!(killers.get(4).is_empty());
}

#[test]
fn killers_beyond_the_table_are_not_kept() {
    let mut killers = Killers::new();
    killers.store(63, quiet(1, 18));
    assert_eq!(killers.get(63).len(), 1);
    killers.store(64, quiet(1, 18));
    killers.store(usize::MAX, quiet(1, 18));
    for ply in 0..63 {
        assert!(killers.get(ply).is_empty());
    }
}

#[test]
fn counter_moves_are_kept_by_their_squares() {
    let mut table = CounterMovesTable::new();
    assert_eq!(table.get(Square(1), Square(18)), None);
    table.set(Square(1), Square(18), quiet(6, 21));
    assert_eq!(table.get(Square(1), Square(18)), Some(quiet(6, 21)));
    assert_eq!(table.get(Square(18), Square(1)), None);
    table.set(Square(1), Square(18), quiet(1, 16));
    assert_eq!(table.get(Square(1), Square(18)), Some(quiet(1, 16)));
    table.set(Square(63), Square(0), quiet(6, 23));
    assert_eq!(table.get(Square(63), Square(0)), Some(quiet(6, 23)));
}

#[test]
fn a_line_is_the_move_and_the_line_below() {
    let mut pv = PvTable::default();
    assert_eq!(pv.get_best_move(), None);
    assert!(pv.collect().is_empty());
    let (a, b, c) = (quiet(12, 28), quiet(52, 36), quiet(6, 21));
    // The search goes down three plies and comes back.
    pv.update_length(0);
    pv.update_length(1);
    pv.update_length(2);
    pv.update_length(3);
    pv.store(2, c);
    assert_eq!(pv.length[2], 3);
    pv.store(1, b);
    assert_eq!(pv.length[1], 3);
    pv.store(0, a);
    assert_eq!(pv.length[0], 3);
    assert_eq!(pv.get_best_move(), Some(a));
    assert_eq!(pv.collect(), vec!["e2e4", "e7e5", "g1f3"]);
    assert_eq!(pv.table[0][0], Some(a));
    assert_eq!(pv.table[0][1], Some(b));
    assert_eq!(pv.table[0][2], Some(c));
    assert_eq!(pv.table[1][1], Some(b));
    assert_eq!(pv.table[1][2], Some(c));
}

#[test]
fn a_line_is_cut_at_its_ply() {
    let mut pv = PvTable::default();
    let (a, b) = (quiet(12, 28), quiet(52, 36));
    pv.update_length(0);
    pv.update_length(1);
    pv.update_length(2);
    pv.store(1, b);
    pv.store(0, a);
    assert_eq!(pv.collect(), vec!["e2e4", "e7e5"]);
    // A better move at the root whose answer has no line yet.
    pv.update_length(1);
    pv.store(0, b);
    assert_eq!(pv.length[0], 1);
    assert_eq!(pv.collect(), vec!["e7e5"]);
    pv.update_length(0);
    assert!(pv.collect().is_empty());
}

#[test]
fn reductions_are_held_between_one_and_the_depth() {
    let table = Reductions::uniform(3, 0);
    assert!(table.is_valid());
    assert_eq!(table.reduction(true, 12, 10, true), 3);
    assert_eq!(table.reduction(true, 12, 10, false), 6);
    assert_eq!(table.reduction(true, 5, 10, false), 5);
    assert_eq!(table.reduction(true, 2, 10, true), 2);
    assert_eq!(table.reduction(false, 12, 10, true), 1);
    assert_eq!(table.reduction(false, 12, 10, false), 1);
    assert_eq!(table.reduction(true, 255, 100000, true), 3);
    let big = Reductions::uniform(200, 255);
    assert_eq!(big.reduction(true, 250, 0, false), 250);
    assert_eq!(big.reduction(false, 255, 0, false), 255);
    assert_eq!(big.reduction(false, 255, 0, true), 255);
}

#[test]
fn reductions_are_read_by_depth_and_place() {
    let mut table = Reductions::uniform(1, 1);
    table.quiet[12][9] = 4;
    table.noisy[12][9] = 2;
    table.quiet[63][255] = 7;
    assert_eq!(table.reduction(true, 12, 9, true), 4);
    assert_eq!(table.reduction(false, 12, 9, true), 2);
    assert_eq!(table.reduction(true, 12, 8, true), 1);
    assert_eq!(table.reduction(true, 63, 255, true), 7);
    assert_eq!(table.reduction(true, 200, 300, true), 7);
    let mut broken = Reductions::uniform(1, 1);
    broken.noisy[5].pop();
    assert!(!broken.is_valid());
    let mut short = Reductions::uniform(1, 1);
    short.quiet.pop();
    assert!(!short.is_valid());
}

#[test]
fn the_defaults_of_a_search() {
    let params = SearchParams::default();
    assert_eq!((params.depth, params.move_time, params.w_time, params.b_time), (5, 0, 0, 0));
    let info = SearchInfo::default();
    assert_eq!((info.nodes, info.depth), (0, 0));
}

#[test]
fn nodes_are_counted_up_to_the_largest_number() {
    let mut info = SearchInfo { nodes: 0, depth: 3 };
    info.count_node();
    info.count_node();
    assert_eq!((info.nodes, info.depth), (2, 3));
    info.nodes = u32::MAX - 1;
    info.count_node();
    assert_eq!(info.nodes, u32::MAX);
    info.count_node();
    assert_eq!(info.nodes, u32::MAX);
}

#[test]
fn the_logger_keeps_lines_until_they_are_taken() {
    let mut logger = Logger::new();
    assert!(logger.take().is_empty());
    logger.log("readyok");
    logger.log_line(String::from("bestmove e2e4"));
    assert_eq!(logger.lines.len(), 2);
    assert_eq!(logger.take(), vec!["readyok", "bestmove e2e4"]);
    assert!(logger.take().is_empty());
    logger.log("uciok");
    assert_eq!(logger.take(), vec!["uciok"]);
}

#[test]
fn the_size_of_a_table_of_so_many_entries() {
    assert_eq!(megabytes_for(0), 1);
    assert_eq!(megabytes_for(43690), 1);
    assert_eq!(megabytes_for(87381), 1);
    assert_eq!(megabytes_for(87382), 2);
    assert_eq!(megabytes_for(11_184_810), 255);
    assert_eq!(megabytes_for(44_739_243), 1024);
    assert_eq!(megabytes_for(usize::MAX), 1024);
}
