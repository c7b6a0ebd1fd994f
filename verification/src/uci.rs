//! The adapter between the lines of the UCI protocol and the search.

use crate::chess::{Move, Role, Square};
use crate::nnue::quot;
use crate::config::{same_text, Config, SetOption};
use crate::logger::Logger;
use crate::position::{
    position_after, position_of_fen, uci_move_of, white_to_move, zobrist_of, Position,
};
use crate::search::history_stack::HistoryStackEntry;
use crate::search::lmr::Reductions;
use crate::search::model::deepened;
use crate::search::params::SearchParams;
use crate::search::search::{depth_cap, iterations_for, Search};
use crate::search::tt::{entries_for, TranspositionTable, TranspositionTableEntry};
use crate::search::SearchState;
use crate::text::{
    append_unsigned, chars_of, decimal, join_with_blank, joined, parse_unsigned_in, push_char, unsigned_in,
    views,
};
use crate::time_control::time_controller::{millis_between, now_millis, TimeController};
use crate::time_control::time_mode::TimeMode;
use vstd::prelude::*;
use vstd::string::StringExecFns;

verus! {

#[verifier::external_type_specification]
#[verifier::external_body]
#[verifier::reject_recursive_types(T)]
pub struct ExQueue<T: Clone>(queues::Queue<T>);

/// The texts that wait in a queue, the oldest first.
pub uninterp spec fn queue_items(queue: queues::Queue<String>) -> Seq<Seq<char>>;

/// Whether `char::is_whitespace` counts a character as white space.
pub uninterp spec fn is_blank(c: char) -> bool;

/// Calls `queues::Queue::new`: an empty queue.
#[verifier::external_body]
fn new_queue() -> (queue: queues::Queue<String>)
    ensures
        queue_items(queue) == Seq::<Seq<char>>::empty(),
{
    queues::Queue::new()
}

/// Calls `queues::IsQueue::add`, which puts the text behind those that
/// wait and never fails.
#[verifier::external_body]
fn queue_add(queue: &mut queues::Queue<String>, token: String)
    ensures
        queue_items(*final(queue)) == queue_items(*old(queue)).push(token@),
{
    let _ = queues::IsQueue::add(queue, token);
}

/// Calls `queues::IsQueue::remove`, which takes the oldest text out, and
/// fails on an empty queue.
#[verifier::external_body]
fn queue_remove(queue: &mut queues::Queue<String>) -> (r: Option<String>)
    ensures
        queue_items(*old(queue)).len() == 0 ==> r is None && queue_items(*final(queue))
            == queue_items(*old(queue)),
        queue_items(*old(queue)).len() > 0 ==> r is Some && r.unwrap()@ == queue_items(
            *old(queue),
        )[0] && queue_items(*final(queue)) == queue_items(*old(queue)).drop_first(),
{
    queues::IsQueue::remove(queue).ok()
}

/// Calls `queues::IsQueue::size`: the number of texts that wait.
#[verifier::external_body]
fn queue_size(queue: &queues::Queue<String>) -> (r: usize)
    ensures
        r == queue_items(*queue).len(),
{
    queues::IsQueue::size(queue)
}

/// Calls `char::is_whitespace`.
#[verifier::external_body]
fn blank(c: char) -> (r: bool)
    ensures
        r == is_blank(c),
{
    c.is_whitespace()
}

/// The words of a text: its longest runs of characters that are no white
/// space, in their order.
pub open spec fn words_of(text: Seq<char>) -> Seq<Seq<char>>
    decreases text.len(),
{
    if text.len() == 0 {
        Seq::empty()
    } else if is_blank(text.last()) {
        words_of(text.drop_last())
    } else {
        let before = text.drop_last();
        if before.len() > 0 && !is_blank(before.last()) {
            words_of(before).drop_last().push(words_of(before).last().push(text.last()))
        } else {
            words_of(before).push(seq![text.last()])
        }
    }
}

/// A text that ends in a character that is no white space has a last word.
pub proof fn last_word_exists(text: Seq<char>)
    requires
        text.len() > 0,
        !is_blank(text.last()),
    ensures
        words_of(text).len() > 0,
    decreases text.len(),
{
    let before = text.drop_last();
    if before.len() > 0 && !is_blank(before.last()) {
        last_word_exists(before);
    }
}

/// Splits a text into its words.
pub fn split_words(text: &str) -> (r: Vec<String>)
    ensures
        views(r@) == words_of(text@),
{
    let chars = chars_of(text);
    let mut words: Vec<String> = Vec::new();
    let mut current = String::new();
    let mut in_word = false;
    let mut i: usize = 0;
    while i < chars.len()
        invariant
            i <= chars.len(),
            chars@ == text@,
            in_word == (i > 0 && !is_blank(chars@[i - 1])),
            words_of(chars@.take(i as int)) == (if in_word {
                views(words@).push(current@)
            } else {
                views(words@)
            }),
        decreases chars.len() - i,
    {
        let c = chars[i];
        proof {
            let now = chars@.take(i + 1);
            assert(now.drop_last() =~= chars@.take(i as int));
            assert(now.last() == c);
            if i > 0 {
                assert(chars@.take(i as int).last() == chars@[i - 1]);
            }
        }
        if blank(c) {
            if in_word {
                let ghost done = views(words@);
                let ghost word = current@;
                words.push(current);
                current = String::new();
                proof {
                    assert(views(words@) =~= done.push(word));
                }
            }
            in_word = false;
        } else {
            if !in_word {
                current = String::new();
            }
            let ghost before = current@;
            push_char(&mut current, c);
            proof {
                if in_word {
                    last_word_exists(chars@.take(i as int));
                    assert(views(words@).push(before).drop_last() =~= views(words@));
                } else {
                    assert(current@ =~= seq![c]);
                }
            }
            in_word = true;
        }
        i += 1;
    }
    proof {
        assert(chars@.take(chars.len() as int) =~= chars@);
    }
    if in_word {
        let ghost done = views(words@);
        let ghost word = current@;
        words.push(current);
        proof {
            assert(views(words@) =~= done.push(word));
        }
    }
    words
}

/// The positions of the benchmark.
pub const BENCH_POSITIONS: usize = 5;

/// The depth of the benchmark.
pub const BENCH_DEPTH: u8 = 5;

/// A position of the benchmark, as a FEN record.
pub open spec fn spec_bench_position(i: usize) -> Seq<char> {
    if i == 0 {
        "r3k2r/p1ppqpb1/bn2pnp1/3PN3/1p2P3/2N2Q1p/PPPBBPPP/R3K2R w KQkq - "@
    } else if i == 1 {
        "8/2p5/3p4/KP5r/1R3p1k/8/4P1P1/8 w - - 0 1 "@
    } else if i == 2 {
        "r3k2r/Pppp1ppp/1b3nbN/nP6/BBP1P3/q4N2/Pp1P2PP/R2Q1RK1 w kq - 0 1"@
    } else if i == 3 {
        "rnbq1k1r/pp1Pbppp/2p5/8/2B5/8/PPP1NnPP/RNBQK2R w KQ - 1 8  "@
    } else {
        "r4rk1/1pp1qppp/p1np1n2/2b1p1B1/2B1P1b1/P1NP1N2/1PP1QPPP/R4RK1 w - - 0 10 "@
    }
}

/// A position of the benchmark, as a FEN record.
pub fn bench_position(i: usize) -> (r: &'static str)
    ensures
        r@ == spec_bench_position(i),
{
    if i == 0 {
        "r3k2r/p1ppqpb1/bn2pnp1/3PN3/1p2P3/2N2Q1p/PPPBBPPP/R3K2R w KQkq - "
    } else if i == 1 {
        "8/2p5/3p4/KP5r/1R3p1k/8/4P1P1/8 w - - 0 1 "
    } else if i == 2 {
        "r3k2r/Pppp1ppp/1b3nbN/nP6/BBP1P3/q4N2/Pp1P2PP/R2Q1RK1 w kq - 0 1"
    } else if i == 3 {
        "rnbq1k1r/pp1Pbppp/2p5/8/2B5/8/PPP1NnPP/RNBQK2R w KQ - 1 8  "
    } else {
        "r4rk1/1pp1qppp/p1np1n2/2b1p1B1/2B1P1b1/P1NP1N2/1PP1QPPP/R4RK1 w - - 0 10 "
    }
}

/// What the caller has to do after a command.
#[derive(Clone, Copy, Debug, PartialEq, Eq, Structural)]
pub enum UciOutcome {
    /// Nothing but to print the lines said and to read on.
    Continue,
    /// To print the lines said and to end.
    Quit,
    /// To work out the late move reductions anew from the options that hold
    /// their margins and divisors, and to hand them over.
    Retune,
}

/// The answer to `uci`: the engine's name and author, a line for each
/// option, and `uciok`.
pub open spec fn answer_to_uci(cfg: &Config) -> Seq<Seq<char>> {
    seq!["id name Pluto"@, "id author CastledChess"@] + cfg.option_lines() + seq!["uciok"@]
}

/// The answer to the words after `print`: to `spsa workload` a line for
/// each option that a tuner may tune, to any other scope or target a line
/// that says so, to a missing one nothing.
pub open spec fn answer_to_print(cfg: &Config, words: Seq<Seq<char>>) -> Seq<Seq<char>> {
    if words.len() == 0 {
        Seq::empty()
    } else if words[0] != "spsa"@ {
        seq!["info string unknown scope: "@ + words[0]]
    } else if words.len() == 1 {
        Seq::empty()
    } else if words[1] == "workload"@ {
        cfg.tuning_lines()
    } else {
        seq!["info string unknown target: "@ + words[1]]
    }
}

/// What is said when an option was set: nothing where it was applied, and
/// else why it was not.
pub open spec fn answer_to_setoption(outcome: SetOption, name: Seq<char>) -> Seq<Seq<char>> {
    match outcome {
        SetOption::Applied | SetOption::Resized | SetOption::Retuned => Seq::empty(),
        SetOption::Unsupported => if name == "Threads"@ {
            seq!["info string Multithreading is not yet supported."@]
        } else {
            seq!["info string MoveOverhead is not yet supported."@]
        },
        SetOption::Refused => seq!["info string invalid value for option: "@ + name],
        SetOption::Unknown => seq!["info string unknown option: "@ + name],
    }
}

/// The number of a command by its first word; 9 for a word that is no
/// command.
pub open spec fn spec_command_index(word: Seq<char>) -> int {
    if word == "quit"@ {
        0
    } else if word == "isready"@ {
        1
    } else if word == "print"@ {
        2
    } else if word == "bench"@ {
        3
    } else if word == "uci"@ {
        4
    } else if word == "setoption"@ {
        5
    } else if word == "ucinewgame"@ {
        6
    } else if word == "position"@ {
        7
    } else if word == "go"@ {
        8
    } else {
        9
    }
}

/// The number of a command by its first word.
pub fn command_index(word: &str) -> (r: usize)
    ensures
        r == spec_command_index(word@),
{
    if same_text(word, "quit") {
        0
    } else if same_text(word, "isready") {
        1
    } else if same_text(word, "print") {
        2
    } else if same_text(word, "bench") {
        3
    } else if same_text(word, "uci") {
        4
    } else if same_text(word, "setoption") {
        5
    } else if same_text(word, "ucinewgame") {
        6
    } else if same_text(word, "position") {
        7
    } else if same_text(word, "go") {
        8
    } else {
        9
    }
}

/// The limits and the time mode that the words after `go` ask for, or
/// `None` where a word is no limit or a number is missing or no number.
/// All limits but a depth leave the depth open; a depth or `infinite` leaves
/// the time open.
pub open spec fn go_settings(words: Seq<Seq<char>>, params: SearchParams, mode: TimeMode) -> Option<
    (SearchParams, TimeMode),
>
    decreases words.len(),
{
    if words.len() == 0 {
        Some((params, mode))
    } else if words[0] == "infinite"@ {
        go_settings(words.drop_first(), SearchParams { depth: u8::MAX, ..params }, TimeMode::Infinite)
    } else if words.len() < 2 {
        None
    } else if words[0] == "btime"@ {
        match unsigned_in(words[1], u128::MAX) {
            Some(t) => go_settings(
                words.skip(2),
                SearchParams { depth: u8::MAX, b_time: t, ..params },
                TimeMode::WOrBTime,
            ),
            None => None,
        }
    } else if words[0] == "wtime"@ {
        match unsigned_in(words[1], u128::MAX) {
            Some(t) => go_settings(
                words.skip(2),
                SearchParams { depth: u8::MAX, w_time: t, ..params },
                TimeMode::WOrBTime,
            ),
            None => None,
        }
    } else if words[0] == "binc"@ || words[0] == "winc"@ {
        match unsigned_in(words[1], u32::MAX as u128) {
            Some(t) => go_settings(words.skip(2), params, mode),
            None => None,
        }
    } else if words[0] == "depth"@ {
        match unsigned_in(words[1], u8::MAX as u128) {
            Some(d) => go_settings(
                words.skip(2),
                SearchParams { depth: d as u8, ..params },
                TimeMode::Infinite,
            ),
            None => None,
        }
    } else if words[0] == "movetime"@ {
        match unsigned_in(words[1], u128::MAX) {
            Some(t) => go_settings(
                words.skip(2),
                SearchParams { depth: u8::MAX, move_time: t, ..params },
                TimeMode::MoveTime,
            ),
            None => None,
        }
    } else {
        None
    }
}

/// The words up to the word `moves`, or all where that word is missing.
pub open spec fn until_moves(words: Seq<Seq<char>>) -> Seq<Seq<char>>
    decreases words.len(),
{
    if words.len() == 0 || words[0] == "moves"@ {
        Seq::empty()
    } else {
        seq![words[0]] + until_moves(words.drop_first())
    }
}

/// The words after the word `moves`, or none where that word is missing.
pub open spec fn after_moves(words: Seq<Seq<char>>) -> Seq<Seq<char>>
    decreases words.len(),
{
    if words.len() == 0 {
        Seq::empty()
    } else if words[0] == "moves"@ {
        words.drop_first()
    } else {
        after_moves(words.drop_first())
    }
}

/// The position that a game comes to by the moves given in UCI notation:
/// each is played while it is a legal move; the first that is not ends the
/// game's record.
pub open spec fn replayed(pos: Position, moves: Seq<Seq<char>>) -> Position
    decreases moves.len(),
{
    if moves.len() == 0 {
        pos
    } else {
        match uci_move_of(pos, moves[0]) {
            Some(raw) => match Move::spec_from_raw(raw) {
                Some(m) => replayed(position_after(pos, raw), moves.drop_first()),
                None => pos,
            },
            None => pos,
        }
    }
}

/// What the history stack gains while a game is replayed: for each move
/// played the key of the position it leads to, in the order of the moves,
/// with no evaluation.
pub open spec fn replayed_keys(pos: Position, moves: Seq<Seq<char>>) -> Seq<HistoryStackEntry>
    decreases moves.len(),
{
    if moves.len() == 0 {
        Seq::empty()
    } else {
        match uci_move_of(pos, moves[0]) {
            Some(raw) => match Move::spec_from_raw(raw) {
                Some(m) => seq![
                    HistoryStackEntry { key: zobrist_of(position_after(pos, raw)), eval: None },
                ] + replayed_keys(position_after(pos, raw), moves.drop_first()),
                None => Seq::empty(),
            },
            None => Seq::empty(),
        }
    }
}

/// The line that answers `bench`: the nodes searched, and the nodes a
/// second that this makes. The time counts from the first millisecond on.
pub open spec fn bench_text(total: int, elapsed: i64) -> Seq<char> {
    decimal(total) + " nodes "@ + decimal(
        total * 1000 / (if elapsed < 0 {
            1
        } else {
            elapsed + 1
        }),
    ) + " nps"@
}

/// What the search of a position of the benchmark leaves of the searcher
/// before it: the game is at that position with an empty history, the
/// limits are the depth of the benchmark and no limit on the time, and the
/// position has been searched to that depth, or to depth 1 if it has a
/// single legal move: the tables are those that the iterations up to that
/// depth leave of the tables before, and
/// `root_done` holds of them; at least one node was counted, the
/// transposition table has entered the next generation, and no credit of
/// the history is below half of what it was. A record that is no position
/// leaves the searcher as it was.
pub open spec fn benched(before: &Search, after: &Search, i: usize) -> bool {
    match position_of_fen(spec_bench_position(i)) {
        Some(game) => {
            &&& after.state.game == game
            &&& after.state.params.depth == BENCH_DEPTH
            &&& after.state.tc.time_mode == TimeMode::Infinite
            &&& after.state.hstack@.len() == 0
            &&& after.state.net == before.state.net
            &&& after.state.cfg == before.state.cfg
            &&& after.state.lmr == before.state.lmr
            &&& after.state.tt.length == before.state.tt.length
            &&& after.state.tt.generation == (if before.state.tt.generation == 255 {
                0u8
            } else {
                (before.state.tt.generation + 1) as u8
            })
            &&& after.tables() == deepened(
                before.setup_of_search(),
                before.tables().begun(),
                Seq::empty(),
                game,
                1,
                iterations_for(game, BENCH_DEPTH),
                None,
            ).0
            &&& after.root_done(iterations_for(game, BENCH_DEPTH))
            &&& after.state.info.depth == iterations_for(game, BENCH_DEPTH)
            &&& after.state.info.nodes >= 1
            &&& forall|piece: Role, to: Square|
                to.wf() ==> #[trigger] after.state.hist.credit(piece, to) >= quot(
                    before.state.hist.credit(piece, to) as int,
                    2,
                )
        },
        None => after == before,
    }
}

/// The nodes that the searches of the first `n` positions of the benchmark
/// counted, where `states[i + 1]` is the searcher after the search of
/// position `i`.
pub open spec fn bench_total(states: Seq<Search>, n: int) -> int
    decreases n,
{
    if n <= 0 {
        0
    } else {
        bench_total(states, n - 1) + (if position_of_fen(spec_bench_position((n - 1) as usize))
            is Some {
            states[n].state.info.nodes as int
        } else {
            0
        })
    }
}

/// The total of a benchmark rests on the searchers up to the last that it
/// counts: a further searcher does not change it.
pub proof fn bench_total_stands(states: Seq<Search>, next: Search, n: int)
    requires
        n < states.len(),
    ensures
        bench_total(states.push(next), n) == bench_total(states, n),
    decreases n,
{
    if n > 0 {
        bench_total_stands(states, next, n - 1);
    }
}

/// The protocol's side of the engine: a searcher and the lines it has to
/// say.
pub struct UciController {
    pub search: Search,
    pub logger: Logger,
}

impl UciController {
    /// The state of the search is well formed, and its accumulators stand at
    /// the first pair and belong to the game's position.
    pub open spec fn wf(&self) -> bool {
        &&& self.search.state.wf()
        &&& self.search.state.nnue.current == 0
        &&& self.search.state.nnue.reflects(&self.search.state.net, self.search.state.game.board())
    }

    /// A controller with a searcher for the starting position.
    pub fn new(search: Search) -> (r: UciController)
        requires
            search.state.wf(),
            search.state.nnue.current == 0,
            search.state.nnue.reflects(&search.state.net, search.state.game.board()),
        ensures
            r.wf(),
            r.logger@ == Seq::<Seq<char>>::empty(),
            r.search == search,
    {
        UciController { search, logger: Logger::new() }
    }

    /// Takes new late move reductions, as worked out from the options that
    /// hold their margins and divisors.
    pub fn set_reductions(&mut self, lmr: Reductions)
        requires
            old(self).wf(),
            lmr.wf(),
        ensures
            final(self).wf(),
            final(self).search.state.lmr == lmr,
            final(self).logger == old(self).logger,
    {
        self.search.state.lmr = lmr;
    }

    /// What the words after `position` lead to: after `fen` the game is at
    /// the position of the record, with the moves that follow played, or as
    /// it was where the record is no position, which is said; after
    /// `startpos` it is at the starting position with the moves that follow
    /// played, which are those after a following word `moves`; after any
    /// other word it is as it was, and the word is said to be unknown.
    pub open spec fn positioned(&self, before: &UciController, words: Seq<Seq<char>>) -> bool {
        &&& self.search.state.same_tables(&before.search.state)
        &&& self.positioned_game(before, words)
    }

    /// The game and the history stack after `position`, as `positioned`
    /// says.
    pub open spec fn positioned_game(&self, before: &UciController, words: Seq<Seq<char>>) -> bool {
        if words.len() == 0 {
            self.search == before.search && self.logger == before.logger
        } else if words[0] == "startpos"@ {
            let moves = if words.len() >= 2 && words[1] == "moves"@ {
                words.skip(2)
            } else {
                Seq::empty()
            };
            &&& self.logger@ == before.logger@
            &&& exists|start: Position| #[trigger]
                start.board() == crate::chess::initial_board() && white_to_move(start)
                    && self.search.state.game == replayed(start, moves)
                    && self.search.state.hstack@ == replayed_keys(start, moves)
        } else if words[0] == "fen"@ {
            let record = joined(until_moves(words.drop_first()));
            match position_of_fen(record) {
                Some(start) => {
                    &&& self.logger@ == before.logger@
                    &&& self.search.state.game == replayed(start, after_moves(words.drop_first()))
                    &&& self.search.state.hstack@ == replayed_keys(
                        start,
                        after_moves(words.drop_first()),
                    )
                },
                None => self.search == before.search && self.logger@ == before.logger@.push(
                    "info string invalid fen: "@ + record,
                ),
            }
        } else {
            self.search == before.search && self.logger@ == before.logger@.push(
                "info string unknown position command: "@ + words[0],
            )
        }
    }

    /// What `go` with the words after it leads to. Where the words give
    /// limits, the game's position is searched under them, as the search's
    /// own `gone` says of the state it leaves, the move to play and the
    /// lines said. Where they give none, that is said and nothing is
    /// searched.
    pub open spec fn gone(&self, before: &UciController, words: Seq<Seq<char>>) -> bool {
        match go_settings(words, before.search.state.params, before.search.state.tc.time_mode) {
            Some(settings) => exists|best: Option<Move>| #[trigger]
                self.search.gone(
                    &before.search.limited(settings.0, settings.1),
                    best,
                    true,
                    before.logger@,
                    self.logger@,
                ),
            None => self.search == before.search && self.logger@ == before.logger@.push(
                "info string unknown or incomplete go command"@,
            ),
        }
    }

    /// What `ucinewgame` leads to: the game is at the starting position
    /// with an empty history, every slot of the transposition table is
    /// empty, and nothing is said.
    pub open spec fn started_anew(&self, before: &UciController) -> bool {
        &&& self.logger == before.logger
        &&& self.search.state.hstack@.len() == 0
        &&& self.search.state.game.board() == crate::chess::initial_board()
        &&& white_to_move(self.search.state.game)
        &&& self.search.state.cfg == before.search.state.cfg
        &&& self.search.state.tt.spec_len() == before.search.state.tt.spec_len()
        &&& self.search.state.tt.generation == before.search.state.tt.generation
        &&& forall|i: int|
            0 <= i < self.search.state.tt.spec_len() ==> #[trigger] self.search.state.tt.table[i]
                == TranspositionTableEntry::empty()
    }

    /// What `bench` leads to. `states` are the searchers that the
    /// benchmark passes through: the first is the one before it with every
    /// slot of the transposition table emptied, each next one is what the
    /// search of the next position leaves, as `benched` says, and the last
    /// is the searcher now. The one line said gives the nodes that these
    /// searches counted in all, and the nodes a second for the time taken.
    pub open spec fn benchmarked(
        &self,
        before: &UciController,
        states: Seq<Search>,
        elapsed: i64,
    ) -> bool {
        &&& states.len() == BENCH_POSITIONS + 1
        &&& states[0].state.tt.wf()
        &&& states[0].state.info == before.search.state.info
        &&& states[0].state.tt.spec_len() == before.search.state.tt.spec_len()
        &&& states[0].state.tt.generation == before.search.state.tt.generation
        &&& forall|i: int|
            0 <= i < states[0].state.tt.spec_len() ==> #[trigger] states[0].state.tt.table[i]
                == TranspositionTableEntry::empty()
        &&& states[0].state.hist == before.search.state.hist
        &&& states[0].state.km == before.search.state.km
        &&& states[0].state.pv == before.search.state.pv
        &&& states[0].state.cfg == before.search.state.cfg
        &&& states[0].state.net == before.search.state.net
        &&& states[0].state.lmr == before.search.state.lmr
        &&& forall|i: int| 0 <= i < BENCH_POSITIONS ==> benched(
            &states[i],
            #[trigger] &states[i + 1],
            i as usize,
        )
        &&& self.search == states[BENCH_POSITIONS as int]
        &&& self.logger@ == before.logger@.push(
            bench_text(bench_total(states, BENCH_POSITIONS as int), elapsed),
        )
    }

    /// What a command leads to, by its first word: no words at all lead to
    /// nothing; `quit` ends the program; `isready`, `uci` and `print` are
    /// answered; `setoption` sets an option; `position` sets the game up;
    /// `go` sets the limits and searches; `bench` and `ucinewgame` start
    /// from nothing; an unknown word is reported. Every command but an empty
    /// one first lifts the limits of the last search.
    pub open spec fn obeyed(
        &self,
        before: &UciController,
        words: Seq<Seq<char>>,
        r: UciOutcome,
    ) -> bool {
        if words.len() == 0 {
            r == UciOutcome::Continue && self.logger@ == before.logger@ && self.search
                == before.search
        } else {
            let kind = spec_command_index(words[0]);
            let reset = &before.lifted();
            &&& r == UciOutcome::Quit <==> kind == 0
            &&& kind == 0 ==> self.logger@ == before.logger@ && self.search == reset.search
            &&& kind == 1 ==> self.logger@ == before.logger@.push("readyok"@) && self.search
                == reset.search
            &&& kind == 2 ==> self.logger@ == before.logger@ + answer_to_print(
                &before.search.state.cfg,
                words.drop_first(),
            ) && self.search == reset.search
            &&& kind == 4 ==> self.logger@ == before.logger@ + answer_to_uci(
                &before.search.state.cfg,
            ) && self.search == reset.search
            &&& kind == 5 ==> self.option_set(reset, words.drop_first(), r)
            &&& kind == 7 ==> self.positioned(reset, words.drop_first())
            &&& kind == 9 ==> self.logger@ == before.logger@.push("info string unknown command: "@ + words[0])
                && self.search == reset.search
            &&& kind != 5 ==> r != UciOutcome::Retune
            &&& kind != 7 && kind != 6 && kind != 3 ==> self.search.state.game
                == before.search.state.game
            &&& kind != 8 && kind != 3 ==> self.search.state.tc.time_mode == TimeMode::Infinite
                && self.search.state.params.depth == u8::MAX
            &&& kind == 8 ==> self.gone(reset, words.drop_first())
            &&& kind == 3 ==> exists|states: Seq<Search>, elapsed: i64| #[trigger]
                self.benchmarked(reset, states, elapsed)
            &&& kind == 6 ==> self.started_anew(reset)
        }
    }

    /// The controller with the limits of the last search lifted: no limit on
    /// the time, and the depth at its largest.
    pub open spec fn lifted(&self) -> UciController {
        UciController {
            search: Search {
                state: SearchState {
                    tc: TimeController { time_mode: TimeMode::Infinite, ..self.search.state.tc },
                    params: SearchParams { depth: u8::MAX, ..self.search.state.params },
                    ..self.search.state
                },
            },
            logger: self.logger,
        }
    }

    /// Obeys a command of the protocol. An empty command does nothing.
    /// Every other command first lifts the limits of the last search.
    pub fn parse_command(&mut self, command: &str) -> (r: UciOutcome)
        requires
            old(self).wf(),
        ensures
            final(self).wf(),
            final(self).search.state.net == old(self).search.state.net,
            final(self).obeyed(old(self), words_of(command@), r),
    {
        let words = split_words(command);
        let mut tokens = new_queue();
        let mut i: usize = 0;
        while i < words.len()
            invariant
                i <= words.len(),
                queue_items(tokens) == views(words@).take(i as int),
            decreases words.len() - i,
        {
            queue_add(&mut tokens, words[i].clone());
            proof {
                assert(views(words@).take(i as int).push(words@[i as int]@) =~= views(words@).take(
                    i + 1,
                ));
            }
            i += 1;
        }
        proof {
            assert(views(words@).take(words.len() as int) =~= views(words@));
        }
        self.parse_tokens(&mut tokens)
    }

    /// Obeys the command that waits in a queue of words.
    fn parse_tokens(&mut self, tokens: &mut queues::Queue<String>) -> (r: UciOutcome)
        requires
            old(self).wf(),
        ensures
            final(self).wf(),
            final(self).search.state.net == old(self).search.state.net,
            final(self).obeyed(old(self), queue_items(*old(tokens)), r),
    {
        let ghost words = queue_items(*tokens);
        let first_token = match queue_remove(tokens) {
            Some(token) => token,
            None => {
                proof {
                    assert(self.obeyed(old(self), words, UciOutcome::Continue));
                }
                return UciOutcome::Continue;
            },
        };
        let first = first_token.as_str();
        let kind = command_index(first);
        self.search.state.tc.time_mode = TimeMode::Infinite;
        self.search.state.params.depth = u8::MAX;
        proof {
            assert(*self == old(self).lifted());
            assert(self.logger@ + Seq::<Seq<char>>::empty() =~= self.logger@);
        }
        if kind == 0 {
            proof {
                assert(self.obeyed(old(self), words, UciOutcome::Quit));
            }
            return UciOutcome::Quit;
        } else if kind == 1 {
            self.handle_isready();
        } else if kind == 2 {
            self.handle_print(tokens);
        } else if kind == 3 {
            self.handle_bench();
        } else if kind == 4 {
            self.handle_uci();
        } else if kind == 5 {
            let outcome = self.handle_setoption(tokens);
            proof {
                assert(self.obeyed(old(self), words, outcome));
            }
            return outcome;
        } else if kind == 6 {
            self.handle_ucinewgame();
        } else if kind == 7 {
            self.handle_position(tokens);
        } else if kind == 8 {
            self.handle_go(tokens);
        } else {
            self.say_with("info string unknown command: ", first);
        }
        proof {
            assert(self.obeyed(old(self), words, UciOutcome::Continue));
        }
        UciOutcome::Continue
    }

    /// Says a line made of a fixed text and a word of the command.
    fn say_with(&mut self, lead: &str, word: &str)
        ensures
            final(self).search == old(self).search,
            final(self).logger@ == old(self).logger@.push(lead@ + word@),
    {
        let mut line = String::from_str(lead);
        line.append(word);
        self.logger.log_line(line);
    }

    /// Answers `isready`.
    fn handle_isready(&mut self)
        ensures
            final(self).search == old(self).search,
            final(self).logger@ == old(self).logger@.push("readyok"@),
    {
        self.logger.log("readyok");
    }

    /// Answers `uci`: the engine's name and author, a line for each option,
    /// and `uciok`.
    #[verifier::rlimit(50)]
    fn handle_uci(&mut self)
        ensures
            final(self).search == old(self).search,
            final(self).logger@ == old(self).logger@ + answer_to_uci(&old(self).search.state.cfg),
    {
        self.logger.log("id name Pluto");
        self.logger.log("id author CastledChess");
        let lines = self.search.state.cfg.describe_all();
        self.say_all(lines);
        self.logger.log("uciok");
        proof {
            let cfg = &old(self).search.state.cfg;
            assert(self.logger@ =~= old(self).logger@ + answer_to_uci(cfg));
        }
    }

    /// Says some lines, in their order.
    fn say_all(&mut self, lines: Vec<String>)
        ensures
            final(self).search == old(self).search,
            final(self).logger@ == old(self).logger@ + views(lines@),
    {
        let mut i: usize = 0;
        while i < lines.len()
            invariant
                i <= lines.len(),
                self.search == old(self).search,
                self.logger@ == old(self).logger@ + views(lines@).take(i as int),
            decreases lines.len() - i,
        {
            self.logger.log(lines[i].as_str());
            proof {
                assert((old(self).logger@ + views(lines@).take(i as int)).push(lines@[i as int]@)
                    =~= old(self).logger@ + views(lines@).take(i + 1));
            }
            i += 1;
        }
        proof {
            assert(views(lines@).take(lines.len() as int) =~= views(lines@));
        }
    }

    /// Answers `print spsa workload` with a line for each option that a
    /// tuner may tune.
    fn handle_print(&mut self, tokens: &mut queues::Queue<String>)
        ensures
            final(self).search == old(self).search,
            final(self).logger@ == old(self).logger@ + answer_to_print(
                &old(self).search.state.cfg,
                queue_items(*old(tokens)),
            ),
    {
        match queue_remove(tokens) {
            Some(scope) => {
                if same_text(scope.as_str(), "spsa") {
                    self.handle_print_spsa(tokens);
                } else {
                    self.say_with("info string unknown scope: ", scope.as_str());
                    proof {
                        assert(self.logger@ =~= old(self).logger@ + seq![
                            "info string unknown scope: "@ + scope@,
                        ]);
                    }
                }
            },
            None => {
                proof {
                    assert(self.logger@ =~= old(self).logger@ + Seq::<Seq<char>>::empty());
                }
            },
        }
    }

    fn handle_print_spsa(&mut self, tokens: &mut queues::Queue<String>)
        ensures
            final(self).search == old(self).search,
            final(self).logger@ == old(self).logger@ + (if queue_items(*old(tokens)).len() == 0 {
                Seq::<Seq<char>>::empty()
            } else if queue_items(*old(tokens))[0] == "workload"@ {
                old(self).search.state.cfg.tuning_lines()
            } else {
                seq!["info string unknown target: "@ + queue_items(*old(tokens))[0]]
            }),
    {
        match queue_remove(tokens) {
            Some(target) => {
                if same_text(target.as_str(), "workload") {
                    self.handle_print_spsa_workload();
                } else {
                    self.say_with("info string unknown target: ", target.as_str());
                    proof {
                        assert(self.logger@ =~= old(self).logger@ + seq![
                            "info string unknown target: "@ + target@,
                        ]);
                    }
                }
            },
            None => {
                proof {
                    assert(self.logger@ =~= old(self).logger@ + Seq::<Seq<char>>::empty());
                }
            },
        }
    }

    /// Says a line for each option that a tuner may tune.
    fn handle_print_spsa_workload(&mut self)
        ensures
            final(self).search == old(self).search,
            final(self).logger@ == old(self).logger@ + old(self).search.state.cfg.tuning_lines(),
    {
        let lines = self.search.state.cfg.spsa_workload();
        self.say_all(lines);
    }

    /// What `setoption` with the words after it leads to: with fewer than
    /// four words nothing; else the option named by the second word is set
    /// to the fourth, a new size of the transposition table gives an empty
    /// table of that size, and what could not be set is said.
    pub open spec fn option_set(
        &self,
        before: &UciController,
        words: Seq<Seq<char>>,
        r: UciOutcome,
    ) -> bool {
        if words.len() < 4 {
            r == UciOutcome::Continue && self.search == before.search && self.logger
                == before.logger
        } else {
            let outcome = before.search.state.cfg.outcome_of(words[1], words[3]);
            &&& r == (if outcome == SetOption::Retuned {
                UciOutcome::Retune
            } else {
                UciOutcome::Continue
            })
            &&& self.search.state.cfg.set_from(&before.search.state.cfg, words[1], words[3])
            &&& self.logger@ == before.logger@ + answer_to_setoption(outcome, words[1])
            &&& outcome == SetOption::Resized ==> self.search.state.tt.spec_len() == entries_for(
                self.search.state.cfg.hash.value as int,
            ) && self.search.state.tt.generation == 0 && forall|i: int|
                0 <= i < self.search.state.tt.spec_len() ==>
                    #[trigger] self.search.state.tt.table[i] == TranspositionTableEntry::empty()
            &&& outcome != SetOption::Resized ==> self.search.state.tt == before.search.state.tt
        }
    }

    /// Obeys `setoption name <name> value <value>`. Fewer than four words
    /// after `setoption` set nothing.
    fn handle_setoption(&mut self, tokens: &mut queues::Queue<String>) -> (r: UciOutcome)
        requires
            old(self).wf(),
        ensures
            final(self).wf(),
            final(self).search.state.net == old(self).search.state.net,
            final(self).search.state.game == old(self).search.state.game,
            final(self).search.state.tc == old(self).search.state.tc,
            final(self).search.state.params == old(self).search.state.params,
            final(self).option_set(old(self), queue_items(*old(tokens)), r),
    {
        if queue_size(tokens) < 4 {
            return UciOutcome::Continue;
        }
        let ghost words = queue_items(*tokens);
        let _ = queue_remove(tokens);
        let name = match queue_remove(tokens) {
            Some(name) => name,
            None => {
                return UciOutcome::Continue;
            },
        };
        let _ = queue_remove(tokens);
        let value = match queue_remove(tokens) {
            Some(value) => value,
            None => {
                return UciOutcome::Continue;
            },
        };
        proof {
            assert(name@ == words[1]);
            assert(value@ == words.drop_first().drop_first().drop_first()[0]);
            assert(value@ == words[3]);
        }
        let outcome = self.search.state.cfg.set_option(name.as_str(), value.as_str());
        proof {
            assert(self.logger@ + Seq::<Seq<char>>::empty() =~= self.logger@);
        }
        match outcome {
            SetOption::Applied => UciOutcome::Continue,
            SetOption::Retuned => UciOutcome::Retune,
            SetOption::Resized => {
                match TranspositionTable::with_megabytes(self.search.state.cfg.hash.value) {
                    Some(table) => {
                        self.search.state.tt = table;
                    },
                    None => {},
                }
                UciOutcome::Continue
            },
            SetOption::Unsupported => {
                if same_text(name.as_str(), "Threads") {
                    self.logger.log("info string Multithreading is not yet supported.");
                } else {
                    self.logger.log("info string MoveOverhead is not yet supported.");
                }
                proof {
                    assert(self.logger@ =~= old(self).logger@ + answer_to_setoption(
                        outcome,
                        name@,
                    ));
                }
                UciOutcome::Continue
            },
            SetOption::Refused => {
                self.say_with("info string invalid value for option: ", name.as_str());
                proof {
                    assert(self.logger@ =~= old(self).logger@ + answer_to_setoption(
                        outcome,
                        name@,
                    ));
                }
                UciOutcome::Continue
            },
            SetOption::Unknown => {
                self.say_with("info string unknown option: ", name.as_str());
                proof {
                    assert(self.logger@ =~= old(self).logger@ + answer_to_setoption(
                        outcome,
                        name@,
                    ));
                }
                UciOutcome::Continue
            },
        }
    }

    /// Obeys `ucinewgame`: the game starts anew, and nothing of the last
    /// game is kept.
    fn handle_ucinewgame(&mut self)
        requires
            old(self).wf(),
        ensures
            final(self).wf(),
            final(self).search.state.net == old(self).search.state.net,
            final(self).search.state.tc == old(self).search.state.tc,
            final(self).search.state.params == old(self).search.state.params,
            final(self).started_anew(old(self)),
    {
        self.search.state.tt.clear();
        self.set_game(Position::startpos());
    }

    /// Makes a position the game's: the history is forgotten and the
    /// accumulators are rebuilt from the position's board.
    fn set_game(&mut self, game: Position)
        requires
            old(self).search.state.wf(),
        ensures
            final(self).wf(),
            final(self).search.state.game == game,
            final(self).search.state.net == old(self).search.state.net,
            final(self).search.state.cfg == old(self).search.state.cfg,
            final(self).search.state.lmr == old(self).search.state.lmr,
            final(self).search.state.tt == old(self).search.state.tt,
            final(self).search.state.params == old(self).search.state.params,
            final(self).search.state.tc == old(self).search.state.tc,
            final(self).search.state.info == old(self).search.state.info,
            final(self).search.state.pv == old(self).search.state.pv,
            final(self).search.state.km == old(self).search.state.km,
            final(self).search.state.hist == old(self).search.state.hist,
            final(self).logger == old(self).logger,
            final(self).search.state.hstack@.len() == 0,
    {
        self.search.state.game = game;
        self.search.state.hstack.clear();
        self.search.state.nnue.refresh(&self.search.state.net, &self.search.state.game);
    }

    /// Obeys `position startpos` and `position fen <record>`, each with or
    /// without `moves` and the moves played since. A record that is no
    /// position leaves the game as it is; a move that is not legal ends the
    /// moves that are played.
    fn handle_position(&mut self, tokens: &mut queues::Queue<String>)
        requires
            old(self).wf(),
        ensures
            final(self).wf(),
            final(self).search.state.net == old(self).search.state.net,
            final(self).search.state.tc == old(self).search.state.tc,
            final(self).search.state.params == old(self).search.state.params,
            final(self).positioned(old(self), queue_items(*old(tokens))),
    {
        let token = match queue_remove(tokens) {
            Some(token) => token,
            None => {
                return ;
            },
        };
        let ghost words = queue_items(*old(tokens));
        if same_text(token.as_str(), "startpos") {
            self.handle_position_startpos(tokens);
            proof {
                let rest = words.drop_first();
                if rest.len() >= 1 && rest[0] == "moves"@ {
                    assert(rest.drop_first() =~= words.skip(2));
                    assert(words[1] == rest[0]);
                }
            }
        } else if same_text(token.as_str(), "fen") {
            proof {
                reveal_strlit("startpos");
                reveal_strlit("fen");
                assert("startpos"@.len() == 8 && "fen"@.len() == 3);
            }
            self.handle_position_fen(tokens);
        } else {
            self.say_with("info string unknown position command: ", token.as_str());
        }
    }

    /// Sets the game to the starting position and plays the moves that
    /// follow the word `moves`.
    fn handle_position_startpos(&mut self, tokens: &mut queues::Queue<String>)
        requires
            old(self).wf(),
        ensures
            final(self).wf(),
            final(self).search.state.net == old(self).search.state.net,
            final(self).logger == old(self).logger,
            final(self).search.state.tc == old(self).search.state.tc,
            final(self).search.state.params == old(self).search.state.params,
            final(self).search.state.same_tables(&old(self).search.state),
            ({
                let moves = if queue_items(*old(tokens)).len() >= 1 && queue_items(*old(tokens))[0]
                    == "moves"@ {
                    queue_items(*old(tokens)).drop_first()
                } else {
                    Seq::empty()
                };
                exists|start: Position| #[trigger]
                    start.board() == crate::chess::initial_board() && white_to_move(start)
                        && final(self).search.state.game == replayed(start, moves)
                        && final(self).search.state.hstack@ == replayed_keys(start, moves)
            }),
    {
        let start = Position::startpos();
        let ghost first = start;
        let moves = match queue_remove(tokens) {
            Some(word) => same_text(word.as_str(), "moves"),
            None => false,
        };
        self.set_game(start);
        if moves {
            self.play_moves(tokens);
        }
        proof {
            assert(first.board() == crate::chess::initial_board());
            if !moves {
                assert(self.search.state.hstack@ =~= replayed_keys(
                    first,
                    Seq::<Seq<char>>::empty(),
                ));
            }
        }
    }

    /// Sets the game to the position of a FEN record, which is made of the
    /// words up to `moves` or the end, and plays the moves that follow. A
    /// record that is no position is reported and leaves the game as it is.
    fn handle_position_fen(&mut self, tokens: &mut queues::Queue<String>)
        requires
            old(self).wf(),
        ensures
            final(self).wf(),
            final(self).search.state.net == old(self).search.state.net,
            final(self).search.state.tc == old(self).search.state.tc,
            final(self).search.state.params == old(self).search.state.params,
            final(self).search.state.same_tables(&old(self).search.state),
            match position_of_fen(joined(until_moves(queue_items(*old(tokens))))) {
                Some(start) => final(self).logger@ == old(self).logger@ && final(self).search.state.game == replayed(start, after_moves(queue_items(*old(tokens))))
                    && final(self).search.state.hstack@ == replayed_keys(
                    start,
                    after_moves(queue_items(*old(tokens))),
                ),
                None => final(self).search == old(self).search && final(self).logger@ == old(self).logger@.push(
                    "info string invalid fen: "@ + joined(
                        until_moves(queue_items(*old(tokens))),
                    ),
                ),
            },
    {
        let mut fen_vec: Vec<String> = Vec::new();
        let mut moves = false;
        let mut left = queue_size(tokens);
        let ghost all = queue_items(*tokens);
        proof {
            assert(views(fen_vec@) =~= Seq::<Seq<char>>::empty());
            assert(Seq::<Seq<char>>::empty() + until_moves(all) =~= until_moves(all));
        }
        while left > 0 && !moves
            invariant
                left == queue_items(*tokens).len(),
                all == queue_items(*old(tokens)),
                !moves ==> until_moves(all) == views(fen_vec@) + until_moves(queue_items(*tokens))
                    && after_moves(all) == after_moves(queue_items(*tokens)),
                moves ==> until_moves(all) == views(fen_vec@) && after_moves(all) == queue_items(
                    *tokens,
                ),
            decreases left, if moves { 0int } else { 1int },
        {
            let ghost waiting = queue_items(*tokens);
            let ghost read = views(fen_vec@);
            match queue_remove(tokens) {
                Some(word) => {
                    if same_text(word.as_str(), "moves") {
                        moves = true;
                        proof {
                            assert(read + Seq::<Seq<char>>::empty() =~= read);
                        }
                    } else {
                        fen_vec.push(word);
                        proof {
                            assert(views(fen_vec@) =~= read.push(waiting[0]));
                            assert(read + (seq![waiting[0]] + until_moves(waiting.drop_first()))
                                =~= read.push(waiting[0]) + until_moves(waiting.drop_first()));
                        }
                    }
                },
                None => {},
            }
            left = queue_size(tokens);
        }
        proof {
            if !moves {
                assert(views(fen_vec@) + Seq::<Seq<char>>::empty() =~= views(fen_vec@));
            }
        }
        let fen = join_with_blank(&fen_vec);
        match Position::from_fen(fen.as_str()) {
            Some(game) => {
                self.set_game(game);
                if moves {
                    self.play_moves(tokens);
                } else {
                    proof {
                        assert(self.search.state.hstack@ =~= replayed_keys(
                            game,
                            Seq::<Seq<char>>::empty(),
                        ));
                    }
                }
            },
            None => {
                self.say_with("info string invalid fen: ", fen.as_str());
            },
        }
    }

    /// Plays the moves that wait in the queue, in UCI notation, from the
    /// game's position, and puts each position they lead to on the history
    /// stack. The first word that is no legal move ends it. The game's
    /// position is then the one that the legal moves lead to.
    fn play_moves(&mut self, tokens: &mut queues::Queue<String>)
        requires
            old(self).wf(),
        ensures
            final(self).wf(),
            final(self).search.state.net == old(self).search.state.net,
            final(self).logger == old(self).logger,
            final(self).search.state.tc == old(self).search.state.tc,
            final(self).search.state.params == old(self).search.state.params,
            final(self).search.state.game == replayed(
                old(self).search.state.game,
                queue_items(*old(tokens)),
            ),
            final(self).search.state.hstack@ == old(self).search.state.hstack@ + replayed_keys(
                old(self).search.state.game,
                queue_items(*old(tokens)),
            ),
            final(self).search.state.same_tables(&old(self).search.state),
    {
        let mut left = queue_size(tokens);
        let mut legal = true;
        let ghost all = queue_items(*tokens);
        let ghost first = self.search.state.game;
        let ghost kept = self.search.state.hstack@;
        proof {
            assert(kept + replayed_keys(first, all) =~= kept + replayed_keys(first, all));
        }
        while left > 0 && legal
            invariant
                left == queue_items(*tokens).len(),
                left <= queue_items(*old(tokens)).len(),
                self.search.state.wf(),
                self.search.state.net == old(self).search.state.net,
                self.search.state.tc == old(self).search.state.tc,
                self.search.state.params == old(self).search.state.params,
                self.logger == old(self).logger,
                self.search.state.nnue == old(self).search.state.nnue,
                legal ==> replayed(self.search.state.game, queue_items(*tokens)) == replayed(
                    old(self).search.state.game,
                    queue_items(*old(tokens)),
                ),
                !legal ==> self.search.state.game == replayed(
                    old(self).search.state.game,
                    queue_items(*old(tokens)),
                ),
                all == queue_items(*old(tokens)),
                first == old(self).search.state.game,
                kept == old(self).search.state.hstack@,
                self.search.state.same_tables(&old(self).search.state),
                legal ==> self.search.state.hstack@ + replayed_keys(
                    self.search.state.game,
                    queue_items(*tokens),
                ) == kept + replayed_keys(first, all),
                !legal ==> self.search.state.hstack@ == kept + replayed_keys(first, all),
            decreases left, if legal { 1int } else { 0int },
        {
            let ghost waiting = queue_items(*tokens);
            let ghost held = self.search.state.hstack@;
            let ghost here = self.search.state.game;
            match queue_remove(tokens) {
                Some(word) => {
                    match self.search.state.game.find_uci_move(word.as_str()) {
                        Some(m) => {
                            let next = self.search.state.game.play(m);
                            self.search.state.hstack.push(next.zobrist(), None);
                            self.search.state.game = next;
                            proof {
                                let entry = HistoryStackEntry { key: zobrist_of(next), eval: None };
                                let rest = replayed_keys(next, waiting.drop_first());
                                assert(replayed_keys(here, waiting) == seq![entry] + rest);
                                assert(held.push(entry) + rest =~= held + (seq![entry] + rest));
                            }
                        },
                        None => {
                            legal = false;
                            proof {
                                assert(held + Seq::<HistoryStackEntry>::empty() =~= held);
                            }
                        },
                    }
                },
                None => {
                    legal = false;
                    proof {
                        assert(held + Seq::<HistoryStackEntry>::empty() =~= held);
                    }
                },
            }
            left = queue_size(tokens);
        }
        self.search.state.nnue.refresh(&self.search.state.net, &self.search.state.game);
    }

    /// Obeys `go` with its limits: sets them and searches. Limits that
    /// cannot be read are reported, and nothing is searched.
    fn handle_go(&mut self, tokens: &mut queues::Queue<String>)
        requires
            old(self).wf(),
        ensures
            final(self).wf(),
            final(self).search.state.net == old(self).search.state.net,
            final(self).search.state.game == old(self).search.state.game,
            final(self).gone(old(self), queue_items(*old(tokens))),
    {
        match self.read_limits(tokens) {
            Some(settings) => {
                self.search.state.params = settings.0;
                self.search.state.tc.time_mode = settings.1;
                proof {
                    assert(self.search == old(self).search.limited(settings.0, settings.1));
                }
                let best = self.search.go(true, &mut self.logger);
                proof {
                    assert(self.search.gone(
                        &old(self).search.limited(settings.0, settings.1),
                        best,
                        true,
                        old(self).logger@,
                        self.logger@,
                    ));
                }
            },
            None => {
                self.logger.log("info string unknown or incomplete go command");
            },
        }
    }

    /// Reads the limits that wait in the queue.
    fn read_limits(&self, tokens: &mut queues::Queue<String>) -> (r: Option<
        (SearchParams, TimeMode),
    >)
        ensures
            r == go_settings(
                queue_items(*old(tokens)),
                self.search.state.params,
                self.search.state.tc.time_mode,
            ),
    {
        let mut params = SearchParams {
            depth: self.search.state.params.depth,
            move_time: self.search.state.params.move_time,
            w_time: self.search.state.params.w_time,
            b_time: self.search.state.params.b_time,
        };
        let mut mode = self.search.state.tc.time_mode;
        let mut left = queue_size(tokens);
        while left > 0
            invariant
                left == queue_items(*tokens).len(),
                go_settings(queue_items(*tokens), params, mode) == go_settings(
                    queue_items(*old(tokens)),
                    self.search.state.params,
                    self.search.state.tc.time_mode,
                ),
            decreases left,
        {
            let ghost words = queue_items(*tokens);
            let word = match queue_remove(tokens) {
                Some(word) => word,
                None => {
                    return None;
                },
            };
            let limit = word.as_str();
            if same_text(limit, "infinite") {
                params.depth = u8::MAX;
                mode = TimeMode::Infinite;
            } else {
                let number = match queue_remove(tokens) {
                    Some(number) => number,
                    None => {
                        return None;
                    },
                };
                proof {
                    assert(words.drop_first().drop_first() =~= words.skip(2));
                    assert(number@ == words[1]);
                }
                if same_text(limit, "btime") {
                    match parse_unsigned_in(number.as_str(), u128::MAX) {
                        Some(t) => {
                            params.depth = u8::MAX;
                            params.b_time = t;
                            mode = TimeMode::WOrBTime;
                        },
                        None => {
                            return None;
                        },
                    }
                } else if same_text(limit, "wtime") {
                    match parse_unsigned_in(number.as_str(), u128::MAX) {
                        Some(t) => {
                            params.depth = u8::MAX;
                            params.w_time = t;
                            mode = TimeMode::WOrBTime;
                        },
                        None => {
                            return None;
                        },
                    }
                } else if same_text(limit, "binc") || same_text(limit, "winc") {
                    match parse_unsigned_in(number.as_str(), u32::MAX as u128) {
                        Some(t) => {},
                        None => {
                            return None;
                        },
                    }
                } else if same_text(limit, "depth") {
                    match parse_unsigned_in(number.as_str(), u8::MAX as u128) {
                        Some(d) => {
                            params.depth = d as u8;
                            mode = TimeMode::Infinite;
                        },
                        None => {
                            return None;
                        },
                    }
                } else if same_text(limit, "movetime") {
                    match parse_unsigned_in(number.as_str(), u128::MAX) {
                        Some(t) => {
                            params.depth = u8::MAX;
                            params.move_time = t;
                            mode = TimeMode::MoveTime;
                        },
                        None => {
                            return None;
                        },
                    }
                } else {
                    return None;
                }
            }
            left = queue_size(tokens);
        }
        Some((params, mode))
    }

    /// Obeys `bench`: empties the transposition table, searches the
    /// positions of the benchmark one after the other to its depth, each
    /// with an empty history and without a limit on the time, and says in a
    /// line how many nodes that took and how many nodes a second that makes.
    fn handle_bench(&mut self)
        requires
            old(self).wf(),
        ensures
            final(self).wf(),
            final(self).search.state.net == old(self).search.state.net,
            exists|states: Seq<Search>, elapsed: i64| #[trigger]
                final(self).benchmarked(old(self), states, elapsed),
    {
        self.search.state.tt.clear();
        let mut total: u64 = 0;
        let start_time = now_millis();
        let ghost mut states: Seq<Search> = seq![self.search];
        let mut i: usize = 0;
        while i < BENCH_POSITIONS
            invariant
                i <= BENCH_POSITIONS,
                self.wf(),
                self.search.state.net == old(self).search.state.net,
                self.logger@ == old(self).logger@,
                total <= i * 4294967295,
                states.len() == i + 1,
                states[i as int] == self.search,
                states[0].state.tt.spec_len() == old(self).search.state.tt.spec_len(),
                states[0].state.tt.generation == old(self).search.state.tt.generation,
                states[0].state.tt.wf(),
                states[0].state.info == old(self).search.state.info,
                forall|k: int|
                    0 <= k < states[0].state.tt.spec_len() ==>
                        #[trigger] states[0].state.tt.table[k] == TranspositionTableEntry::empty(),
                states[0].state.hist == old(self).search.state.hist,
                states[0].state.km == old(self).search.state.km,
                states[0].state.pv == old(self).search.state.pv,
                states[0].state.cfg == old(self).search.state.cfg,
                states[0].state.net == old(self).search.state.net,
                states[0].state.lmr == old(self).search.state.lmr,
                forall|k: int| 0 <= k < i ==> benched(&states[k], #[trigger] &states[k + 1], k as usize),
                total == bench_total(states, i as int),
            decreases BENCH_POSITIONS - i,
        {
            let ghost before = self.search;
            let ghost passed = states;
            match Position::from_fen(bench_position(i)) {
                Some(game) => {
                    self.set_game(game);
                    self.search.state.params.depth = BENCH_DEPTH;
                    self.search.state.tc.time_mode = TimeMode::Infinite;
                    let ghost ready = self.search;
                    proof {
                        assert(ready.tables() == before.tables());
                        assert(ready.setup_of_search() == before.setup_of_search());
                        assert(ready.state.hstack@ =~= Seq::<HistoryStackEntry>::empty());
                        assert(depth_cap(BENCH_DEPTH) == BENCH_DEPTH);
                        assert(ready.iterations() == iterations_for(game, BENCH_DEPTH));
                    }
                    let best = self.search.go(false, &mut self.logger);
                    proof {
                        assert(self.search.gone(&ready, best, false, self.logger@, self.logger@));
                        assert(self.search.tables() == ready.searched().0);
                    }
                    total = total + self.search.state.info.nodes as u64;
                },
                None => {},
            }
            proof {
                states = passed.push(self.search);
                bench_total_stands(passed, self.search, i as int);
                assert(benched(&before, &self.search, i));
                assert forall|k: int| 0 <= k < i + 1 implies benched(
                    &states[k],
                    #[trigger] &states[k + 1],
                    k as usize,
                ) by {
                    if k < i {
                        assert(benched(&passed[k], &passed[k + 1], k as usize));
                    }
                }
            }
            i += 1;
        }
        let elapsed = millis_between(start_time, now_millis());
        let line = bench_line(total, elapsed);
        self.logger.log_line(line);
        proof {
            assert(self.benchmarked(old(self), states, elapsed));
        }
    }
}

/// What a benchmark passes through is determined by what it starts from:
/// two runs with the same network, options and reductions, that start
/// from the same tables and the same generation of the transposition
/// table, pass through the same tables and count the same nodes.
pub proof fn bench_states_agree(one: Seq<Search>, other: Seq<Search>, n: int)
    requires
        0 <= n <= BENCH_POSITIONS,
        one.len() == BENCH_POSITIONS + 1,
        other.len() == BENCH_POSITIONS + 1,
        one[0].setup() == other[0].setup(),
        one[0].tables() == other[0].tables(),
        forall|i: int|
            0 <= i < BENCH_POSITIONS ==> benched(&one[i], #[trigger] &one[i + 1], i as usize),
        forall|i: int|
            0 <= i < BENCH_POSITIONS ==> benched(&other[i], #[trigger] &other[i + 1], i as usize),
    ensures
        one[n].setup() == other[n].setup(),
        one[n].tables() == other[n].tables(),
        bench_total(one, n) == bench_total(other, n),
    decreases n,
{
    if n > 0 {
        bench_states_agree(one, other, n - 1);
        assert(benched(&one[n - 1], &one[n - 1 + 1], (n - 1) as usize));
        assert(benched(&other[n - 1], &other[n - 1 + 1], (n - 1) as usize));
        assert(one[n - 1].setup_of_search() == other[n - 1].setup_of_search());
    }
}

/// The benchmark is reproducible: two runs with the same network, options
/// and reductions, from the same killers, credits, lines and count of
/// nodes, with tables of one size and in one generation, count the same
/// nodes; they say the same line if they take the same time.
pub proof fn bench_is_determined(
    one: &UciController,
    other: &UciController,
    after_one: &UciController,
    after_other: &UciController,
    states_one: Seq<Search>,
    states_other: Seq<Search>,
    elapsed: i64,
)
    requires
        one.search.setup() == other.search.setup(),
        one.search.state.tt.spec_len() == other.search.state.tt.spec_len(),
        one.search.state.km.lists() == other.search.state.km.lists(),
        one.search.state.hist.credits() == other.search.state.hist.credits(),
        one.search.state.pv.length@ == other.search.state.pv.length@,
        one.search.state.pv.rows() == other.search.state.pv.rows(),
        one.search.state.info.nodes == other.search.state.info.nodes,
        after_one.benchmarked(one, states_one, elapsed),
        after_other.benchmarked(other, states_other, elapsed),
    ensures
        bench_total(states_one, BENCH_POSITIONS as int) == bench_total(
            states_other,
            BENCH_POSITIONS as int,
        ),
        after_one.logger@.last() == after_other.logger@.last(),
{
    assert(states_one[0].state.tt.table@ =~= states_other[0].state.tt.table@);
    bench_states_agree(states_one, states_other, BENCH_POSITIONS as int);
}

/// Builds the line that answers `bench`.
pub fn bench_line(total: u64, elapsed: i64) -> (r: String)
    ensures
        r@ == bench_text(total as int, elapsed),
{
    let millis: u128 = if elapsed < 0 {
        1
    } else {
        elapsed as u128 + 1
    };
    let mut line = String::new();
    append_unsigned(&mut line, total as u128);
    line.append(" nodes ");
    append_unsigned(&mut line, (total as u128) * 1000 / millis);
    line.append(" nps");
    line
}

} // verus!
