//! Chess positions. The rules of chess are `shakmaty`'s: a [`Position`] holds
//! one of its positions, and every question about it is put to that crate.
//! What comes back is named here, so that contracts can speak of it.

use crate::chess::{
    board_after, decode_move_list, decode_moves, decode_moves_len, decoded_moves_come_from,
    decoded_moves_hold, initial_board, raw_move_round_trip, Board, Color, Move, Piece, RawMove,
    Role, Square,
};
use shakmaty::{Move as ChessMove, Role as ChessRole};
use vstd::prelude::*;

verus! {

#[verifier::external_type_specification]
#[verifier::external_body]
pub struct ExChess(shakmaty::Chess);

/// A position of standard chess.
pub struct Position {
    chess: shakmaty::Chess,
}

/// A piece as the board hands it over: the colour as a flag, the role as a
/// number.
#[derive(Clone, Copy, Debug, PartialEq, Eq, Structural)]
pub struct RawPiece {
    pub white: bool,
    pub role: u8,
}

/// How many pieces of each role a side has.
#[derive(Clone, Copy, Debug, PartialEq, Eq, Structural)]
pub struct Material {
    pub pawn: u8,
    pub knight: u8,
    pub bishop: u8,
    pub rook: u8,
    pub queen: u8,
    pub king: u8,
}

/// What `shakmaty::Board::piece_at` finds on a square of the position.
pub uninterp spec fn raw_piece_on(pos: Position, square: int) -> Option<RawPiece>;

/// The side that `shakmaty::Position::turn` says is to move: `true` for White.
pub uninterp spec fn white_to_move(pos: Position) -> bool;

/// The 64-bit Zobrist hash that `shakmaty` computes of the position, with the
/// en passant square counted only where an en passant capture is legal.
pub uninterp spec fn zobrist_of(pos: Position) -> u64;

/// Whether `shakmaty::Position::is_check` finds the side to move in check.
pub uninterp spec fn in_check(pos: Position) -> bool;

/// The legal moves that `shakmaty::Position::legal_moves` generates, in its
/// order.
pub uninterp spec fn raw_legal_moves(pos: Position) -> Seq<RawMove>;

/// The position that `shakmaty::Position::play_unchecked` makes of the
/// position and a move.
pub uninterp spec fn position_after(pos: Position, m: RawMove) -> Position;

/// The position that `shakmaty::Position::swap_turn` makes, where it makes one.
pub uninterp spec fn after_null_move(pos: Position) -> Option<Position>;

/// The position that `shakmaty` reads from a FEN record, where it accepts it.
pub uninterp spec fn position_of_fen(fen: Seq<char>) -> Option<Position>;

/// The legal move that `shakmaty` reads from a move in UCI notation, where
/// there is one.
pub uninterp spec fn uci_move_of(pos: Position, text: Seq<char>) -> Option<RawMove>;

/// Whether every number of a raw move names a square or a role where it has
/// to: the squares always, the roles in a move that is neither a castling
/// nor an en passant capture.
pub open spec fn raw_playable(raw: RawMove) -> bool {
    &&& raw.from matches Some(from) && from < 64
    &&& raw.to < 64
    &&& raw.castle || raw.en_passant || {
        &&& 1 <= raw.role <= 6
        &&& raw.capture matches Some(c) ==> 1 <= c <= 6
        &&& raw.promotion matches Some(p) ==> 1 <= p <= 6
    }
}

/// The piece that a raw piece describes, if its number names a role.
pub open spec fn decode_piece(raw: Option<RawPiece>) -> Option<Piece> {
    match raw {
        Some(p) => match Role::spec_from_code(p.role) {
            Some(role) => Some(
                Piece { color: if p.white { Color::White } else { Color::Black }, role },
            ),
            None => None,
        },
        None => None,
    }
}

/// How many of the squares below `n` hold the piece.
pub open spec fn count_below(board: Board, piece: Piece, n: int) -> int
    decreases n,
{
    if n <= 0 {
        0
    } else {
        count_below(board, piece, n - 1) + if board[n - 1] == Some(piece) {
            1int
        } else {
            0int
        }
    }
}

/// A count is positive exactly when some square below `n` holds the piece.
pub proof fn count_positive_iff_present(board: Board, piece: Piece, n: int)
    requires
        0 <= n <= board.len(),
    ensures
        0 <= count_below(board, piece, n) <= n,
        count_below(board, piece, n) > 0 <==> exists|sq: int|
            0 <= sq < n && board[sq] == Some(piece),
    decreases n,
{
    if n > 0 {
        count_positive_iff_present(board, piece, n - 1);
        if board[n - 1] == Some(piece) {
        } else if count_below(board, piece, n) > 0 {
            let sq = choose|sq: int| 0 <= sq < n - 1 && board[sq] == Some(piece);
            assert(0 <= sq < n && board[sq] == Some(piece));
        } else {
            assert forall|sq: int| 0 <= sq < n implies board[sq] != Some(piece) by {
                if sq < n - 1 {
                    assert(!(0 <= sq < n - 1 && board[sq] == Some(piece)));
                }
            }
        }
    }
}

/// Where a position has one legal move, every legal move of it is that
/// move.
pub proof fn only_move_is_the_move(pos: Position, only: Move, m: Move)
    requires
        pos.spec_legal_moves() == seq![only],
        m.wf(),
        pos.is_legal(m),
    ensures
        m == only,
{
    decoded_moves_hold(raw_legal_moves(pos), m);
    let k = choose|k: int| 0 <= k < pos.spec_legal_moves().len() && pos.spec_legal_moves()[k] == m;
    assert(k == 0);
}

impl Position {
    /// What stands on each of the 64 squares.
    pub open spec fn board(self) -> Board {
        Seq::new(64, |sq: int| decode_piece(raw_piece_on(self, sq)))
    }

    /// The side to move.
    pub open spec fn spec_turn(&self) -> Color {
        if white_to_move(*self) {
            Color::White
        } else {
            Color::Black
        }
    }

    /// The legal moves, in the order the generator gives them.
    pub open spec fn spec_legal_moves(&self) -> Seq<Move> {
        decode_moves(raw_legal_moves(*self))
    }

    /// A move is legal when the generator lists it.
    pub open spec fn is_legal(self, m: Move) -> bool {
        raw_legal_moves(self).contains(m.spec_to_raw())
    }

    /// The position after a move.
    pub open spec fn spec_play(self, m: Move) -> Position {
        position_after(self, m.spec_to_raw())
    }

    /// Calls `shakmaty::Chess::default`, the starting position of a game:
    /// the pieces stand as they do at the start, and White is to move.
    #[verifier::external_body]
    fn initial() -> (r: Position)
        ensures
            r.board() == initial_board(),
            white_to_move(r),
    {
        Position { chess: shakmaty::Chess::default() }
    }

    /// Parses a FEN record with `shakmaty::fen::Fen::from_ascii` and sets the
    /// position up with `Fen::into_position`, castling as in standard chess.
    /// The result is `None` where either refuses; it is a function of the
    /// text alone.
    #[verifier::external_body]
    fn read_fen(fen: &str) -> (r: Option<Position>)
        ensures
            r == position_of_fen(fen@),
    {
        let parsed = shakmaty::fen::Fen::from_ascii(fen.as_bytes()).ok()?;
        let chess = parsed.into_position(shakmaty::CastlingMode::Standard).ok()?;
        Some(Position { chess })
    }

    /// Copies the position with `Clone::clone`; the copy is the same position.
    #[verifier::external_body]
    fn duplicate(&self) -> (r: Position)
        ensures
            r == *self,
    {
        Position { chess: self.chess.clone() }
    }

    /// Calls `shakmaty::Position::turn`.
    #[verifier::external_body]
    fn white_turn(&self) -> (r: bool)
        ensures
            r == white_to_move(*self),
    {
        shakmaty::Position::turn(&self.chess).is_white()
    }

    /// Calls `shakmaty::Board::piece_at` on the position's board. A square
    /// off the board holds nothing.
    #[verifier::external_body]
    fn raw_piece_at(&self, square: u8) -> (r: Option<RawPiece>)
        ensures
            r == raw_piece_on(*self, square as int),
    {
        let sq = shakmaty::Square::try_from(square).ok()?;
        let piece = shakmaty::Position::board(&self.chess).piece_at(sq)?;
        Some(RawPiece { white: piece.color.is_white(), role: piece.role as u8 })
    }

    /// Calls `shakmaty::Board::material_side`, which counts for each role the
    /// squares that hold a piece of that role and colour.
    #[verifier::external_body]
    fn count_material(&self, color: Color) -> (r: Material)
        ensures
            r.pawn == count_below(self.board(), Piece { color, role: Role::Pawn }, 64),
            r.knight == count_below(self.board(), Piece { color, role: Role::Knight }, 64),
            r.bishop == count_below(self.board(), Piece { color, role: Role::Bishop }, 64),
            r.rook == count_below(self.board(), Piece { color, role: Role::Rook }, 64),
            r.queen == count_below(self.board(), Piece { color, role: Role::Queen }, 64),
            r.king == count_below(self.board(), Piece { color, role: Role::King }, 64),
    {
        let side = shakmaty::Color::from_white(matches!(color, Color::White));
        let m = shakmaty::Position::board(&self.chess).material_side(side);
        Material {
            pawn: m.pawn,
            knight: m.knight,
            bishop: m.bishop,
            rook: m.rook,
            queen: m.queen,
            king: m.king,
        }
    }

    /// Calls `shakmaty::zobrist::ZobristHash::zobrist_hash` for a 64-bit
    /// value, in the mode `EnPassantMode::Legal`.
    #[verifier::external_body]
    fn zobrist_hash(&self) -> (r: u64)
        ensures
            r == zobrist_of(*self),
    {
        let hash: shakmaty::zobrist::Zobrist64 = shakmaty::zobrist::ZobristHash::zobrist_hash(
            &self.chess,
            shakmaty::EnPassantMode::Legal,
        );
        hash.0
    }

    /// Calls `shakmaty::Position::is_check`.
    #[verifier::external_body]
    fn check(&self) -> (r: bool)
        ensures
            r == in_check(*self),
    {
        shakmaty::Position::is_check(&self.chess)
    }

    /// Calls `shakmaty::Position::is_checkmate`: the side to move is in check
    /// and has no legal move.
    #[verifier::external_body]
    fn checkmate(&self) -> (r: bool)
        ensures
            r == (in_check(*self) && raw_legal_moves(*self).len() == 0),
    {
        shakmaty::Position::is_checkmate(&self.chess)
    }

    /// Calls `shakmaty::Position::legal_moves` and hands each move over in
    /// numbers and flags.
    #[verifier::external_body]
    fn raw_moves(&self) -> (r: Vec<RawMove>)
        ensures
            r@ == raw_legal_moves(*self),
    {
        shakmaty::Position::legal_moves(&self.chess).iter().map(|m| RawMove {
            role: m.role() as u8,
            from: m.from().map(|s| s as u8),
            to: m.to() as u8,
            capture: m.capture().map(|r| r as u8),
            promotion: m.promotion().map(|r| r as u8),
            en_passant: m.is_en_passant(),
            castle: m.is_castle(),
        }).collect()
    }

    /// Calls `shakmaty::Position::capture_moves`: the legal moves that
    /// capture, in the order of the legal moves.
    #[verifier::external_body]
    fn raw_capture_moves(&self) -> (r: Vec<RawMove>)
        ensures
            r@ == raw_legal_moves(*self).filter(|m: RawMove| m.capture is Some),
    {
        shakmaty::Position::capture_moves(&self.chess).iter().map(|m| RawMove {
            role: m.role() as u8,
            from: m.from().map(|s| s as u8),
            to: m.to() as u8,
            capture: m.capture().map(|r| r as u8),
            promotion: m.promotion().map(|r| r as u8),
            en_passant: m.is_en_passant(),
            castle: m.is_castle(),
        }).collect()
    }

    /// Plays a legal move with `shakmaty::Position::play_unchecked` on a copy
    /// of the position. The result is `None` exactly where a number of the
    /// move names no square or role. On the new board the moved piece has
    /// left its square and stands on its target, as [`board_after`] says, and
    /// the other side is to move.
    #[verifier::external_body]
    fn play_raw(&self, raw: RawMove) -> (r: Option<Position>)
        requires
            raw_legal_moves(*self).contains(raw),
        ensures
            r is Some <==> raw_playable(raw),
            r matches Some(p) ==> p == position_after(*self, raw),
            r matches Some(p) ==> white_to_move(p) == !white_to_move(*self),
            r matches Some(p) ==> (Move::spec_from_raw(raw) matches Some(m) ==> p.board()
                == board_after(self.board(), self.spec_turn(), m)),
    {
        let from = shakmaty::Square::try_from(raw.from?).ok()?;
        let to = shakmaty::Square::try_from(raw.to).ok()?;
        let m = if raw.castle {
            ChessMove::Castle { king: from, rook: to }
        } else if raw.en_passant {
            ChessMove::EnPassant { from, to }
        } else {
            let role = ChessRole::try_from(raw.role).ok()?;
            let capture = raw.capture.map(ChessRole::try_from).transpose().ok()?;
            let promotion = raw.promotion.map(ChessRole::try_from).transpose().ok()?;
            ChessMove::Normal { role, from, capture, to, promotion }
        };
        let mut chess = self.chess.clone();
        shakmaty::Position::play_unchecked(&mut chess, &m);
        Some(Position { chess })
    }

    /// Passes the move to the other side with `shakmaty::Position::swap_turn`
    /// on a copy of the position; `None` where that is refused. The pieces
    /// stay where they are, and the other side is to move.
    #[verifier::external_body]
    fn pass(&self) -> (r: Option<Position>)
        ensures
            r == after_null_move(*self),
            r matches Some(p) ==> p.board() == self.board() && white_to_move(p) == !white_to_move(
                *self,
            ),
    {
        let chess = shakmaty::Position::swap_turn(self.chess.clone()).ok()?;
        Some(Position { chess })
    }

    /// Reads a move in UCI notation with `shakmaty::uci::UciMove::from_ascii`
    /// and finds the legal move it stands for with `UciMove::to_move`; `None`
    /// where the text is no move or the move is not legal.
    #[verifier::external_body]
    fn raw_uci_move(&self, text: &str) -> (r: Option<RawMove>)
        ensures
            r == uci_move_of(*self, text@),
            r matches Some(m) ==> raw_legal_moves(*self).contains(m),
    {
        let uci = shakmaty::uci::UciMove::from_ascii(text.as_bytes()).ok()?;
        let m = uci.to_move(&self.chess).ok()?;
        Some(RawMove {
            role: m.role() as u8,
            from: m.from().map(|s| s as u8),
            to: m.to() as u8,
            capture: m.capture().map(|r| r as u8),
            promotion: m.promotion().map(|r| r as u8),
            en_passant: m.is_en_passant(),
            castle: m.is_castle(),
        })
    }

    /// The starting position of a game: the pieces stand as they do at the
    /// start, and White is to move.
    pub fn startpos() -> (r: Position)
        ensures
            r.board() == initial_board(),
            r.spec_turn() == Color::White,
    {
        Position::initial()
    }

    /// The position of a FEN record, with castling as in standard chess;
    /// `None` where the record is none or describes no position.
    pub fn from_fen(fen: &str) -> (r: Option<Position>)
        ensures
            r == position_of_fen(fen@),
    {
        Position::read_fen(fen)
    }

    /// A copy of the position.
    pub fn copy(&self) -> (r: Position)
        ensures
            r == *self,
    {
        self.duplicate()
    }

    /// How many pieces of each role a side has on the board.
    pub fn material_side(&self, color: Color) -> (r: Material)
        ensures
            r.pawn == count_below(self.board(), Piece { color, role: Role::Pawn }, 64),
            r.knight == count_below(self.board(), Piece { color, role: Role::Knight }, 64),
            r.bishop == count_below(self.board(), Piece { color, role: Role::Bishop }, 64),
            r.rook == count_below(self.board(), Piece { color, role: Role::Rook }, 64),
            r.queen == count_below(self.board(), Piece { color, role: Role::Queen }, 64),
            r.king == count_below(self.board(), Piece { color, role: Role::King }, 64),
    {
        self.count_material(color)
    }

    /// The Zobrist key of the position: of the pieces, the side to move, the
    /// castling rights and an en passant capture that is legal.
    pub fn zobrist(&self) -> (r: u64)
        ensures
            r == zobrist_of(*self),
    {
        self.zobrist_hash()
    }

    /// Whether the side to move is in check.
    pub fn is_check(&self) -> (r: bool)
        ensures
            r == in_check(*self),
    {
        self.check()
    }

    /// Whether the side to move is in check and has no legal move.
    pub fn is_checkmate(&self) -> (r: bool)
        ensures
            r == (in_check(*self) && raw_legal_moves(*self).len() == 0),
    {
        self.checkmate()
    }

    /// The position with the move passed to the other side: the pieces stay
    /// where they are. `None` where the move cannot be passed, as when the
    /// side to move is in check.
    pub fn swap_turn(&self) -> (r: Option<Position>)
        ensures
            r == after_null_move(*self),
            r matches Some(p) ==> p.board() == self.board() && p.spec_turn()
                == self.spec_turn().spec_other(),
    {
        self.pass()
    }

    /// The side to move.
    #[verifier::when_used_as_spec(spec_turn)]
    pub fn turn(&self) -> (r: Color)
        ensures
            r == self.spec_turn(),
    {
        Color::from_white(self.white_turn())
    }

    /// The piece on a square, if any.
    pub fn piece_at(&self, square: Square) -> (r: Option<Piece>)
        requires
            square.wf(),
        ensures
            r == self.board()[square.spec_index()],
    {
        match self.raw_piece_at(square.0) {
            Some(p) => match Role::from_code(p.role) {
                Some(role) => Some(Piece { color: Color::from_white(p.white), role }),
                None => None,
            },
            None => None,
        }
    }

    /// The legal moves.
    pub fn legal_moves(&self) -> (r: Vec<Move>)
        ensures
            r@ == self.spec_legal_moves(),
            forall|i: int| 0 <= i < r.len() ==> (#[trigger] r[i]).wf() && self.is_legal(r[i]),
            r.len() <= raw_legal_moves(*self).len(),
    {
        let raws = self.raw_moves();
        let moves = decode_move_list(&raws);
        proof {
            assert forall|i: int| 0 <= i < moves.len() implies (#[trigger] moves[i]).wf()
                && self.is_legal(moves[i]) by {
                decoded_moves_come_from(raws@, i);
            }
            decode_moves_len(raws@);
        }
        moves
    }

    /// The legal moves that capture.
    pub fn capture_moves(&self) -> (r: Vec<Move>)
        ensures
            r@ == decode_moves(raw_legal_moves(*self).filter(|m: RawMove| m.capture is Some)),
            forall|i: int| 0 <= i < r.len() ==> (#[trigger] r[i]).wf() && self.is_legal(r[i]),
    {
        let raws = self.raw_capture_moves();
        let moves = decode_move_list(&raws);
        proof {
            let all = raw_legal_moves(*self);
            let pred = |m: RawMove| m.capture is Some;
            assert forall|i: int| 0 <= i < moves.len() implies (#[trigger] moves[i]).wf()
                && self.is_legal(moves[i]) by {
                decoded_moves_come_from(raws@, i);
                let raw = moves[i].spec_to_raw();
                assert(all.filter(pred).contains(raw));
                all.lemma_filter_contains_rev(pred, raw);
            }
        }
        moves
    }

    /// The position after a legal move: the moved piece has left its square
    /// and stands on its target, and the other side is to move.
    pub fn play(&self, m: Move) -> (r: Position)
        requires
            m.wf(),
            self.is_legal(m),
        ensures
            r == self.spec_play(m),
            r.spec_turn() == self.spec_turn().spec_other(),
            r.board() == board_after(self.board(), self.spec_turn(), m),
    {
        proof {
            raw_move_round_trip(m);
        }
        self.play_raw(m.to_raw()).unwrap()
    }

    /// The legal move that a text in UCI notation stands for, if any.
    pub fn find_uci_move(&self, text: &str) -> (r: Option<Move>)
        ensures
            r == match uci_move_of(*self, text@) {
                Some(raw) => Move::spec_from_raw(raw),
                None => None,
            },
            r matches Some(m) ==> m.wf() && self.is_legal(m),
    {
        match self.raw_uci_move(text) {
            Some(raw) => Move::from_raw(raw),
            None => None,
        }
    }
}

} // verus!
