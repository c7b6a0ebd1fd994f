//! Plain chess values: colours, roles, squares, pieces, boards and moves.

use crate::text::push_char;
use vstd::prelude::*;

verus! {

/// One of the two sides.
#[derive(Clone, Copy, Debug, PartialEq, Eq, Structural)]
pub enum Color {
    Black,
    White,
}

impl Color {
    /// The number of a colour: 0 for Black, 1 for White.
    pub open spec fn index(self) -> int {
        match self {
            Color::Black => 0,
            Color::White => 1,
        }
    }

    /// The opposite colour.
    pub open spec fn spec_other(self) -> Color {
        match self {
            Color::Black => Color::White,
            Color::White => Color::Black,
        }
    }

    #[verifier::when_used_as_spec(spec_other)]
    pub fn other(self) -> (r: Color)
        ensures
            r == self.spec_other(),
    {
        match self {
            Color::Black => Color::White,
            Color::White => Color::Black,
        }
    }

    pub fn is_white(self) -> (r: bool)
        ensures
            r == (self == Color::White),
    {
        match self {
            Color::Black => false,
            Color::White => true,
        }
    }

    pub fn from_white(white: bool) -> (r: Color)
        ensures
            r == (if white { Color::White } else { Color::Black }),
    {
        if white {
            Color::White
        } else {
            Color::Black
        }
    }
}

/// The kind of a piece. Roles are numbered 1 (pawn) to 6 (king).
#[derive(Clone, Copy, Debug, PartialEq, Eq, Structural)]
pub enum Role {
    Pawn,
    Knight,
    Bishop,
    Rook,
    Queen,
    King,
}

impl Role {
    /// The number of a role: Pawn 1, Knight 2, Bishop 3, Rook 4, Queen 5, King 6.
    pub open spec fn spec_code(self) -> u8 {
        match self {
            Role::Pawn => 1,
            Role::Knight => 2,
            Role::Bishop => 3,
            Role::Rook => 4,
            Role::Queen => 5,
            Role::King => 6,
        }
    }

    #[verifier::when_used_as_spec(spec_code)]
    pub fn code(self) -> (r: u8)
        ensures
            r == self.spec_code(),
            1 <= r <= 6,
    {
        match self {
            Role::Pawn => 1,
            Role::Knight => 2,
            Role::Bishop => 3,
            Role::Rook => 4,
            Role::Queen => 5,
            Role::King => 6,
        }
    }

    /// The role with the given number, if there is one.
    pub open spec fn spec_from_code(code: u8) -> Option<Role> {
        if code == 1 {
            Some(Role::Pawn)
        } else if code == 2 {
            Some(Role::Knight)
        } else if code == 3 {
            Some(Role::Bishop)
        } else if code == 4 {
            Some(Role::Rook)
        } else if code == 5 {
            Some(Role::Queen)
        } else if code == 6 {
            Some(Role::King)
        } else {
            None
        }
    }

    #[verifier::when_used_as_spec(spec_from_code)]
    pub fn from_code(code: u8) -> (r: Option<Role>)
        ensures
            r == Role::spec_from_code(code),
            r matches Some(role) ==> role.spec_code() == code,
            r is Some <==> 1 <= code <= 6,
    {
        if code == 1 {
            Some(Role::Pawn)
        } else if code == 2 {
            Some(Role::Knight)
        } else if code == 3 {
            Some(Role::Bishop)
        } else if code == 4 {
            Some(Role::Rook)
        } else if code == 5 {
            Some(Role::Queen)
        } else if code == 6 {
            Some(Role::King)
        } else {
            None
        }
    }

    /// The lower-case letter of a role.
    pub open spec fn spec_letter(self) -> char {
        match self {
            Role::Pawn => 'p',
            Role::Knight => 'n',
            Role::Bishop => 'b',
            Role::Rook => 'r',
            Role::Queen => 'q',
            Role::King => 'k',
        }
    }

    #[verifier::when_used_as_spec(spec_letter)]
    pub fn letter(self) -> (r: char)
        ensures
            r == self.spec_letter(),
    {
        match self {
            Role::Pawn => 'p',
            Role::Knight => 'n',
            Role::Bishop => 'b',
            Role::Rook => 'r',
            Role::Queen => 'q',
            Role::King => 'k',
        }
    }
}

/// Every number from 1 to 6 names a role, and the role gives the number back.
pub proof fn role_codes_round_trip(role: Role)
    ensures
        Role::spec_from_code(role.spec_code()) == Some(role),
{
}

/// A square of the board, numbered 0 (a1) to 63 (h8), rank by rank.
#[derive(Clone, Copy, Debug, PartialEq, Eq, Structural)]
pub struct Square(pub u8);

impl Square {
    /// A square is one of the 64 of the board.
    pub open spec fn wf(self) -> bool {
        self.0 < 64
    }

    pub open spec fn spec_index(self) -> int {
        self.0 as int
    }

    /// The file of a square, 0 (a) to 7 (h).
    pub open spec fn spec_file(self) -> int {
        self.0 as int % 8
    }

    /// The rank of a square, 0 (first) to 7 (eighth).
    pub open spec fn spec_rank(self) -> int {
        self.0 as int / 8
    }

    /// The square on the given file and rank.
    pub open spec fn spec_from_coords(file: int, rank: int) -> Square {
        Square((rank * 8 + file) as u8)
    }

    /// The square mirrored top to bottom: the rank `r` becomes `7 - r`.
    pub open spec fn spec_flip_vertical(self) -> Square {
        Square::spec_from_coords(self.spec_file(), 7 - self.spec_rank())
    }

    /// The square with the given number, or `None` outside 0..64.
    pub fn new(index: u8) -> (r: Option<Square>)
        ensures
            r == (if index < 64 { Some(Square(index)) } else { None }),
    {
        if index < 64 {
            Some(Square(index))
        } else {
            None
        }
    }

    pub fn is_valid(self) -> (r: bool)
        ensures
            r == self.wf(),
    {
        self.0 < 64
    }

    pub fn index(self) -> (r: usize)
        ensures
            r == self.spec_index(),
    {
        self.0 as usize
    }

    pub fn file(self) -> (r: u8)
        ensures
            r == self.spec_file(),
            r < 8,
    {
        self.0 % 8
    }

    pub fn rank(self) -> (r: u8)
        ensures
            r == self.spec_rank(),
            self.wf() ==> r < 8,
    {
        self.0 / 8
    }

    pub fn from_coords(file: u8, rank: u8) -> (r: Square)
        requires
            file < 8,
            rank < 8,
        ensures
            r == Square::spec_from_coords(file as int, rank as int),
            r.wf(),
            r.spec_file() == file,
            r.spec_rank() == rank,
    {
        Square(rank * 8 + file)
    }

    pub fn flip_vertical(self) -> (r: Square)
        requires
            self.wf(),
        ensures
            r == self.spec_flip_vertical(),
            r.wf(),
            r.spec_file() == self.spec_file(),
            r.spec_rank() == 7 - self.spec_rank(),
    {
        Square::from_coords(self.file(), 7 - self.rank())
    }
}

/// A piece: a role in a colour.
#[derive(Clone, Copy, Debug, PartialEq, Eq, Structural)]
pub struct Piece {
    pub color: Color,
    pub role: Role,
}

/// What stands on each of the 64 squares.
pub type Board = Seq<Option<Piece>>;

/// The role that stands on a file of the first and of the last rank when a
/// game starts.
pub open spec fn back_rank_role(file: int) -> Role {
    if file == 0 || file == 7 {
        Role::Rook
    } else if file == 1 || file == 6 {
        Role::Knight
    } else if file == 2 || file == 5 {
        Role::Bishop
    } else if file == 3 {
        Role::Queen
    } else {
        Role::King
    }
}

/// What stands on a square when a game starts.
pub open spec fn initial_occupant(square: int) -> Option<Piece> {
    let file = square % 8;
    let rank = square / 8;
    if rank == 0 {
        Some(Piece { color: Color::White, role: back_rank_role(file) })
    } else if rank == 1 {
        Some(Piece { color: Color::White, role: Role::Pawn })
    } else if rank == 6 {
        Some(Piece { color: Color::Black, role: Role::Pawn })
    } else if rank == 7 {
        Some(Piece { color: Color::Black, role: back_rank_role(file) })
    } else {
        None
    }
}

/// The board at the start of a game.
pub open spec fn initial_board() -> Board {
    Seq::new(64, |square: int| initial_occupant(square))
}

/// A move. Castling names the king's square and the square of the rook that
/// castles with it.
#[derive(Clone, Copy, Debug, PartialEq, Eq, Structural)]
pub enum Move {
    Normal { role: Role, from: Square, capture: Option<Role>, to: Square, promotion: Option<Role> },
    EnPassant { from: Square, to: Square },
    Castle { king: Square, rook: Square },
}

impl Move {
    /// Every square of the move is on the board.
    pub open spec fn wf(self) -> bool {
        match self {
            Move::Normal { from, to, .. } => from.wf() && to.wf(),
            Move::EnPassant { from, to } => from.wf() && to.wf(),
            Move::Castle { king, rook } => king.wf() && rook.wf(),
        }
    }

    /// The role of the piece that moves.
    pub open spec fn spec_role(self) -> Role {
        match self {
            Move::Normal { role, .. } => role,
            Move::EnPassant { .. } => Role::Pawn,
            Move::Castle { .. } => Role::King,
        }
    }

    /// The square the piece leaves; for castling the king's.
    pub open spec fn spec_from(self) -> Square {
        match self {
            Move::Normal { from, .. } => from,
            Move::EnPassant { from, .. } => from,
            Move::Castle { king, .. } => king,
        }
    }

    /// The target square; for castling the square of the rook.
    pub open spec fn spec_to(self) -> Square {
        match self {
            Move::Normal { to, .. } => to,
            Move::EnPassant { to, .. } => to,
            Move::Castle { rook, .. } => rook,
        }
    }

    /// The role of the piece taken, if any.
    pub open spec fn spec_capture(self) -> Option<Role> {
        match self {
            Move::Normal { capture, .. } => capture,
            Move::EnPassant { .. } => Some(Role::Pawn),
            Move::Castle { .. } => None,
        }
    }

    pub open spec fn spec_is_capture(self) -> bool {
        self.spec_capture() is Some
    }

    /// The role a pawn is promoted to, if the move promotes.
    pub open spec fn spec_promotion(self) -> Option<Role> {
        match self {
            Move::Normal { promotion, .. } => promotion,
            _ => None,
        }
    }

    pub open spec fn spec_is_promotion(self) -> bool {
        self.spec_promotion() is Some
    }

    /// A quiet move neither captures nor promotes.
    pub open spec fn spec_is_quiet(self) -> bool {
        !self.spec_is_capture() && !self.spec_is_promotion()
    }

    pub fn is_valid(self) -> (r: bool)
        ensures
            r == self.wf(),
    {
        match self {
            Move::Normal { from, to, .. } => from.is_valid() && to.is_valid(),
            Move::EnPassant { from, to } => from.is_valid() && to.is_valid(),
            Move::Castle { king, rook } => king.is_valid() && rook.is_valid(),
        }
    }

    #[verifier::when_used_as_spec(spec_role)]
    pub fn role(self) -> (r: Role)
        ensures
            r == self.spec_role(),
    {
        match self {
            Move::Normal { role, .. } => role,
            Move::EnPassant { .. } => Role::Pawn,
            Move::Castle { .. } => Role::King,
        }
    }

    #[verifier::when_used_as_spec(spec_from)]
    pub fn from(self) -> (r: Square)
        ensures
            r == self.spec_from(),
    {
        match self {
            Move::Normal { from, .. } => from,
            Move::EnPassant { from, .. } => from,
            Move::Castle { king, .. } => king,
        }
    }

    #[verifier::when_used_as_spec(spec_to)]
    pub fn to(self) -> (r: Square)
        ensures
            r == self.spec_to(),
    {
        match self {
            Move::Normal { to, .. } => to,
            Move::EnPassant { to, .. } => to,
            Move::Castle { rook, .. } => rook,
        }
    }

    #[verifier::when_used_as_spec(spec_capture)]
    pub fn capture(self) -> (r: Option<Role>)
        ensures
            r == self.spec_capture(),
    {
        match self {
            Move::Normal { capture, .. } => capture,
            Move::EnPassant { .. } => Some(Role::Pawn),
            Move::Castle { .. } => None,
        }
    }

    #[verifier::when_used_as_spec(spec_is_capture)]
    pub fn is_capture(self) -> (r: bool)
        ensures
            r == self.spec_is_capture(),
    {
        self.capture().is_some()
    }

    #[verifier::when_used_as_spec(spec_promotion)]
    pub fn promotion(self) -> (r: Option<Role>)
        ensures
            r == self.spec_promotion(),
    {
        match self {
            Move::Normal { promotion, .. } => promotion,
            _ => None,
        }
    }

    #[verifier::when_used_as_spec(spec_is_promotion)]
    pub fn is_promotion(self) -> (r: bool)
        ensures
            r == self.spec_is_promotion(),
    {
        self.promotion().is_some()
    }

    #[verifier::when_used_as_spec(spec_is_quiet)]
    pub fn is_quiet(self) -> (r: bool)
        ensures
            r == self.spec_is_quiet(),
    {
        !self.is_capture() && !self.is_promotion()
    }

    /// Whether two moves are the same move.
    pub fn same(self, other: Move) -> (r: bool)
        ensures
            r == (self == other),
    {
        self == other
    }
}

/// The file a castling king ends on: c (2) on the queen's side, g (6) on the
/// king's side. The rook stands on the queen's side when its square comes
/// before the king's.
pub open spec fn castle_king_file(king: Square, rook: Square) -> int {
    if rook.0 < king.0 {
        2
    } else {
        6
    }
}

/// The file a castling rook ends on: d (3) on the queen's side, f (5) on the
/// king's side.
pub open spec fn castle_rook_file(king: Square, rook: Square) -> int {
    if rook.0 < king.0 {
        3
    } else {
        5
    }
}

/// The square a castling king ends on.
pub open spec fn castle_king_target(king: Square, rook: Square) -> Square {
    Square::spec_from_coords(castle_king_file(king, rook), king.spec_rank())
}

/// The square a castling rook ends on.
pub open spec fn castle_rook_target(king: Square, rook: Square) -> Square {
    Square::spec_from_coords(castle_rook_file(king, rook), rook.spec_rank())
}

/// The square of the pawn that an en passant capture takes: on the file the
/// capturing pawn arrives on, on the rank it leaves.
pub open spec fn en_passant_victim(from: Square, to: Square) -> Square {
    Square::spec_from_coords(to.spec_file(), from.spec_rank())
}

pub fn king_castles_to(king: Square, rook: Square) -> (r: Square)
    requires
        king.wf(),
    ensures
        r == castle_king_target(king, rook),
        r.wf(),
{
    let file: u8 = if rook.0 < king.0 { 2 } else { 6 };
    Square::from_coords(file, king.rank())
}

pub fn rook_castles_to(king: Square, rook: Square) -> (r: Square)
    requires
        rook.wf(),
    ensures
        r == castle_rook_target(king, rook),
        r.wf(),
{
    let file: u8 = if rook.0 < king.0 { 3 } else { 5 };
    Square::from_coords(file, rook.rank())
}

pub fn en_passant_victim_square(from: Square, to: Square) -> (r: Square)
    requires
        from.wf(),
        to.wf(),
    ensures
        r == en_passant_victim(from, to),
        r.wf(),
{
    Square::from_coords(to.file(), from.rank())
}

/// The board after a move by the side `turn`: the moving piece leaves its
/// square and arrives on its target, as itself or as what it is promoted to;
/// an en passant capture also empties the square of the pawn it takes; in
/// castling king and rook both leave and arrive on their castled squares.
pub open spec fn board_after(board: Board, turn: Color, m: Move) -> Board {
    match m {
        Move::Normal { role, from, to, promotion, .. } => {
            let arrives = match promotion {
                Some(p) => p,
                None => role,
            };
            board.update(from.spec_index(), None).update(
                to.spec_index(),
                Some(Piece { color: turn, role: arrives }),
            )
        },
        Move::EnPassant { from, to } => board.update(
            en_passant_victim(from, to).spec_index(),
            None,
        ).update(from.spec_index(), None).update(
            to.spec_index(),
            Some(Piece { color: turn, role: Role::Pawn }),
        ),
        Move::Castle { king, rook } => board.update(king.spec_index(), None).update(
            rook.spec_index(),
            None,
        ).update(
            castle_rook_target(king, rook).spec_index(),
            Some(Piece { color: turn, role: Role::Rook }),
        ).update(
            castle_king_target(king, rook).spec_index(),
            Some(Piece { color: turn, role: Role::King }),
        ),
    }
}

/// A move as the move generator hands it over: numbers and flags, one field for each
/// question that can be asked of a move.
#[derive(Clone, Copy, Debug, PartialEq, Eq, Structural)]
pub struct RawMove {
    pub role: u8,
    pub from: Option<u8>,
    pub to: u8,
    pub capture: Option<u8>,
    pub promotion: Option<u8>,
    pub en_passant: bool,
    pub castle: bool,
}

impl Move {
    /// The move in numbers and flags.
    pub open spec fn spec_to_raw(self) -> RawMove {
        RawMove {
            role: self.spec_role().spec_code(),
            from: Some(self.spec_from().0),
            to: self.spec_to().0,
            capture: match self.spec_capture() {
                Some(r) => Some(r.spec_code()),
                None => None,
            },
            promotion: match self.spec_promotion() {
                Some(r) => Some(r.spec_code()),
                None => None,
            },
            en_passant: self is EnPassant,
            castle: self is Castle,
        }
    }

    /// The move that the numbers and flags describe. There is none where a
    /// number names no role or square, where both flags are set, or where the
    /// fields contradict the kind of move.
    pub open spec fn spec_from_raw(raw: RawMove) -> Option<Move> {
        if raw.from is None || raw.from.unwrap() >= 64 || raw.to >= 64 {
            None
        } else if raw.castle {
            if !raw.en_passant && raw.role == 6 && raw.capture is None && raw.promotion is None {
                Some(Move::Castle { king: Square(raw.from.unwrap()), rook: Square(raw.to) })
            } else {
                None
            }
        } else if raw.en_passant {
            if raw.role == 1 && raw.capture == Some(1u8) && raw.promotion is None {
                Some(Move::EnPassant { from: Square(raw.from.unwrap()), to: Square(raw.to) })
            } else {
                None
            }
        } else if Role::spec_from_code(raw.role) is None {
            None
        } else if raw.capture is Some && Role::spec_from_code(raw.capture.unwrap()) is None {
            None
        } else if raw.promotion is Some && Role::spec_from_code(raw.promotion.unwrap()) is None {
            None
        } else {
            Some(
                Move::Normal {
                    role: Role::spec_from_code(raw.role).unwrap(),
                    from: Square(raw.from.unwrap()),
                    capture: match raw.capture {
                        Some(c) => Role::spec_from_code(c),
                        None => None,
                    },
                    to: Square(raw.to),
                    promotion: match raw.promotion {
                        Some(c) => Role::spec_from_code(c),
                        None => None,
                    },
                },
            )
        }
    }

    #[verifier::when_used_as_spec(spec_to_raw)]
    pub fn to_raw(self) -> (r: RawMove)
        ensures
            r == self.spec_to_raw(),
    {
        RawMove {
            role: self.role().code(),
            from: Some(self.from().0),
            to: self.to().0,
            capture: match self.capture() {
                Some(r) => Some(r.code()),
                None => None,
            },
            promotion: match self.promotion() {
                Some(r) => Some(r.code()),
                None => None,
            },
            en_passant: match self {
                Move::EnPassant { .. } => true,
                _ => false,
            },
            castle: match self {
                Move::Castle { .. } => true,
                _ => false,
            },
        }
    }

    #[verifier::when_used_as_spec(spec_from_raw)]
    pub fn from_raw(raw: RawMove) -> (r: Option<Move>)
        ensures
            r == Move::spec_from_raw(raw),
            r matches Some(m) ==> m.wf() && m.spec_to_raw() == raw,
    {
        let from = match raw.from {
            Some(f) => f,
            None => {
                return None;
            },
        };
        if from >= 64 || raw.to >= 64 {
            return None;
        }
        if raw.castle {
            if !raw.en_passant && raw.role == 6 && raw.capture.is_none()
                && raw.promotion.is_none() {
                return Some(Move::Castle { king: Square(from), rook: Square(raw.to) });
            }
            return None;
        }
        if raw.en_passant {
            let takes_pawn = match raw.capture {
                Some(c) => c == 1,
                None => false,
            };
            if raw.role == 1 && takes_pawn && raw.promotion.is_none() {
                return Some(Move::EnPassant { from: Square(from), to: Square(raw.to) });
            }
            return None;
        }
        let role = match Role::from_code(raw.role) {
            Some(r) => r,
            None => {
                return None;
            },
        };
        let capture = match raw.capture {
            Some(c) => match Role::from_code(c) {
                Some(r) => Some(r),
                None => {
                    return None;
                },
            },
            None => None,
        };
        let promotion = match raw.promotion {
            Some(c) => match Role::from_code(c) {
                Some(r) => Some(r),
                None => {
                    return None;
                },
            },
            None => None,
        };
        Some(Move::Normal { role, from: Square(from), capture, to: Square(raw.to), promotion })
    }
}

/// A move on the board, written in numbers and read back, is the same move.
pub proof fn raw_move_round_trip(m: Move)
    requires
        m.wf(),
    ensures
        Move::spec_from_raw(m.spec_to_raw()) == Some(m),
{
    match m {
        Move::Normal { role, capture, promotion, .. } => {
            role_codes_round_trip(role);
            if let Some(c) = capture {
                role_codes_round_trip(c);
            }
            if let Some(p) = promotion {
                role_codes_round_trip(p);
            }
        },
        _ => {},
    }
}

/// The moves that a list of raw moves describes, in the same order; a raw
/// move that describes none is left out.
pub open spec fn decode_moves(raws: Seq<RawMove>) -> Seq<Move>
    decreases raws.len(),
{
    if raws.len() == 0 {
        Seq::empty()
    } else {
        let rest = decode_moves(raws.drop_last());
        match Move::spec_from_raw(raws.last()) {
            Some(m) => rest.push(m),
            None => rest,
        }
    }
}

/// Every decoded move is on the board and stands, in raw form, in the list it
/// was decoded from.
pub proof fn decoded_moves_come_from(raws: Seq<RawMove>, i: int)
    requires
        0 <= i < decode_moves(raws).len(),
    ensures
        decode_moves(raws)[i].wf(),
        raws.contains(decode_moves(raws)[i].spec_to_raw()),
        decode_moves(raws).len() <= raws.len(),
    decreases raws.len(),
{
    if raws.len() > 0 {
        let rest = decode_moves(raws.drop_last());
        let decoded = Move::spec_from_raw(raws.last());
        if i < rest.len() {
            decoded_moves_come_from(raws.drop_last(), i);
            let raw = rest[i].spec_to_raw();
            let j = choose|j: int| 0 <= j < raws.drop_last().len() && raws.drop_last()[j] == raw;
            assert(raws[j] == raw);
        } else {
            let m = decoded.unwrap();
            assert(raws[raws.len() - 1] == m.spec_to_raw());
            decode_moves_len(raws.drop_last());
        }
        decode_moves_len(raws);
    }
}

/// A move on the board whose raw form stands in a list stands in the
/// decoded list.
pub proof fn decoded_moves_hold(raws: Seq<RawMove>, m: Move)
    requires
        m.wf(),
        raws.contains(m.spec_to_raw()),
    ensures
        decode_moves(raws).contains(m),
    decreases raws.len(),
{
    raw_move_round_trip(m);
    let j = choose|j: int| 0 <= j < raws.len() && raws[j] == m.spec_to_raw();
    let rest = decode_moves(raws.drop_last());
    if j == raws.len() - 1 {
        assert(decode_moves(raws) == rest.push(m));
        assert(rest.push(m)[rest.len() as int] == m);
    } else {
        assert(raws.drop_last()[j] == m.spec_to_raw());
        decoded_moves_hold(raws.drop_last(), m);
        let k = choose|k: int| 0 <= k < rest.len() && rest[k] == m;
        assert(decode_moves(raws)[k] == m);
    }
}

/// Decoding never lengthens a list.
pub proof fn decode_moves_len(raws: Seq<RawMove>)
    ensures
        decode_moves(raws).len() <= raws.len(),
    decreases raws.len(),
{
    if raws.len() > 0 {
        decode_moves_len(raws.drop_last());
    }
}

/// Decodes each raw move of a list.
pub fn decode_move_list(raws: &Vec<RawMove>) -> (r: Vec<Move>)
    ensures
        r@ == decode_moves(raws@),
{
    let mut out: Vec<Move> = Vec::new();
    let mut i: usize = 0;
    while i < raws.len()
        invariant
            i <= raws.len(),
            out@ == decode_moves(raws@.take(i as int)),
        decreases raws.len() - i,
    {
        proof {
            assert(raws@.take(i + 1).drop_last() == raws@.take(i as int));
        }
        match Move::from_raw(raws[i]) {
            Some(m) => {
                out.push(m);
            },
            None => {},
        }
        i += 1;
    }
    proof {
        assert(raws@.take(raws.len() as int) == raws@);
    }
    out
}

} // verus!

verus! {

/// The letter of a file: `a` for file 0 up to `h` for file 7.
pub open spec fn file_char(file: int) -> char {
    if file == 0 {
        'a'
    } else if file == 1 {
        'b'
    } else if file == 2 {
        'c'
    } else if file == 3 {
        'd'
    } else if file == 4 {
        'e'
    } else if file == 5 {
        'f'
    } else if file == 6 {
        'g'
    } else {
        'h'
    }
}

/// The digit of a rank: `1` for rank 0 up to `8` for rank 7.
pub open spec fn rank_char(rank: int) -> char {
    if rank == 0 {
        '1'
    } else if rank == 1 {
        '2'
    } else if rank == 2 {
        '3'
    } else if rank == 3 {
        '4'
    } else if rank == 4 {
        '5'
    } else if rank == 5 {
        '6'
    } else if rank == 6 {
        '7'
    } else {
        '8'
    }
}

/// The name of a square: the letter of its file and the digit of its rank.
pub open spec fn square_name(square: Square) -> Seq<char> {
    seq![file_char(square.spec_file()), rank_char(square.spec_rank())]
}

/// The letter that a promotion adds to a move in the notation of the
/// protocol; nothing where no pawn is promoted.
pub open spec fn promotion_letter(promotion: Option<Role>) -> Seq<char> {
    match promotion {
        Some(role) => seq![role.spec_letter()],
        None => Seq::empty(),
    }
}

/// A move in the notation of the protocol: the square the piece leaves, the
/// square it arrives on and, where a pawn is promoted, the letter of its new
/// role. Castling is written as the move of the king.
pub open spec fn uci_text(m: Move) -> Seq<char> {
    match m {
        Move::Normal { from, to, promotion, .. } => square_name(from) + square_name(to)
            + promotion_letter(promotion),
        Move::EnPassant { from, to } => square_name(from) + square_name(to),
        Move::Castle { king, rook } => square_name(king) + square_name(
            castle_king_target(king, rook),
        ),
    }
}

fn file_letter(file: u8) -> (r: char)
    ensures
        r == file_char(file as int),
{
    if file == 0 {
        'a'
    } else if file == 1 {
        'b'
    } else if file == 2 {
        'c'
    } else if file == 3 {
        'd'
    } else if file == 4 {
        'e'
    } else if file == 5 {
        'f'
    } else if file == 6 {
        'g'
    } else {
        'h'
    }
}

fn rank_digit(rank: u8) -> (r: char)
    ensures
        r == rank_char(rank as int),
{
    if rank == 0 {
        '1'
    } else if rank == 1 {
        '2'
    } else if rank == 2 {
        '3'
    } else if rank == 3 {
        '4'
    } else if rank == 4 {
        '5'
    } else if rank == 5 {
        '6'
    } else if rank == 6 {
        '7'
    } else {
        '8'
    }
}

fn append_square(text: &mut String, square: Square)
    ensures
        final(text)@ == old(text)@ + square_name(square),
{
    push_char(text, file_letter(square.file()));
    push_char(text, rank_digit(square.rank()));
    proof {
        assert(old(text)@.push(file_char(square.spec_file())).push(rank_char(square.spec_rank()))
            =~= old(text)@ + square_name(square));
    }
}

impl Move {
    /// The move in the notation of the protocol.
    pub fn to_uci(self) -> (r: String)
        requires
            self.wf(),
        ensures
            r@ == uci_text(self),
    {
        let mut text = String::new();
        match self {
            Move::Normal { from, to, promotion, .. } => {
                append_square(&mut text, from);
                append_square(&mut text, to);
                match promotion {
                    Some(role) => {
                        push_char(&mut text, role.letter());
                    },
                    None => {},
                }
                proof {
                    assert(text@ =~= square_name(from) + square_name(to) + promotion_letter(
                        promotion,
                    ));
                }
            },
            Move::EnPassant { from, to } => {
                append_square(&mut text, from);
                append_square(&mut text, to);
                proof {
                    assert(text@ =~= square_name(from) + square_name(to));
                }
            },
            Move::Castle { king, rook } => {
                append_square(&mut text, king);
                append_square(&mut text, king_castles_to(king, rook));
                proof {
                    assert(text@ =~= square_name(king) + square_name(
                        castle_king_target(king, rook),
                    ));
                }
            },
        }
        text
    }
}

} // verus!
