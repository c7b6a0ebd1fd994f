use castled_engine::chess::{Color, Move, Piece, Role, Square};
use castled_engine::eval::Eval;
use castled_engine::position::Position;

fn position(fen: &str) -> Position {
    Position::from_fen(fen).expect("a position")
}

fn board_of(pos: &Position) -> Vec<Option<Piece>> {
    (0..64u8).map(|sq| pos.piece_at(Square(sq))).collect()
}

#[test]
fn the_starting_position() {
    let pos = Position::startpos();
    assert_eq!(pos.turn(), Color::White);
    assert_eq!(pos.legal_moves().len(), 20);
    assert!(pos.capture_moves().is_empty());
    assert!(!pos.is_check());
    assert!(!pos.is_checkmate());
    let back = [
        Role::Rook,
        Role::Knight,
        Role::Bishop,
        Role::Queen,
        Role::King,
        Role::Bishop,
        Role::Knight,
        Role::Rook,
    ];
    for file in 0..8u8 {
        let role = back[file as usize];
        assert_eq!(pos.piece_at(Square(file)), Some(Piece { color: Color::White, role }));
        assert_eq!(
            pos.piece_at(Square(8 + file)),
            Some(Piece { color: Color::White, role: Role::Pawn })
        );
        assert_eq!(
            pos.piece_at(Square(48 + file)),
            Some(Piece { color: Color::Black, role: Role::Pawn })
        );
        assert_eq!(pos.piece_at(Square(56 + file)), Some(Piece { color: Color::Black, role }));
        for rank in 2..6u8 {
            assert_eq!(pos.piece_at(Square(rank * 8 + file)), None);
        }
    }
}

#[test]
fn the_starting_position_as_a_record() {
    let pos = position("rnbqkbnr/pppppppp/8/8/8/8/PPPPPPPP/RNBQKBNR w KQkq - 0 1");
    assert_eq!(pos.zobrist(), Position::startpos().zobrist());
    assert_eq!(board_of(&pos), board_of(&Position::startpos()));
}

#[test]
fn records_that_are_no_position_are_refused() {
    assert!(Position::from_fen("").is_none());
    assert!(Position::from_fen("not a record").is_none());
    assert!(Position::from_fen("8/8/8/8/8/8/8/8 w - - 0 1").is_none());
    assert!(Position::from_fen("4k3/8/8/8/8/8/8/8 w - - 0 1").is_none());
}

#[test]
fn a_copy_is_the_same_position() {
    let pos = position("r3k2r/p1ppqpb1/bn2pnp1/3PN3/1p2P3/2N2Q1p/PPPBBPPP/R3K2R w KQkq - 0 1");
    let copy = pos.copy();
    assert_eq!(copy.zobrist(), pos.zobrist());
    assert_eq!(copy.legal_moves(), pos.legal_moves());
    assert_eq!(copy.turn(), pos.turn());
}

#[test]
fn legal_moves_of_a_busy_position() {
    let pos = position("r3k2r/p1ppqpb1/bn2pnp1/3PN3/1p2P3/2N2Q1p/PPPBBPPP/R3K2R w KQkq - 0 1");
    let moves = pos.legal_moves();
    assert_eq!(moves.len(), 48);
    let captures = pos.capture_moves();
    assert_eq!(captures.len(), 8);
    assert!(captures.iter().all(|m| m.is_capture()));
    let wanted: Vec<Move> = moves.iter().copied().filter(|m| m.is_capture()).collect();
    assert_eq!(captures, wanted);
    assert!(moves.contains(&Move::Castle { king: Square(4), rook: Square(7) }));
    assert!(moves.contains(&Move::Castle { king: Square(4), rook: Square(0) }));
}

#[test]
fn a_move_changes_the_board_as_it_says() {
    let pos = Position::startpos();
    let m = pos.find_uci_move("g1f3").expect("a legal move");
    assert_eq!(
        m,
        Move::Normal {
            role: Role::Knight,
            from: Square(6),
            capture: None,
            to: Square(21),
            promotion: None
        }
    );
    let after = pos.play(m);
    assert_eq!(after.turn(), Color::Black);
    let mut wanted = board_of(&pos);
    wanted[6] = None;
    wanted[21] = Some(Piece { color: Color::White, role: Role::Knight });
    assert_eq!(board_of(&after), wanted);
    assert_ne!(after.zobrist(), pos.zobrist());
    // The position that was moved from is as it was.
    assert_eq!(pos.zobrist(), Position::startpos().zobrist());
}

#[test]
fn a_capture_with_promotion_changes_the_board_as_it_says() {
    let pos = position("1r2k3/P7/8/8/8/8/8/4K3 w - - 0 1");
    let m = pos.find_uci_move("a7b8q").expect("a legal move");
    assert_eq!(
        m,
        Move::Normal {
            role: Role::Pawn,
            from: Square(48),
            capture: Some(Role::Rook),
            to: Square(57),
            promotion: Some(Role::Queen)
        }
    );
    let after = pos.play(m);
    let mut wanted = board_of(&pos);
    wanted[48] = None;
    wanted[57] = Some(Piece { color: Color::White, role: Role::Queen });
    assert_eq!(board_of(&after), wanted);
}

#[test]
fn castling_changes_the_board_as_it_says() {
    let pos = position("r3k2r/8/8/8/8/8/8/R3K2R b KQkq - 0 1");
    let m = pos.find_uci_move("e8c8").expect("a legal move");
    assert_eq!(m, Move::Castle { king: Square(60), rook: Square(56) });
    let after = pos.play(m);
    let mut wanted = board_of(&pos);
    wanted[60] = None;
    wanted[56] = None;
    wanted[58] = Some(Piece { color: Color::Black, role: Role::King });
    wanted[59] = Some(Piece { color: Color::Black, role: Role::Rook });
    assert_eq!(board_of(&after), wanted);
    assert_eq!(after.turn(), Color::White);
}

#[test]
fn an_en_passant_capture_changes_the_board_as_it_says() {
    let pos = position("rnbqkbnr/ppp1p1pp/8/3pPp2/8/8/PPPP1PPP/RNBQKBNR w KQkq f6 0 3");
    let m = pos.find_uci_move("e5f6").expect("a legal move");
    assert_eq!(m, Move::EnPassant { from: Square(36), to: Square(45) });
    let after = pos.play(m);
    let mut wanted = board_of(&pos);
    wanted[36] = None;
    wanted[37] = None;
    wanted[45] = Some(Piece { color: Color::White, role: Role::Pawn });
    assert_eq!(board_of(&after), wanted);
}

#[test]
fn moves_that_are_not_legal_are_not_found() {
    let pos = Position::startpos();
    assert!(pos.find_uci_move("e2e5").is_none());
    assert!(pos.find_uci_move("e7e5").is_none());
    assert!(pos.find_uci_move("0000").is_none());
    assert!(pos.find_uci_move("castle").is_none());
    assert!(pos.find_uci_move("").is_none());
    assert!(pos.find_uci_move("e2e4").is_some());
}

#[test]
fn the_same_position_by_other_moves_has_the_same_key() {
    let mut a = Position::startpos();
    for text in ["g1f3", "g8f6", "b1c3", "b8c6"] {
        a = a.play(a.find_uci_move(text).expect("a legal move"));
    }
    let mut b = Position::startpos();
    for text in ["b1c3", "b8c6", "g1f3", "g8f6"] {
        b = b.play(b.find_uci_move(text).expect("a legal move"));
    }
    assert_eq!(a.zobrist(), b.zobrist());
    let mut back = Position::startpos();
    for text in ["g1f3", "g8f6", "f3g1", "f6g8"] {
        back = back.play(back.find_uci_move(text).expect("a legal move"));
    }
    assert_eq!(back.zobrist(), Position::startpos().zobrist());
}

#[test]
fn check_and_checkmate() {
    let mate = position("4k2R/8/4K3/8/8/8/8/8 b - - 0 1");
    assert!(mate.is_check());
    assert!(mate.is_checkmate());
    assert!(mate.legal_moves().is_empty());
    let check = position("4k3/8/8/8/8/8/4R3/4K3 b - - 0 1");
    assert!(check.is_check());
    assert!(!check.is_checkmate());
    let stalemate = position("7k/5Q2/7K/8/8/8/8/8 b - - 0 1");
    assert!(!stalemate.is_check());
    assert!(!stalemate.is_checkmate());
    assert!(stalemate.legal_moves().is_empty());
}

#[test]
fn passing_the_move() {
    let pos = position("4k3/8/8/8/8/8/4P3/4K3 w - - 0 1");
    let passed = pos.swap_turn().expect("a position");
    assert_eq!(passed.turn(), Color::Black);
    assert_eq!(board_of(&passed), board_of(&pos));
    assert_ne!(passed.zobrist(), pos.zobrist());
    // The side to move is in check: the move cannot be passed.
    let check = position("4k3/8/8/8/8/8/4R3/4K3 b - - 0 1");
    assert!(check.swap_turn().is_none());
}

#[test]
fn material_of_each_side() {
    let pos = position("r3k2r/p1ppqpb1/bn2pnp1/3PN3/1p2P3/2N2Q1p/PPPBBPPP/R3K2R w KQkq - 0 1");
    let white = pos.material_side(Color::White);
    assert_eq!(
        (white.pawn, white.knight, white.bishop, white.rook, white.queen, white.king),
        (8, 2, 2, 2, 1, 1)
    );
    let black = pos.material_side(Color::Black);
    assert_eq!(
        (black.pawn, black.knight, black.bishop, black.rook, black.queen, black.king),
        (8, 2, 2, 2, 1, 1)
    );
    let bare = position("4k3/pppp4/8/8/8/8/8/R3K3 w - - 0 1");
    let white = bare.material_side(Color::White);
    assert_eq!(
        (white.pawn, white.knight, white.bishop, white.rook, white.queen, white.king),
        (0, 0, 0, 1, 0, 1)
    );
    let black = bare.material_side(Color::Black);
    assert_eq!(
        (black.pawn, black.knight, black.bishop, black.rook, black.queen, black.king),
        (4, 0, 0, 0, 0, 1)
    );
}

#[test]
fn a_side_with_king_and_pawns_has_no_pieces() {
    assert!(Eval::has_pieces(&Position::startpos()));
    assert!(Eval::has_pieces(&position("4k3/pppp4/8/8/8/8/8/R3K3 w - - 0 1")));
    assert!(!Eval::has_pieces(&position("4k3/pppp4/8/8/8/8/8/R3K3 b - - 0 1")));
    assert!(!Eval::has_pieces(&position("4k3/8/8/8/8/8/PPPP4/4K3 w - - 0 1")));
    assert!(Eval::has_pieces(&position("4k3/8/8/8/8/8/PPPP4/1N2K3 w - - 0 1")));
    assert!(Eval::has_pieces(&position("4k3/8/8/8/8/8/PPPP4/2B1K3 w - - 0 1")));
    assert!(Eval::has_pieces(&position("4k3/8/8/8/8/8/PPPP4/3QK3 w - - 0 1")));
}

#[test]
fn lines_of_legal_moves_are_counted() {
    let start = Position::startpos();
    assert_eq!(castled_engine::perft::perft(&start, 0), 1);
    assert_eq!(castled_engine::perft::perft(&start, 1), 20);
    assert_eq!(castled_engine::perft::perft(&start, 2), 400);
    assert_eq!(castled_engine::perft::perft(&start, 3), 8902);
    let busy = position("r3k2r/p1ppqpb1/bn2pnp1/3PN3/1p2P3/2N2Q1p/PPPBBPPP/R3K2R w KQkq - 0 1");
    assert_eq!(castled_engine::perft::perft(&busy, 1), 48);
    assert_eq!(castled_engine::perft::perft(&busy, 2), 2039);
    let mated = position("4k2R/8/4K3/8/8/8/8/8 b - - 0 1");
    assert_eq!(castled_engine::perft::perft(&mated, 0), 1);
    assert_eq!(castled_engine::perft::perft(&mated, 1), 0);
    assert_eq!(castled_engine::perft::perft(&mated, 4), 0);
}
