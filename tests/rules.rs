use cactus::board::{Board, State};
use cactus::moves::MoveError;
use cactus::piece::{Color, PieceKind};

fn empty_board() -> Board {
    let mut b = Board::default();
    for r in 0..8 {
        for f in 0..8 {
            b.set_piece((r, f), None);
        }
    }
    b
}

/// Checks legality, executes and updates the status.
fn play(b: &mut Board, uci: &str) {
    let mv = b.parse_uci_move(uci).expect("a move");
    let promo = mv.promotion.map(|t| PieceKind::new(t, mv.piece.color()));
    assert!(b.is_move_legal(mv.from, mv.to, promo), "illegal move {}", uci);
    let (_, made) = b.apply_uci_move(uci);
    assert!(made, "move {} not made", uci);
    b.update_state();
}

#[test]
fn pawn_and_knight_rules() {
    let b = Board::default();
    assert!(b.validate_pawn_move(Color::White, (6, 4), (5, 4)));
    assert!(b.validate_pawn_move(Color::White, (6, 4), (4, 4)));
    assert!(!b.validate_pawn_move(Color::White, (6, 4), (3, 4)));
    assert!(!b.validate_pawn_move(Color::White, (6, 4), (5, 5)));
    assert!(b.validate_knight_move((7, 6), (5, 5)));
    assert!(!b.validate_knight_move((7, 6), (5, 6)));
    assert!(!b.validate_bishop_move((7, 2), (5, 4)));
    assert!(!b.validate_rook_move((7, 0), (5, 0)));
    assert!(b.is_move_legal((7, 6), (5, 5), None));
    assert!(!b.is_move_legal((7, 0), (5, 0), None));
}

#[test]
fn sliding_pieces_need_clear_paths() {
    let mut b = empty_board();
    b.set_piece((4, 4), Some(PieceKind::WhiteQueen));
    b.set_piece((4, 6), Some(PieceKind::BlackPawn));
    assert!(b.validate_queen_move((4, 4), (4, 6)));
    assert!(!b.validate_queen_move((4, 4), (4, 7)));
    assert!(b.validate_queen_move((4, 4), (0, 0)));
    assert!(b.validate_queen_move((4, 4), (7, 1)));
    assert!(!b.validate_queen_move((4, 4), (6, 5)));
    assert!(b.is_path_clear((4, 4), (0, 4)));
    assert!(!b.is_path_clear((4, 4), (4, 7)));
}

#[test]
fn check_detection_and_missing_king() {
    let mut b = empty_board();
    assert!(!b.is_in_check(Color::White));
    b.set_piece((7, 4), Some(PieceKind::WhiteKing));
    b.set_piece((0, 4), Some(PieceKind::BlackRook));
    assert!(b.is_in_check(Color::White));
    assert_eq!(b.find_king(Color::White), Some((7, 4)));
    assert_eq!(b.find_king(Color::Black), None);
    assert!(!b.is_in_check(Color::Black));
    b.set_piece((4, 4), Some(PieceKind::WhitePawn));
    assert!(!b.is_in_check(Color::White));
    assert!(b.can_attack_square((0, 4), (4, 4)));
    assert!(!b.can_attack_square((0, 4), (7, 4)));
}

#[test]
fn pinned_piece_cannot_move() {
    let mut b = empty_board();
    b.set_piece((7, 4), Some(PieceKind::WhiteKing));
    b.set_piece((6, 4), Some(PieceKind::WhiteBishop));
    b.set_piece((0, 4), Some(PieceKind::BlackRook));
    b.set_piece((0, 0), Some(PieceKind::BlackKing));
    assert_eq!(
        b.simulate_move_checked((6, 4), (5, 3), None),
        Err(MoveError::MoveLeavesKingInCheck)
    );
    assert_eq!(b.simulate_move_checked((6, 4), (4, 4), None), Err(MoveError::InvalidPieceMove));
    assert!(!b.is_move_legal((6, 4), (5, 3), None));
    assert!(b.is_move_legal((7, 4), (7, 3), None));
}

#[test]
fn simulate_move_leaves_board_untouched() {
    let b = Board::default();
    let sim = b.simulate_move((6, 4), (4, 4), None).expect("legal");
    assert_eq!(sim.piece_at((4, 4)), Some(PieceKind::WhitePawn));
    assert_eq!(sim.piece_at((6, 4)), None);
    assert_eq!(b.piece_at((6, 4)), Some(PieceKind::WhitePawn));
    assert_eq!(b.piece_at((4, 4)), None);
    assert_eq!(b.simulate_move((4, 4), (3, 4), None).err(), Some(MoveError::NoPieceAtSource));
    assert_eq!(b.simulate_move((6, 4), (8, 4), None).err(), Some(MoveError::InvalidPosition));
    assert_eq!(b.simulate_move((7, 0), (5, 0), None).err(), Some(MoveError::InvalidPieceMove));
    assert_eq!(b.simulate_move((7, 0), (6, 0), None).err(), Some(MoveError::SelfCapture));
}

#[test]
fn simulate_promotion_errors() {
    let mut b = empty_board();
    b.set_piece((7, 4), Some(PieceKind::WhiteKing));
    b.set_piece((0, 7), Some(PieceKind::BlackKing));
    b.set_piece((1, 0), Some(PieceKind::WhitePawn));
    assert_eq!(b.simulate_move_checked((1, 0), (0, 0), None), Err(MoveError::PromotionRequired));
    assert_eq!(
        b.simulate_move_checked((1, 0), (0, 0), Some(PieceKind::WhiteKing)),
        Err(MoveError::InvalidPromotionPiece)
    );
    assert_eq!(b.simulate_move_checked((1, 0), (0, 0), Some(PieceKind::WhiteQueen)), Ok(()));
}

#[test]
fn no_legal_move_leaves_own_king_in_check() {
    let mut b = Board::default();
    let line = ["e2e4", "e7e5", "d1h5", "b8c6", "f1c4", "g8f6", "h5f7"];
    for (i, uci) in line.iter().enumerate() {
        let color = if i % 2 == 0 { Color::White } else { Color::Black };
        for fr in 0..8 {
            for ff in 0..8 {
                match b.piece_at((fr, ff)) {
                    Some(p) if p.color() == color => {}
                    _ => continue,
                }
                for tr in 0..8 {
                    for tf in 0..8 {
                        if b.is_move_legal((fr, ff), (tr, tf), None) {
                            let mut copy = b.clone();
                            assert!(copy.move_piece((fr, ff), (tr, tf), None).is_ok());
                            assert!(!copy.is_in_check(color));
                        }
                    }
                }
            }
        }
        play(&mut b, uci);
    }
    assert_eq!(b.state, State::Checkmate { winner: Color::White });
}

#[test]
fn any_legal_move_from_start() {
    let b = Board::default();
    assert!(b.any_legal_move(Color::White));
    assert!(b.any_legal_move(Color::Black));
    let mut lone = empty_board();
    lone.set_piece((0, 0), Some(PieceKind::BlackKing));
    lone.set_piece((2, 1), Some(PieceKind::WhiteQueen));
    lone.set_piece((7, 7), Some(PieceKind::WhiteKing));
    assert!(!lone.any_legal_move(Color::Black));
    assert!(!lone.is_in_check(Color::Black));
}

#[test]
fn en_passant_cannot_expose_own_king() {
    let mut b = empty_board();
    b.set_piece((3, 0), Some(PieceKind::WhiteKing));
    b.set_piece((3, 1), Some(PieceKind::WhitePawn));
    b.set_piece((1, 2), Some(PieceKind::BlackPawn));
    b.set_piece((3, 7), Some(PieceKind::BlackRook));
    b.set_piece((0, 7), Some(PieceKind::BlackKing));
    b.state = State::Playing { turn: Color::Black };
    play(&mut b, "c7c5");
    assert_eq!(b.en_passant_target, Some((2, 2)));
    assert!(!b.is_in_check(Color::White));
    assert_eq!(
        b.simulate_move_checked((3, 1), (2, 2), None),
        Err(MoveError::MoveLeavesKingInCheck)
    );
    let sim = b.simulate_move((3, 1), (2, 2), None).expect("valid pawn move");
    assert_eq!(sim.piece_at((3, 2)), None);
    assert_eq!(sim.piece_at((2, 2)), Some(PieceKind::WhitePawn));
}

#[test]
fn simulated_castling_moves_the_rook() {
    let mut b = Board::default();
    b.set_piece((7, 5), None);
    b.set_piece((7, 6), None);
    let sim = b.simulate_move((7, 4), (7, 6), None).expect("castling");
    assert_eq!(sim.piece_at((7, 5)), Some(PieceKind::WhiteRook));
    assert_eq!(sim.piece_at((7, 7)), None);
    assert_eq!(sim.piece_at((7, 6)), Some(PieceKind::WhiteKing));
}

#[test]
fn legality_uses_executor_promotion_rules() {
    let b = Board::default();
    assert!(!b.is_move_legal((7, 6), (5, 5), Some(PieceKind::WhiteQueen)));
    assert_eq!(
        b.simulate_move_checked((7, 6), (5, 5), Some(PieceKind::WhiteQueen)),
        Err(MoveError::InvalidPromotionPiece)
    );
    let mut p = empty_board();
    p.set_piece((7, 4), Some(PieceKind::WhiteKing));
    p.set_piece((0, 7), Some(PieceKind::BlackKing));
    p.set_piece((1, 0), Some(PieceKind::WhitePawn));
    assert_eq!(
        p.simulate_move_checked((1, 0), (0, 0), Some(PieceKind::BlackQueen)),
        Err(MoveError::InvalidPromotionPiece)
    );
    assert!(p.is_move_legal((1, 0), (0, 0), Some(PieceKind::WhiteRook)));
}

#[test]
fn any_legal_move_counts_promotions() {
    let mut b = empty_board();
    b.set_piece((7, 7), Some(PieceKind::WhiteKing));
    b.set_piece((1, 1), Some(PieceKind::WhitePawn));
    b.set_piece((3, 4), Some(PieceKind::BlackKing));
    b.set_piece((6, 0), Some(PieceKind::BlackRook));
    b.set_piece((0, 6), Some(PieceKind::BlackRook));
    assert!(!b.is_move_legal((7, 7), (7, 6), None));
    assert!(!b.is_move_legal((7, 7), (6, 6), None));
    assert!(!b.is_move_legal((7, 7), (6, 7), None));
    assert!(!b.is_move_legal((1, 1), (0, 1), None));
    assert!(b.is_move_legal((1, 1), (0, 1), Some(PieceKind::WhiteQueen)));
    assert!(b.any_legal_move(Color::White));
}
