use cactus::board::{Board, State};
use cactus::moves::{Move, MoveError};
use cactus::piece::{Color, PieceKind, PieceType};

fn empty_board() -> Board {
    let mut b = Board::default();
    for r in 0..8 {
        for f in 0..8 {
            b.set_piece((r, f), None);
        }
    }
    b
}

fn play(b: &mut Board, uci: &str) {
    let mv = b.parse_uci_move(uci).expect("a move");
    let promo = mv.promotion.map(|t| PieceKind::new(t, mv.piece.color()));
    assert!(b.is_move_legal(mv.from, mv.to, promo), "illegal move {}", uci);
    let (_, made) = b.apply_uci_move(uci);
    assert!(made, "move {} not made", uci);
    b.update_state();
}

#[test]
fn turns_alternate() {
    let mut b = Board::default();
    let line = ["e2e4", "e7e5", "g1f3", "b8c6", "f1b5", "a7a6"];
    let mut expected = Color::White;
    for uci in line {
        assert_eq!(b.state, State::Playing { turn: expected });
        play(&mut b, uci);
        expected = expected.opponent();
    }
    assert_eq!(b.state, State::Playing { turn: Color::White });
}

#[test]
fn move_piece_errors() {
    let mut b = Board::default();
    assert_eq!(b.move_piece((8, 0), (5, 0), None), Err(MoveError::InvalidPosition));
    assert_eq!(b.move_piece((4, 4), (3, 4), None), Err(MoveError::NoPieceAtSource));
    assert_eq!(b.move_piece((1, 4), (3, 4), None), Err(MoveError::WrongTurn));
    assert_eq!(b.move_piece((7, 0), (6, 0), None), Err(MoveError::SelfCapture));
    assert_eq!(
        b.move_piece((6, 4), (4, 4), Some(PieceKind::WhiteQueen)),
        Err(MoveError::InvalidPromotionPiece)
    );
    assert!(b.moves.is_empty());
    assert_eq!(b.piece_at((6, 4)), Some(PieceKind::WhitePawn));
    b.state = State::Draw;
    assert_eq!(b.move_piece((6, 4), (4, 4), None), Err(MoveError::GameNotPlaying));
}

#[test]
fn promotion_rules() {
    let mut b = empty_board();
    b.set_piece((7, 4), Some(PieceKind::WhiteKing));
    b.set_piece((0, 7), Some(PieceKind::BlackKing));
    b.set_piece((1, 0), Some(PieceKind::WhitePawn));
    assert_eq!(b.move_piece((1, 0), (0, 0), None), Err(MoveError::PromotionRequired));
    assert_eq!(
        b.move_piece((1, 0), (0, 0), Some(PieceKind::BlackQueen)),
        Err(MoveError::InvalidPromotionPiece)
    );
    assert_eq!(
        b.move_piece((1, 0), (0, 0), Some(PieceKind::WhitePawn)),
        Err(MoveError::InvalidPromotionPiece)
    );
    assert_eq!(
        b.move_piece((1, 0), (0, 0), Some(PieceKind::WhiteKnight)),
        Ok((PieceKind::WhiteKnight, None))
    );
    assert_eq!(b.piece_at((0, 0)), Some(PieceKind::WhiteKnight));
    assert_eq!(b.moves.last().unwrap().promotion, Some(PieceType::Knight));
    assert_eq!(b.moves.last().unwrap().to_uci(), "a7a8n");
    assert_eq!(b.halfmove_clock, 0);
}

#[test]
fn capture_scores_and_clock() {
    let mut b = Board::default();
    for uci in ["e2e4", "d7d5"] {
        play(&mut b, uci);
    }
    b.halfmove_clock = 7;
    let (placed, captured) = b.move_piece((4, 4), (3, 3), None).expect("capture");
    assert_eq!(placed, PieceKind::WhitePawn);
    assert_eq!(captured, Some(PieceKind::BlackPawn));
    assert_eq!(b.players.white.captures, vec![PieceKind::BlackPawn]);
    assert_eq!(b.players.white.score, 1);
    assert_eq!(b.players.black.score, 0);
    assert_eq!(b.halfmove_clock, 0);
    b.update_state();
    let _ = b.move_piece((0, 6), (2, 5), None).expect("knight move");
    assert_eq!(b.halfmove_clock, 1);
}

#[test]
fn en_passant_target_and_capture() {
    let mut b = Board::default();
    play(&mut b, "e2e4");
    assert_eq!(b.en_passant_target, Some((5, 4)));
    play(&mut b, "a7a6");
    assert_eq!(b.en_passant_target, None);
    let mut b = Board::default();
    for uci in ["a2a3", "d7d5", "a3a4", "d5d4", "e2e4"] {
        play(&mut b, uci);
    }
    assert_eq!(b.en_passant_target, Some((5, 4)));
    assert!(b.is_move_legal((4, 3), (5, 4), None));
    let (_, captured) = b.move_piece((4, 3), (5, 4), None).expect("en passant");
    assert_eq!(captured, Some(PieceKind::WhitePawn));
    assert_eq!(b.piece_at((4, 4)), None);
    assert_eq!(b.piece_at((5, 4)), Some(PieceKind::BlackPawn));
    assert_eq!(b.piece_at((4, 3)), None);
    assert_eq!(b.players.black.score, 1);
}

#[test]
fn kingside_castling_moves_king_and_rook() {
    let mut b = Board::default();
    b.set_piece((7, 5), None);
    b.set_piece((7, 6), None);
    assert!(b.is_move_legal((7, 4), (7, 6), None));
    let res = b.move_piece((7, 4), (7, 6), None);
    assert_eq!(res, Ok((PieceKind::WhiteKing, None)));
    assert_eq!(b.piece_at((7, 6)), Some(PieceKind::WhiteKing));
    assert_eq!(b.piece_at((7, 5)), Some(PieceKind::WhiteRook));
    assert_eq!(b.piece_at((7, 7)), None);
    assert_eq!(b.piece_at((7, 4)), None);
    assert!(b.flags.has_white_king_moved);
    assert_eq!(b.moves.last().unwrap().to_uci(), "e1g1");
}

#[test]
fn queenside_castling_moves_rook() {
    let mut b = Board::default();
    for f in 1..4 {
        b.set_piece((7, f), None);
    }
    assert!(b.is_move_legal((7, 4), (7, 2), None));
    b.move_piece((7, 4), (7, 2), None).expect("castle");
    assert_eq!(b.piece_at((7, 2)), Some(PieceKind::WhiteKing));
    assert_eq!(b.piece_at((7, 3)), Some(PieceKind::WhiteRook));
    assert_eq!(b.piece_at((7, 0)), None);
}

#[test]
fn castling_rejected_through_attack_or_after_moves() {
    let mut b = Board::default();
    b.set_piece((7, 5), None);
    b.set_piece((7, 6), None);
    b.set_piece((6, 5), None);
    b.set_piece((3, 5), Some(PieceKind::BlackRook));
    assert!(!b.is_move_legal((7, 4), (7, 6), None));
    assert!(!b.validate_king_move((7, 4), (7, 6)));
    let mut b = Board::default();
    b.set_piece((7, 5), None);
    b.set_piece((7, 6), None);
    b.flags.has_white_kingside_rook_moved = true;
    assert!(!b.is_move_legal((7, 4), (7, 6), None));
    let mut b = Board::default();
    b.set_piece((7, 5), None);
    b.set_piece((7, 6), None);
    b.set_piece((6, 4), None);
    b.set_piece((3, 4), Some(PieceKind::BlackRook));
    assert!(b.is_in_check(Color::White));
    assert!(!b.is_move_legal((7, 4), (7, 6), None));
}

#[test]
fn castling_flags_follow_rooks() {
    let mut b = Board::default();
    b.set_piece((6, 0), None);
    b.move_piece((7, 0), (5, 0), None).expect("rook move");
    assert!(b.flags.has_white_queenside_rook_moved);
    assert!(!b.flags.has_white_kingside_rook_moved);
    assert!(!b.flags.has_white_king_moved);
}

#[test]
fn checkmate_with_queen() {
    let mut b = empty_board();
    b.set_piece((0, 7), Some(PieceKind::BlackKing));
    b.set_piece((2, 5), Some(PieceKind::WhiteKing));
    b.set_piece((7, 6), Some(PieceKind::WhiteQueen));
    play(&mut b, "g1g7");
    assert!(b.is_in_check(Color::Black));
    assert!(!b.any_legal_move(Color::Black));
    assert_eq!(b.state, State::Checkmate { winner: Color::White });
    assert_eq!(b.move_piece((0, 7), (0, 6), None), Err(MoveError::GameNotPlaying));
}

#[test]
fn stalemate_with_queen() {
    let mut b = empty_board();
    b.set_piece((0, 0), Some(PieceKind::BlackKing));
    b.set_piece((7, 1), Some(PieceKind::WhiteQueen));
    b.set_piece((7, 7), Some(PieceKind::WhiteKing));
    play(&mut b, "b1b6");
    assert!(!b.is_in_check(Color::Black));
    assert_eq!(b.state, State::Stalemate);
}

#[test]
fn threefold_repetition_draws() {
    let mut b = Board::default();
    let cycle = ["g1f3", "g8f6", "f3g1", "f6g8"];
    let mut played = 0;
    'outer: for _ in 0..3 {
        for uci in cycle {
            play(&mut b, uci);
            played += 1;
            if b.state == State::Draw {
                break 'outer;
            }
        }
    }
    assert_eq!(played, 9);
    assert_eq!(b.state, State::Draw);
}

#[test]
fn fifty_move_rule_draws() {
    let mut b = Board::default();
    b.halfmove_clock = 99;
    play(&mut b, "g1f3");
    assert_eq!(b.halfmove_clock, 100);
    assert_eq!(b.state, State::Draw);
    let mut b = Board::default();
    b.halfmove_clock = 98;
    play(&mut b, "g1f3");
    assert_eq!(b.state, State::Playing { turn: Color::Black });
}

#[test]
fn quiet_moves_count_to_fifty_moves() {
    let mut b = Board::default();
    let cycle = ["g1f3", "g8f6", "f3g1", "f6g8"];
    for uci in cycle {
        play(&mut b, uci);
    }
    assert_eq!(b.halfmove_clock, 4);
    play(&mut b, "e2e4");
    assert_eq!(b.halfmove_clock, 0);
}

fn material_state(extra: &[((usize, usize), PieceKind)]) -> State {
    let mut b = empty_board();
    b.set_piece((7, 4), Some(PieceKind::WhiteKing));
    b.set_piece((0, 4), Some(PieceKind::BlackKing));
    for (pos, p) in extra {
        b.set_piece(*pos, Some(*p));
    }
    play(&mut b, "e1d1");
    b.state
}

#[test]
fn insufficient_material_table() {
    assert_eq!(material_state(&[]), State::Draw);
    assert_eq!(material_state(&[((4, 2), PieceKind::WhiteBishop)]), State::Draw);
    assert_eq!(material_state(&[((4, 2), PieceKind::BlackKnight)]), State::Draw);
    assert_eq!(
        material_state(&[((4, 2), PieceKind::WhiteBishop), ((3, 2), PieceKind::BlackBishop)]),
        State::Draw
    );
    assert_eq!(
        material_state(&[((4, 2), PieceKind::WhiteKnight), ((3, 2), PieceKind::WhiteKnight)]),
        State::Playing { turn: Color::Black }
    );
    assert_eq!(
        material_state(&[((4, 0), PieceKind::WhiteRook)]),
        State::Playing { turn: Color::Black }
    );
    assert_eq!(
        material_state(&[((4, 2), PieceKind::WhiteBishop), ((3, 2), PieceKind::WhiteBishop)]),
        State::Playing { turn: Color::Black }
    );
}

#[test]
fn sufficient_material_counts() {
    assert!(Board::default().has_sufficient_material());
    let mut b = empty_board();
    b.set_piece((7, 4), Some(PieceKind::WhiteKing));
    b.set_piece((0, 4), Some(PieceKind::BlackKing));
    assert!(!b.has_sufficient_material());
    b.set_piece((4, 4), Some(PieceKind::WhitePawn));
    assert!(b.has_sufficient_material());
}

#[test]
fn position_hash_ignores_clock_and_log() {
    let a = Board::default();
    let mut b = Board::default();
    b.halfmove_clock = 42;
    b.moves.push(Move { from: (6, 4), to: (4, 4), promotion: None, piece: PieceKind::WhitePawn });
    assert_eq!(a.compute_position_hash(), b.compute_position_hash());
    b.set_piece((6, 4), None);
    assert_ne!(a.compute_position_hash(), b.compute_position_hash());
    let mut c = Board::default();
    c.flags.has_black_king_moved = true;
    assert_ne!(a.compute_position_hash(), c.compute_position_hash());
}

#[test]
fn play_move_validates_executes_and_advances() {
    let mut b = Board::default();
    assert_eq!(b.play_move((7, 0), (5, 0), None), Err(MoveError::InvalidPieceMove));
    assert_eq!(b.play_move((1, 4), (3, 4), None), Err(MoveError::WrongTurn));
    assert!(b.moves.is_empty());
    assert_eq!(b.play_move((6, 4), (4, 4), None), Ok((PieceKind::WhitePawn, None)));
    assert_eq!(b.state, State::Playing { turn: Color::Black });
    assert_eq!(b.position_history.len(), 1);
    let mut pinned = empty_board();
    pinned.set_piece((7, 4), Some(PieceKind::WhiteKing));
    pinned.set_piece((6, 4), Some(PieceKind::WhiteRook));
    pinned.set_piece((0, 4), Some(PieceKind::BlackQueen));
    pinned.set_piece((0, 0), Some(PieceKind::BlackKing));
    assert_eq!(pinned.play_move((6, 4), (6, 0), None), Err(MoveError::MoveLeavesKingInCheck));
    assert_eq!(pinned.play_move((6, 4), (1, 4), None), Ok((PieceKind::WhiteRook, None)));
}

#[test]
fn en_passant_target_needs_a_straight_advance() {
    let mut b = Board::default();
    b.set_piece((5, 5), Some(PieceKind::BlackKnight));
    b.move_piece((6, 4), (4, 5), None).expect("executed without a rule check");
    assert_eq!(b.en_passant_target, None);
}

#[test]
fn en_passant_never_takes_own_piece() {
    let mut b = empty_board();
    b.set_piece((7, 4), Some(PieceKind::WhiteKing));
    b.set_piece((0, 4), Some(PieceKind::BlackKing));
    b.set_piece((3, 4), Some(PieceKind::WhitePawn));
    b.set_piece((3, 3), Some(PieceKind::WhiteKnight));
    b.en_passant_target = Some((2, 3));
    let (_, captured) = b.move_piece((3, 4), (2, 3), None).expect("pawn move");
    assert_eq!(captured, None);
    assert_eq!(b.piece_at((3, 3)), Some(PieceKind::WhiteKnight));
    assert_eq!(b.players.white.score, 0);
}

#[test]
fn apply_uci_move_tests_legality() {
    let mut b = Board::default();
    assert_eq!(b.apply_uci_move("a1a3"), (None, false));
    assert_eq!(b.apply_uci_move("e1e2"), (None, false));
    assert!(b.moves.is_empty());
    assert_eq!(b.piece_at((7, 0)), Some(PieceKind::WhiteRook));
    assert_eq!(b.apply_uci_move("b1c3"), (None, true));
}
