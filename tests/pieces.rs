use cactus::board::{Board, Player, State};
use cactus::piece::{Color, PieceKind, PieceType};

#[test]
fn piece_new_color_and_type() {
    let kinds = [
        PieceType::Pawn,
        PieceType::Knight,
        PieceType::Bishop,
        PieceType::Rook,
        PieceType::Queen,
        PieceType::King,
    ];
    for t in kinds {
        for c in [Color::White, Color::Black] {
            let p = PieceKind::new(t, c);
            assert_eq!(p.to_type(), t);
            assert_eq!(p.color(), c);
        }
    }
    assert_eq!(PieceKind::new(PieceType::Queen, Color::Black), PieceKind::BlackQueen);
    assert_eq!(PieceKind::new(PieceType::Knight, Color::White), PieceKind::WhiteKnight);
}

#[test]
fn piece_scores() {
    assert_eq!(PieceKind::WhitePawn.score(), 1);
    assert_eq!(PieceKind::BlackKnight.score(), 3);
    assert_eq!(PieceKind::WhiteBishop.score(), 3);
    assert_eq!(PieceKind::BlackRook.score(), 5);
    assert_eq!(PieceKind::WhiteQueen.score(), 9);
    assert_eq!(PieceKind::BlackKing.score(), 0);
}

#[test]
fn opponent_swaps_colors() {
    assert_eq!(Color::White.opponent(), Color::Black);
    assert_eq!(Color::Black.opponent(), Color::White);
}

#[test]
fn add_capture_records_piece_and_score() {
    let mut p = Player::default();
    p.add_capture(PieceKind::BlackQueen);
    p.add_capture(PieceKind::BlackPawn);
    assert_eq!(p.captures, vec![PieceKind::BlackQueen, PieceKind::BlackPawn]);
    assert_eq!(p.score, 10);
}

#[test]
fn default_state_is_white_to_play() {
    assert_eq!(State::default(), State::Playing { turn: Color::White });
}

#[test]
fn starting_position_counts() {
    let b = Board::default();
    let mut counts = std::collections::HashMap::new();
    for r in 0..8 {
        for f in 0..8 {
            if let Some(p) = b.piece_at((r, f)) {
                *counts.entry(p.to_type()).or_insert(0usize) += 1;
            }
        }
    }
    assert_eq!(counts.get(&PieceType::Pawn).copied().unwrap_or(0), 16);
    assert_eq!(counts.get(&PieceType::Rook).copied().unwrap_or(0), 4);
    assert_eq!(counts.get(&PieceType::Knight).copied().unwrap_or(0), 4);
    assert_eq!(counts.get(&PieceType::Bishop).copied().unwrap_or(0), 4);
    assert_eq!(counts.get(&PieceType::Queen).copied().unwrap_or(0), 2);
    assert_eq!(counts.get(&PieceType::King).copied().unwrap_or(0), 2);
    assert_eq!(b.state, State::Playing { turn: Color::White });
    let fl = b.flags;
    assert!(!fl.has_white_king_moved && !fl.has_white_kingside_rook_moved);
    assert!(!fl.has_white_queenside_rook_moved && !fl.has_black_king_moved);
    assert!(!fl.has_black_kingside_rook_moved && !fl.has_black_queenside_rook_moved);
    assert_eq!(b.en_passant_target, None);
    assert_eq!(b.halfmove_clock, 0);
    assert!(b.moves.is_empty());
    assert_eq!(b.piece_at((7, 4)), Some(PieceKind::WhiteKing));
    assert_eq!(b.piece_at((0, 3)), Some(PieceKind::BlackQueen));
}

#[test]
fn piece_at_and_set_piece_bounds() {
    let mut b = Board::default();
    assert_eq!(b.piece_at((8, 0)), None);
    assert_eq!(b.piece_at((0, 8)), None);
    assert!(Board::is_valid_pos((7, 7)));
    assert!(!Board::is_valid_pos((8, 7)));
    b.set_piece((9, 9), Some(PieceKind::WhiteQueen));
    b.set_piece((4, 4), Some(PieceKind::WhiteQueen));
    assert_eq!(b.piece_at((4, 4)), Some(PieceKind::WhiteQueen));
    b.set_piece((4, 4), None);
    assert_eq!(b.piece_at((4, 4)), None);
}
