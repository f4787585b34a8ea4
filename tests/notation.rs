use cactus::board::Board;
use cactus::moves::Move;
use cactus::notation::{best_move_token, uci_word};
use cactus::piece::{Color, PieceKind, PieceType};

#[test]
fn move_to_uci_text() {
    let m = Move { from: (6, 4), to: (4, 4), promotion: None, piece: PieceKind::WhitePawn };
    assert_eq!(m.to_uci(), "e2e4");
    let m = Move {
        from: (1, 0),
        to: (0, 1),
        promotion: Some(PieceType::Queen),
        piece: PieceKind::WhitePawn,
    };
    assert_eq!(m.to_uci(), "a7b8q");
    let m = Move { from: (0, 7), to: (7, 0), promotion: None, piece: PieceKind::BlackQueen };
    assert_eq!(m.to_uci(), "h8a1");
}

#[test]
fn parse_uci_moves() {
    let b = Board::default();
    let m = b.parse_uci_move("g1f3").expect("move");
    assert_eq!(m, Move { from: (7, 6), to: (5, 5), promotion: None, piece: PieceKind::WhiteKnight });
    let m = b.parse_uci_move("a7a8r").expect("move");
    assert_eq!(m.promotion, Some(PieceType::Rook));
    assert_eq!(m.piece, PieceKind::BlackPawn);
    assert_eq!(b.parse_uci_move("e2e4k"), None);
    assert_eq!(b.parse_uci_move("e4e5"), None);
    assert_eq!(b.parse_uci_move("e2e"), None);
    assert_eq!(b.parse_uci_move("i2i4"), None);
    assert_eq!(b.parse_uci_move("e9e4"), None);
    assert_eq!(b.parse_uci_move("e2e4qq"), None);
}

#[test]
fn notation_round_trip_for_every_legal_move() {
    let mut b = Board::default();
    for uci in ["e2e4", "d7d5", "e4d5", "g8f6"] {
        let (_, made) = b.apply_uci_move(uci);
        assert!(made);
        b.update_state();
    }
    let mut checked = 0;
    for fr in 0..8 {
        for ff in 0..8 {
            for tr in 0..8 {
                for tf in 0..8 {
                    if !b.is_move_legal((fr, ff), (tr, tf), None) {
                        continue;
                    }
                    if b.piece_at((fr, ff)).map(|p| p.color()) != Some(Color::White) {
                        continue;
                    }
                    let mut first = b.clone();
                    let res = first.move_piece((fr, ff), (tr, tf), None);
                    let text = first.moves.last().unwrap().to_uci();
                    let decoded = b.parse_uci_move(&text).expect("decodes");
                    assert_eq!(&decoded, first.moves.last().unwrap());
                    let mut second = b.clone();
                    let (captured, made) = second.apply_uci_move(&text);
                    assert!(made);
                    assert_eq!(res.unwrap().1, captured);
                    for r in 0..8 {
                        for f in 0..8 {
                            assert_eq!(first.piece_at((r, f)), second.piece_at((r, f)));
                        }
                    }
                    assert_eq!(first.en_passant_target, second.en_passant_target);
                    assert_eq!(first.halfmove_clock, second.halfmove_clock);
                    assert_eq!(first.moves, second.moves);
                    checked += 1;
                }
            }
        }
    }
    assert!(checked > 20);
}

#[test]
fn move_history_in_notation() {
    let mut b = Board::default();
    assert_eq!(b.move_history_line(), "");
    for uci in ["e2e4", "e7e5", "g1f3"] {
        let (_, made) = b.apply_uci_move(uci);
        assert!(made);
        b.update_state();
    }
    assert_eq!(b.move_history_uci(), vec!["e2e4", "e7e5", "g1f3"]);
    assert_eq!(b.move_history_line(), "e2e4 e7e5 g1f3");
}

#[test]
fn apply_uci_move_rejects_bad_input() {
    let mut b = Board::default();
    assert_eq!(b.apply_uci_move("zz"), (None, false));
    assert_eq!(b.apply_uci_move("e7e5"), (None, false));
    assert!(b.moves.is_empty());
    assert_eq!(b.apply_uci_move("e2e4"), (None, true));
}

#[test]
fn best_move_reply_parsing() {
    assert_eq!(uci_word("bestmove e2e4 ponder e7e5"), Some("e2e4".to_string()));
    assert_eq!(uci_word("  bestmove   g1f3  "), Some("g1f3".to_string()));
    assert_eq!(uci_word("bestmove"), None);
    assert_eq!(uci_word("info depth 3 bestmove e2e4"), None);
    assert_eq!(uci_word(""), None);
    let tokens = vec!["bestmove".to_string(), "a7a8q".to_string()];
    assert_eq!(best_move_token(&tokens), Some("a7a8q".to_string()));
    let tokens = vec!["readyok".to_string(), "a7a8q".to_string()];
    assert_eq!(best_move_token(&tokens), None);
}
