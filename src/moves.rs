//! Move records, the errors a move attempt can fail with, and the move
//! executor that applies a move to a board.
use vstd::prelude::*;

use crate::board::{in_bounds, put, Board, Flags, GridModel, Player, Pos, State};
use crate::piece::{Color, PieceKind, PieceType};
use crate::rules::{
    castle_rook, ep_square, grid_ep_square, moved_grid, pawn_dir, pawn_start_rank, promotion_rank,
    rank_diff,
};

verus! {

/// One executed move: its squares, the promotion chosen, and the piece that moved.
#[derive(Copy, Clone, Debug, PartialEq, Eq)]
pub struct Move {
    pub from: Pos,
    pub to: Pos,
    pub promotion: Option<PieceType>,
    pub piece: PieceKind,
}

/// Why a move attempt was rejected.
#[derive(Copy, Clone, Debug, PartialEq, Eq, Structural)]
pub enum MoveError {
    InvalidPosition,
    NoPieceAtSource,
    WrongTurn,
    GameNotPlaying,
    SelfCapture,
    InvalidPieceMove,
    PromotionRequired,
    InvalidPromotionPiece,
    MoveLeavesKingInCheck,
}

/// The square of a pawn taken en passant by this move, if it is one.
pub open spec fn ep_capture_square(b: Board, from: Pos, to: Pos, p: PieceKind) -> Option<Pos> {
    ep_square(b.model(), b.en_passant_target, from, to, p)
}

/// The en-passant target after this move: the skipped square of a pawn's
/// straight two-rank advance from its starting rank.
pub open spec fn next_ep_target(from: Pos, to: Pos, p: PieceKind) -> Option<Pos> {
    if p.spec_type() == PieceType::Pawn && from.0 == pawn_start_rank(p.spec_color()) && from.1
        == to.1 && rank_diff(from, to) == 2 * pawn_dir(p.spec_color()) {
        Some(((from.0 + pawn_dir(p.spec_color())) as usize, from.1))
    } else {
        None
    }
}

/// Castling rights after `p` leaves `from`.
pub open spec fn flags_after(fl: Flags, from: Pos, p: PieceKind) -> Flags {
    match p {
        PieceKind::WhiteKing => Flags { has_white_king_moved: true, ..fl },
        PieceKind::BlackKing => Flags { has_black_king_moved: true, ..fl },
        PieceKind::WhiteRook => if from == (7usize, 0usize) {
            Flags { has_white_queenside_rook_moved: true, ..fl }
        } else if from == (7usize, 7usize) {
            Flags { has_white_kingside_rook_moved: true, ..fl }
        } else {
            fl
        },
        PieceKind::BlackRook => if from == (0usize, 0usize) {
            Flags { has_black_queenside_rook_moved: true, ..fl }
        } else if from == (0usize, 7usize) {
            Flags { has_black_kingside_rook_moved: true, ..fl }
        } else {
            fl
        },
        _ => fl,
    }
}

/// A pawn reaching the last rank for its colour.
pub open spec fn promotes(p: PieceKind, to: Pos) -> bool {
    p.spec_type() == PieceType::Pawn && to.0 == promotion_rank(p.spec_color())
}

/// The piece captured by the move: the pawn taken en passant, or what stood on `to`.
pub open spec fn captured_by(b: Board, from: Pos, to: Pos, p: PieceKind) -> Option<PieceKind> {
    match ep_capture_square(b, from, to, p) {
        Some(s) => b.spec_piece_at(s),
        None => b.spec_piece_at(to),
    }
}

/// Why executing the move is refused, by the first failing check; `None` when it goes ahead.
pub open spec fn execute_error(b: Board, from: Pos, to: Pos, promotion: Option<PieceKind>) -> Option<
    MoveError,
> {
    if !in_bounds(from.0 as int, from.1 as int) || !in_bounds(to.0 as int, to.1 as int) {
        Some(MoveError::InvalidPosition)
    } else {
        match b.spec_piece_at(from) {
            None => Some(MoveError::NoPieceAtSource),
            Some(p) => match b.state {
                State::Playing { turn } => if p.spec_color() != turn {
                    Some(MoveError::WrongTurn)
                } else if ep_capture_square(b, from, to, p) is None && b.spec_piece_at(to) is Some
                    && b.spec_piece_at(to)->Some_0.spec_color() == p.spec_color() {
                    Some(MoveError::SelfCapture)
                } else if promotes(p, to) {
                    match promotion {
                        None => Some(MoveError::PromotionRequired),
                        Some(q) => if q.spec_color() != p.spec_color()
                            || !q.spec_type().is_promotion_choice() {
                            Some(MoveError::InvalidPromotionPiece)
                        } else {
                            None
                        },
                    }
                } else if promotion is Some {
                    Some(MoveError::InvalidPromotionPiece)
                } else {
                    None
                },
                _ => Some(MoveError::GameNotPlaying),
            },
        }
    }
}

/// The piece that stands on `to` after the move.
pub open spec fn placed_piece(p: PieceKind, to: Pos, promotion: Option<PieceKind>) -> PieceKind {
    if promotes(p, to) {
        promotion->Some_0
    } else {
        p
    }
}

/// The grid after executing the move: en-passant removal, rook relocation,
/// then the piece (or its promoted form) moved.
pub open spec fn grid_after(b: Board, from: Pos, to: Pos, promotion: Option<PieceKind>) -> GridModel {
    let p = b.spec_piece_at(from)->Some_0;
    moved_grid(b.model(), b.en_passant_target, from, to, p, placed_piece(p, to, promotion))
}

/// `after` is `before` with the capture (if any) recorded.
pub open spec fn player_after(before: Player, after: Player, captured: Option<PieceKind>) -> bool {
    match captured {
        Some(c) => after.captures@ == before.captures@.push(c) && after.score == before.score
            + c.spec_score(),
        None => after.captures@ == before.captures@ && after.score == before.score,
    }
}

/// The move record appended to the log.
pub open spec fn move_record(p: PieceKind, from: Pos, to: Pos, promotion: Option<PieceKind>) -> Move {
    Move {
        from,
        to,
        promotion: if promotes(p, to) {
            Some(promotion->Some_0.spec_type())
        } else {
            None
        },
        piece: p,
    }
}

impl Board {
    /// Marks the king or the rook leaving its home corner as moved.
    pub fn update_castling_flags(&mut self, from: Pos, piece: PieceKind)
        ensures
            final(self).flags == flags_after(old(self).flags, from, piece),
            final(self).squares == old(self).squares,
            final(self).state == old(self).state,
            final(self).players == old(self).players,
            final(self).en_passant_target == old(self).en_passant_target,
            final(self).halfmove_clock == old(self).halfmove_clock,
            final(self).position_history == old(self).position_history,
            final(self).moves == old(self).moves,
    {
        match piece {
            PieceKind::WhiteKing => self.flags.has_white_king_moved = true,
            PieceKind::BlackKing => self.flags.has_black_king_moved = true,
            PieceKind::WhiteRook => {
                if from.0 == 7 && from.1 == 0 {
                    self.flags.has_white_queenside_rook_moved = true;
                } else if from.0 == 7 && from.1 == 7 {
                    self.flags.has_white_kingside_rook_moved = true;
                }
            },
            PieceKind::BlackRook => {
                if from.0 == 0 && from.1 == 0 {
                    self.flags.has_black_queenside_rook_moved = true;
                } else if from.0 == 0 && from.1 == 7 {
                    self.flags.has_black_kingside_rook_moved = true;
                }
            },
            _ => {},
        }
    }

    /// Sets the en-passant target after a pawn's two-rank advance; clears it otherwise.
    pub fn update_en_passant_target(&mut self, from: Pos, to: Pos, piece: PieceKind)
        requires
            in_bounds(from.0 as int, from.1 as int),
            in_bounds(to.0 as int, to.1 as int),
        ensures
            final(self).en_passant_target == next_ep_target(from, to, piece),
            final(self).squares == old(self).squares,
            final(self).state == old(self).state,
            final(self).players == old(self).players,
            final(self).flags == old(self).flags,
            final(self).halfmove_clock == old(self).halfmove_clock,
            final(self).position_history == old(self).position_history,
            final(self).moves == old(self).moves,
    {
        if piece.to_type() == PieceType::Pawn {
            let (dir, start): (isize, usize) = match piece.color() {
                Color::White => (-1, 6),
                Color::Black => (1, 1),
            };
            let from_rank = from.0 as isize;
            let to_rank = to.0 as isize;
            if from.0 == start && from.1 == to.1 && to_rank - from_rank == 2 * dir {
                self.en_passant_target = Some(((from_rank + dir) as usize, from.1));
                return ;
            }
        }
        self.en_passant_target = None;
    }

    /// Removes the pawn taken en passant, if this move is such a capture, and returns it.
    pub fn handle_en_passant(&mut self, from: Pos, to: Pos, piece: PieceKind) -> (res: Option<
        PieceKind,
    >)
        requires
            in_bounds(from.0 as int, from.1 as int),
            in_bounds(to.0 as int, to.1 as int),
        ensures
            res == match ep_capture_square(*old(self), from, to, piece) {
                Some(s) => old(self).spec_piece_at(s),
                None => None,
            },
            final(self).model() == match ep_capture_square(*old(self), from, to, piece) {
                Some(s) => put(old(self).model(), s.0 as int, s.1 as int, None),
                None => old(self).model(),
            },
            final(self).same_but_grid(old(self)),
    {
        if let Some(captured_pos) = grid_ep_square(
            &self.squares,
            self.en_passant_target,
            from,
            to,
            piece,
        ) {
            let captured = self.piece_at(captured_pos);
            self.set_piece(captured_pos, None);
            return captured;
        }
        None
    }

    /// Moves the rook beside the king when the king castles from its home square.
    pub fn handle_castling(&mut self, from: Pos, to: Pos)
        requires
            in_bounds(from.0 as int, from.1 as int),
            in_bounds(to.0 as int, to.1 as int),
        ensures
            final(self).model() == match old(self).spec_piece_at(from) {
                Some(p) => match castle_rook(from, to, p) {
                    Some((rf, rt)) => match old(self).spec_piece_at(rf) {
                        Some(rook) => put(
                            put(old(self).model(), rt.0 as int, rt.1 as int, Some(rook)),
                            rf.0 as int,
                            rf.1 as int,
                            None,
                        ),
                        None => old(self).model(),
                    },
                    None => old(self).model(),
                },
                None => old(self).model(),
            },
            final(self).same_but_grid(old(self)),
    {
        let piece = match self.piece_at(from) {
            Some(p) => p,
            None => return ,
        };
        if piece.to_type() != PieceType::King {
            return ;
        }
        let row: usize = match piece.color() {
            Color::White => 7,
            Color::Black => 0,
        };
        if from.0 != row || from.1 != 4 || to.0 != row {
            return ;
        }
        let (rook_from, rook_to) = if to.1 == 6 {
            ((row, 7), (row, 5))
        } else if to.1 == 2 {
            ((row, 0), (row, 3))
        } else {
            return ;
        };
        if let Some(rook) = self.piece_at(rook_from) {
            self.set_piece(rook_to, Some(rook));
            self.set_piece(rook_from, None);
        }
    }

    /// The opposing piece on `to`, if any; an error when it is of `color`.
    pub fn validate_no_self_capture(&self, to: Pos, color: Color) -> (res: Result<
        Option<PieceKind>,
        MoveError,
    >)
        ensures
            match self.spec_piece_at(to) {
                Some(t) => if t.spec_color() == color {
                    res == Err::<Option<PieceKind>, MoveError>(MoveError::SelfCapture)
                } else {
                    res == Ok::<Option<PieceKind>, MoveError>(Some(t))
                },
                None => res == Ok::<Option<PieceKind>, MoveError>(None),
            },
    {
        if let Some(target) = self.piece_at(to) {
            if target.color() == color {
                return Err(MoveError::SelfCapture);
            }
            return Ok(Some(target));
        }
        Ok(None)
    }
}

/// What executing a move does to a board, as `move_piece` performs it.
pub open spec fn execution(
    before: Board,
    after: Board,
    from: Pos,
    to: Pos,
    promotion: Option<PieceKind>,
    res: Result<(PieceKind, Option<PieceKind>), MoveError>,
) -> bool {
    match res {
        Err(e) => execute_error(before, from, to, promotion) == Some(e) && after == before,
        Ok((placed, captured)) => {
            let p = before.spec_piece_at(from)->Some_0;
            &&& execute_error(before, from, to, promotion) is None
            &&& placed == placed_piece(p, to, promotion)
            &&& captured == captured_by(before, from, to, p)
            &&& after.model() == grid_after(before, from, to, promotion)
            &&& after.flags == flags_after(before.flags, from, p)
            &&& after.en_passant_target == next_ep_target(from, to, p)
            &&& after.halfmove_clock == if p.spec_type() == PieceType::Pawn || captured is Some {
                0
            } else {
                before.halfmove_clock + 1
            }
            &&& after.moves@ == before.moves@.push(move_record(p, from, to, promotion))
            &&& after.state == before.state
            &&& after.position_history == before.position_history
            &&& match p.spec_color() {
                Color::White => player_after(before.players.white, after.players.white, captured)
                    && after.players.black == before.players.black,
                Color::Black => player_after(before.players.black, after.players.black, captured)
                    && after.players.white == before.players.white,
            }
        },
    }
}

impl Board {
    fn en_passant_capture(&self, from: Pos, to: Pos, piece: PieceKind) -> (res: Option<Pos>)
        requires
            in_bounds(from.0 as int, from.1 as int),
            in_bounds(to.0 as int, to.1 as int),
        ensures
            res == ep_capture_square(*self, from, to, piece),
    {
        grid_ep_square(&self.squares, self.en_passant_target, from, to, piece)
    }

    /// Executes a move: checks, in order, the squares, the piece, the turn,
    /// self-capture and promotion; then updates castling rights, resolves en
    /// passant, sets the next en-passant target, relocates a castling rook,
    /// records the capture, moves (or promotes) the piece, updates the
    /// halfmove clock and logs the move. Returns the piece now on `to` and the
    /// piece captured. The piece's movement rule is not checked here (see
    /// `is_move_legal`). On failure the board is unchanged.
    pub fn move_piece(&mut self, from: Pos, to: Pos, promotion: Option<PieceKind>) -> (res: Result<
        (PieceKind, Option<PieceKind>),
        MoveError,
    >)
        requires
            old(self).halfmove_clock < usize::MAX,
            old(self).players.white.score + 9 <= usize::MAX,
            old(self).players.black.score + 9 <= usize::MAX,
        ensures
            execution(*old(self), *final(self), from, to, promotion, res),
    {
        if !Self::is_valid_pos(from) || !Self::is_valid_pos(to) {
            return Err(MoveError::InvalidPosition);
        }
        let piece = match self.piece_at(from) {
            Some(p) => p,
            None => return Err(MoveError::NoPieceAtSource),
        };
        match self.state {
            State::Playing { turn } => {
                if piece.color() != turn {
                    return Err(MoveError::WrongTurn);
                }
            },
            _ => return Err(MoveError::GameNotPlaying),
        }
        let ep_square = self.en_passant_capture(from, to, piece);
        if ep_square.is_none() {
            self.validate_no_self_capture(to, piece.color())?;
        }
        let promotion_rank: usize = match piece.color() {
            Color::White => 0,
            Color::Black => 7,
        };
        let is_pawn_move = piece.to_type() == PieceType::Pawn;
        let placed = if is_pawn_move && to.0 == promotion_rank {
            match promotion {
                None => return Err(MoveError::PromotionRequired),
                Some(q) => {
                    let allowed = match q.to_type() {
                        PieceType::Queen | PieceType::Rook | PieceType::Bishop
                        | PieceType::Knight => true,
                        _ => false,
                    };
                    if q.color() != piece.color() || !allowed {
                        return Err(MoveError::InvalidPromotionPiece);
                    }
                    q
                },
            }
        } else {
            if promotion.is_some() {
                return Err(MoveError::InvalidPromotionPiece);
            }
            piece
        };
        let ghost b0 = *self;
        self.update_castling_flags(from, piece);
        let mut captured = self.handle_en_passant(from, to, piece);
        self.update_en_passant_target(from, to, piece);
        let ghost b2 = *self;
        self.handle_castling(from, to);
        let ghost b3 = *self;
        assert(b2.spec_piece_at(from) == Some(piece));
        assert(b3.spec_piece_at(to) == b0.spec_piece_at(to));
        if captured.is_none() {
            captured = self.piece_at(to);
        }
        if let Some(c) = captured {
            match piece.color() {
                Color::White => self.players.white.add_capture(c),
                Color::Black => self.players.black.add_capture(c),
            }
        }
        self.set_piece(to, Some(placed));
        self.set_piece(from, None);
        if is_pawn_move || captured.is_some() {
            self.halfmove_clock = 0;
        } else {
            self.halfmove_clock = self.halfmove_clock + 1;
        }
        let promoted_type = if is_pawn_move && to.0 == promotion_rank {
            Some(placed.to_type())
        } else {
            None
        };
        self.moves.push(Move { from, to, promotion: promoted_type, piece });
        Ok((placed, captured))
    }
}

} // verus!
