//! The game state machine: insufficient material, the position hash and
//! repetition table, and the status reached after each move.
use std::collections::hash_map::DefaultHasher;
use std::hash::Hasher;
use vstd::prelude::*;
use vstd::std_specs::hash::DefaultHasherAdditionalSpecFns;

use crate::board::{cell, Board, Flags, GridModel, Pos, State};
use crate::piece::{Color, PieceKind, PieceType};
use crate::moves::{execution, MoveError};
use crate::rules::{any_legal, check_move, in_check};

verus! {

broadcast use vstd::std_specs::hash::group_hash_axioms;

/// Number of squares of rank `r` among files below `f` whose content satisfies `pred`.
pub open spec fn count_rank(m: GridModel, pred: spec_fn(Option<PieceKind>) -> bool, r: int, f: int) -> nat
    decreases f,
{
    if f <= 0 {
        0
    } else {
        count_rank(m, pred, r, f - 1) + if pred(cell(m, r, f - 1)) {
            1nat
        } else {
            0nat
        }
    }
}

/// Number of squares on ranks below `r` whose content satisfies `pred`.
pub open spec fn count_grid(m: GridModel, pred: spec_fn(Option<PieceKind>) -> bool, r: int) -> nat
    decreases r,
{
    if r <= 0 {
        0
    } else {
        count_grid(m, pred, r - 1) + count_rank(m, pred, r - 1, 8)
    }
}

pub open spec fn count_on_board(m: GridModel, pred: spec_fn(Option<PieceKind>) -> bool) -> nat {
    count_grid(m, pred, 8)
}

pub open spec fn occupied(o: Option<PieceKind>) -> bool {
    o is Some
}

pub open spec fn minor(o: Option<PieceKind>) -> bool {
    match o {
        Some(p) => p.spec_type() == PieceType::Bishop || p.spec_type() == PieceType::Knight,
        None => false,
    }
}

pub open spec fn bishop(o: Option<PieceKind>) -> bool {
    match o {
        Some(p) => p.spec_type() == PieceType::Bishop,
        None => false,
    }
}

pub open spec fn white_bishop(o: Option<PieceKind>) -> bool {
    o == Some(PieceKind::WhiteBishop)
}

/// The material policy: two pieces; three with a bishop or knight among
/// them; or four with exactly two bishops, one of each colour. Five or more
/// pieces are never judged insufficient.
pub open spec fn material_insufficient(m: GridModel) -> bool {
    let n = count_on_board(m, |o| occupied(o));
    ||| n == 2
    ||| n == 3 && count_on_board(m, |o| minor(o)) > 0
    ||| n == 4 && count_on_board(m, |o| bishop(o)) == 2 && count_on_board(m, |o| white_bishop(o))
        == 1
}

/// The byte standing for a square's content: 0 when empty.
pub open spec fn piece_code(o: Option<PieceKind>) -> u8 {
    match o {
        None => 0,
        Some(PieceKind::BlackBishop) => 1,
        Some(PieceKind::BlackKing) => 2,
        Some(PieceKind::BlackKnight) => 3,
        Some(PieceKind::BlackPawn) => 4,
        Some(PieceKind::BlackQueen) => 5,
        Some(PieceKind::BlackRook) => 6,
        Some(PieceKind::WhiteBishop) => 7,
        Some(PieceKind::WhiteKing) => 8,
        Some(PieceKind::WhiteKnight) => 9,
        Some(PieceKind::WhitePawn) => 10,
        Some(PieceKind::WhiteQueen) => 11,
        Some(PieceKind::WhiteRook) => 12,
    }
}

/// Codes of the squares of rank `r` with file below `f`.
pub open spec fn rank_codes(m: GridModel, r: int, f: int) -> Seq<u8>
    decreases f,
{
    if f <= 0 {
        Seq::empty()
    } else {
        rank_codes(m, r, f - 1).push(piece_code(cell(m, r, f - 1)))
    }
}

/// Codes of the squares of the ranks below `r`, rank by rank.
pub open spec fn grid_codes(m: GridModel, r: int) -> Seq<u8>
    decreases r,
{
    if r <= 0 {
        Seq::empty()
    } else {
        grid_codes(m, r - 1) + rank_codes(m, r - 1, 8)
    }
}

pub open spec fn turn_code(s: State) -> u8 {
    match s {
        State::Playing { turn: Color::White } => 1,
        State::Playing { turn: Color::Black } => 2,
        _ => 0,
    }
}

pub open spec fn flag_codes(fl: Flags) -> Seq<u8> {
    seq![
        fl.has_white_king_moved as u8,
        fl.has_white_kingside_rook_moved as u8,
        fl.has_white_queenside_rook_moved as u8,
        fl.has_black_king_moved as u8,
        fl.has_black_kingside_rook_moved as u8,
        fl.has_black_queenside_rook_moved as u8,
    ]
}

pub open spec fn ep_codes(ep: Option<Pos>) -> Seq<u8> {
    match ep {
        None => seq![0u8, 0u8, 0u8],
        Some(p) => seq![1u8, p.0 as u8, p.1 as u8],
    }
}

/// The bytes identifying a position for repetition: piece placement, side
/// to move, castling flags and en-passant target; no move counters.
pub open spec fn position_key(b: Board) -> Seq<u8> {
    grid_codes(b.model(), 8) + seq![turn_code(b.state)] + flag_codes(b.flags) + ep_codes(
        b.en_passant_target,
    )
}

/// The hash of a position: the standard library's default hasher over its key.
pub open spec fn position_hash(b: Board) -> u64 {
    DefaultHasher::spec_finish(seq![position_key(b)])
}

/// How often the position of hash `h` has been recorded.
pub open spec fn seen(hist: Map<u64, usize>, h: u64) -> usize {
    if hist.contains_key(h) {
        hist[h]
    } else {
        0
    }
}

/// The status after a move by `turn`, given the repetition count of the new position.
pub open spec fn next_state(b: Board, turn: Color, repeats: usize) -> State {
    let next = turn.spec_opponent();
    let checked = in_check(b.model(), next);
    let has_moves = any_legal(b.model(), b.en_passant_target, b.flags, next);
    if !has_moves && checked {
        State::Checkmate { winner: turn }
    } else if material_insufficient(b.model()) {
        State::Draw
    } else if repeats >= 3 || b.halfmove_clock >= 100 {
        State::Draw
    } else if has_moves {
        State::Playing { turn: next }
    } else {
        State::Stalemate
    }
}

/// What `update_state` does to a board.
pub open spec fn state_update(before: Board, after: Board) -> bool {
    match before.state {
        State::Playing { turn } => {
            let h = position_hash(before);
            let count = seen(before.position_history@, h);
            let repeats = if count < usize::MAX {
                (count + 1) as usize
            } else {
                count
            };
            &&& after.position_history@ == before.position_history@.insert(h, repeats)
            &&& after.state == next_state(before, turn, repeats)
            &&& after.squares == before.squares
            &&& after.players == before.players
            &&& after.en_passant_target == before.en_passant_target
            &&& after.flags == before.flags
            &&& after.halfmove_clock == before.halfmove_clock
            &&& after.moves == before.moves
        },
        _ => after == before,
    }
}

fn code_of(o: Option<PieceKind>) -> (r: u8)
    ensures
        r == piece_code(o),
{
    match o {
        None => 0,
        Some(PieceKind::BlackBishop) => 1,
        Some(PieceKind::BlackKing) => 2,
        Some(PieceKind::BlackKnight) => 3,
        Some(PieceKind::BlackPawn) => 4,
        Some(PieceKind::BlackQueen) => 5,
        Some(PieceKind::BlackRook) => 6,
        Some(PieceKind::WhiteBishop) => 7,
        Some(PieceKind::WhiteKing) => 8,
        Some(PieceKind::WhiteKnight) => 9,
        Some(PieceKind::WhitePawn) => 10,
        Some(PieceKind::WhiteQueen) => 11,
        Some(PieceKind::WhiteRook) => 12,
    }
}

impl Board {
    /// False exactly when the material on the board is judged insufficient to mate.
    pub fn has_sufficient_material(&self) -> (res: bool)
        ensures
            res == !material_insufficient(self.model()),
    {
        let ghost m = self.model();
        let mut pieces: usize = 0;
        let mut minors: usize = 0;
        let mut bishops: usize = 0;
        let mut white_bishops: usize = 0;
        let mut r: usize = 0;
        while r < 8
            invariant
                r <= 8,
                m == self.model(),
                pieces == count_grid(m, |o| occupied(o), r as int),
                minors == count_grid(m, |o| minor(o), r as int),
                bishops == count_grid(m, |o| bishop(o), r as int),
                white_bishops == count_grid(m, |o| white_bishop(o), r as int),
                pieces <= 8 * r,
                minors <= 8 * r,
                bishops <= 8 * r,
                white_bishops <= 8 * r,
            decreases 8 - r,
        {
            let mut f: usize = 0;
            while f < 8
                invariant
                    r < 8,
                    f <= 8,
                    m == self.model(),
                    pieces == count_grid(m, |o| occupied(o), r as int) + count_rank(m, |o| occupied(o), r as int, f as int),
                    minors == count_grid(m, |o| minor(o), r as int) + count_rank(m, |o| minor(o), r as int, f as int),
                    bishops == count_grid(m, |o| bishop(o), r as int) + count_rank(m, |o| bishop(o), r as int, f as int),
                    white_bishops == count_grid(m, |o| white_bishop(o), r as int) + count_rank(m, |o| white_bishop(o), r as int, f as int),
                    pieces <= 8 * r + f,
                    minors <= 8 * r + f,
                    bishops <= 8 * r + f,
                    white_bishops <= 8 * r + f,
                decreases 8 - f,
            {
                let o = self.piece_at((r, f));
                if let Some(p) = o {
                    pieces = pieces + 1;
                    let t = p.to_type();
                    if t == PieceType::Bishop || t == PieceType::Knight {
                        minors = minors + 1;
                    }
                    if t == PieceType::Bishop {
                        bishops = bishops + 1;
                        if p.color() == Color::White {
                            white_bishops = white_bishops + 1;
                        }
                    }
                }
                f = f + 1;
            }
            r = r + 1;
        }
        let insufficient = pieces == 2 || (pieces == 3 && minors > 0) || (pieces == 4 && bishops
            == 2 && white_bishops == 1);
        !insufficient
    }

    fn square_codes(&self) -> (key: Vec<u8>)
        ensures
            key@ == grid_codes(self.model(), 8),
    {
        let ghost m = self.model();
        let mut key: Vec<u8> = Vec::new();
        let mut r: usize = 0;
        while r < 8
            invariant
                r <= 8,
                m == self.model(),
                key@ == grid_codes(m, r as int),
            decreases 8 - r,
        {
            let mut f: usize = 0;
            while f < 8
                invariant
                    r < 8,
                    f <= 8,
                    m == self.model(),
                    key@ == grid_codes(m, r as int) + rank_codes(m, r as int, f as int),
                decreases 8 - f,
            {
                let ghost before = key@;
                key.push(code_of(self.piece_at((r, f))));
                assert(rank_codes(m, r as int, f + 1) == rank_codes(m, r as int, f as int).push(
                    piece_code(cell(m, r as int, f as int)),
                ));
                assert(key@ =~= grid_codes(m, r as int) + rank_codes(m, r as int, f + 1));
                f = f + 1;
            }
            assert(grid_codes(m, r + 1) == grid_codes(m, r as int) + rank_codes(m, r as int, 8));
            r = r + 1;
        }
        key
    }

    /// Codes of the side to move, the castling flags and the en-passant target.
    fn state_codes(&self) -> (key: Vec<u8>)
        ensures
            key@ == seq![turn_code(self.state)] + flag_codes(self.flags) + ep_codes(
                self.en_passant_target,
            ),
    {
        let turn: u8 = match self.state {
            State::Playing { turn: Color::White } => 1,
            State::Playing { turn: Color::Black } => 2,
            _ => 0,
        };
        let fl = self.flags;
        let (e0, e1, e2): (u8, u8, u8) = match self.en_passant_target {
            None => (0, 0, 0),
            Some((er, ef)) => (1, er as u8, ef as u8),
        };
        let key = vec![
            turn,
            fl.has_white_king_moved as u8,
            fl.has_white_kingside_rook_moved as u8,
            fl.has_white_queenside_rook_moved as u8,
            fl.has_black_king_moved as u8,
            fl.has_black_kingside_rook_moved as u8,
            fl.has_black_queenside_rook_moved as u8,
            e0,
            e1,
            e2,
        ];
        assert(key@ =~= seq![turn_code(self.state)] + flag_codes(self.flags) + ep_codes(
            self.en_passant_target,
        ));
        key
    }

    /// The bytes of `position_key` for this position.
    fn position_bytes(&self) -> (key: Vec<u8>)
        ensures
            key@ == position_key(*self),
    {
        let mut key = self.square_codes();
        let mut tail = self.state_codes();
        key.append(&mut tail);
        assert(key@ =~= position_key(*self));
        key
    }

    /// The hash of the current position: the default hasher over `position_key`.
    pub fn compute_position_hash(&self) -> (res: u64)
        ensures
            res == position_hash(*self),
    {
        let key = self.position_bytes();
        let mut hasher = DefaultHasher::new();
        hasher.write(key.as_slice());
        hasher.finish()
    }
}

impl Board {
    /// After a move by the side to move: records the new position in the
    /// repetition table and sets the status, first match winning: checkmate
    /// (the opponent is in check with no legal move); draw by insufficient
    /// material; draw by threefold repetition or the fifty-move rule; the
    /// opponent to move; stalemate. Does nothing once the game is over.
    pub fn update_state(&mut self)
        ensures
            state_update(*old(self), *final(self)),
    {
        let current_turn = match self.state {
            State::Playing { turn } => turn,
            _ => return ,
        };
        let next_turn = current_turn.opponent();
        let in_check = self.is_in_check(next_turn);
        let has_moves = self.any_legal_move(next_turn);
        let hash = self.compute_position_hash();
        let repeats: usize = match self.position_history.get(&hash) {
            Some(c) => c.saturating_add(1),
            None => 1,
        };
        self.position_history.insert(hash, repeats);
        let sufficient = self.has_sufficient_material();
        self.state = if !has_moves && in_check {
            State::Checkmate { winner: current_turn }
        } else if !sufficient {
            State::Draw
        } else if repeats >= 3 || self.halfmove_clock >= 100 {
            State::Draw
        } else if has_moves {
            State::Playing { turn: next_turn }
        } else {
            State::Stalemate
        };
    }
}

impl Board {
    /// Plays one move: tests it on a copy (`simulate_move_checked`), executes
    /// it (`move_piece`), then updates the status (`update_state`). Returns the
    /// piece now on `to` and the piece captured; on failure the board is unchanged.
    pub fn play_move(&mut self, from: Pos, to: Pos, promotion: Option<PieceKind>) -> (res: Result<
        (PieceKind, Option<PieceKind>),
        MoveError,
    >)
        requires
            old(self).halfmove_clock < usize::MAX,
            old(self).players.white.score + 9 <= usize::MAX,
            old(self).players.black.score + 9 <= usize::MAX,
        ensures
            match check_move(
                old(self).model(),
                old(self).en_passant_target,
                old(self).flags,
                from,
                to,
                promotion,
            ) {
                Err(e) => res == Err::<(PieceKind, Option<PieceKind>), MoveError>(e) && *final(self)
                    == *old(self),
                Ok(_) => exists|mid: Board|
                    {
                        &&& #[trigger] execution(*old(self), mid, from, to, promotion, res)
                        &&& res is Ok ==> state_update(mid, *final(self))
                        &&& res is Err ==> *final(self) == *old(self)
                    },
            },
    {
        self.simulate_move_checked(from, to, promotion)?;
        let res = self.move_piece(from, to, promotion);
        let ghost mid = *self;
        if res.is_ok() {
            self.update_state();
        }
        assert(execution(*old(self), mid, from, to, promotion, res));
        res
    }
}

} // verus!
