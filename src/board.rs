//! The position store: an 8x8 grid of optional pieces plus the auxiliary
//! state of a game (castling rights, en-passant target, clocks, history).
use std::collections::HashMap;
use vstd::prelude::*;

use crate::moves::Move;
use crate::piece::{Color, PieceKind, PieceType, STARTING_COLOR};

verus! {

/// A board coordinate: (rank, file). Rank 0 is Black's back rank.
pub type Pos = (usize, usize);

/// The piece placement as rows of optional pieces, indexed by rank then file.
pub type GridModel = Seq<Seq<Option<PieceKind>>>;

#[derive(Copy, Clone, Debug)]
pub struct Square {
    pub piece: Option<PieceKind>,
}

pub type Grid = [[Square; 8]; 8];

/// What a grid holds, rank by rank.
pub open spec fn grid_view(g: Grid) -> GridModel {
    Seq::new(8, |r: int| Seq::new(8, |f: int| g@[r]@[f].piece))
}

pub open spec fn in_bounds(r: int, f: int) -> bool {
    0 <= r < 8 && 0 <= f < 8
}

/// The piece on a square of a model; nothing outside the board.
pub open spec fn cell(m: GridModel, r: int, f: int) -> Option<PieceKind> {
    if in_bounds(r, f) {
        m[r][f]
    } else {
        None
    }
}

/// The model with one square replaced; unchanged outside the board.
pub open spec fn put(m: GridModel, r: int, f: int, v: Option<PieceKind>) -> GridModel {
    if in_bounds(r, f) {
        m.update(r, m[r].update(f, v))
    } else {
        m
    }
}

/// Castling rights: which kings and rooks have left their home squares.
#[derive(Copy, Clone, Debug, PartialEq, Eq, Structural)]
pub struct Flags {
    pub has_white_king_moved: bool,
    pub has_white_kingside_rook_moved: bool,
    pub has_white_queenside_rook_moved: bool,
    pub has_black_king_moved: bool,
    pub has_black_kingside_rook_moved: bool,
    pub has_black_queenside_rook_moved: bool,
}

pub open spec fn flags_clear(fl: Flags) -> bool {
    !fl.has_white_king_moved && !fl.has_white_kingside_rook_moved
        && !fl.has_white_queenside_rook_moved && !fl.has_black_king_moved
        && !fl.has_black_kingside_rook_moved && !fl.has_black_queenside_rook_moved
}

/// Every flag set in `a` is also set in `b`.
pub open spec fn flags_le(a: Flags, b: Flags) -> bool {
    (a.has_white_king_moved ==> b.has_white_king_moved)
        && (a.has_white_kingside_rook_moved ==> b.has_white_kingside_rook_moved)
        && (a.has_white_queenside_rook_moved ==> b.has_white_queenside_rook_moved)
        && (a.has_black_king_moved ==> b.has_black_king_moved)
        && (a.has_black_kingside_rook_moved ==> b.has_black_kingside_rook_moved)
        && (a.has_black_queenside_rook_moved ==> b.has_black_queenside_rook_moved)
}

impl Default for Flags {
    fn default() -> (r: Self)
        ensures
            flags_clear(r),
    {
        Flags {
            has_white_king_moved: false,
            has_white_kingside_rook_moved: false,
            has_white_queenside_rook_moved: false,
            has_black_king_moved: false,
            has_black_kingside_rook_moved: false,
            has_black_queenside_rook_moved: false,
        }
    }
}

/// The status of a game.
#[derive(Copy, Clone, Debug, PartialEq, Eq, Structural)]
pub enum State {
    Playing { turn: Color },
    Checkmate { winner: Color },
    Stalemate,
    Draw,
}

impl Default for State {
    fn default() -> (r: Self)
        ensures
            r == (State::Playing { turn: Color::White }),
    {
        State::Playing { turn: STARTING_COLOR }
    }
}

/// What one side has captured, and the points it is worth.
#[derive(Clone, Debug)]
pub struct Player {
    pub captures: Vec<PieceKind>,
    pub score: usize,
}

impl Default for Player {
    fn default() -> (r: Self)
        ensures
            r.captures@ == Seq::<PieceKind>::empty(),
            r.score == 0,
    {
        Player { captures: Vec::new(), score: 0 }
    }
}

impl Player {
    /// Records a captured piece and adds its value to the score.
    pub fn add_capture(&mut self, piece: PieceKind)
        requires
            old(self).score + piece.spec_score() <= usize::MAX,
        ensures
            final(self).captures@ == old(self).captures@.push(piece),
            final(self).score == old(self).score + piece.spec_score(),
    {
        self.captures.push(piece);
        self.score = self.score + piece.score();
    }
}

#[derive(Clone, Debug)]
pub struct Players {
    pub white: Player,
    pub black: Player,
}

impl Default for Players {
    fn default() -> (r: Self)
        ensures
            r.white.captures@.len() == 0 && r.white.score == 0,
            r.black.captures@.len() == 0 && r.black.score == 0,
    {
        Players { white: Player::default(), black: Player::default() }
    }
}

} // verus!

verus! {

/// The piece on each square of the standard starting arrangement.
pub open spec fn start_cell(r: int, f: int) -> Option<PieceKind> {
    if r == 1 {
        Some(PieceKind::BlackPawn)
    } else if r == 6 {
        Some(PieceKind::WhitePawn)
    } else if r == 0 || r == 7 {
        let t = if f == 0 || f == 7 {
            PieceType::Rook
        } else if f == 1 || f == 6 {
            PieceType::Knight
        } else if f == 2 || f == 5 {
            PieceType::Bishop
        } else if f == 3 {
            PieceType::Queen
        } else {
            PieceType::King
        };
        let c = if r == 0 { Color::Black } else { Color::White };
        Some(piece_of(t, c))
    } else {
        None
    }
}

pub open spec fn piece_of(t: PieceType, c: Color) -> PieceKind {
    choose|p: PieceKind| p.spec_type() == t && p.spec_color() == c
}

pub open spec fn start_grid() -> GridModel {
    Seq::new(8, |r: int| Seq::new(8, |f: int| start_cell(r, f)))
}

/// A game position: the grid and everything the rules read besides it.
#[derive(Clone)]
pub struct Board {
    pub squares: Grid,
    pub state: State,
    pub players: Players,
    pub en_passant_target: Option<Pos>,
    pub flags: Flags,
    pub halfmove_clock: usize,
    pub position_history: HashMap<u64, usize>,
    pub moves: Vec<Move>,
}

impl Board {
    pub open spec fn model(&self) -> GridModel {
        grid_view(self.squares)
    }

    pub open spec fn spec_piece_at(&self, pos: Pos) -> Option<PieceKind> {
        cell(self.model(), pos.0 as int, pos.1 as int)
    }

    /// Everything but the grid is the same in both boards.
    pub open spec fn same_but_grid(&self, other: &Board) -> bool {
        &&& self.state == other.state
        &&& self.players == other.players
        &&& self.en_passant_target == other.en_passant_target
        &&& self.flags == other.flags
        &&& self.halfmove_clock == other.halfmove_clock
        &&& self.position_history == other.position_history
        &&& self.moves == other.moves
    }

    pub fn is_valid_pos(pos: Pos) -> (r: bool)
        ensures
            r == in_bounds(pos.0 as int, pos.1 as int),
    {
        let (r, f) = pos;
        r < 8 && f < 8
    }

    /// The piece on a square; `None` for an empty square or one off the board.
    pub fn piece_at(&self, pos: Pos) -> (r: Option<PieceKind>)
        ensures
            r == self.spec_piece_at(pos),
    {
        if Self::is_valid_pos(pos) {
            let (r, f) = pos;
            self.squares[r][f].piece
        } else {
            None
        }
    }

    /// Replaces what a square holds; does nothing for a square off the board.
    pub fn set_piece(&mut self, pos: Pos, piece: Option<PieceKind>)
        ensures
            final(self).model() == put(old(self).model(), pos.0 as int, pos.1 as int, piece),
            final(self).same_but_grid(old(self)),
    {
        if Self::is_valid_pos(pos) {
            let (r, f) = pos;
            let mut row = self.squares[r];
            row[f] = Square { piece };
            self.squares[r] = row;
            assert(self.model() =~~= put(old(self).model(), r as int, f as int, piece));
        }
    }
}

fn sq(p: PieceKind) -> (r: Square)
    ensures
        r.piece == Some(p),
{
    Square { piece: Some(p) }
}

fn back_rank(c: Color) -> (r: [Square; 8])
    ensures
        forall|f: int| 0 <= f < 8 ==> (#[trigger] r@[f]).piece == start_cell(
            if c == Color::Black { 0 } else { 7 },
            f,
        ),
{
    let rook = PieceKind::new(PieceType::Rook, c);
    let knight = PieceKind::new(PieceType::Knight, c);
    let bishop = PieceKind::new(PieceType::Bishop, c);
    let queen = PieceKind::new(PieceType::Queen, c);
    let king = PieceKind::new(PieceType::King, c);
    proof {
        crate::piece::lemma_piece_identity(rook, piece_of(PieceType::Rook, c));
    }
    let r = [sq(rook), sq(knight), sq(bishop), sq(queen), sq(king), sq(bishop), sq(knight), sq(rook)];
    r
}

impl Default for Board {
    /// The standard starting position, White to move.
    fn default() -> (r: Self)
        ensures
            r.model() == start_grid(),
            r.state == (State::Playing { turn: Color::White }),
            flags_clear(r.flags),
            r.en_passant_target is None,
            r.halfmove_clock == 0,
            r.position_history@ == Map::<u64, usize>::empty(),
            r.moves@.len() == 0,
            r.players.white.captures@.len() == 0 && r.players.white.score == 0,
            r.players.black.captures@.len() == 0 && r.players.black.score == 0,
    {
        let empty = Square { piece: None };
        let empty_rank = [empty, empty, empty, empty, empty, empty, empty, empty];
        let black_pawns = [sq(PieceKind::BlackPawn); 8];
        let white_pawns = [sq(PieceKind::WhitePawn); 8];
        let squares = [
            back_rank(Color::Black),
            black_pawns,
            empty_rank,
            empty_rank,
            empty_rank,
            empty_rank,
            white_pawns,
            back_rank(Color::White),
        ];
        let board = Board {
            squares,
            state: State::default(),
            players: Players::default(),
            en_passant_target: None,
            flags: Flags::default(),
            halfmove_clock: 0,
            position_history: HashMap::new(),
            moves: Vec::new(),
        };
        assert(board.model() =~~= start_grid());
        board
    }
}

} // verus!
