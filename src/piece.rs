//! Piece identity: a colour and a type, with a fixed point value.
use vstd::prelude::*;

verus! {

/// The colour that moves first.
pub const STARTING_COLOR: Color = Color::White;

#[derive(Copy, Clone, PartialEq, Eq, Debug, Hash, Structural)]
pub enum Color {
    White,
    Black,
}

impl Color {
    pub open spec fn spec_opponent(self) -> Color {
        match self {
            Color::White => Color::Black,
            Color::Black => Color::White,
        }
    }

    /// The other colour.
    pub fn opponent(&self) -> (r: Color)
        ensures
            r == self.spec_opponent(),
            r != *self,
    {
        match self {
            Color::White => Color::Black,
            Color::Black => Color::White,
        }
    }
}

#[derive(Copy, Clone, PartialEq, Eq, Debug, Hash, Structural)]
pub enum PieceType {
    Pawn,
    Knight,
    Bishop,
    Rook,
    Queen,
    King,
}

/// One of the twelve pieces: a colour together with a type.
#[derive(Copy, Clone, Debug, Hash, Eq, PartialEq, Structural)]
pub enum PieceKind {
    BlackBishop,
    BlackKing,
    BlackKnight,
    BlackPawn,
    BlackQueen,
    BlackRook,
    WhiteBishop,
    WhiteKing,
    WhiteKnight,
    WhitePawn,
    WhiteQueen,
    WhiteRook,
}

impl PieceType {
    /// A type a pawn may be promoted to.
    pub open spec fn is_promotion_choice(self) -> bool {
        match self {
            PieceType::Queen | PieceType::Rook | PieceType::Bishop | PieceType::Knight => true,
            _ => false,
        }
    }
}

impl PieceKind {
    pub open spec fn spec_color(self) -> Color {
        match self {
            PieceKind::WhiteBishop | PieceKind::WhiteKing | PieceKind::WhiteKnight
            | PieceKind::WhitePawn | PieceKind::WhiteQueen | PieceKind::WhiteRook => Color::White,
            _ => Color::Black,
        }
    }

    pub open spec fn spec_type(self) -> PieceType {
        match self {
            PieceKind::WhitePawn | PieceKind::BlackPawn => PieceType::Pawn,
            PieceKind::WhiteKnight | PieceKind::BlackKnight => PieceType::Knight,
            PieceKind::WhiteBishop | PieceKind::BlackBishop => PieceType::Bishop,
            PieceKind::WhiteRook | PieceKind::BlackRook => PieceType::Rook,
            PieceKind::WhiteQueen | PieceKind::BlackQueen => PieceType::Queen,
            PieceKind::WhiteKing | PieceKind::BlackKing => PieceType::King,
        }
    }

    /// Point value by type: pawn 1, knight 3, bishop 3, rook 5, queen 9, king 0.
    pub open spec fn spec_score(self) -> nat {
        match self.spec_type() {
            PieceType::Pawn => 1,
            PieceType::Knight => 3,
            PieceType::Bishop => 3,
            PieceType::Rook => 5,
            PieceType::Queen => 9,
            PieceType::King => 0,
        }
    }

    /// The piece of the given type and colour.
    pub fn new(piece_type: PieceType, color: Color) -> (r: PieceKind)
        ensures
            r.spec_type() == piece_type,
            r.spec_color() == color,
    {
        match (piece_type, color) {
            (PieceType::Pawn, Color::White) => PieceKind::WhitePawn,
            (PieceType::Knight, Color::White) => PieceKind::WhiteKnight,
            (PieceType::Bishop, Color::White) => PieceKind::WhiteBishop,
            (PieceType::Rook, Color::White) => PieceKind::WhiteRook,
            (PieceType::Queen, Color::White) => PieceKind::WhiteQueen,
            (PieceType::King, Color::White) => PieceKind::WhiteKing,
            (PieceType::Pawn, Color::Black) => PieceKind::BlackPawn,
            (PieceType::Knight, Color::Black) => PieceKind::BlackKnight,
            (PieceType::Bishop, Color::Black) => PieceKind::BlackBishop,
            (PieceType::Rook, Color::Black) => PieceKind::BlackRook,
            (PieceType::Queen, Color::Black) => PieceKind::BlackQueen,
            (PieceType::King, Color::Black) => PieceKind::BlackKing,
        }
    }

    pub fn color(&self) -> (r: Color)
        ensures
            r == self.spec_color(),
    {
        match self {
            PieceKind::WhiteBishop | PieceKind::WhiteKing | PieceKind::WhiteKnight
            | PieceKind::WhitePawn | PieceKind::WhiteQueen | PieceKind::WhiteRook => Color::White,
            PieceKind::BlackBishop | PieceKind::BlackKing | PieceKind::BlackKnight
            | PieceKind::BlackPawn | PieceKind::BlackQueen | PieceKind::BlackRook => Color::Black,
        }
    }

    pub fn to_type(&self) -> (r: PieceType)
        ensures
            r == self.spec_type(),
    {
        match self {
            PieceKind::WhitePawn | PieceKind::BlackPawn => PieceType::Pawn,
            PieceKind::WhiteKnight | PieceKind::BlackKnight => PieceType::Knight,
            PieceKind::WhiteBishop | PieceKind::BlackBishop => PieceType::Bishop,
            PieceKind::WhiteRook | PieceKind::BlackRook => PieceType::Rook,
            PieceKind::WhiteQueen | PieceKind::BlackQueen => PieceType::Queen,
            PieceKind::WhiteKing | PieceKind::BlackKing => PieceType::King,
        }
    }

    pub fn score(&self) -> (r: usize)
        ensures
            r == self.spec_score(),
    {
        match self.to_type() {
            PieceType::Pawn => 1,
            PieceType::Knight => 3,
            PieceType::Bishop => 3,
            PieceType::Rook => 5,
            PieceType::Queen => 9,
            PieceType::King => 0,
        }
    }
}

/// A piece is determined by its colour and type.
pub proof fn lemma_piece_identity(a: PieceKind, b: PieceKind)
    ensures
        (a.spec_color() == b.spec_color() && a.spec_type() == b.spec_type()) <==> a == b,
{
}

} // verus!
