//! Move notation exchanged with external engines: source square, destination
//! square and an optional promotion letter (`e2e4`, `e7e8q`), and the reading
//! of an engine's `bestmove` reply.
use vstd::prelude::*;
use vstd::string::StringSliceAdditionalSpecFns;

use crate::board::{in_bounds, piece_of, Board, Pos};
use crate::moves::{execution, Move, MoveError};
use crate::rules::check_move;
use crate::piece::{PieceKind, PieceType};

verus! {

/// Relies on `String::push`, which appends one character to the string.
pub assume_specification[ String::push ](s: &mut String, ch: char)
    ensures
        final(s)@ == old(s)@.push(ch),
;

/// A character with the Unicode White_Space property, which is what
/// `char::is_whitespace` tests.
pub open spec fn is_white_space(c: char) -> bool {
    let v = c as u32;
    ||| 0x09 <= v <= 0x0D
    ||| v == 0x20 || v == 0x85 || v == 0xA0 || v == 0x1680
    ||| 0x2000 <= v <= 0x200A
    ||| v == 0x2028 || v == 0x2029 || v == 0x202F || v == 0x205F || v == 0x3000
}

/// The tokens of `s` when `cur` is the part of a token already read: the
/// maximal non-empty runs of characters that are not white space, in order.
pub open spec fn tokens_from(s: Seq<char>, cur: Seq<char>) -> Seq<Seq<char>>
    decreases s.len(),
{
    let done: Seq<Seq<char>> = if cur.len() > 0 {
        seq![cur]
    } else {
        Seq::empty()
    };
    if s.len() == 0 {
        done
    } else if is_white_space(s[0]) {
        done + tokens_from(s.drop_first(), Seq::empty())
    } else {
        tokens_from(s.drop_first(), cur.push(s[0]))
    }
}

/// What `str::split_whitespace` yields for a string: its tokens, in order.
pub open spec fn whitespace_tokens(s: Seq<char>) -> Seq<Seq<char>> {
    tokens_from(s, Seq::empty())
}

/// Relies on `str::split_whitespace`: the substrings of `s` separated by any
/// amount of Unicode white space (`char::is_whitespace`), without empty ones,
/// each copied into a `String`.
#[verifier::external_body]
fn split_tokens(s: &str) -> (r: Vec<String>)
    ensures
        r@.map_values(|t: String| t@) == whitespace_tokens(s@),
{
    s.split_whitespace().map(|t| t.to_string()).collect()
}

pub open spec fn file_char(f: int) -> char {
    if f == 0 {
        'a'
    } else if f == 1 {
        'b'
    } else if f == 2 {
        'c'
    } else if f == 3 {
        'd'
    } else if f == 4 {
        'e'
    } else if f == 5 {
        'f'
    } else if f == 6 {
        'g'
    } else {
        'h'
    }
}

/// The digit of rank index `r`: index 0 is rank 8, index 7 is rank 1.
pub open spec fn rank_char(r: int) -> char {
    if r == 0 {
        '8'
    } else if r == 1 {
        '7'
    } else if r == 2 {
        '6'
    } else if r == 3 {
        '5'
    } else if r == 4 {
        '4'
    } else if r == 5 {
        '3'
    } else if r == 6 {
        '2'
    } else {
        '1'
    }
}

pub open spec fn promo_char(t: PieceType) -> char {
    match t {
        PieceType::Queen => 'q',
        PieceType::Rook => 'r',
        PieceType::Bishop => 'b',
        _ => 'n',
    }
}

/// Both squares on the board, and a promotion only to queen, rook, bishop or knight.
pub open spec fn move_well_formed(m: Move) -> bool {
    &&& in_bounds(m.from.0 as int, m.from.1 as int)
    &&& in_bounds(m.to.0 as int, m.to.1 as int)
    &&& match m.promotion {
        Some(t) => t.is_promotion_choice(),
        None => true,
    }
}

/// The notation of a move.
pub open spec fn uci_text(m: Move) -> Seq<char> {
    let base = seq![
        file_char(m.from.1 as int),
        rank_char(m.from.0 as int),
        file_char(m.to.1 as int),
        rank_char(m.to.0 as int),
    ];
    match m.promotion {
        Some(t) => base.push(promo_char(t)),
        None => base,
    }
}

/// The file index of a file letter `a`..`h`.
pub open spec fn file_of(b: u8) -> Option<usize> {
    if 97 <= b <= 104 {
        Some((b - 97) as usize)
    } else {
        None
    }
}

/// The rank index of a rank digit `1`..`8`.
pub open spec fn rank_of(b: u8) -> Option<usize> {
    if 49 <= b <= 56 {
        Some((56 - b) as usize)
    } else {
        None
    }
}

pub open spec fn promo_of(b: u8) -> Option<PieceType> {
    if b == 113 {
        Some(PieceType::Queen)
    } else if b == 114 {
        Some(PieceType::Rook)
    } else if b == 98 {
        Some(PieceType::Bishop)
    } else if b == 110 {
        Some(PieceType::Knight)
    } else {
        None
    }
}

/// The move that a notation names on `board`: four or five bytes, squares on
/// the board, a piece on the source square, and a valid promotion letter.
pub open spec fn decode_move(board: Board, s: Seq<u8>) -> Option<Move> {
    if s.len() != 4 && s.len() != 5 {
        None
    } else if file_of(s[0]) is None || rank_of(s[1]) is None || file_of(s[2]) is None || rank_of(
        s[3],
    ) is None {
        None
    } else {
        let from: Pos = (rank_of(s[1])->Some_0, file_of(s[0])->Some_0);
        let to: Pos = (rank_of(s[3])->Some_0, file_of(s[2])->Some_0);
        match board.spec_piece_at(from) {
            None => None,
            Some(piece) => if s.len() == 5 {
                match promo_of(s[4]) {
                    None => None,
                    Some(t) => Some(Move { from, to, promotion: Some(t), piece }),
                }
            } else {
                Some(Move { from, to, promotion: None, piece })
            },
        }
    }
}

fn file_letter(f: usize) -> (c: char)
    requires
        f < 8,
    ensures
        c == file_char(f as int),
{
    if f == 0 {
        'a'
    } else if f == 1 {
        'b'
    } else if f == 2 {
        'c'
    } else if f == 3 {
        'd'
    } else if f == 4 {
        'e'
    } else if f == 5 {
        'f'
    } else if f == 6 {
        'g'
    } else {
        'h'
    }
}

fn rank_digit(r: usize) -> (c: char)
    requires
        r < 8,
    ensures
        c == rank_char(r as int),
{
    if r == 0 {
        '8'
    } else if r == 1 {
        '7'
    } else if r == 2 {
        '6'
    } else if r == 3 {
        '5'
    } else if r == 4 {
        '4'
    } else if r == 5 {
        '3'
    } else if r == 6 {
        '2'
    } else {
        '1'
    }
}

/// Appends the notation of `m` to `s`.
fn push_move(s: &mut String, m: &Move)
    requires
        move_well_formed(*m),
    ensures
        final(s)@ == old(s)@ + uci_text(*m),
{
    let (rank1, file1) = m.from;
    let (rank2, file2) = m.to;
    s.push(file_letter(file1));
    s.push(rank_digit(rank1));
    s.push(file_letter(file2));
    s.push(rank_digit(rank2));
    if let Some(promo) = m.promotion {
        let c = match promo {
            PieceType::Queen => 'q',
            PieceType::Rook => 'r',
            PieceType::Bishop => 'b',
            _ => 'n',
        };
        s.push(c);
    }
    assert(s@ =~= old(s)@ + uci_text(*m));
}

impl Move {
    /// The notation of this move, e.g. `e2e4` or `e7e8q`.
    pub fn to_uci(&self) -> (s: String)
        requires
            move_well_formed(*self),
        ensures
            s@ == uci_text(*self),
    {
        let mut s = String::new();
        push_move(&mut s, self);
        assert(s@ =~= uci_text(*self));
        s
    }
}

/// The notations of a sequence of moves, separated by single spaces.
pub open spec fn joined_history(ms: Seq<Move>) -> Seq<char>
    decreases ms.len(),
{
    if ms.len() == 0 {
        Seq::empty()
    } else if ms.len() == 1 {
        uci_text(ms[0])
    } else {
        joined_history(ms.drop_last()) + seq![' '] + uci_text(ms.last())
    }
}

/// The piece a move's promotion letter stands for, in the mover's colour.
pub open spec fn promotion_piece(m: Move) -> Option<PieceKind> {
    match m.promotion {
        Some(t) => Some(piece_of(t, m.piece.spec_color())),
        None => None,
    }
}

/// The keyword that opens an engine's reply naming its move.
pub open spec fn best_move_keyword() -> Seq<char> {
    seq!['b', 'e', 's', 't', 'm', 'o', 'v', 'e']
}

/// The second token when the first is the `bestmove` keyword.
pub open spec fn best_move_of(tokens: Seq<Seq<char>>) -> Option<Seq<char>> {
    if tokens.len() >= 2 && tokens[0] == best_move_keyword() {
        Some(tokens[1])
    } else {
        None
    }
}

/// The move named by an engine reply split into tokens: the second token when
/// the first is `bestmove`, else `None`.
pub fn best_move_token(tokens: &Vec<String>) -> (r: Option<String>)
    ensures
        match best_move_of(tokens@.map_values(|t: String| t@)) {
            Some(w) => r is Some && r->Some_0@ == w,
            None => r is None,
        },
{
    let ghost views = tokens@.map_values(|t: String| t@);
    if tokens.len() < 2 {
        return None;
    }
    let keyword = "bestmove".to_owned();
    proof {
        reveal_strlit("bestmove");
        assert(keyword@ =~= best_move_keyword());
    }
    if tokens[0] == keyword {
        assert(views[0] == tokens@[0]@);
        Some(tokens[1].clone())
    } else {
        None
    }
}

/// The move named by an engine's reply line `bestmove <move> ...`, if it is one.
pub fn uci_word(line: &str) -> (r: Option<String>)
    ensures
        match best_move_of(whitespace_tokens(line@)) {
            Some(w) => r is Some && r->Some_0@ == w,
            None => r is None,
        },
{
    let tokens = split_tokens(line);
    best_move_token(&tokens)
}

fn file_index(b: u8) -> (r: Option<usize>)
    ensures
        r == file_of(b),
{
    if b >= 97 && b <= 104 {
        Some((b - 97) as usize)
    } else {
        None
    }
}

fn rank_index(b: u8) -> (r: Option<usize>)
    ensures
        r == rank_of(b),
{
    if b >= 49 && b <= 56 {
        Some((56 - b) as usize)
    } else {
        None
    }
}

impl Board {
    /// Reads a move in notation against this position; `None` when the text is
    /// not a move or the source square is empty.
    pub fn parse_uci_move(&self, uci: &str) -> (r: Option<Move>)
        ensures
            r == decode_move(*self, uci.spec_bytes()),
    {
        let bytes = uci.as_bytes();
        let n = bytes.len();
        if n != 4 && n != 5 {
            return None;
        }
        let f1 = file_index(bytes[0]);
        let r1 = rank_index(bytes[1]);
        let f2 = file_index(bytes[2]);
        let r2 = rank_index(bytes[3]);
        let (f1, r1, f2, r2) = match (f1, r1, f2, r2) {
            (Some(a), Some(b), Some(c), Some(d)) => (a, b, c, d),
            _ => return None,
        };
        let from = (r1, f1);
        let to = (r2, f2);
        let piece = self.piece_at(from)?;
        let promotion = if n == 5 {
            let t = match bytes[4] {
                113u8 => PieceType::Queen,
                114u8 => PieceType::Rook,
                98u8 => PieceType::Bishop,
                110u8 => PieceType::Knight,
                _ => return None,
            };
            Some(t)
        } else {
            None
        };
        Some(Move { from, to, promotion, piece })
    }
}

/// What `apply_uci_move` does with the bytes of a move's notation: nothing
/// unless they name a move that passes the legality test; then the move is
/// executed, and the result tells the capture and whether it was made.
pub open spec fn uci_application(
    before: Board,
    after: Board,
    text: Seq<u8>,
    r: (Option<PieceKind>, bool),
) -> bool {
    match decode_move(before, text) {
        None => r == (None::<PieceKind>, false) && after == before,
        Some(mv) => match check_move(
            before.model(),
            before.en_passant_target,
            before.flags,
            mv.from,
            mv.to,
            promotion_piece(mv),
        ) {
            Err(_) => r == (None::<PieceKind>, false) && after == before,
            Ok(_) => exists|res: Result<(PieceKind, Option<PieceKind>), MoveError>|
                {
                    &&& #[trigger] execution(before, after, mv.from, mv.to, promotion_piece(mv), res)
                    &&& r == match res {
                        Ok((_, captured)) => (captured, true),
                        Err(_) => (None::<PieceKind>, false),
                    }
                },
        },
    }
}

impl Board {
    /// Every logged move has squares on the board and a valid promotion.
    pub open spec fn log_well_formed(&self) -> bool {
        forall|i: int| 0 <= i < self.moves@.len() ==> move_well_formed(#[trigger] self.moves@[i])
    }

    /// The notation of each executed move, in order.
    pub fn move_history_uci(&self) -> (r: Vec<String>)
        requires
            self.log_well_formed(),
        ensures
            r@.len() == self.moves@.len(),
            forall|i: int| 0 <= i < r@.len() ==> (#[trigger] r@[i])@ == uci_text(self.moves@[i]),
    {
        let mut out: Vec<String> = Vec::new();
        let mut i: usize = 0;
        while i < self.moves.len()
            invariant
                i <= self.moves@.len(),
                self.log_well_formed(),
                out@.len() == i,
                forall|j: int| 0 <= j < i ==> (#[trigger] out@[j])@ == uci_text(self.moves@[j]),
            decreases self.moves@.len() - i,
        {
            let s = self.moves[i].to_uci();
            out.push(s);
            i = i + 1;
        }
        out
    }

    /// The executed moves in notation, separated by single spaces.
    pub fn move_history_line(&self) -> (r: String)
        requires
            self.log_well_formed(),
        ensures
            r@ == joined_history(self.moves@),
    {
        let mut s = String::new();
        let mut i: usize = 0;
        while i < self.moves.len()
            invariant
                i <= self.moves@.len(),
                self.log_well_formed(),
                s@ == joined_history(self.moves@.subrange(0, i as int)),
            decreases self.moves@.len() - i,
        {
            if i > 0 {
                s.push(' ');
            }
            push_move(&mut s, &self.moves[i]);
            proof {
                let pre = self.moves@.subrange(0, i as int);
                let next = self.moves@.subrange(0, i + 1);
                assert(next.drop_last() =~= pre);
                assert(next.last() == self.moves@[i as int]);
                if i == 0 {
                    assert(s@ =~= joined_history(next));
                } else {
                    assert(s@ =~= joined_history(next));
                }
            }
            i = i + 1;
        }
        assert(self.moves@.subrange(0, self.moves@.len() as int) =~= self.moves@);
        s
    }

    /// Reads a move in notation, tests it with `simulate_move_checked`, and
    /// executes it as `move_piece` does (the promotion letter is taken in the
    /// mover's colour). Returns the captured piece and whether the move was
    /// made; the board is unchanged when it was not.
    pub fn apply_uci_move(&mut self, uci: &str) -> (r: (Option<PieceKind>, bool))
        requires
            old(self).halfmove_clock < usize::MAX,
            old(self).players.white.score + 9 <= usize::MAX,
            old(self).players.black.score + 9 <= usize::MAX,
        ensures
            uci_application(*old(self), *final(self), uci.spec_bytes(), r),
    {
        match self.parse_uci_move(uci) {
            Some(mv) => {
                let promotion = match mv.promotion {
                    Some(t) => {
                        let q = PieceKind::new(t, mv.piece.color());
                        proof {
                            crate::piece::lemma_piece_identity(q, piece_of(t, mv.piece.spec_color()));
                        }
                        Some(q)
                    },
                    None => None,
                };
                if self.simulate_move_checked(mv.from, mv.to, promotion).is_err() {
                    return (None, false);
                }
                let res = self.move_piece(mv.from, mv.to, promotion);
                match res {
                    Ok((_, captured)) => (captured, true),
                    Err(_) => (None, false),
                }
            },
            None => (None, false),
        }
    }
}

} // verus!
