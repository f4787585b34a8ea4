//! Attack and legality validation: per-piece movement rules, path clearance,
//! check detection, castling eligibility and hypothetical-move testing.
use vstd::prelude::*;

use crate::board::{
    cell, grid_view, in_bounds, piece_of, put, Board, Flags, Grid, GridModel, Player, Players, Pos,
};
use crate::moves::MoveError;
use crate::piece::{Color, PieceKind, PieceType};

verus! {

pub open spec fn abs(x: int) -> int {
    if x < 0 {
        -x
    } else {
        x
    }
}

pub open spec fn sign(x: int) -> int {
    if x > 0 {
        1
    } else if x < 0 {
        -1
    } else {
        0
    }
}

/// `k` steps in direction `s` (one of -1, 0, 1).
pub open spec fn step(s: int, k: int) -> int {
    if s > 0 {
        k
    } else if s < 0 {
        -k
    } else {
        0
    }
}

pub open spec fn rank_diff(from: Pos, to: Pos) -> int {
    to.0 as int - from.0 as int
}

pub open spec fn file_diff(from: Pos, to: Pos) -> int {
    to.1 as int - from.1 as int
}

/// On one rank, one file or one diagonal.
pub open spec fn aligned(from: Pos, to: Pos) -> bool {
    rank_diff(from, to) == 0 || file_diff(from, to) == 0 || abs(rank_diff(from, to)) == abs(
        file_diff(from, to),
    )
}

/// Number of single steps from `from` to `to` along a line.
pub open spec fn line_len(from: Pos, to: Pos) -> int {
    if abs(rank_diff(from, to)) > abs(file_diff(from, to)) {
        abs(rank_diff(from, to))
    } else {
        abs(file_diff(from, to))
    }
}

/// The square `k` steps from `from` toward `to` is empty.
pub open spec fn path_square_empty(m: GridModel, from: Pos, to: Pos, k: int) -> bool {
    cell(
        m,
        from.0 + step(sign(rank_diff(from, to)), k),
        from.1 + step(sign(file_diff(from, to)), k),
    ) is None
}

/// Every square strictly between `from` and `to` is empty.
pub open spec fn path_clear(m: GridModel, from: Pos, to: Pos) -> bool {
    forall|k: int| 0 < k < line_len(from, to) ==> #[trigger] path_square_empty(m, from, to, k)
}

/// Rank direction in which pawns of a colour advance.
pub open spec fn pawn_dir(c: Color) -> int {
    match c {
        Color::White => -1,
        Color::Black => 1,
    }
}

pub open spec fn pawn_start_rank(c: Color) -> int {
    match c {
        Color::White => 6,
        Color::Black => 1,
    }
}

/// The rank on which a pawn of this colour promotes.
pub open spec fn promotion_rank(c: Color) -> int {
    match c {
        Color::White => 0,
        Color::Black => 7,
    }
}

/// The back rank on which the king and rooks of a colour start.
pub open spec fn home_rank(c: Color) -> int {
    match c {
        Color::White => 7,
        Color::Black => 0,
    }
}

pub open spec fn pawn_rule(m: GridModel, ep: Option<Pos>, color: Color, from: Pos, to: Pos) -> bool {
    let dir = pawn_dir(color);
    let dr = rank_diff(from, to);
    let df = file_diff(from, to);
    if df == 0 && dr == dir {
        cell(m, to.0 as int, to.1 as int) is None
    } else if df == 0 && from.0 == pawn_start_rank(color) && dr == 2 * dir {
        cell(m, from.0 + dir, from.1 as int) is None && cell(m, to.0 as int, to.1 as int) is None
    } else if dr == dir && abs(df) == 1 {
        match cell(m, to.0 as int, to.1 as int) {
            Some(t) => t.spec_color() != color,
            None => ep == Some(to),
        }
    } else {
        false
    }
}

pub open spec fn knight_rule(from: Pos, to: Pos) -> bool {
    let dr = abs(rank_diff(from, to));
    let df = abs(file_diff(from, to));
    (dr == 2 && df == 1) || (dr == 1 && df == 2)
}

pub open spec fn bishop_rule(m: GridModel, from: Pos, to: Pos) -> bool {
    abs(rank_diff(from, to)) == abs(file_diff(from, to)) && path_clear(m, from, to)
}

pub open spec fn rook_rule(m: GridModel, from: Pos, to: Pos) -> bool {
    (from.0 == to.0 || from.1 == to.1) && path_clear(m, from, to)
}

pub open spec fn queen_rule(m: GridModel, from: Pos, to: Pos) -> bool {
    rook_rule(m, from, to) || bishop_rule(m, from, to)
}

pub open spec fn king_step(from: Pos, to: Pos) -> bool {
    abs(rank_diff(from, to)) <= 1 && abs(file_diff(from, to)) <= 1
}

/// How a piece attacks an occupied square: its movement rule, where a king
/// reaches only adjacent squares (castling never lands on an occupied square).
pub open spec fn attack_rule(m: GridModel, p: PieceKind, from: Pos, to: Pos) -> bool {
    match p.spec_type() {
        PieceType::Pawn => pawn_rule(m, None, p.spec_color(), from, to),
        PieceType::Knight => knight_rule(from, to),
        PieceType::Bishop => bishop_rule(m, from, to),
        PieceType::Rook => rook_rule(m, from, to),
        PieceType::Queen => queen_rule(m, from, to),
        PieceType::King => king_step(from, to),
    }
}

pub open spec fn is_king_of(o: Option<PieceKind>, color: Color) -> bool {
    match o {
        Some(p) => p.spec_type() == PieceType::King && p.spec_color() == color,
        None => false,
    }
}

/// The first king of `color` at or after (r, f) in rank-major order.
pub open spec fn find_king_from(m: GridModel, color: Color, r: int, f: int) -> Option<Pos>
    decreases 8 - r, 8 - f,
{
    if r < 0 || r >= 8 || f < 0 {
        None
    } else if f >= 8 {
        find_king_from(m, color, r + 1, 0)
    } else if is_king_of(cell(m, r, f), color) {
        Some((r as usize, f as usize))
    } else {
        find_king_from(m, color, r, f + 1)
    }
}

/// The first king of `color` in rank-major order, if any.
pub open spec fn find_king(m: GridModel, color: Color) -> Option<Pos> {
    find_king_from(m, color, 0, 0)
}

/// A piece of the other colour on (r, f) attacks `target`.
pub open spec fn attacker_at(m: GridModel, color: Color, r: int, f: int, target: Pos) -> bool {
    match cell(m, r, f) {
        Some(a) => a.spec_color() != color && attack_rule(m, a, (r as usize, f as usize), target),
        None => false,
    }
}

/// Some piece of the colour other than `color` attacks `target`.
pub open spec fn attacked_by_other(m: GridModel, color: Color, target: Pos) -> bool {
    exists|r: int, f: int| in_bounds(r, f) && #[trigger] attacker_at(m, color, r, f, target)
}

/// The king of `color` is attacked; false when there is no such king.
pub open spec fn in_check(m: GridModel, color: Color) -> bool {
    match find_king(m, color) {
        None => false,
        Some(k) => attacked_by_other(m, color, k),
    }
}

/// One step from `x` toward `target`.
fn step_toward(x: usize, target: usize) -> (r: usize)
    requires
        x < 8,
        target < 8,
    ensures
        r == x + sign(target - x),
{
    if x < target {
        x + 1
    } else if x > target {
        x - 1
    } else {
        x
    }
}

fn cell_at(g: &Grid, r: usize, f: usize) -> (o: Option<PieceKind>)
    requires
        r < 8,
        f < 8,
    ensures
        o == cell(grid_view(*g), r as int, f as int),
{
    g[r][f].piece
}

/// Whether every square strictly between two aligned squares is empty.
pub fn grid_path_clear(g: &Grid, from: Pos, to: Pos) -> (res: bool)
    requires
        in_bounds(from.0 as int, from.1 as int),
        in_bounds(to.0 as int, to.1 as int),
        aligned(from, to),
    ensures
        res == path_clear(grid_view(*g), from, to),
{
    let ghost m = grid_view(*g);
    let ghost n = line_len(from, to);
    let ghost sr = sign(rank_diff(from, to));
    let ghost sf = sign(file_diff(from, to));
    if from.0 == to.0 && from.1 == to.1 {
        return true;
    }
    let mut r = step_toward(from.0, to.0);
    let mut f = step_toward(from.1, to.1);
    let ghost mut k: int = 1;
    while r != to.0 || f != to.1
        invariant
            1 <= k <= n,
            n == line_len(from, to),
            r == from.0 + step(sr, k),
            f == from.1 + step(sf, k),
            sr == sign(rank_diff(from, to)),
            sf == sign(file_diff(from, to)),
            in_bounds(from.0 as int, from.1 as int),
            in_bounds(to.0 as int, to.1 as int),
            aligned(from, to),
            m == grid_view(*g),
            forall|j: int| 0 < j < k ==> #[trigger] path_square_empty(m, from, to, j),
        decreases n - k,
    {
        if cell_at(g, r, f).is_some() {
            assert(!path_square_empty(m, from, to, k));
            return false;
        }
        assert(path_square_empty(m, from, to, k));
        r = step_toward(r, to.0);
        f = step_toward(f, to.1);
        proof {
            k = k + 1;
        }
    }
    true
}

fn abs_diff(a: usize, b: usize) -> (r: usize)
    ensures
        r == abs(b - a),
{
    if a < b {
        b - a
    } else {
        a - b
    }
}

fn same_pos(a: Pos, b: Pos) -> (r: bool)
    ensures
        r == (a == b),
{
    a.0 == b.0 && a.1 == b.1
}

/// The pawn movement rule on a grid with the given en-passant target.
pub fn grid_pawn_move(g: &Grid, ep: Option<Pos>, color: Color, from: Pos, to: Pos) -> (res: bool)
    requires
        in_bounds(from.0 as int, from.1 as int),
        in_bounds(to.0 as int, to.1 as int),
    ensures
        res == pawn_rule(grid_view(*g), ep, color, from, to),
{
    let dir: isize = match color {
        Color::White => -1,
        Color::Black => 1,
    };
    let start: usize = match color {
        Color::White => 6,
        Color::Black => 1,
    };
    let dr: isize = to.0 as isize - from.0 as isize;
    let df: isize = to.1 as isize - from.1 as isize;
    if df == 0 && dr == dir {
        return cell_at(g, to.0, to.1).is_none();
    }
    if df == 0 && from.0 == start && dr == 2 * dir {
        let mid = (from.0 as isize + dir) as usize;
        return cell_at(g, mid, from.1).is_none() && cell_at(g, to.0, to.1).is_none();
    }
    if dr == dir && (df == 1 || df == -1) {
        match cell_at(g, to.0, to.1) {
            Some(t) => {
                return t.color() != color;
            },
            None => {
                return match ep {
                    Some(e) => same_pos(e, to),
                    None => false,
                };
            },
        }
    }
    false
}

pub fn grid_knight_move(from: Pos, to: Pos) -> (res: bool)
    ensures
        res == knight_rule(from, to),
{
    let dr = abs_diff(from.0, to.0);
    let df = abs_diff(from.1, to.1);
    (dr == 2 && df == 1) || (dr == 1 && df == 2)
}

pub fn grid_bishop_move(g: &Grid, from: Pos, to: Pos) -> (res: bool)
    requires
        in_bounds(from.0 as int, from.1 as int),
        in_bounds(to.0 as int, to.1 as int),
    ensures
        res == bishop_rule(grid_view(*g), from, to),
{
    if abs_diff(from.0, to.0) == abs_diff(from.1, to.1) {
        return grid_path_clear(g, from, to);
    }
    false
}

pub fn grid_rook_move(g: &Grid, from: Pos, to: Pos) -> (res: bool)
    requires
        in_bounds(from.0 as int, from.1 as int),
        in_bounds(to.0 as int, to.1 as int),
    ensures
        res == rook_rule(grid_view(*g), from, to),
{
    if from.0 == to.0 || from.1 == to.1 {
        return grid_path_clear(g, from, to);
    }
    false
}

pub fn grid_queen_move(g: &Grid, from: Pos, to: Pos) -> (res: bool)
    requires
        in_bounds(from.0 as int, from.1 as int),
        in_bounds(to.0 as int, to.1 as int),
    ensures
        res == queen_rule(grid_view(*g), from, to),
{
    grid_rook_move(g, from, to) || grid_bishop_move(g, from, to)
}

fn grid_king_step(from: Pos, to: Pos) -> (res: bool)
    ensures
        res == king_step(from, to),
{
    abs_diff(from.0, to.0) <= 1 && abs_diff(from.1, to.1) <= 1
}

/// Whether piece `p` standing on `from` attacks the (occupied) square `to`.
pub fn grid_attacks(g: &Grid, p: PieceKind, from: Pos, to: Pos) -> (res: bool)
    requires
        in_bounds(from.0 as int, from.1 as int),
        in_bounds(to.0 as int, to.1 as int),
    ensures
        res == attack_rule(grid_view(*g), p, from, to),
{
    match p.to_type() {
        PieceType::Pawn => grid_pawn_move(g, None, p.color(), from, to),
        PieceType::Knight => grid_knight_move(from, to),
        PieceType::Bishop => grid_bishop_move(g, from, to),
        PieceType::Rook => grid_rook_move(g, from, to),
        PieceType::Queen => grid_queen_move(g, from, to),
        PieceType::King => grid_king_step(from, to),
    }
}

/// A king that `find_king_from` returns stands on the board.
pub proof fn lemma_find_king_from(m: GridModel, color: Color, r: int, f: int)
    ensures
        match find_king_from(m, color, r, f) {
            Some(k) => in_bounds(k.0 as int, k.1 as int) && is_king_of(
                cell(m, k.0 as int, k.1 as int),
                color,
            ),
            None => true,
        },
    decreases 8 - r, 8 - f,
{
    if r < 0 || r >= 8 || f < 0 {
    } else if f >= 8 {
        lemma_find_king_from(m, color, r + 1, 0);
    } else if is_king_of(cell(m, r, f), color) {
    } else {
        lemma_find_king_from(m, color, r, f + 1);
    }
}

/// The first king of `color` in rank-major order.
pub fn grid_find_king(g: &Grid, color: Color) -> (res: Option<Pos>)
    ensures
        res == find_king(grid_view(*g), color),
        match res {
            Some(k) => in_bounds(k.0 as int, k.1 as int),
            None => true,
        },
{
    let ghost m = grid_view(*g);
    proof {
        lemma_find_king_from(m, color, 0, 0);
    }
    let mut r: usize = 0;
    while r < 8
        invariant
            r <= 8,
            m == grid_view(*g),
            find_king(m, color) == find_king_from(m, color, r as int, 0),
        decreases 8 - r,
    {
        let mut f: usize = 0;
        while f < 8
            invariant
                r < 8,
                f <= 8,
                m == grid_view(*g),
                find_king(m, color) == find_king_from(m, color, r as int, f as int),
            decreases 8 - f,
        {
            if let Some(p) = cell_at(g, r, f) {
                if p.to_type() == PieceType::King && p.color() == color {
                    return Some((r, f));
                }
            }
            f = f + 1;
        }
        r = r + 1;
    }
    None
}

/// Whether the king of `color` is attacked on this grid (false without a king).
pub fn grid_in_check(g: &Grid, color: Color) -> (res: bool)
    ensures
        res == in_check(grid_view(*g), color),
{
    let ghost m = grid_view(*g);
    let king_pos = match grid_find_king(g, color) {
        Some(pos) => pos,
        None => return false,
    };
    let mut r: usize = 0;
    while r < 8
        invariant
            r <= 8,
            m == grid_view(*g),
            find_king(m, color) == Some(king_pos),
            in_bounds(king_pos.0 as int, king_pos.1 as int),
            forall|a: int, b: int|
                0 <= a < r && 0 <= b < 8 ==> !#[trigger] attacker_at(m, color, a, b, king_pos),
        decreases 8 - r,
    {
        let mut f: usize = 0;
        while f < 8
            invariant
                r < 8,
                f <= 8,
                m == grid_view(*g),
                find_king(m, color) == Some(king_pos),
                in_bounds(king_pos.0 as int, king_pos.1 as int),
                forall|a: int, b: int|
                    0 <= a < r && 0 <= b < 8 ==> !#[trigger] attacker_at(m, color, a, b, king_pos),
                forall|b: int| 0 <= b < f ==> !#[trigger] attacker_at(m, color, r as int, b, king_pos),
            decreases 8 - f,
        {
            if let Some(a) = cell_at(g, r, f) {
                if a.color() != color && grid_attacks(g, a, (r, f), king_pos) {
                    assert(attacker_at(m, color, r as int, f as int, king_pos));
                    assert(attacked_by_other(m, color, king_pos));
                    return true;
                }
            }
            f = f + 1;
        }
        r = r + 1;
    }
    false
}

/// The grid with the king on (row, 4) placed on (row, file) and its home square emptied.
pub open spec fn transit(m: GridModel, row: int, file: int) -> GridModel {
    put(put(m, row, file, cell(m, row, 4)), row, 4, None)
}

pub open spec fn kingside_rights(fl: Flags, c: Color) -> bool {
    match c {
        Color::White => !fl.has_white_king_moved && !fl.has_white_kingside_rook_moved,
        Color::Black => !fl.has_black_king_moved && !fl.has_black_kingside_rook_moved,
    }
}

pub open spec fn queenside_rights(fl: Flags, c: Color) -> bool {
    match c {
        Color::White => !fl.has_white_king_moved && !fl.has_white_queenside_rook_moved,
        Color::Black => !fl.has_black_king_moved && !fl.has_black_queenside_rook_moved,
    }
}

/// Castling: a king moving two files along its home rank, with the king and
/// rook unmoved, the squares between them empty, the king not in check, and
/// neither the square it crosses nor the one it lands on attacked (its own
/// square is covered by the king not being in check).
pub open spec fn castle_rule(m: GridModel, fl: Flags, from: Pos, to: Pos) -> bool {
    match cell(m, from.0 as int, from.1 as int) {
        None => false,
        Some(p) => {
            let c = p.spec_color();
            let row = home_rank(c);
            &&& from.0 == row
            &&& to.0 == row
            &&& !in_check(m, c)
            &&& {
                ||| {
                    &&& from.1 == 4 && to.1 == 6
                    &&& kingside_rights(fl, c)
                    &&& cell(m, row, 5) is None && cell(m, row, 6) is None
                    &&& !in_check(transit(m, row, 5), c)
                    &&& !in_check(transit(m, row, 6), c)
                }
                ||| {
                    &&& from.1 == 4 && to.1 == 2
                    &&& queenside_rights(fl, c)
                    &&& cell(m, row, 3) is None && cell(m, row, 2) is None && cell(m, row, 1) is None
                    &&& !in_check(transit(m, row, 3), c)
                    &&& !in_check(transit(m, row, 2), c)
                }
            }
        },
    }
}

/// The movement rule of piece `p` from `from` to `to`.
pub open spec fn piece_rule(
    m: GridModel,
    ep: Option<Pos>,
    fl: Flags,
    p: PieceKind,
    from: Pos,
    to: Pos,
) -> bool {
    match p.spec_type() {
        PieceType::Pawn => pawn_rule(m, ep, p.spec_color(), from, to),
        PieceType::Knight => knight_rule(from, to),
        PieceType::Bishop => bishop_rule(m, from, to),
        PieceType::Rook => rook_rule(m, from, to),
        PieceType::Queen => queen_rule(m, from, to),
        PieceType::King => king_step(from, to) || castle_rule(m, fl, from, to),
    }
}

/// Replaces what a square of a grid holds.
pub fn grid_put(g: &mut Grid, r: usize, f: usize, v: Option<PieceKind>)
    requires
        r < 8,
        f < 8,
    ensures
        grid_view(*final(g)) == put(grid_view(*old(g)), r as int, f as int, v),
{
    let mut row = g[r];
    row[f] = crate::board::Square { piece: v };
    g[r] = row;
    assert(grid_view(*g) =~~= put(grid_view(*old(g)), r as int, f as int, v));
}

/// Whether the king on (row, 4) would be in check standing on (row, file).
fn transit_in_check(g: &Grid, row: usize, file: usize, color: Color) -> (res: bool)
    requires
        row < 8,
        file < 8,
    ensures
        res == in_check(transit(grid_view(*g), row as int, file as int), color),
{
    let mut clone = *g;
    let king = cell_at(g, row, 4);
    grid_put(&mut clone, row, file, king);
    grid_put(&mut clone, row, 4, None);
    grid_in_check(&clone, color)
}

impl Board {
    pub fn is_valid_piece_move(&self, piece: PieceKind, from: Pos, to: Pos) -> (res: bool)
        requires
            in_bounds(from.0 as int, from.1 as int),
            in_bounds(to.0 as int, to.1 as int),
        ensures
            res == piece_rule(self.model(), self.en_passant_target, self.flags, piece, from, to),
    {
        match piece.to_type() {
            PieceType::Pawn => self.validate_pawn_move(piece.color(), from, to),
            PieceType::Knight => self.validate_knight_move(from, to),
            PieceType::Bishop => self.validate_bishop_move(from, to),
            PieceType::Rook => self.validate_rook_move(from, to),
            PieceType::Queen => self.validate_queen_move(from, to),
            PieceType::King => self.validate_king_move(from, to),
        }
    }

    pub fn validate_pawn_move(&self, color: Color, from: Pos, to: Pos) -> (res: bool)
        requires
            in_bounds(from.0 as int, from.1 as int),
            in_bounds(to.0 as int, to.1 as int),
        ensures
            res == pawn_rule(self.model(), self.en_passant_target, color, from, to),
    {
        grid_pawn_move(&self.squares, self.en_passant_target, color, from, to)
    }

    pub fn validate_knight_move(&self, from: Pos, to: Pos) -> (res: bool)
        ensures
            res == knight_rule(from, to),
    {
        grid_knight_move(from, to)
    }

    pub fn validate_bishop_move(&self, from: Pos, to: Pos) -> (res: bool)
        requires
            in_bounds(from.0 as int, from.1 as int),
            in_bounds(to.0 as int, to.1 as int),
        ensures
            res == bishop_rule(self.model(), from, to),
    {
        grid_bishop_move(&self.squares, from, to)
    }

    pub fn validate_rook_move(&self, from: Pos, to: Pos) -> (res: bool)
        requires
            in_bounds(from.0 as int, from.1 as int),
            in_bounds(to.0 as int, to.1 as int),
        ensures
            res == rook_rule(self.model(), from, to),
    {
        grid_rook_move(&self.squares, from, to)
    }

    pub fn validate_queen_move(&self, from: Pos, to: Pos) -> (res: bool)
        requires
            in_bounds(from.0 as int, from.1 as int),
            in_bounds(to.0 as int, to.1 as int),
        ensures
            res == queen_rule(self.model(), from, to),
    {
        self.validate_rook_move(from, to) || self.validate_bishop_move(from, to)
    }

    /// A step to an adjacent square, or castling; the colour is read from the
    /// piece on `from`, and a longer move from an empty square is refused.
    pub fn validate_king_move(&self, from: Pos, to: Pos) -> (res: bool)
        requires
            in_bounds(from.0 as int, from.1 as int),
            in_bounds(to.0 as int, to.1 as int),
        ensures
            res == (king_step(from, to) || castle_rule(self.model(), self.flags, from, to)),
    {
        let (fr, ff) = from;
        let (tr, tf) = to;
        if abs_diff(fr, tr) <= 1 && abs_diff(ff, tf) <= 1 {
            return true;
        }
        let color = match self.piece_at(from) {
            Some(p) => p.color(),
            None => return false,
        };
        let row: usize = match color {
            Color::White => 7,
            Color::Black => 0,
        };
        if fr != row || tr != row || self.is_in_check(color) {
            return false;
        }
        if ff == 4 && tf == 6 {
            let can_castle = match color {
                Color::White => !self.flags.has_white_king_moved
                    && !self.flags.has_white_kingside_rook_moved,
                Color::Black => !self.flags.has_black_king_moved
                    && !self.flags.has_black_kingside_rook_moved,
            };
            if !can_castle {
                return false;
            }
            if self.piece_at((row, 5)).is_some() || self.piece_at((row, 6)).is_some() {
                return false;
            }
            let g = &self.squares;
            return !(transit_in_check(g, row, 5, color) || transit_in_check(g, row, 6, color));
        }
        if ff == 4 && tf == 2 {
            let can_castle = match color {
                Color::White => !self.flags.has_white_king_moved
                    && !self.flags.has_white_queenside_rook_moved,
                Color::Black => !self.flags.has_black_king_moved
                    && !self.flags.has_black_queenside_rook_moved,
            };
            if !can_castle {
                return false;
            }
            if self.piece_at((row, 3)).is_some() || self.piece_at((row, 2)).is_some()
                || self.piece_at((row, 1)).is_some() {
                return false;
            }
            let g = &self.squares;
            return !(transit_in_check(g, row, 3, color) || transit_in_check(g, row, 2, color));
        }
        false
    }

    /// Whether every square strictly between two aligned squares is empty.
    pub fn is_path_clear(&self, from: Pos, to: Pos) -> (res: bool)
        requires
            in_bounds(from.0 as int, from.1 as int),
            in_bounds(to.0 as int, to.1 as int),
            aligned(from, to),
        ensures
            res == path_clear(self.model(), from, to),
    {
        grid_path_clear(&self.squares, from, to)
    }

    /// Whether the king of `color` is attacked; false when it has no king.
    pub fn is_in_check(&self, color: Color) -> (res: bool)
        ensures
            res == in_check(self.model(), color),
    {
        grid_in_check(&self.squares, color)
    }

    /// Whether the piece on `from` (if any) may move to `to` by its rules.
    pub fn can_attack_square(&self, from: Pos, to: Pos) -> (res: bool)
        requires
            in_bounds(from.0 as int, from.1 as int),
            in_bounds(to.0 as int, to.1 as int),
        ensures
            res == match self.spec_piece_at(from) {
                Some(p) => piece_rule(self.model(), self.en_passant_target, self.flags, p, from, to),
                None => false,
            },
    {
        if let Some(piece) = self.piece_at(from) {
            self.is_valid_piece_move(piece, from, to)
        } else {
            false
        }
    }

    pub fn find_king(&self, color: Color) -> (res: Option<Pos>)
        ensures
            res == find_king(self.model(), color),
    {
        grid_find_king(&self.squares, color)
    }
}

/// A pawn of the colour other than `c`.
pub open spec fn opposing_pawn(o: Option<PieceKind>, c: Color) -> bool {
    match o {
        Some(q) => q.spec_type() == PieceType::Pawn && q.spec_color() != c,
        None => false,
    }
}

/// The square of a pawn taken en passant by a move of `p`: a pawn moving
/// diagonally forward onto the empty en-passant target takes the opposing
/// pawn beside it, on its own rank in the target's file.
pub open spec fn ep_square(m: GridModel, ep: Option<Pos>, from: Pos, to: Pos, p: PieceKind) -> Option<
    Pos,
> {
    if p.spec_type() == PieceType::Pawn && ep == Some(to) && abs(file_diff(from, to)) == 1
        && rank_diff(from, to) == pawn_dir(p.spec_color()) && cell(m, to.0 as int, to.1 as int) is None
        && opposing_pawn(cell(m, from.0 as int, to.1 as int), p.spec_color()) {
        Some((from.0, to.1))
    } else {
        None
    }
}

/// The rook's squares (from, to) when this is a king's castling move from its home square.
pub open spec fn castle_rook(from: Pos, to: Pos, p: PieceKind) -> Option<(Pos, Pos)> {
    let row = home_rank(p.spec_color());
    if p.spec_type() == PieceType::King && from.0 == row && from.1 == 4 && to.0 == row {
        if to.1 == 6 {
            Some(((from.0, 7usize), (from.0, 5usize)))
        } else if to.1 == 2 {
            Some(((from.0, 0usize), (from.0, 3usize)))
        } else {
            None
        }
    } else {
        None
    }
}

/// The grid after `p` moves from `from` to `to` and `placed` lands there:
/// the pawn taken en passant is removed, a castling rook is relocated, then
/// the piece is moved.
pub open spec fn moved_grid(
    m: GridModel,
    ep: Option<Pos>,
    from: Pos,
    to: Pos,
    p: PieceKind,
    placed: PieceKind,
) -> GridModel {
    let m1 = match ep_square(m, ep, from, to, p) {
        Some(s) => put(m, s.0 as int, s.1 as int, None),
        None => m,
    };
    let m2 = match castle_rook(from, to, p) {
        Some((rf, rt)) => match cell(m1, rf.0 as int, rf.1 as int) {
            Some(rook) => put(put(m1, rt.0 as int, rt.1 as int, Some(rook)), rf.0 as int, rf.1 as int, None),
            None => m1,
        },
        None => m1,
    };
    put(put(m2, to.0 as int, to.1 as int, Some(placed)), from.0 as int, from.1 as int, None)
}

/// The en-passant capture square of a move on a grid (see `ep_square`).
pub fn grid_ep_square(g: &Grid, ep: Option<Pos>, from: Pos, to: Pos, piece: PieceKind) -> (res:
    Option<Pos>)
    requires
        in_bounds(from.0 as int, from.1 as int),
        in_bounds(to.0 as int, to.1 as int),
    ensures
        res == ep_square(grid_view(*g), ep, from, to, piece),
{
    if piece.to_type() != PieceType::Pawn {
        return None;
    }
    let dir: isize = match piece.color() {
        Color::White => -1,
        Color::Black => 1,
    };
    let dr: isize = to.0 as isize - from.0 as isize;
    let df: isize = to.1 as isize - from.1 as isize;
    match ep {
        Some((ep_rank, ep_file)) => {
            if to.0 == ep_rank && to.1 == ep_file && (df == 1 || df == -1) && dr == dir && cell_at(
                g,
                to.0,
                to.1,
            ).is_none() {
                match cell_at(g, from.0, to.1) {
                    Some(q) => {
                        if q.to_type() == PieceType::Pawn && q.color() != piece.color() {
                            Some((from.0, to.1))
                        } else {
                            None
                        }
                    },
                    None => None,
                }
            } else {
                None
            }
        },
        None => None,
    }
}

/// The castling rook's squares for a move of `piece` (see `castle_rook`).
pub fn castling_rook_squares(from: Pos, to: Pos, piece: PieceKind) -> (res: Option<(Pos, Pos)>)
    ensures
        res == castle_rook(from, to, piece),
{
    if piece.to_type() != PieceType::King {
        return None;
    }
    let row: usize = match piece.color() {
        Color::White => 7,
        Color::Black => 0,
    };
    if from.0 != row || from.1 != 4 || to.0 != row {
        return None;
    }
    if to.1 == 6 {
        Some(((row, 7), (row, 5)))
    } else if to.1 == 2 {
        Some(((row, 0), (row, 3)))
    } else {
        None
    }
}

/// Performs a move on a grid as `moved_grid` describes it.
fn grid_move(g: &mut Grid, ep: Option<Pos>, from: Pos, to: Pos, piece: PieceKind, placed: PieceKind)
    requires
        in_bounds(from.0 as int, from.1 as int),
        in_bounds(to.0 as int, to.1 as int),
    ensures
        grid_view(*final(g)) == moved_grid(grid_view(*old(g)), ep, from, to, piece, placed),
{
    if let Some(s) = grid_ep_square(g, ep, from, to, piece) {
        grid_put(g, s.0, s.1, None);
    }
    if let Some((rf, rt)) = castling_rook_squares(from, to, piece) {
        if let Some(rook) = cell_at(g, rf.0, rf.1) {
            grid_put(g, rt.0, rt.1, Some(rook));
            grid_put(g, rf.0, rf.1, None);
        }
    }
    grid_put(g, to.0, to.1, Some(placed));
    grid_put(g, from.0, from.1, None);
}

/// The grid after a hypothetical move of the piece on `from` to `to`, made by
/// the executor's rules (en-passant removal, rook relocation, promotion, with
/// the executor's promotion checks); the move must satisfy the piece's rule
/// and must not capture a piece of its own colour.
pub open spec fn simulate(
    m: GridModel,
    ep: Option<Pos>,
    fl: Flags,
    from: Pos,
    to: Pos,
    promotion: Option<PieceKind>,
) -> Result<GridModel, MoveError> {
    match cell(m, from.0 as int, from.1 as int) {
        None => Err(MoveError::NoPieceAtSource),
        Some(p) => {
            if !in_bounds(to.0 as int, to.1 as int) {
                Err(MoveError::InvalidPosition)
            } else if !piece_rule(m, ep, fl, p, from, to) {
                Err(MoveError::InvalidPieceMove)
            } else if cell(m, to.0 as int, to.1 as int) is Some && cell(
                m,
                to.0 as int,
                to.1 as int,
            )->Some_0.spec_color() == p.spec_color() {
                Err(MoveError::SelfCapture)
            } else if p.spec_type() == PieceType::Pawn && to.0 == promotion_rank(p.spec_color()) {
                match promotion {
                    None => Err(MoveError::PromotionRequired),
                    Some(q) => if q.spec_color() == p.spec_color()
                        && q.spec_type().is_promotion_choice() {
                        Ok(moved_grid(m, ep, from, to, p, q))
                    } else {
                        Err(MoveError::InvalidPromotionPiece)
                    },
                }
            } else if promotion is Some {
                Err(MoveError::InvalidPromotionPiece)
            } else {
                Ok(moved_grid(m, ep, from, to, p, p))
            }
        },
    }
}

/// The outcome of testing a move: the simulation's error, or
/// `MoveLeavesKingInCheck` when the mover's king is attacked afterwards.
pub open spec fn check_move(
    m: GridModel,
    ep: Option<Pos>,
    fl: Flags,
    from: Pos,
    to: Pos,
    promotion: Option<PieceKind>,
) -> Result<(), MoveError> {
    match simulate(m, ep, fl, from, to, promotion) {
        Err(e) => Err(e),
        Ok(m2) => if in_check(m2, cell(m, from.0 as int, from.1 as int)->Some_0.spec_color()) {
            Err(MoveError::MoveLeavesKingInCheck)
        } else {
            Ok(())
        },
    }
}

pub open spec fn move_legal(
    m: GridModel,
    ep: Option<Pos>,
    fl: Flags,
    from: Pos,
    to: Pos,
    promotion: Option<PieceKind>,
) -> bool {
    check_move(m, ep, fl, from, to, promotion) is Ok
}

/// The promotion tried when scanning for a legal move: a queen of the pawn's
/// colour for a pawn reaching its last rank, none otherwise. (Which of the
/// four promotion pieces is chosen does not change legality.)
pub open spec fn scan_promotion(p: PieceKind, to: Pos) -> Option<PieceKind> {
    if p.spec_type() == PieceType::Pawn && to.0 == promotion_rank(p.spec_color()) {
        Some(piece_of(PieceType::Queen, p.spec_color()))
    } else {
        None
    }
}

/// A piece of `color` on (fr, ff) may legally move to another square (tr, tf),
/// promoting as `scan_promotion` says.
pub open spec fn legal_candidate(
    m: GridModel,
    ep: Option<Pos>,
    fl: Flags,
    color: Color,
    fr: int,
    ff: int,
    tr: int,
    tf: int,
) -> bool {
    &&& in_bounds(fr, ff) && in_bounds(tr, tf)
    &&& (fr != tr || ff != tf)
    &&& cell(m, fr, ff) is Some
    &&& cell(m, fr, ff)->Some_0.spec_color() == color
    &&& move_legal(
        m,
        ep,
        fl,
        (fr as usize, ff as usize),
        (tr as usize, tf as usize),
        scan_promotion(cell(m, fr, ff)->Some_0, (tr as usize, tf as usize)),
    )
}

pub open spec fn any_legal(m: GridModel, ep: Option<Pos>, fl: Flags, color: Color) -> bool {
    exists|fr: int, ff: int, tr: int, tf: int| #[trigger]
        legal_candidate(m, ep, fl, color, fr, ff, tr, tf)
}

impl Board {
    pub open spec fn spec_simulate(&self, from: Pos, to: Pos, promotion: Option<PieceKind>) -> Result<
        GridModel,
        MoveError,
    > {
        simulate(self.model(), self.en_passant_target, self.flags, from, to, promotion)
    }

    pub open spec fn spec_move_legal(&self, from: Pos, to: Pos, promotion: Option<PieceKind>) -> bool {
        move_legal(self.model(), self.en_passant_target, self.flags, from, to, promotion)
    }

    fn simulate_grid(&self, from: Pos, to: Pos, promotion: Option<PieceKind>) -> (res: Result<
        Grid,
        MoveError,
    >)
        ensures
            match res {
                Ok(g) => self.spec_simulate(from, to, promotion) == Ok::<GridModel, MoveError>(
                    grid_view(g),
                ),
                Err(e) => self.spec_simulate(from, to, promotion) == Err::<GridModel, MoveError>(e),
            },
    {
        let piece = match self.piece_at(from) {
            Some(p) => p,
            None => return Err(MoveError::NoPieceAtSource),
        };
        if !Board::is_valid_pos(to) {
            return Err(MoveError::InvalidPosition);
        }
        if !self.is_valid_piece_move(piece, from, to) {
            return Err(MoveError::InvalidPieceMove);
        }
        if let Some(target) = self.piece_at(to) {
            if target.color() == piece.color() {
                return Err(MoveError::SelfCapture);
            }
        }
        let promotion_rank: usize = match piece.color() {
            Color::White => 0,
            Color::Black => 7,
        };
        let placed = if piece.to_type() == PieceType::Pawn && to.0 == promotion_rank {
            let promo_piece = match promotion {
                Some(p) => p,
                None => return Err(MoveError::PromotionRequired),
            };
            let allowed = match promo_piece.to_type() {
                PieceType::Queen | PieceType::Rook | PieceType::Bishop | PieceType::Knight => true,
                _ => false,
            };
            if promo_piece.color() != piece.color() || !allowed {
                return Err(MoveError::InvalidPromotionPiece);
            }
            promo_piece
        } else {
            if promotion.is_some() {
                return Err(MoveError::InvalidPromotionPiece);
            }
            piece
        };
        let mut clone = self.squares;
        grid_move(&mut clone, self.en_passant_target, from, to, piece, placed);
        Ok(clone)
    }

    /// The position after a hypothetical move, leaving this one untouched.
    pub fn simulate_move(&self, from: Pos, to: Pos, promotion: Option<PieceKind>) -> (res: Result<
        Board,
        MoveError,
    >)
        ensures
            match res {
                Ok(b) => {
                    &&& self.spec_simulate(from, to, promotion) == Ok::<GridModel, MoveError>(
                        b.model(),
                    )
                    &&& b.state == self.state
                    &&& b.en_passant_target == self.en_passant_target
                    &&& b.flags == self.flags
                    &&& b.halfmove_clock == self.halfmove_clock
                    &&& b.position_history@ == self.position_history@
                    &&& b.moves@ == self.moves@
                    &&& b.players.white.captures@ == self.players.white.captures@
                    &&& b.players.white.score == self.players.white.score
                    &&& b.players.black.captures@ == self.players.black.captures@
                    &&& b.players.black.score == self.players.black.score
                },
                Err(e) => self.spec_simulate(from, to, promotion) == Err::<GridModel, MoveError>(e),
            },
    {
        let squares = self.simulate_grid(from, to, promotion)?;
        let moves = self.moves.clone();
        assert(moves@ =~= self.moves@);
        let white = self.players.white.captures.clone();
        assert(white@ =~= self.players.white.captures@);
        let black = self.players.black.captures.clone();
        assert(black@ =~= self.players.black.captures@);
        let players = Players {
            white: Player { captures: white, score: self.players.white.score },
            black: Player { captures: black, score: self.players.black.score },
        };
        Ok(
            Board {
                squares,
                state: self.state,
                players,
                en_passant_target: self.en_passant_target,
                flags: self.flags,
                halfmove_clock: self.halfmove_clock,
                position_history: self.position_history.clone(),
                moves,
            },
        )
    }

    /// Tests a move on a copy of the grid: it must be a valid move of the
    /// piece and must not leave the mover's king in check.
    pub fn simulate_move_checked(&self, from: Pos, to: Pos, promotion: Option<PieceKind>) -> (res:
        Result<(), MoveError>)
        ensures
            res == check_move(
                self.model(),
                self.en_passant_target,
                self.flags,
                from,
                to,
                promotion,
            ),
    {
        let new_grid = self.simulate_grid(from, to, promotion)?;
        let color = match self.piece_at(from) {
            Some(p) => p.color(),
            None => return Err(MoveError::NoPieceAtSource),
        };
        if grid_in_check(&new_grid, color) {
            return Err(MoveError::MoveLeavesKingInCheck);
        }
        Ok(())
    }

    pub fn is_move_legal(&self, from: Pos, to: Pos, promotion: Option<PieceKind>) -> (res: bool)
        ensures
            res == self.spec_move_legal(from, to, promotion),
    {
        self.simulate_move_checked(from, to, promotion).is_ok()
    }

    /// Whether some piece of `color` has a legal move (a pawn reaching its last
    /// rank is tested promoting to a queen).
    pub fn any_legal_move(&self, color: Color) -> (res: bool)
        ensures
            res == any_legal(self.model(), self.en_passant_target, self.flags, color),
    {
        let ghost m = self.model();
        let ghost ep = self.en_passant_target;
        let ghost fl = self.flags;
        let mut from_r: usize = 0;
        while from_r < 8
            invariant
                from_r <= 8,
                m == self.model() && ep == self.en_passant_target && fl == self.flags,
                forall|a: int, b: int, c: int, d: int|
                    a < from_r ==> !#[trigger] legal_candidate(m, ep, fl, color, a, b, c, d),
            decreases 8 - from_r,
        {
            let mut from_f: usize = 0;
            while from_f < 8
                invariant
                    from_r < 8 && from_f <= 8,
                    m == self.model() && ep == self.en_passant_target && fl == self.flags,
                    forall|a: int, b: int, c: int, d: int|
                        a < from_r ==> !#[trigger] legal_candidate(m, ep, fl, color, a, b, c, d),
                    forall|b: int, c: int, d: int|
                        b < from_f ==> !#[trigger] legal_candidate(
                            m,
                            ep,
                            fl,
                            color,
                            from_r as int,
                            b,
                            c,
                            d,
                        ),
                decreases 8 - from_f,
            {
                let from = (from_r, from_f);
                let own = match self.piece_at(from) {
                    Some(piece) => piece.color() == color,
                    None => false,
                };
                if own {
                    let piece = self.piece_at(from).unwrap();
                    let queen = PieceKind::new(PieceType::Queen, color);
                    proof {
                        crate::piece::lemma_piece_identity(queen, piece_of(PieceType::Queen, color));
                    }
                    let last_rank: usize = match color {
                        Color::White => 0,
                        Color::Black => 7,
                    };
                    let mut to_r: usize = 0;
                    while to_r < 8
                        invariant
                            from_r < 8 && from_f < 8 && to_r <= 8,
                            cell(m, from_r as int, from_f as int) == Some(piece),
                            piece.spec_color() == color,
                            queen == piece_of(PieceType::Queen, color),
                            last_rank == promotion_rank(color),
                            m == self.model() && ep == self.en_passant_target && fl == self.flags,
                            forall|c: int, d: int|
                                c < to_r ==> !#[trigger] legal_candidate(
                                    m,
                                    ep,
                                    fl,
                                    color,
                                    from_r as int,
                                    from_f as int,
                                    c,
                                    d,
                                ),
                        decreases 8 - to_r,
                    {
                        let mut to_f: usize = 0;
                        while to_f < 8
                            invariant
                                from_r < 8 && from_f < 8 && to_r < 8 && to_f <= 8,
                                cell(m, from_r as int, from_f as int) == Some(piece),
                                piece.spec_color() == color,
                                queen == piece_of(PieceType::Queen, color),
                                last_rank == promotion_rank(color),
                                m == self.model() && ep == self.en_passant_target && fl
                                    == self.flags,
                                forall|c: int, d: int|
                                    c < to_r ==> !#[trigger] legal_candidate(
                                        m,
                                        ep,
                                        fl,
                                        color,
                                        from_r as int,
                                        from_f as int,
                                        c,
                                        d,
                                    ),
                                forall|d: int|
                                    d < to_f ==> !#[trigger] legal_candidate(
                                        m,
                                        ep,
                                        fl,
                                        color,
                                        from_r as int,
                                        from_f as int,
                                        to_r as int,
                                        d,
                                    ),
                            decreases 8 - to_f,
                        {
                            let from = (from_r, from_f);
                            let to = (to_r, to_f);
                            let promotion = if piece.to_type() == PieceType::Pawn && to_r
                                == last_rank {
                                Some(queen)
                            } else {
                                None
                            };
                            if !(from_r == to_r && from_f == to_f) && self.is_move_legal(
                                from,
                                to,
                                promotion,
                            ) {
                                assert(legal_candidate(
                                    m,
                                    ep,
                                    fl,
                                    color,
                                    from_r as int,
                                    from_f as int,
                                    to_r as int,
                                    to_f as int,
                                ));
                                return true;
                            }
                            to_f = to_f + 1;
                        }
                        to_r = to_r + 1;
                    }
                }
                from_f = from_f + 1;
            }
            from_r = from_r + 1;
        }
        false
    }
}

} // verus!
