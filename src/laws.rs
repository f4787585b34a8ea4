//! Properties that hold across calls: turn alternation, king safety of legal
//! moves, en passant, the draw rules, monotonic castling rights, the
//! repetition key and the notation round trip.
use vstd::prelude::*;

use crate::board::{flags_le, Board, Pos, State};
use crate::draw::{next_state, position_hash, state_update};
use crate::moves::{captured_by, ep_capture_square, execution, move_record, MoveError};
use crate::notation::{
    decode_move, file_char, file_of, move_well_formed, promo_char, promo_of, promotion_piece,
    rank_char, rank_of, uci_application, uci_text,
};
use vstd::utf8::{encode_scalar, encode_utf8};
use crate::piece::{Color, PieceKind, PieceType};
use crate::board::{cell, in_bounds, piece_of, GridModel};
use crate::rules::{
    any_legal, attack_rule, attacked_by_other, attacker_at, find_king, find_king_from, in_check,
    is_king_of, legal_candidate, moved_grid, opposing_pawn, path_clear, path_square_empty, pawn_dir,
    pawn_start_rank, scan_promotion,
};

verus! {

/// The turn of a status still in play.
pub open spec fn turn_of(s: State) -> Option<Color> {
    match s {
        State::Playing { turn } => Some(turn),
        _ => None,
    }
}

/// Only the side to move can move, and after its move and the status update
/// that follows, a game still in play has the opponent to move.
pub proof fn lemma_turn_alternation(
    before: Board,
    mid: Board,
    after: Board,
    from: Pos,
    to: Pos,
    promotion: Option<PieceKind>,
    res: Result<(PieceKind, Option<PieceKind>), MoveError>,
)
    requires
        execution(before, mid, from, to, promotion, res),
        res is Ok,
        state_update(mid, after),
    ensures
        turn_of(before.state) == Some(before.spec_piece_at(from)->Some_0.spec_color()),
        turn_of(after.state) is Some ==> turn_of(after.state) == Some(
            before.spec_piece_at(from)->Some_0.spec_color().spec_opponent(),
        ),
{
}

/// A legal move of the side to move is always executed, and never leaves the
/// mover's king in check: the legality test plays the move on a copy exactly
/// as the executor does, with the executor's checks.
pub proof fn lemma_no_self_check(
    before: Board,
    after: Board,
    from: Pos,
    to: Pos,
    promotion: Option<PieceKind>,
    res: Result<(PieceKind, Option<PieceKind>), MoveError>,
)
    requires
        before.spec_move_legal(from, to, promotion),
        before.state == (State::Playing { turn: before.spec_piece_at(from)->Some_0.spec_color() }),
        execution(before, after, from, to, promotion, res),
    ensures
        res is Ok,
        !in_check(after.model(), before.spec_piece_at(from)->Some_0.spec_color()),
{
    assert(crate::moves::execute_error(before, from, to, promotion) is None);
    assert(after.model() == before.spec_simulate(from, to, promotion)->Ok_0);
}

/// A pawn's straight two-rank advance from its starting rank sets the
/// en-passant target to the square it skipped.
pub proof fn lemma_en_passant_target(
    before: Board,
    after: Board,
    from: Pos,
    to: Pos,
    promotion: Option<PieceKind>,
    res: Result<(PieceKind, Option<PieceKind>), MoveError>,
)
    requires
        execution(before, after, from, to, promotion, res),
        res is Ok,
        before.spec_piece_at(from)->Some_0.spec_type() == PieceType::Pawn,
        from.0 == pawn_start_rank(before.spec_piece_at(from)->Some_0.spec_color()),
        to.0 - from.0 == 2 * pawn_dir(before.spec_piece_at(from)->Some_0.spec_color()),
        to.1 == from.1,
    ensures
        after.en_passant_target == Some(
            (
                (from.0 + pawn_dir(before.spec_piece_at(from)->Some_0.spec_color())) as usize,
                from.1,
            ),
        ),
{
}

/// A pawn of the side to move, moving diagonally forward (short of its last
/// rank) onto the empty en-passant target beside an opposing pawn, is
/// executed: it takes that pawn (on the capturing pawn's rank, in the
/// target's file), not the landing square's empty contents, and lands on
/// the target.
pub proof fn lemma_en_passant_capture(
    before: Board,
    after: Board,
    from: Pos,
    to: Pos,
    res: Result<(PieceKind, Option<PieceKind>), MoveError>,
)
    requires
        execution(before, after, from, to, None, res),
        in_bounds(from.0 as int, from.1 as int),
        in_bounds(to.0 as int, to.1 as int),
        before.spec_piece_at(from) is Some,
        before.state == (State::Playing { turn: before.spec_piece_at(from)->Some_0.spec_color() }),
        before.spec_piece_at(from)->Some_0.spec_type() == PieceType::Pawn,
        !crate::moves::promotes(before.spec_piece_at(from)->Some_0, to),
        before.en_passant_target == Some(to),
        to.0 - from.0 == pawn_dir(before.spec_piece_at(from)->Some_0.spec_color()),
        to.1 - from.1 == 1 || from.1 - to.1 == 1,
        before.spec_piece_at(to) is None,
        opposing_pawn(
            before.spec_piece_at((from.0, to.1)),
            before.spec_piece_at(from)->Some_0.spec_color(),
        ),
    ensures
        res == Ok::<(PieceKind, Option<PieceKind>), MoveError>(
            (before.spec_piece_at(from)->Some_0, before.spec_piece_at((from.0, to.1))),
        ),
        after.spec_piece_at((from.0, to.1)) is None,
        after.spec_piece_at(to) == before.spec_piece_at(from),
        after.spec_piece_at(from) is None,
{
    let p = before.spec_piece_at(from)->Some_0;
    assert(ep_capture_square(before, from, to, p) == Some((from.0, to.1)));
    assert(crate::moves::execute_error(before, from, to, None) is None);
}

/// Castling rights only ever go from unmoved to moved.
pub proof fn lemma_castling_rights_monotonic(
    before: Board,
    after: Board,
    from: Pos,
    to: Pos,
    promotion: Option<PieceKind>,
    res: Result<(PieceKind, Option<PieceKind>), MoveError>,
)
    requires
        execution(before, after, from, to, promotion, res),
    ensures
        flags_le(before.flags, after.flags),
{
}

/// The halfmove clock restarts at a pawn move or a capture and otherwise
/// counts one more.
pub proof fn lemma_halfmove_clock(
    before: Board,
    after: Board,
    from: Pos,
    to: Pos,
    promotion: Option<PieceKind>,
    res: Result<(PieceKind, Option<PieceKind>), MoveError>,
)
    requires
        execution(before, after, from, to, promotion, res),
        res is Ok,
    ensures
        after.halfmove_clock == if before.spec_piece_at(from)->Some_0.spec_type()
            == PieceType::Pawn || res->Ok_0.1 is Some {
            0
        } else {
            before.halfmove_clock + 1
        },
        res->Ok_0.1 == captured_by(before, from, to, before.spec_piece_at(from)->Some_0),
{
}

/// Once the halfmove clock has reached 100, the status after a move is a
/// draw, unless the move mated.
pub proof fn lemma_fifty_move_rule(b: Board, turn: Color, repeats: usize)
    requires
        b.halfmove_clock >= 100,
    ensures
        next_state(b, turn, repeats) == State::Draw || next_state(b, turn, repeats) == (
        State::Checkmate { winner: turn }),
{
}

/// When a position occurs for the third time, the status after the move is
/// a draw, unless the move mated.
pub proof fn lemma_threefold_repetition(b: Board, turn: Color, repeats: usize)
    requires
        repeats >= 3,
    ensures
        next_state(b, turn, repeats) == State::Draw || next_state(b, turn, repeats) == (
        State::Checkmate { winner: turn }),
{
}

/// The position hash depends on the piece placement, the side to move, the
/// castling flags and the en-passant target only, never on the clocks, the
/// captures, the move log or the repetition table.
pub proof fn lemma_hash_ignores_counters(a: Board, b: Board)
    requires
        a.model() == b.model(),
        a.state == b.state,
        a.flags == b.flags,
        a.en_passant_target == b.en_passant_target,
    ensures
        position_hash(a) == position_hash(b),
{
}

/// The repetition count of the position just reached grows by one at each
/// status update while the game is in play.
pub proof fn lemma_repetition_count(before: Board, after: Board)
    requires
        state_update(before, after),
        before.state is Playing,
        crate::draw::seen(before.position_history@, position_hash(before)) < usize::MAX,
    ensures
        crate::draw::seen(after.position_history@, position_hash(before)) == crate::draw::seen(
            before.position_history@,
            position_hash(before),
        ) + 1,
{
}

/// Two boards hold the same position, clocks, log, table and captures.
pub open spec fn same_position(a: Board, b: Board) -> bool {
    &&& a.model() == b.model()
    &&& a.state == b.state
    &&& a.flags == b.flags
    &&& a.en_passant_target == b.en_passant_target
    &&& a.halfmove_clock == b.halfmove_clock
    &&& a.moves@ == b.moves@
    &&& a.position_history == b.position_history
    &&& a.players.white.captures@ == b.players.white.captures@
    &&& a.players.white.score == b.players.white.score
    &&& a.players.black.captures@ == b.players.black.captures@
    &&& a.players.black.score == b.players.black.score
}

/// Executing the same move on the same board gives the same result and position.
pub proof fn lemma_execution_deterministic(
    before: Board,
    a1: Board,
    a2: Board,
    from: Pos,
    to: Pos,
    promotion: Option<PieceKind>,
    r1: Result<(PieceKind, Option<PieceKind>), MoveError>,
    r2: Result<(PieceKind, Option<PieceKind>), MoveError>,
)
    requires
        execution(before, a1, from, to, promotion, r1),
        execution(before, a2, from, to, promotion, r2),
    ensures
        r1 == r2,
        same_position(a1, a2),
{
}

proof fn lemma_ascii_scalar(c: char)
    requires
        (c as u32) <= 0x7F,
    ensures
        encode_scalar(c as u32) == seq![(c as u32) as u8],
{
    let v = c as u32;
    assert(v & 0x7F == v) by (bit_vector)
        requires
            v <= 0x7F,
    ;
}

/// Characters below 0x80 encode as one byte each.
proof fn lemma_encode_ascii(s: Seq<char>)
    requires
        forall|i: int| 0 <= i < s.len() ==> (#[trigger] s[i] as u32) <= 0x7F,
    ensures
        encode_utf8(s) == Seq::new(s.len(), |i: int| (s[i] as u32) as u8),
    decreases s.len(),
{
    if s.len() == 0 {
        assert(encode_utf8(s) =~= Seq::new(s.len(), |i: int| (s[i] as u32) as u8));
    } else {
        let rest = s.drop_first();
        assert(s[0] as u32 <= 0x7F);
        lemma_ascii_scalar(s[0]);
        assert forall|i: int| 0 <= i < rest.len() implies (#[trigger] rest[i] as u32) <= 0x7F by {
            assert(rest[i] == s[i + 1]);
        }
        lemma_encode_ascii(rest);
        assert(encode_utf8(s) =~= Seq::new(s.len(), |i: int| (s[i] as u32) as u8));
    }
}

proof fn lemma_file_char(f: int)
    requires
        0 <= f < 8,
    ensures
        (file_char(f) as u32) <= 0x7F,
        file_of((file_char(f) as u32) as u8) == Some(f as usize),
{
}

proof fn lemma_rank_char(r: int)
    requires
        0 <= r < 8,
    ensures
        (rank_char(r) as u32) <= 0x7F,
        rank_of((rank_char(r) as u32) as u8) == Some(r as usize),
{
}

proof fn lemma_promo_char(t: PieceType)
    requires
        t.is_promotion_choice(),
    ensures
        (promo_char(t) as u32) <= 0x7F,
        promo_of((promo_char(t) as u32) as u8) == Some(t),
{
}

/// Decoding the notation of a well-formed move, against a board with the
/// move's piece on its source square, gives the move back.
pub proof fn lemma_decode_encode(b: Board, m: crate::moves::Move)
    requires
        move_well_formed(m),
        b.spec_piece_at(m.from) == Some(m.piece),
    ensures
        decode_move(b, encode_utf8(uci_text(m))) == Some(m),
{
    let t = uci_text(m);
    lemma_file_char(m.from.1 as int);
    lemma_rank_char(m.from.0 as int);
    lemma_file_char(m.to.1 as int);
    lemma_rank_char(m.to.0 as int);
    if let Some(pt) = m.promotion {
        lemma_promo_char(pt);
    }
    assert forall|i: int| 0 <= i < t.len() implies (#[trigger] t[i] as u32) <= 0x7F by {
        if i == 4 {
            lemma_promo_char(m.promotion->Some_0);
        }
    }
    lemma_encode_ascii(t);
    let bytes = encode_utf8(t);
    assert(bytes.len() == t.len());
    assert(bytes[0] == (t[0] as u32) as u8);
    assert(bytes[1] == (t[1] as u32) as u8);
    assert(bytes[2] == (t[2] as u32) as u8);
    assert(bytes[3] == (t[3] as u32) as u8);
    if m.promotion is Some {
        assert(bytes[4] == (t[4] as u32) as u8);
    }
}

/// The notation round trip: the notation of an executed move decodes, on the
/// board before it, to the logged move with the same promotion piece, and
/// replaying it there gives the same result and the same position.
pub proof fn lemma_notation_round_trip(
    before: Board,
    after: Board,
    again: Board,
    from: Pos,
    to: Pos,
    promotion: Option<PieceKind>,
    res: Result<(PieceKind, Option<PieceKind>), MoveError>,
    res2: Result<(PieceKind, Option<PieceKind>), MoveError>,
)
    requires
        execution(before, after, from, to, promotion, res),
        res is Ok,
        execution(
            before,
            again,
            from,
            to,
            promotion_piece(move_record(before.spec_piece_at(from)->Some_0, from, to, promotion)),
            res2,
        ),
    ensures
        ({
            let m = move_record(before.spec_piece_at(from)->Some_0, from, to, promotion);
            &&& move_well_formed(m)
            &&& after.moves@.last() == m
            &&& decode_move(before, encode_utf8(uci_text(m))) == Some(m)
            &&& promotion_piece(m) == promotion
        }),
        res2 == res,
        same_position(after, again),
{
    let p = before.spec_piece_at(from)->Some_0;
    let m = move_record(p, from, to, promotion);
    if crate::moves::promotes(p, to) {
        let q = promotion->Some_0;
        crate::piece::lemma_piece_identity(q, crate::board::piece_of(q.spec_type(), p.spec_color()));
    }
    assert(promotion_piece(m) == promotion);
    lemma_decode_encode(before, m);
    lemma_execution_deterministic(before, after, again, from, to, promotion, res, res2);
}

/// Grids with kings of `c` on the same squares find the same king.
proof fn lemma_find_king_same(a: GridModel, b: GridModel, c: Color, r: int, f: int)
    requires
        forall|x: int, y: int| #[trigger] is_king_of(cell(a, x, y), c) == is_king_of(cell(b, x, y), c),
    ensures
        find_king_from(a, c, r, f) == find_king_from(b, c, r, f),
    decreases 8 - r, 8 - f,
{
    if r < 0 || r >= 8 || f < 0 {
    } else if f >= 8 {
        lemma_find_king_same(a, b, c, r + 1, 0);
    } else {
        assert(is_king_of(cell(a, r, f), c) == is_king_of(cell(b, r, f), c));
        lemma_find_king_same(a, b, c, r, f + 1);
    }
}

/// Attacks on an occupied square depend only on which squares are occupied
/// and on what stands on that square.
proof fn lemma_attack_rule_same(g1: GridModel, g2: GridModel, a: PieceKind, from: Pos, k: Pos)
    requires
        forall|x: int, y: int| (#[trigger] cell(g1, x, y) is None) == (cell(g2, x, y) is None),
        cell(g1, k.0 as int, k.1 as int) == cell(g2, k.0 as int, k.1 as int),
    ensures
        attack_rule(g1, a, from, k) == attack_rule(g2, a, from, k),
{
    assert forall|j: int| #[trigger]
        path_square_empty(g1, from, k, j) == path_square_empty(g2, from, k, j) by {}
    if path_clear(g1, from, k) {
        assert forall|j: int| 0 < j < crate::rules::line_len(from, k) implies #[trigger]
            path_square_empty(g2, from, k, j) by {
            assert(path_square_empty(g1, from, k, j));
        }
    }
    if path_clear(g2, from, k) {
        assert forall|j: int| 0 < j < crate::rules::line_len(from, k) implies #[trigger]
            path_square_empty(g1, from, k, j) by {
            assert(path_square_empty(g2, from, k, j));
        }
    }
}

/// Two grids that differ only on square `t`, which holds a piece of colour
/// `c` other than a king in both, agree on whether `c` is in check.
proof fn lemma_check_ignores_own_piece_type(g1: GridModel, g2: GridModel, c: Color, t: Pos)
    requires
        in_bounds(t.0 as int, t.1 as int),
        forall|x: int, y: int|
            !(x == t.0 && y == t.1) ==> #[trigger] cell(g1, x, y) == cell(g2, x, y),
        cell(g1, t.0 as int, t.1 as int) is Some,
        cell(g2, t.0 as int, t.1 as int) is Some,
        cell(g1, t.0 as int, t.1 as int)->Some_0.spec_color() == c,
        cell(g2, t.0 as int, t.1 as int)->Some_0.spec_color() == c,
        cell(g1, t.0 as int, t.1 as int)->Some_0.spec_type() != PieceType::King,
        cell(g2, t.0 as int, t.1 as int)->Some_0.spec_type() != PieceType::King,
    ensures
        in_check(g1, c) == in_check(g2, c),
{
    assert forall|x: int, y: int|
        #[trigger] is_king_of(cell(g1, x, y), c) == is_king_of(cell(g2, x, y), c) by {
        if x == t.0 && y == t.1 {
        } else {
            assert(cell(g1, x, y) == cell(g2, x, y));
        }
    }
    lemma_find_king_same(g1, g2, c, 0, 0);
    match find_king(g1, c) {
        None => {},
        Some(k) => {
            crate::rules::lemma_find_king_from(g1, c, 0, 0);
            assert forall|x: int, y: int|
                (#[trigger] cell(g1, x, y) is None) == (cell(g2, x, y) is None) by {
                if x == t.0 && y == t.1 {
                } else {
                    assert(cell(g1, x, y) == cell(g2, x, y));
                }
            }
            assert(!(k.0 == t.0 && k.1 == t.1));
            assert(cell(g1, k.0 as int, k.1 as int) == cell(g2, k.0 as int, k.1 as int));
            if attacked_by_other(g1, c, k) {
                let (r, f) = choose|r: int, f: int|
                    in_bounds(r, f) && #[trigger] attacker_at(g1, c, r, f, k);
                assert(cell(g1, r, f) == cell(g2, r, f));
                lemma_attack_rule_same(g1, g2, cell(g1, r, f)->Some_0, (r as usize, f as usize), k);
                assert(attacker_at(g2, c, r, f, k));
            }
            if attacked_by_other(g2, c, k) {
                let (r, f) = choose|r: int, f: int|
                    in_bounds(r, f) && #[trigger] attacker_at(g2, c, r, f, k);
                assert(cell(g1, r, f) == cell(g2, r, f));
                lemma_attack_rule_same(g1, g2, cell(g2, r, f)->Some_0, (r as usize, f as usize), k);
                assert(attacker_at(g1, c, r, f, k));
            }
        },
    }
}

/// Which of the four promotion pieces of the mover's colour a pawn takes
/// does not change whether its move is legal.
pub proof fn lemma_promotion_choice(b: Board, from: Pos, to: Pos, q1: PieceKind, q2: PieceKind)
    requires
        b.spec_piece_at(from) is Some,
        crate::moves::promotes(b.spec_piece_at(from)->Some_0, to),
        q1.spec_color() == b.spec_piece_at(from)->Some_0.spec_color(),
        q2.spec_color() == b.spec_piece_at(from)->Some_0.spec_color(),
        q1.spec_type().is_promotion_choice(),
        q2.spec_type().is_promotion_choice(),
    ensures
        b.spec_move_legal(from, to, Some(q1)) == b.spec_move_legal(from, to, Some(q2)),
{
    let p = b.spec_piece_at(from)->Some_0;
    let m = b.model();
    if b.spec_simulate(from, to, Some(q1)) is Ok {
        assert(from != to);
        let g1 = moved_grid(m, b.en_passant_target, from, to, p, q1);
        let g2 = moved_grid(m, b.en_passant_target, from, to, p, q2);
        assert forall|x: int, y: int|
            !(x == to.0 && y == to.1) implies #[trigger] cell(g1, x, y) == cell(g2, x, y) by {}
        lemma_check_ignores_own_piece_type(g1, g2, p.spec_color(), to);
    }
}

/// Legality with some promotion choice, as `is_move_legal` tests it.
pub open spec fn legal_with(
    b: Board,
    color: Color,
    fr: int,
    ff: int,
    tr: int,
    tf: int,
    pr: Option<PieceKind>,
) -> bool {
    &&& in_bounds(fr, ff) && in_bounds(tr, tf)
    &&& (fr != tr || ff != tf)
    &&& cell(b.model(), fr, ff) is Some
    &&& cell(b.model(), fr, ff)->Some_0.spec_color() == color
    &&& b.spec_move_legal((fr as usize, ff as usize), (tr as usize, tf as usize), pr)
}

/// `any_legal_move` finds a legal move exactly when some piece of the colour
/// has a destination that `is_move_legal` accepts with some promotion argument.
pub proof fn lemma_any_legal_covers_promotions(b: Board, color: Color)
    ensures
        any_legal(b.model(), b.en_passant_target, b.flags, color) <==> exists|
            fr: int,
            ff: int,
            tr: int,
            tf: int,
            pr: Option<PieceKind>,
        | #[trigger] legal_with(b, color, fr, ff, tr, tf, pr),
{
    let m = b.model();
    let queen = match color {
        Color::White => PieceKind::WhiteQueen,
        Color::Black => PieceKind::BlackQueen,
    };
    crate::piece::lemma_piece_identity(queen, piece_of(PieceType::Queen, color));
    if any_legal(m, b.en_passant_target, b.flags, color) {
        let (fr, ff, tr, tf) = choose|fr: int, ff: int, tr: int, tf: int| #[trigger]
            legal_candidate(m, b.en_passant_target, b.flags, color, fr, ff, tr, tf);
        let p = cell(m, fr, ff)->Some_0;
        assert(legal_with(b, color, fr, ff, tr, tf, scan_promotion(p, (tr as usize, tf as usize))));
    }
    if exists|fr: int, ff: int, tr: int, tf: int, pr: Option<PieceKind>| #[trigger]
        legal_with(b, color, fr, ff, tr, tf, pr) {
        let (fr, ff, tr, tf, pr) = choose|
            fr: int,
            ff: int,
            tr: int,
            tf: int,
            pr: Option<PieceKind>,
        | #[trigger] legal_with(b, color, fr, ff, tr, tf, pr);
        let from = (fr as usize, ff as usize);
        let to = (tr as usize, tf as usize);
        let p = cell(m, fr, ff)->Some_0;
        if crate::moves::promotes(p, to) {
            lemma_promotion_choice(b, from, to, pr->Some_0, queen);
        }
        assert(legal_candidate(m, b.en_passant_target, b.flags, color, fr, ff, tr, tf));
    }
}

/// Replaying an executed legal move through its notation with
/// `apply_uci_move` on the board before it makes the move again: the same
/// capture is reported and the same position results.
pub proof fn lemma_uci_replay(
    before: Board,
    after: Board,
    again: Board,
    from: Pos,
    to: Pos,
    promotion: Option<PieceKind>,
    res: Result<(PieceKind, Option<PieceKind>), MoveError>,
    r: (Option<PieceKind>, bool),
)
    requires
        before.spec_move_legal(from, to, promotion),
        execution(before, after, from, to, promotion, res),
        res is Ok,
        uci_application(
            before,
            again,
            encode_utf8(uci_text(move_record(before.spec_piece_at(from)->Some_0, from, to, promotion))),
            r,
        ),
    ensures
        r == (res->Ok_0.1, true),
        same_position(after, again),
{
    let p = before.spec_piece_at(from)->Some_0;
    let m = move_record(p, from, to, promotion);
    if crate::moves::promotes(p, to) {
        let q = promotion->Some_0;
        crate::piece::lemma_piece_identity(q, crate::board::piece_of(q.spec_type(), p.spec_color()));
    }
    assert(promotion_piece(m) == promotion);
    lemma_decode_encode(before, m);
    let res2 = choose|res2: Result<(PieceKind, Option<PieceKind>), MoveError>| #[trigger]
        execution(before, again, from, to, promotion, res2) && r == match res2 {
            Ok((_, captured)) => (captured, true),
            Err(_) => (None::<PieceKind>, false),
        };
    lemma_execution_deterministic(before, after, again, from, to, promotion, res, res2);
}

} // verus!
