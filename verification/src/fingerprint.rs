//! What a fingerprint is, what a move does to it, and why the two agree.
//!
//! The fingerprint of a position is the XOR of the keys of everything that
//! makes up the position. A move changes a fingerprint by the XOR of the
//! keys of everything that it removes or adds. Since XOR is associative and
//! commutative and every value is its own inverse, a fingerprint that is
//! carried along from move to move stays equal to the fingerprint of the
//! position that is reached.

use vstd::prelude::*;
use crate::board::piece_on;
use crate::castles::{rook_home, Castles, CastlingSide};
use crate::keys::{castle_key, enpassant_key, lemma_side_key, square_key, SIDE};
use crate::moves::{
    castle_king_to,
    castle_rook_to,
    en_passant_victim,
    ep_square_after,
    landing_piece,
    Move,
};
use crate::piece::{Color, Piece, Role};
use crate::position::{board_after, castles_after, PositionView};
use crate::square::Square;

verus! {

/// The key of what stands on `sq`: zero for an empty square.
pub open spec fn cell_key(board: Map<Square, Piece>, sq: Square) -> u64 {
    match piece_on(board, sq) {
        Some(piece) => square_key(sq, piece),
        None => 0,
    }
}

/// The XOR of the keys of the pieces on the first `n` squares.
pub open spec fn board_hash_upto(board: Map<Square, Piece>, n: nat) -> u64
    decreases n,
{
    if n == 0 {
        0
    } else {
        board_hash_upto(board, (n - 1) as nat) ^ cell_key(board, Square::from_index(n - 1))
    }
}

/// The XOR of the keys of all pieces on the board.
pub open spec fn board_hash(board: Map<Square, Piece>) -> u64 {
    board_hash_upto(board, 64)
}

/// The key of the right of `color` to castle on `side`, if it is held, and
/// zero if it is not.
pub open spec fn right_key(castles: Castles, color: Color, side: CastlingSide) -> u64 {
    if castles.has(color, side) {
        castle_key(color, side)
    } else {
        0
    }
}

/// The XOR of the keys of the castling rights that are held.
pub open spec fn castles_hash(castles: Castles) -> u64 {
    right_key(castles, Color::White, CastlingSide::KingSide) ^ right_key(
        castles,
        Color::White,
        CastlingSide::QueenSide,
    ) ^ right_key(castles, Color::Black, CastlingSide::KingSide) ^ right_key(
        castles,
        Color::Black,
        CastlingSide::QueenSide,
    )
}

/// The key of the file of the en passant square, and zero if there is none.
pub open spec fn ep_key(ep_square: Option<Square>) -> u64 {
    match ep_square {
        Some(sq) => enpassant_key(sq.file),
        None => 0,
    }
}

/// The key of the side to move: `SIDE` for Black, zero for White.
pub open spec fn turn_key(turn: Color) -> u64 {
    match turn {
        Color::White => 0,
        Color::Black => SIDE,
    }
}

/// The fingerprint of a position: the XOR of the keys of its pieces, of the
/// castling rights held, of the en passant file and of the side to move.
pub open spec fn position_hash(pos: PositionView) -> u64 {
    board_hash(pos.board) ^ castles_hash(pos.castles) ^ ep_key(pos.ep_square) ^ turn_key(pos.turn)
}

/// The key of the right of `color` whose rook starts on `sq`, if `sq` is
/// such a square and the right is held, and zero otherwise.
///
/// The side of the right goes by the file of `sq`. The rank counts too: a
/// rook elsewhere on that file is not the rook that castles, and its move
/// or its capture loses no right.
pub open spec fn rook_right_key(castles: Castles, color: Color, sq: Square) -> u64 {
    if sq == rook_home(color, CastlingSide::QueenSide) {
        right_key(castles, color, CastlingSide::QueenSide)
    } else if sq == rook_home(color, CastlingSide::KingSide) {
        right_key(castles, color, CastlingSide::KingSide)
    } else {
        0
    }
}

/// The keys of the castling rights that the mover gives up by moving a
/// piece of `role` away from `from`.
pub open spec fn mover_rights_toggles(castles: Castles, color: Color, role: Role, from: Square) -> u64 {
    if role == Role::King {
        right_key(castles, color, CastlingSide::KingSide) ^ right_key(
            castles,
            color,
            CastlingSide::QueenSide,
        )
    } else if role == Role::Rook {
        rook_right_key(castles, color, from)
    } else {
        0
    }
}

/// The key of the castling right that the opponent of `color` loses when
/// `color` captures on `to`.
pub open spec fn capture_rights_toggles(
    castles: Castles,
    color: Color,
    capture: Option<Role>,
    to: Square,
) -> u64 {
    if capture == Some(Role::Rook) {
        rook_right_key(castles, color.other(), to)
    } else {
        0
    }
}

/// The XOR of the keys of the castling rights that are held before `color`
/// makes the move `m` and lost by it.
pub open spec fn rights_toggles(castles: Castles, color: Color, m: Move) -> u64 {
    match m {
        Move::Normal { role, from, capture, to, .. } => mover_rights_toggles(
            castles,
            color,
            role,
            from,
        ) ^ capture_rights_toggles(castles, color, capture, to),
        Move::Castle { .. } => right_key(castles, color, CastlingSide::KingSide) ^ right_key(
            castles,
            color,
            CastlingSide::QueenSide,
        ),
        _ => 0,
    }
}

/// The XOR of the keys of the pieces that the move `m` of `color` takes
/// off their squares and of those it puts on squares.
///
/// A normal move lifts what stands on its origin and on its destination
/// and sets down the piece that arrives. Castling lifts the king and the
/// rook and sets both down again. An en passant capture lifts the pawn
/// taken and the capturing pawn and sets the latter down. A piece put on
/// the board is set down.
pub open spec fn board_toggles(board: Map<Square, Piece>, color: Color, m: Move) -> u64 {
    match m {
        Move::Normal { role, from, to, promotion, .. } => cell_key(board, from) ^ cell_key(
            board,
            to,
        ) ^ square_key(to, landing_piece(color, role, promotion)),
        Move::Castle { king, rook } => square_key(king, color.king()) ^ square_key(
            rook,
            color.rook(),
        ) ^ square_key(castle_rook_to(king, rook), color.rook()) ^ square_key(
            castle_king_to(king, rook),
            color.king(),
        ),
        Move::EnPassant { from, to } => square_key(
            en_passant_victim(from, to),
            color.other().pawn(),
        ) ^ square_key(from, color.pawn()) ^ square_key(to, color.pawn()),
        Move::Put { role, to } => square_key(to, Piece { color, role }),
    }
}

/// The fingerprint `h` carried over the move `m` made in `pos`: the key of
/// the old en passant file is taken out, the keys of the castling rights
/// that are lost and of the pieces that leave or arrive are toggled, the
/// key of the new en passant file is put in, and the key of the side to
/// move is toggled.
pub open spec fn hash_after(h: u64, pos: PositionView, m: Move) -> u64 {
    h ^ ep_key(pos.ep_square) ^ rights_toggles(pos.castles, pos.turn, m) ^ board_toggles(
        pos.board,
        pos.turn,
        m,
    ) ^ ep_key(ep_square_after(pos.turn, m)) ^ SIDE
}

/// The fingerprint `h` carried over the moves of `moves`, made in turn
/// from `pos`.
pub open spec fn hash_after_all(h: u64, pos: PositionView, moves: Seq<Move>) -> u64
    decreases moves.len(),
{
    if moves.len() == 0 {
        h
    } else {
        hash_after_all(
            hash_after(h, pos, moves.first()),
            pos.play(moves.first()),
            moves.drop_first(),
        )
    }
}

pub(crate) proof fn lemma_xor_zero(x: u64)
    by (bit_vector)
    ensures
        x ^ 0 == x,
        0 ^ x == x,
        x ^ x == 0,
{
}

pub(crate) proof fn lemma_xor_regroup(x: u64, a: u64, b: u64)
    by (bit_vector)
    ensures
        (x ^ a) ^ b == x ^ (a ^ b),
        ((x ^ a) ^ a) ^ b == x ^ b,
        (x ^ a) ^ b == (x ^ b) ^ a,
{
}

proof fn lemma_xor_drop_one(a: u64, b: u64, c: u64, d: u64)
    by (bit_vector)
    ensures
        0 ^ b ^ c ^ d == (a ^ b ^ c ^ d) ^ a,
        a ^ 0 ^ c ^ d == (a ^ b ^ c ^ d) ^ b,
        a ^ b ^ 0 ^ d == (a ^ b ^ c ^ d) ^ c,
        a ^ b ^ c ^ 0 == (a ^ b ^ c ^ d) ^ d,
{
}

proof fn lemma_xor_three_steps(x: u64, a: u64, b: u64, c: u64)
    by (bit_vector)
    ensures
        ((x ^ a) ^ b) ^ c == x ^ (a ^ b ^ c),
        ((x ^ a) ^ b) ^ 0 ^ c == x ^ (a ^ b ^ c),
{
}

proof fn lemma_xor_four_steps(x: u64, a: u64, b: u64, c: u64, d: u64)
    by (bit_vector)
    ensures
        (((x ^ a) ^ b) ^ 0 ^ c) ^ 0 ^ d == x ^ (a ^ b ^ c ^ d),
{
}

proof fn lemma_xor_recombine(b: u64, c: u64, e: u64, t: u64, db: u64, dc: u64, e2: u64, s: u64)
    by (bit_vector)
    ensures
        (b ^ db) ^ (c ^ dc) ^ e2 ^ (t ^ s) == (b ^ c ^ e ^ t) ^ e ^ dc ^ db ^ e2 ^ s,
{
}

proof fn lemma_xor_twice(h: u64, e: u64, r: u64, b: u64, e2: u64, s: u64)
    by (bit_vector)
    ensures
        (h ^ e ^ r ^ b ^ e2 ^ s) ^ e ^ r ^ b ^ e2 ^ s == h,
{
}

proof fn lemma_xor_differs(x: u64, s: u64)
    by (bit_vector)
    requires
        s != 0,
    ensures
        x ^ 0 != x ^ s,
{
}

/// If two boards differ on the square `sq` at most, the XOR of the keys on
/// their first `n` squares differs by the keys of what stands on `sq`.
proof fn lemma_board_hash_upto_one_square(
    b1: Map<Square, Piece>,
    b2: Map<Square, Piece>,
    sq: Square,
    n: nat,
)
    requires
        n <= 64,
        forall|other: Square| other != sq ==> piece_on(b1, other) == piece_on(b2, other),
    ensures
        board_hash_upto(b2, n) == if sq.index() < n {
            board_hash_upto(b1, n) ^ cell_key(b1, sq) ^ cell_key(b2, sq)
        } else {
            board_hash_upto(b1, n)
        },
    decreases n,
{
    if n > 0 {
        let m = (n - 1) as nat;
        let at = Square::from_index(n - 1);
        Square::lemma_index_round_trip();
        lemma_board_hash_upto_one_square(b1, b2, sq, m);
        let f = board_hash_upto(b1, m);
        let a = cell_key(b1, sq);
        let b = cell_key(b2, sq);
        if at == sq {
            lemma_xor_regroup(f, a, b);
        } else if sq.index() < m {
            let c = cell_key(b1, at);
            assert(cell_key(b2, at) == c);
            lemma_xor_regroup(f ^ a, b, c);
            lemma_xor_regroup(f, a, c);
        } else {
            assert(cell_key(b2, at) == cell_key(b1, at));
        }
    }
}

/// Putting a piece on a square toggles the key of what stood there and the
/// key of the piece.
pub proof fn lemma_board_hash_insert(board: Map<Square, Piece>, sq: Square, piece: Piece)
    ensures
        board_hash(board.insert(sq, piece)) == board_hash(board) ^ cell_key(board, sq) ^ square_key(
            sq,
            piece,
        ),
{
    lemma_board_hash_upto_one_square(board, board.insert(sq, piece), sq, 64);
    Square::lemma_index_round_trip();
}

/// Emptying a square toggles the key of what stood there.
pub proof fn lemma_board_hash_remove(board: Map<Square, Piece>, sq: Square)
    ensures
        board_hash(board.remove(sq)) == board_hash(board) ^ cell_key(board, sq),
{
    lemma_board_hash_upto_one_square(board, board.remove(sq), sq, 64);
    Square::lemma_index_round_trip();
    lemma_xor_zero(board_hash(board) ^ cell_key(board, sq));
}

/// Giving up one castling right toggles its key, if it was held.
proof fn lemma_castles_hash_without(castles: Castles, color: Color, side: CastlingSide)
    ensures
        castles_hash(castles.without(color, side)) == castles_hash(castles) ^ right_key(
            castles,
            color,
            side,
        ),
{
    lemma_xor_drop_one(
        right_key(castles, Color::White, CastlingSide::KingSide),
        right_key(castles, Color::White, CastlingSide::QueenSide),
        right_key(castles, Color::Black, CastlingSide::KingSide),
        right_key(castles, Color::Black, CastlingSide::QueenSide),
    );
}

/// Giving up both castling rights of a color toggles their keys, as far as
/// they were held.
proof fn lemma_castles_hash_without_side(castles: Castles, color: Color)
    ensures
        castles_hash(castles.without_side(color)) == castles_hash(castles) ^ (right_key(
            castles,
            color,
            CastlingSide::KingSide,
        ) ^ right_key(castles, color, CastlingSide::QueenSide)),
{
    let first = castles.without(color, CastlingSide::KingSide);
    lemma_castles_hash_without(castles, color, CastlingSide::KingSide);
    lemma_castles_hash_without(first, color, CastlingSide::QueenSide);
    lemma_xor_regroup(
        castles_hash(castles),
        right_key(castles, color, CastlingSide::KingSide),
        right_key(castles, color, CastlingSide::QueenSide),
    );
}

/// Giving up the castling right that belongs to a rook's starting square
/// toggles its key, if it was held.
proof fn lemma_castles_hash_without_rook(castles: Castles, color: Color, sq: Square)
    ensures
        castles_hash(castles.without_rook(color, sq)) == castles_hash(castles) ^ rook_right_key(
            castles,
            color,
            sq,
        ),
{
    lemma_castles_hash_without(castles, color, CastlingSide::QueenSide);
    lemma_castles_hash_without(castles, color, CastlingSide::KingSide);
    lemma_xor_zero(castles_hash(castles));
}

/// A move changes the XOR of the keys of the castling rights by the keys
/// of the rights that it loses.
pub proof fn lemma_castles_hash_after(castles: Castles, color: Color, m: Move)
    ensures
        castles_hash(castles_after(castles, color, m)) == castles_hash(castles) ^ rights_toggles(
            castles,
            color,
            m,
        ),
{
    let h = castles_hash(castles);
    match m {
        Move::Normal { role, from, capture, to, .. } => {
            let moved = if role == Role::King {
                castles.without_side(color)
            } else if role == Role::Rook {
                castles.without_rook(color, from)
            } else {
                castles
            };
            let by_mover = mover_rights_toggles(castles, color, role, from);
            let by_capture = capture_rights_toggles(castles, color, capture, to);
            lemma_castles_hash_without_side(castles, color);
            lemma_castles_hash_without_rook(castles, color, from);
            lemma_xor_zero(h);
            assert(castles_hash(moved) == h ^ by_mover);
            lemma_castles_hash_without_rook(moved, color.other(), to);
            assert(rook_right_key(moved, color.other(), to) == rook_right_key(
                castles,
                color.other(),
                to,
            ));
            lemma_xor_zero(h ^ by_mover);
            lemma_xor_regroup(h, by_mover, by_capture);
        },
        Move::Castle { .. } => {
            lemma_castles_hash_without_side(castles, color);
        },
        _ => {
            lemma_xor_zero(h);
        },
    }
}

/// A move that fits the board changes the XOR of the keys of the pieces by
/// the keys of the pieces that it lifts and sets down.
pub proof fn lemma_board_hash_after(pos: PositionView, m: Move)
    requires
        m.fits(pos),
    ensures
        board_hash(board_after(pos.board, pos.turn, m)) == board_hash(pos.board) ^ board_toggles(
            pos.board,
            pos.turn,
            m,
        ),
{
    let board = pos.board;
    let color = pos.turn;
    let h = board_hash(board);
    match m {
        Move::Normal { role, from, to, promotion, .. } => {
            let lifted = board.remove(from);
            let landing = landing_piece(color, role, promotion);
            lemma_board_hash_remove(board, from);
            lemma_board_hash_insert(lifted, to, landing);
            assert(cell_key(lifted, to) == cell_key(board, to));
            lemma_xor_three_steps(
                h,
                cell_key(board, from),
                cell_key(board, to),
                square_key(to, landing),
            );
        },
        Move::Castle { king, rook } => {
            let king_to = castle_king_to(king, rook);
            let rook_to = castle_rook_to(king, rook);
            let b1 = board.remove(king);
            let b2 = b1.remove(rook);
            let b3 = b2.insert(rook_to, color.rook());
            lemma_board_hash_remove(board, king);
            lemma_board_hash_remove(b1, rook);
            lemma_board_hash_insert(b2, rook_to, color.rook());
            lemma_board_hash_insert(b3, king_to, color.king());
            assert(king != rook);
            assert(cell_key(b1, rook) == square_key(rook, color.rook()));
            assert(cell_key(b2, rook_to) == 0);
            assert(king_to != rook_to);
            assert(cell_key(b3, king_to) == 0);
            lemma_xor_four_steps(
                h,
                square_key(king, color.king()),
                square_key(rook, color.rook()),
                square_key(rook_to, color.rook()),
                square_key(king_to, color.king()),
            );
        },
        Move::EnPassant { from, to } => {
            let victim = en_passant_victim(from, to);
            let b1 = board.remove(victim);
            let b2 = b1.remove(from);
            lemma_board_hash_remove(board, victim);
            lemma_board_hash_remove(b1, from);
            lemma_board_hash_insert(b2, to, color.pawn());
            assert(victim != from);
            assert(piece_on(b1, from) == Some(color.pawn()));
            assert(cell_key(b2, to) == 0);
            lemma_xor_three_steps(
                h,
                square_key(victim, color.other().pawn()),
                square_key(from, color.pawn()),
                square_key(to, color.pawn()),
            );
        },
        Move::Put { role, to } => {
            lemma_board_hash_insert(board, to, Piece { color, role });
            lemma_xor_zero(h);
        },
    }
}

/// Two positions that differ in the side to move, and in nothing else that
/// a fingerprint covers, have different fingerprints.
pub proof fn lemma_turn_changes_hash(p: PositionView, q: PositionView)
    requires
        p.turn != q.turn,
        p.board == q.board,
        p.castles == q.castles,
        p.ep_square == q.ep_square,
    ensures
        position_hash(p) != position_hash(q),
{
    lemma_side_key();
    lemma_xor_differs(
        board_hash(p.board) ^ castles_hash(p.castles) ^ ep_key(p.ep_square),
        SIDE,
    );
}

/// Carrying the fingerprint of a position over a move that fits it gives
/// the fingerprint of the position after the move.
pub proof fn lemma_hash_after_matches_play(pos: PositionView, m: Move)
    requires
        m.fits(pos),
    ensures
        hash_after(position_hash(pos), pos, m) == position_hash(pos.play(m)),
{
    lemma_board_hash_after(pos, m);
    lemma_castles_hash_after(pos.castles, pos.turn, m);
    lemma_xor_zero(SIDE);
    assert(turn_key(pos.turn.other()) == turn_key(pos.turn) ^ SIDE);
    lemma_xor_recombine(
        board_hash(pos.board),
        castles_hash(pos.castles),
        ep_key(pos.ep_square),
        turn_key(pos.turn),
        board_toggles(pos.board, pos.turn, m),
        rights_toggles(pos.castles, pos.turn, m),
        ep_key(ep_square_after(pos.turn, m)),
        SIDE,
    );
}

/// Carrying a fingerprint over a move a second time, from the same
/// position, undoes the first time: each key that was toggled is toggled
/// back. A move is to be carried over once.
pub proof fn lemma_hash_after_twice(h: u64, pos: PositionView, m: Move)
    ensures
        hash_after(hash_after(h, pos, m), pos, m) == h,
{
    lemma_xor_twice(
        h,
        ep_key(pos.ep_square),
        rights_toggles(pos.castles, pos.turn, m),
        board_toggles(pos.board, pos.turn, m),
        ep_key(ep_square_after(pos.turn, m)),
        SIDE,
    );
}

/// Carrying the fingerprint of a position over any sequence of moves, each
/// of which fits the position in which it is made, gives the fingerprint of
/// the position that the moves lead to.
pub proof fn lemma_hash_after_all_matches_play_all(pos: PositionView, moves: Seq<Move>)
    requires
        Move::all_fit(moves, pos),
    ensures
        hash_after_all(position_hash(pos), pos, moves) == position_hash(pos.play_all(moves)),
    decreases moves.len(),
{
    if moves.len() > 0 {
        lemma_hash_after_matches_play(pos, moves.first());
        lemma_hash_after_all_matches_play_all(pos.play(moves.first()), moves.drop_first());
    }
}

/// Where each move of a sequence fits the position in which it is made, so
/// does each move of the first `k` of them.
pub proof fn lemma_all_fit_prefix(pos: PositionView, moves: Seq<Move>, k: int)
    requires
        Move::all_fit(moves, pos),
        0 <= k <= moves.len(),
    ensures
        Move::all_fit(moves.take(k), pos),
    decreases k,
{
    if k > 0 {
        assert(moves.take(k).drop_first() =~= moves.drop_first().take(k - 1));
        lemma_all_fit_prefix(pos.play(moves.first()), moves.drop_first(), k - 1);
    }
}

/// Along any sequence of moves, each of which fits the position in which it
/// is made, the fingerprint that is carried from move to move is after
/// each move the fingerprint of the position then reached: before the
/// first move, after the last, and after every move between.
pub proof fn lemma_hash_in_step_after_each_move(pos: PositionView, moves: Seq<Move>)
    requires
        Move::all_fit(moves, pos),
    ensures
        forall|k: int|
            0 <= k <= moves.len() ==> hash_after_all(
                position_hash(pos),
                pos,
                #[trigger] moves.take(k),
            ) == position_hash(pos.play_all(moves.take(k))),
{
    assert forall|k: int| 0 <= k <= moves.len() implies hash_after_all(
        position_hash(pos),
        pos,
        #[trigger] moves.take(k),
    ) == position_hash(pos.play_all(moves.take(k))) by {
        lemma_all_fit_prefix(pos, moves, k);
        lemma_hash_after_all_matches_play_all(pos, moves.take(k));
    }
}

} // verus!
