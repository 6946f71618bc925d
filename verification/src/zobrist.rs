//! Computing fingerprints, and a position that carries its own.

use vstd::prelude::*;
use crate::board::Board;
use crate::castles::{Castles, CastlingSide};
use crate::fingerprint::{
    board_hash,
    board_hash_upto,
    board_toggles,
    capture_rights_toggles,
    cell_key,
    ep_key,
    hash_after,
    lemma_hash_after_matches_play,
    lemma_xor_regroup,
    lemma_xor_zero,
    mover_rights_toggles,
    position_hash,
    right_key,
    rights_toggles,
    rook_right_key,
};
use crate::keys::{castle, enpassant, square, square_key, SIDE};
use crate::moves::{
    castle_king_to,
    castle_rook_to,
    en_passant_victim,
    ep_square_after,
    landing_piece,
    Move,
};
use crate::piece::{Color, Piece, Role};
use crate::position::{Outcome, Position, PositionView};
use crate::setup::{FromSetup, PositionError, PositionErrorKinds, Setup};
use crate::square::{File, Square};

verus! {

/// Marks the positions that can be fingerprinted. See [`Zobrist`].
pub trait ZobristHashable {

}

proof fn lemma_xor_rights(b: u64, r1: u64, r2: u64, r3: u64, r4: u64)
    by (bit_vector)
    ensures
        (((b ^ r1) ^ r2) ^ r3) ^ r4 == b ^ (r1 ^ r2 ^ r3 ^ r4),
{
}

proof fn lemma_xor_normal(h: u64, m: u64, c: u64, f: u64, t: u64, l: u64, e: u64)
    by (bit_vector)
    ensures
        (((((h ^ m) ^ c) ^ f) ^ t) ^ l) ^ e == h ^ (m ^ c) ^ (f ^ t ^ l) ^ e,
{
}

proof fn lemma_xor_castle(h: u64, k: u64, r: u64, rt: u64, kt: u64, a: u64, b: u64)
    by (bit_vector)
    ensures
        (((((h ^ k) ^ r) ^ rt) ^ kt) ^ a) ^ b == h ^ (a ^ b) ^ (k ^ r ^ rt ^ kt) ^ 0,
{
}

proof fn lemma_xor_plain(h: u64, a: u64, b: u64, c: u64)
    by (bit_vector)
    ensures
        ((h ^ a) ^ b) ^ c == h ^ 0 ^ (a ^ b ^ c) ^ 0,
        h ^ a == h ^ 0 ^ a ^ 0,
{
}

/// The XOR of the keys of the pieces on the board. Castling rights, the en
/// passant square and the side to move are no part of it.
pub fn zobrist_from_board(board: &Board) -> (zobrist: u64)
    ensures
        zobrist == board_hash(board@),
{
    let mut zobrist = 0u64;
    let mut i: u32 = 0;
    while i < 64
        invariant
            i <= 64,
            zobrist == board_hash_upto(board@, i as nat),
        decreases 64 - i,
    {
        let sq = Square::new(i);
        proof {
            lemma_xor_zero(zobrist);
        }
        if let Some(piece) = board.piece_at(sq) {
            zobrist ^= square(sq, piece);
        }
        i += 1;
    }
    zobrist
}

/// The fingerprint of a position, computed from the whole position.
pub fn hash_from_pos<T: Position + ZobristHashable>(pos: &T) -> (zobrist: u64)
    ensures
        zobrist == position_hash(pos@),
{
    let board_part = zobrist_from_board(pos.board());
    let mut zobrist = board_part;
    let castles = pos.castles();
    proof {
        lemma_xor_zero(zobrist);
    }
    if castles.has(Color::White, CastlingSide::KingSide) {
        zobrist ^= castle(Color::White, CastlingSide::KingSide);
    }
    proof {
        lemma_xor_zero(zobrist);
    }
    if castles.has(Color::White, CastlingSide::QueenSide) {
        zobrist ^= castle(Color::White, CastlingSide::QueenSide);
    }
    proof {
        lemma_xor_zero(zobrist);
    }
    if castles.has(Color::Black, CastlingSide::KingSide) {
        zobrist ^= castle(Color::Black, CastlingSide::KingSide);
    }
    proof {
        lemma_xor_zero(zobrist);
    }
    if castles.has(Color::Black, CastlingSide::QueenSide) {
        zobrist ^= castle(Color::Black, CastlingSide::QueenSide);
    }
    proof {
        lemma_xor_rights(
            board_part,
            right_key(*castles, Color::White, CastlingSide::KingSide),
            right_key(*castles, Color::White, CastlingSide::QueenSide),
            right_key(*castles, Color::Black, CastlingSide::KingSide),
            right_key(*castles, Color::Black, CastlingSide::QueenSide),
        );
        lemma_xor_zero(zobrist);
    }
    if let Some(sq) = pos.ep_square() {
        zobrist ^= enpassant(sq.file());
    }
    proof {
        lemma_xor_zero(zobrist);
    }
    if pos.turn() == Color::Black {
        zobrist ^= SIDE;
    }
    zobrist
}

/// The key of the castling right of `color` whose rook starts on `sq`, if
/// there is such a right and it is held, and zero otherwise.
fn rook_right(castles: &Castles, color: Color, sq: Square) -> (key: u64)
    ensures
        key == rook_right_key(*castles, color, sq),
{
    if sq.rank() == color.backrank() {
        if sq.file() == File::A && castles.has(color, CastlingSide::QueenSide) {
            return castle(color, CastlingSide::QueenSide);
        }
        if sq.file() == File::H && castles.has(color, CastlingSide::KingSide) {
            return castle(color, CastlingSide::KingSide);
        }
    }
    0
}

/// The fingerprint after the move `m`, from the fingerprint `hash` before
/// it and the position `pos` in which the move is made. The position is
/// the one before the move: it is read, not changed.
///
/// Only the keys of what the move changes are toggled. Where `hash` is the
/// fingerprint of `pos` and the move fits the board, the result is the
/// fingerprint of the position after the move.
pub fn hash_after_move<T: Position + ZobristHashable>(hash: u64, pos: &T, m: &Move) -> (zobrist:
    u64)
    ensures
        zobrist == hash_after(hash, pos@, *m),
        hash == position_hash(pos@) && m.fits(pos@) ==> zobrist == position_hash(pos@.play(*m)),
{
    let color = pos.turn();
    let castles = pos.castles();
    let board = pos.board();
    let mut zobrist = hash;

    // an en passant square lasts for one move only
    proof {
        lemma_xor_zero(zobrist);
    }
    if let Some(sq) = pos.ep_square() {
        zobrist ^= enpassant(sq.file());
    }
    let ghost start = zobrist;

    match *m {
        Move::Normal { role, from, capture, to, promotion } => {
            proof {
                lemma_xor_zero(zobrist);
            }
            if role == Role::King {
                // the king's move gives up the rights that are still held
                let ghost before = zobrist;
                if castles.has(color, CastlingSide::KingSide) {
                    zobrist ^= castle(color, CastlingSide::KingSide);
                }
                proof {
                    lemma_xor_zero(zobrist);
                }
                if castles.has(color, CastlingSide::QueenSide) {
                    zobrist ^= castle(color, CastlingSide::QueenSide);
                }
                proof {
                    lemma_xor_regroup(
                        before,
                        right_key(*castles, color, CastlingSide::KingSide),
                        right_key(*castles, color, CastlingSide::QueenSide),
                    );
                }
            } else if role == Role::Rook {
                zobrist ^= rook_right(castles, color, from);
            }
            assert(zobrist == start ^ mover_rights_toggles(*castles, color, role, from));

            proof {
                lemma_xor_zero(zobrist);
            }
            if capture == Some(Role::Rook) {
                zobrist ^= rook_right(castles, color.other(), to);
            }
            let ghost rights_done = zobrist;

            // lift the piece that moves
            proof {
                lemma_xor_zero(zobrist);
            }
            if let Some(from_piece) = board.piece_at(from) {
                zobrist ^= square(from, from_piece);
            }
            // lift the piece that is captured, if there is one
            proof {
                lemma_xor_zero(zobrist);
            }
            if let Some(to_piece) = board.piece_at(to) {
                zobrist ^= square(to, to_piece);
            }
            // set down the piece that arrives
            zobrist ^= square(to, landing_piece(color, role, promotion));

            // a pawn's advance by two ranks leaves an en passant square
            proof {
                lemma_xor_zero(zobrist);
            }
            if let Some(sq) = ep_square_after(color, *m) {
                zobrist ^= enpassant(sq.file());
            }
            proof {
                lemma_xor_normal(
                    start,
                    mover_rights_toggles(*castles, color, role, from),
                    capture_rights_toggles(*castles, color, capture, to),
                    cell_key(board@, from),
                    cell_key(board@, to),
                    square_key(to, landing_piece(color, role, promotion)),
                    ep_key(ep_square_after(color, *m)),
                );
            }
        },
        Move::Castle { king, rook } => {
            zobrist ^= square(king, color.king());
            zobrist ^= square(rook, color.rook());
            zobrist ^= square(castle_rook_to(king, rook), color.rook());
            zobrist ^= square(castle_king_to(king, rook), color.king());
            proof {
                lemma_xor_zero(zobrist);
            }
            if castles.has(color, CastlingSide::KingSide) {
                zobrist ^= castle(color, CastlingSide::KingSide);
            }
            proof {
                lemma_xor_zero(zobrist);
            }
            if castles.has(color, CastlingSide::QueenSide) {
                zobrist ^= castle(color, CastlingSide::QueenSide);
            }
            proof {
                lemma_xor_castle(
                    start,
                    square_key(king, color.king()),
                    square_key(rook, color.rook()),
                    square_key(castle_rook_to(king, rook), color.rook()),
                    square_key(castle_king_to(king, rook), color.king()),
                    right_key(*castles, color, CastlingSide::KingSide),
                    right_key(*castles, color, CastlingSide::QueenSide),
                );
            }
        },
        Move::EnPassant { from, to } => {
            zobrist ^= square(en_passant_victim(from, to), color.other().pawn());
            zobrist ^= square(from, color.pawn());
            zobrist ^= square(to, color.pawn());
            proof {
                lemma_xor_plain(
                    start,
                    square_key(en_passant_victim(from, to), color.other().pawn()),
                    square_key(from, color.pawn()),
                    square_key(to, color.pawn()),
                );
            }
        },
        Move::Put { role, to } => {
            zobrist ^= square(to, Piece { color, role });
            proof {
                lemma_xor_plain(start, square_key(to, Piece { color, role }), 0, 0);
            }
        },
    }
    assert(zobrist == start ^ rights_toggles(*castles, color, *m) ^ board_toggles(
        board@,
        color,
        *m,
    ) ^ ep_key(ep_square_after(color, *m)));

    // the other side is to move
    zobrist ^= SIDE;
    proof {
        if hash == position_hash(pos@) && m.fits(pos@) {
            lemma_hash_after_matches_play(pos@, *m);
        }
    }
    zobrist
}

/// A position that carries its fingerprint and keeps it current at every
/// move.
///
/// It wraps any position that is marked [`ZobristHashable`] and can be read
/// and played on like the position inside. Keeping the fingerprint current
/// costs a little at each move: where a fingerprint is needed now and then
/// only, [`hash_from_pos`] computes one from the whole position.
///
/// A wrapper made by [`Zobrist::new`], by `default` or by a setup that was
/// accepted is in step with its position (see [`Zobrist::is_synced`]), and
/// stays so under every move that fits the board. One that comes back
/// inside the error of a setup that was refused carries the fingerprint
/// zero, which says nothing of its position.
#[derive(Debug)]
pub struct Zobrist<P: Position + ZobristHashable> {
    pos: P,
    zobrist: u64,
}

impl<P: Position + ZobristHashable> ZobristHashable for Zobrist<P> {

}

impl<P: Position + ZobristHashable> View for Zobrist<P> {
    type V = PositionView;

    /// The position inside, as a mathematical value.
    open spec fn view(&self) -> PositionView {
        self.inner()@
    }
}

impl<P: Position + ZobristHashable> Zobrist<P> {
    /// The position inside.
    pub closed spec fn inner(&self) -> P {
        self.pos
    }

    /// The fingerprint that is carried.
    pub closed spec fn spec_hash(&self) -> u64 {
        self.zobrist
    }

    /// Whether the fingerprint that is carried is the fingerprint of the
    /// position inside.
    pub open spec fn is_synced(&self) -> bool {
        self.hash() == position_hash(self@)
    }

    /// Wraps a position, with its fingerprint computed from the whole
    /// position.
    pub fn new(pos: P) -> (wrapped: Self)
        ensures
            wrapped.inner() == pos,
            wrapped.is_synced(),
    {
        let zobrist = hash_from_pos(&pos);
        Zobrist { pos, zobrist }
    }

    /// The fingerprint that is carried: where the wrapper is in step with
    /// its position, the fingerprint of the position as it stands.
    #[verifier::when_used_as_spec(spec_hash)]
    pub fn hash(&self) -> (zobrist: u64)
        ensures
            zobrist == self.spec_hash(),
            self.is_synced() ==> zobrist == position_hash(self@),
    {
        self.zobrist
    }
}

impl<P: Default + Position + ZobristHashable> Default for Zobrist<P> {
    /// Wraps the position that `P` starts from.
    fn default() -> (wrapped: Self)
        ensures
            call_ensures(P::default, (), wrapped.inner()),
            wrapped.is_synced(),
    {
        Zobrist::new(P::default())
    }
}

impl<P: FromSetup + Position + ZobristHashable> FromSetup for Zobrist<P> {
    /// A setup is wrong for the wrapper where it is wrong for the position
    /// inside.
    open spec fn setup_errors(setup: PositionView) -> PositionErrorKinds {
        P::setup_errors(setup)
    }

    /// Makes the position inside from `setup` and wraps it. Where the setup
    /// is refused, the error is that of the position inside, and the
    /// wrapper in it carries the fingerprint zero.
    fn from_setup(setup: &Setup) -> (made: Result<Self, PositionError<Self>>)
        ensures
            made matches Ok(wrapped) ==> wrapped.is_synced(),
            made matches Err(e) ==> e.pos.hash() == 0,
    {
        match P::from_setup(setup) {
            Err(e) => Err(
                PositionError { pos: Zobrist { pos: e.pos, zobrist: 0 }, errors: e.errors },
            ),
            Ok(pos) => Ok(Zobrist::new(pos)),
        }
    }
}

impl<P: Position + ZobristHashable> Position for Zobrist<P> {
    open spec fn spec_is_variant_end(&self) -> bool {
        self.inner().spec_is_variant_end()
    }

    open spec fn spec_has_insufficient_material(&self, color: Color) -> bool {
        self.inner().spec_has_insufficient_material(color)
    }

    open spec fn spec_variant_outcome(&self) -> Option<Outcome> {
        self.inner().spec_variant_outcome()
    }

    fn is_variant_end(&self) -> (ended: bool) {
        self.pos.is_variant_end()
    }

    fn has_insufficient_material(&self, color: Color) -> (insufficient: bool) {
        self.pos.has_insufficient_material(color)
    }

    fn variant_outcome(&self) -> (outcome: Option<Outcome>) {
        self.pos.variant_outcome()
    }

    fn board(&self) -> (board: &Board) {
        self.pos.board()
    }

    fn turn(&self) -> (turn: Color) {
        self.pos.turn()
    }

    fn castles(&self) -> (castles: &Castles) {
        self.pos.castles()
    }

    fn ep_square(&self) -> (sq: Option<Square>) {
        self.pos.ep_square()
    }

    fn halfmoves(&self) -> (n: u32) {
        self.pos.halfmoves()
    }

    fn fullmoves(&self) -> (n: u32) {
        self.pos.fullmoves()
    }

    /// Makes the move `m` on the position inside and carries the
    /// fingerprint over it, from the position as it stood before the move.
    fn play_unchecked(&mut self, m: &Move)
        ensures
            final(self).hash() == hash_after(old(self).hash(), old(self)@, *m),
            old(self).is_synced() && m.fits(old(self)@) ==> final(self).is_synced(),
    {
        self.zobrist = hash_after_move(self.zobrist, &self.pos, m);
        self.pos.play_unchecked(m);
    }
}

} // verus!
