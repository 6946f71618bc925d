//! Moves, as a position is told of them.

use vstd::prelude::*;
use crate::castles::CastlingSide;
use crate::piece::{Color, Piece, Role};
use crate::square::{Rank, Square};

verus! {

/// A move. The squares are those before the move is made. For `Castle`
/// they are the squares of the king and of the rook that castle.
#[derive(Clone, Copy, Debug, PartialEq, Eq, Hash)]
pub enum Move {
    Normal { role: Role, from: Square, capture: Option<Role>, to: Square, promotion: Option<Role> },
    Castle { king: Square, rook: Square },
    EnPassant { from: Square, to: Square },
    Put { role: Role, to: Square },
}

impl Move {
    /// Whether the move sets the count of half-moves back to zero: a pawn's
    /// move, a capture, or a pawn put on the board.
    pub open spec fn spec_is_zeroing(&self) -> bool {
        match *self {
            Move::Normal { role, capture, .. } => role == Role::Pawn || capture is Some,
            Move::Castle { .. } => false,
            Move::EnPassant { .. } => true,
            Move::Put { role, .. } => role == Role::Pawn,
        }
    }

    #[verifier::when_used_as_spec(spec_is_zeroing)]
    pub fn is_zeroing(&self) -> (zeroing: bool)
        ensures
            zeroing == self.spec_is_zeroing(),
    {
        match *self {
            Move::Normal { role, capture, .. } => role == Role::Pawn || capture.is_some(),
            Move::Castle { .. } => false,
            Move::EnPassant { .. } => true,
            Move::Put { role, .. } => role == Role::Pawn,
        }
    }
}

/// The piece that a normal move puts on its destination: the piece
/// promoted to, or else the piece that moved.
pub open spec fn spec_landing_piece(color: Color, role: Role, promotion: Option<Role>) -> Piece {
    match promotion {
        Some(promoted) => promoted.of(color),
        None => role.of(color),
    }
}

#[verifier::when_used_as_spec(spec_landing_piece)]
pub fn landing_piece(color: Color, role: Role, promotion: Option<Role>) -> (piece: Piece)
    ensures
        piece == spec_landing_piece(color, role, promotion),
{
    match promotion {
        Some(promoted) => promoted.of(color),
        None => role.of(color),
    }
}

/// The side to which the king on `king` castles with the rook on `rook`:
/// the queen's side if the rook stands before the king in the numbering of
/// the squares.
pub open spec fn spec_castle_side(king: Square, rook: Square) -> CastlingSide {
    CastlingSide::from_queen_side(rook.index() < king.index())
}

#[verifier::when_used_as_spec(spec_castle_side)]
pub fn castle_side(king: Square, rook: Square) -> (side: CastlingSide)
    ensures
        side == spec_castle_side(king, rook),
{
    CastlingSide::from_queen_side(rook.index() < king.index())
}

/// Where the king stands after castling: on its rank, on the file that
/// the side of castling gives.
pub open spec fn spec_castle_king_to(king: Square, rook: Square) -> Square {
    Square { file: castle_side(king, rook).king_to_file(), rank: king.rank }
}

#[verifier::when_used_as_spec(spec_castle_king_to)]
pub fn castle_king_to(king: Square, rook: Square) -> (sq: Square)
    ensures
        sq == spec_castle_king_to(king, rook),
{
    Square::from_coords(castle_side(king, rook).king_to_file(), king.rank())
}

/// Where the rook stands after castling: on its rank, on the file that
/// the side of castling gives.
pub open spec fn spec_castle_rook_to(king: Square, rook: Square) -> Square {
    Square { file: castle_side(king, rook).rook_to_file(), rank: rook.rank }
}

#[verifier::when_used_as_spec(spec_castle_rook_to)]
pub fn castle_rook_to(king: Square, rook: Square) -> (sq: Square)
    ensures
        sq == spec_castle_rook_to(king, rook),
{
    Square::from_coords(castle_side(king, rook).rook_to_file(), rook.rank())
}

/// The square of the pawn that an en passant capture from `from` to `to`
/// takes: on the file of `to` and the rank of `from`.
pub open spec fn spec_en_passant_victim(from: Square, to: Square) -> Square {
    Square { file: to.file, rank: from.rank }
}

#[verifier::when_used_as_spec(spec_en_passant_victim)]
pub fn en_passant_victim(from: Square, to: Square) -> (sq: Square)
    ensures
        sq == spec_en_passant_victim(from, to),
{
    Square::from_coords(to.file(), from.rank())
}

/// The en passant square after `color` has made the move `m`: the square
/// that a pawn passed over when it advanced by two ranks from the rank on
/// which the pawns of `color` start, and none after any other move.
pub open spec fn spec_ep_square_after(color: Color, m: Move) -> Option<Square> {
    match m {
        Move::Normal { role, from, to, .. } => if role == Role::Pawn && to.file == from.file
            && from.rank == color.relative_rank(Rank::Second) && to.rank == color.relative_rank(
            Rank::Fourth,
        ) {
            Some(Square { file: from.file, rank: color.relative_rank(Rank::Third) })
        } else {
            None
        },
        _ => None,
    }
}

#[verifier::when_used_as_spec(spec_ep_square_after)]
pub fn ep_square_after(color: Color, m: Move) -> (sq: Option<Square>)
    ensures
        sq == spec_ep_square_after(color, m),
{
    match m {
        Move::Normal { role, from, to, .. } => if role == Role::Pawn && to.file() == from.file()
            && from.rank() == color.relative_rank(Rank::Second) && to.rank()
            == color.relative_rank(Rank::Fourth) {
            Some(Square::from_coords(from.file(), color.relative_rank(Rank::Third)))
        } else {
            None
        },
        _ => None,
    }
}

} // verus!
