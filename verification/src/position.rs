//! Positions: what a position is made of, how a move changes it, and the
//! interface through which a position is read and played.

use vstd::prelude::*;
use crate::board::{piece_on, Board};
use crate::castles::Castles;
use crate::moves::{
    castle_king_to,
    castle_rook_to,
    en_passant_victim,
    ep_square_after,
    landing_piece,
    Move,
};
use crate::piece::{Color, Piece, Role};
use crate::square::Square;

verus! {

/// A position as a mathematical value: the placement of the pieces, the
/// side to move, the castling rights, the en passant square if the last
/// move was a pawn's advance by two ranks, and the two move counters.
pub struct PositionView {
    pub board: Map<Square, Piece>,
    pub turn: Color,
    pub castles: Castles,
    pub ep_square: Option<Square>,
    pub halfmoves: u32,
    pub fullmoves: u32,
}

/// The placement of the pieces after `color` has made the move `m`.
pub open spec fn board_after(board: Map<Square, Piece>, color: Color, m: Move) -> Map<
    Square,
    Piece,
> {
    match m {
        Move::Normal { role, from, to, promotion, .. } => board.remove(from).insert(
            to,
            landing_piece(color, role, promotion),
        ),
        Move::Castle { king, rook } => board.remove(king).remove(rook).insert(
            castle_rook_to(king, rook),
            color.rook(),
        ).insert(castle_king_to(king, rook), color.king()),
        Move::EnPassant { from, to } => {
            let taken = board.remove(en_passant_victim(from, to));
            match piece_on(taken, from) {
                Some(pawn) => taken.remove(from).insert(to, pawn),
                None => taken,
            }
        },
        Move::Put { role, to } => board.insert(to, Piece { color, role }),
    }
}

/// The castling rights after `color` has made the move `m`. A king's move
/// and castling give up both rights of `color`; a rook's move from its
/// starting square gives up the right of `color` on that side; the capture
/// of a rook on its starting square gives up the opponent's right on that
/// side.
pub open spec fn castles_after(castles: Castles, color: Color, m: Move) -> Castles {
    match m {
        Move::Normal { role, from, capture, to, .. } => {
            let moved = if role == Role::King {
                castles.without_side(color)
            } else if role == Role::Rook {
                castles.without_rook(color, from)
            } else {
                castles
            };
            if capture == Some(Role::Rook) {
                moved.without_rook(color.other(), to)
            } else {
                moved
            }
        },
        Move::Castle { .. } => castles.without_side(color),
        _ => castles,
    }
}

/// A counter one higher, unless it is at its limit already.
pub open spec fn bumped(n: u32) -> u32 {
    if n < u32::MAX {
        (n + 1) as u32
    } else {
        n
    }
}

impl PositionView {
    /// The position after the side to move has made the move `m`.
    pub open spec fn play(self, m: Move) -> PositionView {
        PositionView {
            board: board_after(self.board, self.turn, m),
            turn: self.turn.other(),
            castles: castles_after(self.castles, self.turn, m),
            ep_square: ep_square_after(self.turn, m),
            halfmoves: if m.is_zeroing() {
                0
            } else {
                bumped(self.halfmoves)
            },
            fullmoves: if self.turn == Color::Black {
                bumped(self.fullmoves)
            } else {
                self.fullmoves
            },
        }
    }

    /// The position after the moves of `moves` have been made in turn.
    pub open spec fn play_all(self, moves: Seq<Move>) -> PositionView
        decreases moves.len(),
    {
        if moves.len() == 0 {
            self
        } else {
            self.play(moves.first()).play_all(moves.drop_first())
        }
    }
}

impl Move {
    /// Whether the move agrees with the board of `pos` as far as a
    /// fingerprint depends on it. Every legal move does.
    ///
    /// A normal move goes to another square than it comes from. A castling
    /// move finds the king and the rook of the side to move on its two
    /// squares, and the squares where they arrive empty or just left by
    /// them. An en passant capture finds the capturing pawn, the pawn it
    /// takes, and an empty destination. A piece put on the board is put on
    /// an empty square.
    pub open spec fn fits(&self, pos: PositionView) -> bool {
        let color = pos.turn;
        match *self {
            Move::Normal { from, to, .. } => from != to,
            Move::Castle { king, rook } => {
                let king_to = castle_king_to(king, rook);
                let rook_to = castle_rook_to(king, rook);
                &&& piece_on(pos.board, king) == Some(color.king())
                &&& piece_on(pos.board, rook) == Some(color.rook())
                &&& (piece_on(pos.board, king_to) is None || king_to == king || king_to == rook)
                &&& (piece_on(pos.board, rook_to) is None || rook_to == king || rook_to == rook)
            },
            Move::EnPassant { from, to } => {
                &&& piece_on(pos.board, en_passant_victim(from, to)) == Some(color.other().pawn())
                &&& piece_on(pos.board, from) == Some(color.pawn())
                &&& piece_on(pos.board, to) is None
            },
            Move::Put { to, .. } => piece_on(pos.board, to) is None,
        }
    }

    /// Whether each move of `moves` fits the position in which it is made,
    /// when they are made in turn from `pos`.
    pub open spec fn all_fit(moves: Seq<Move>, pos: PositionView) -> bool
        decreases moves.len(),
    {
        moves.len() > 0 ==> moves.first().fits(pos) && Move::all_fit(
            moves.drop_first(),
            pos.play(moves.first()),
        )
    }
}

/// How a game has ended.
#[derive(Clone, Copy, Debug, PartialEq, Eq, Hash, Structural)]
pub enum Outcome {
    Decisive { winner: Color },
    Draw,
}

/// A position that can be read and played on.
pub trait Position: View<V = PositionView> + Sized {
    /// Whether a rule of the variant that is played has ended the game.
    spec fn spec_is_variant_end(&self) -> bool;

    /// Whether `color` has too little material left to win by any play.
    spec fn spec_has_insufficient_material(&self, color: Color) -> bool;

    /// How a rule of the variant that is played has ended the game, if one
    /// has.
    spec fn spec_variant_outcome(&self) -> Option<Outcome>;

    /// The placement of the pieces.
    fn board(&self) -> (board: &Board)
        ensures
            board@ == self@.board,
    ;

    /// The side to move.
    fn turn(&self) -> (turn: Color)
        ensures
            turn == self@.turn,
    ;

    /// The castling rights that are still held.
    fn castles(&self) -> (castles: &Castles)
        ensures
            *castles == self@.castles,
    ;

    /// The square that a pawn passed over on the last move, if the last
    /// move was a pawn's advance by two ranks.
    fn ep_square(&self) -> (sq: Option<Square>)
        ensures
            sq == self@.ep_square,
    ;

    /// The number of moves of either side since the last pawn move or
    /// capture.
    fn halfmoves(&self) -> (n: u32)
        ensures
            n == self@.halfmoves,
    ;

    /// The number of the move that is about to be made, counted in pairs
    /// of a move of White and a move of Black.
    fn fullmoves(&self) -> (n: u32)
        ensures
            n == self@.fullmoves,
    ;

    /// Whether a rule of the variant that is played has ended the game.
    fn is_variant_end(&self) -> (ended: bool)
        ensures
            ended == self.spec_is_variant_end(),
    ;

    /// Whether `color` has too little material left to win by any play.
    fn has_insufficient_material(&self, color: Color) -> (insufficient: bool)
        ensures
            insufficient == self.spec_has_insufficient_material(color),
    ;

    /// How a rule of the variant that is played has ended the game, if
    /// one has.
    fn variant_outcome(&self) -> (outcome: Option<Outcome>)
        ensures
            outcome == self.spec_variant_outcome(),
    ;

    /// Makes the move `m`, without asking whether it is legal: the position
    /// changes as [`PositionView::play`] says, whatever the move.
    fn play_unchecked(&mut self, m: &Move)
        ensures
            final(self)@ == old(self)@.play(*m),
    ;
}

} // verus!
