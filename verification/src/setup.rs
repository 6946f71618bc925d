//! Setting up a position from its parts.

use vstd::prelude::*;
use crate::board::Board;
use crate::castles::Castles;
use crate::piece::Color;
use crate::position::{Position, PositionView};
use crate::square::Square;

verus! {

/// The parts of a position, as they were put together and before anything
/// has checked them.
#[derive(Clone, Copy, Debug, PartialEq, Eq, Hash)]
pub struct Setup {
    pub board: Board,
    pub turn: Color,
    pub castling_rights: Castles,
    pub ep_square: Option<Square>,
    pub halfmoves: u32,
    pub fullmoves: u32,
}

impl View for Setup {
    type V = PositionView;

    open spec fn view(&self) -> PositionView {
        PositionView {
            board: self.board@,
            turn: self.turn,
            castles: self.castling_rights,
            ep_square: self.ep_square,
            halfmoves: self.halfmoves,
            fullmoves: self.fullmoves,
        }
    }
}

/// What can be wrong with a setup, each on its own.
#[derive(Clone, Copy, Debug, PartialEq, Eq, Hash, Structural)]
pub struct PositionErrorKinds {
    /// A side has no king.
    pub missing_king: bool,
    /// A side has more than one king.
    pub too_many_kings: bool,
    /// A pawn stands on the first or the eighth rank.
    pub pawns_on_backrank: bool,
    /// A castling right is held although the king or the rook is not on
    /// its starting square.
    pub invalid_castling_rights: bool,
    /// The en passant square is not one that the last move can have left.
    pub invalid_ep_square: bool,
}

impl PositionErrorKinds {
    /// Whether nothing is wrong.
    pub open spec fn spec_is_empty(&self) -> bool {
        !self.missing_king && !self.too_many_kings && !self.pawns_on_backrank
            && !self.invalid_castling_rights && !self.invalid_ep_square
    }

    #[verifier::when_used_as_spec(spec_is_empty)]
    pub fn is_empty(&self) -> (empty: bool)
        ensures
            empty == self.spec_is_empty(),
    {
        !self.missing_king && !self.too_many_kings && !self.pawns_on_backrank
            && !self.invalid_castling_rights && !self.invalid_ep_square
    }
}

/// A setup that was found wrong: the position as it was set up, and what
/// is wrong with it.
#[derive(Debug)]
pub struct PositionError<P> {
    pub pos: P,
    pub errors: PositionErrorKinds,
}

/// A position that can be made from a setup.
pub trait FromSetup: Position {
    /// What is wrong with a setup, for this kind of position.
    spec fn setup_errors(setup: PositionView) -> PositionErrorKinds;

    /// Makes the position that `setup` describes. The setup is accepted if
    /// and only if nothing is wrong with it. Where something is, the
    /// position comes back all the same, inside the error and together
    /// with everything that is wrong.
    fn from_setup(setup: &Setup) -> (made: Result<Self, PositionError<Self>>)
        ensures
            made is Ok <==> Self::setup_errors(setup@).is_empty(),
            made matches Ok(pos) ==> pos@ == setup@,
            made matches Err(e) ==> e.pos@ == setup@ && e.errors == Self::setup_errors(setup@),
    ;
}

} // verus!
