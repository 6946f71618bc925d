//! Colors, roles and pieces.

use vstd::prelude::*;
use crate::square::Rank;

verus! {

/// One of the two sides.
#[derive(Clone, Copy, Debug, PartialEq, Eq, Hash, Structural)]
pub enum Color {
    White,
    Black,
}

impl Color {
    /// The number of the color: 0 for White, 1 for Black.
    pub open spec fn spec_index(self) -> usize {
        match self {
            Color::White => 0,
            Color::Black => 1,
        }
    }

    /// The opposing color.
    pub open spec fn spec_other(self) -> Color {
        match self {
            Color::White => Color::Black,
            Color::Black => Color::White,
        }
    }

    /// The rank that this color counts as `rank`: White counts from the
    /// first rank up, Black from the eighth rank down.
    pub open spec fn spec_relative_rank(self, rank: Rank) -> Rank {
        match self {
            Color::White => rank,
            Color::Black => rank.flip_vertical(),
        }
    }

    /// The rank on which the pieces of this color start.
    pub open spec fn spec_backrank(self) -> Rank {
        self.relative_rank(Rank::First)
    }

    /// The pawn of this color.
    pub open spec fn spec_pawn(self) -> Piece {
        Piece { color: self, role: Role::Pawn }
    }

    /// The rook of this color.
    pub open spec fn spec_rook(self) -> Piece {
        Piece { color: self, role: Role::Rook }
    }

    /// The king of this color.
    pub open spec fn spec_king(self) -> Piece {
        Piece { color: self, role: Role::King }
    }

    #[verifier::when_used_as_spec(spec_index)]
    pub fn index(self) -> (i: usize)
        ensures
            i == self.spec_index(),
            i < 2,
    {
        match self {
            Color::White => 0,
            Color::Black => 1,
        }
    }

    #[verifier::when_used_as_spec(spec_other)]
    pub fn other(self) -> (c: Color)
        ensures
            c == self.spec_other(),
    {
        match self {
            Color::White => Color::Black,
            Color::Black => Color::White,
        }
    }

    #[verifier::when_used_as_spec(spec_relative_rank)]
    pub fn relative_rank(self, rank: Rank) -> (r: Rank)
        ensures
            r == self.spec_relative_rank(rank),
    {
        match self {
            Color::White => rank,
            Color::Black => rank.flip_vertical(),
        }
    }

    #[verifier::when_used_as_spec(spec_backrank)]
    pub fn backrank(self) -> (r: Rank)
        ensures
            r == self.spec_backrank(),
    {
        self.relative_rank(Rank::First)
    }

    #[verifier::when_used_as_spec(spec_pawn)]
    pub fn pawn(self) -> (p: Piece)
        ensures
            p == self.spec_pawn(),
    {
        Piece { color: self, role: Role::Pawn }
    }

    #[verifier::when_used_as_spec(spec_rook)]
    pub fn rook(self) -> (p: Piece)
        ensures
            p == self.spec_rook(),
    {
        Piece { color: self, role: Role::Rook }
    }

    #[verifier::when_used_as_spec(spec_king)]
    pub fn king(self) -> (p: Piece)
        ensures
            p == self.spec_king(),
    {
        Piece { color: self, role: Role::King }
    }
}

/// What kind of piece a piece is.
#[derive(Clone, Copy, Debug, PartialEq, Eq, Hash, Structural)]
pub enum Role {
    Pawn,
    Knight,
    Bishop,
    Rook,
    Queen,
    King,
}

impl Role {
    /// The number of the role, from 0 for the pawn to 5 for the king.
    pub open spec fn spec_index(self) -> usize {
        match self {
            Role::Pawn => 0,
            Role::Knight => 1,
            Role::Bishop => 2,
            Role::Rook => 3,
            Role::Queen => 4,
            Role::King => 5,
        }
    }

    /// The piece of this role in the given color.
    pub open spec fn spec_of(self, color: Color) -> Piece {
        Piece { color, role: self }
    }

    #[verifier::when_used_as_spec(spec_index)]
    pub fn index(self) -> (i: usize)
        ensures
            i == self.spec_index(),
            i < 6,
    {
        match self {
            Role::Pawn => 0,
            Role::Knight => 1,
            Role::Bishop => 2,
            Role::Rook => 3,
            Role::Queen => 4,
            Role::King => 5,
        }
    }

    #[verifier::when_used_as_spec(spec_of)]
    pub fn of(self, color: Color) -> (p: Piece)
        ensures
            p == self.spec_of(color),
    {
        Piece { color, role: self }
    }
}

/// A piece: a role in one of the two colors.
#[derive(Clone, Copy, Debug, PartialEq, Eq, Hash, Structural)]
pub struct Piece {
    pub color: Color,
    pub role: Role,
}

impl Piece {
    /// The number of the piece among the twelve: White's six roles first.
    pub open spec fn spec_index(self) -> usize {
        (self.color.index() * 6 + self.role.index()) as usize
    }

    #[verifier::when_used_as_spec(spec_index)]
    pub fn index(self) -> (i: usize)
        ensures
            i == self.spec_index(),
            i < 12,
    {
        self.color.index() * 6 + self.role.index()
    }
}

} // verus!
