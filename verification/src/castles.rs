//! Castling sides and castling rights.

use vstd::prelude::*;
use crate::piece::Color;
use crate::square::{File, Square};

verus! {

/// One of the two sides to which a king can castle.
#[derive(Clone, Copy, Debug, PartialEq, Eq, Hash, Structural)]
pub enum CastlingSide {
    KingSide,
    QueenSide,
}

impl CastlingSide {
    /// The number of the side: 0 for the king's side, 1 for the queen's.
    pub open spec fn spec_index(self) -> usize {
        match self {
            CastlingSide::KingSide => 0,
            CastlingSide::QueenSide => 1,
        }
    }

    /// The queen's side if `queen_side` holds, the king's side if not.
    pub open spec fn spec_from_queen_side(queen_side: bool) -> CastlingSide {
        if queen_side {
            CastlingSide::QueenSide
        } else {
            CastlingSide::KingSide
        }
    }

    /// The file on which the rook of this side starts.
    pub open spec fn spec_rook_from_file(self) -> File {
        match self {
            CastlingSide::KingSide => File::H,
            CastlingSide::QueenSide => File::A,
        }
    }

    /// The file on which the king stands after castling to this side.
    pub open spec fn spec_king_to_file(self) -> File {
        match self {
            CastlingSide::KingSide => File::G,
            CastlingSide::QueenSide => File::C,
        }
    }

    /// The file on which the rook stands after castling to this side.
    pub open spec fn spec_rook_to_file(self) -> File {
        match self {
            CastlingSide::KingSide => File::F,
            CastlingSide::QueenSide => File::D,
        }
    }

    #[verifier::when_used_as_spec(spec_index)]
    pub fn index(self) -> (i: usize)
        ensures
            i == self.spec_index(),
            i < 2,
    {
        match self {
            CastlingSide::KingSide => 0,
            CastlingSide::QueenSide => 1,
        }
    }

    #[verifier::when_used_as_spec(spec_from_queen_side)]
    pub fn from_queen_side(queen_side: bool) -> (side: CastlingSide)
        ensures
            side == CastlingSide::spec_from_queen_side(queen_side),
    {
        if queen_side {
            CastlingSide::QueenSide
        } else {
            CastlingSide::KingSide
        }
    }

    #[verifier::when_used_as_spec(spec_rook_from_file)]
    pub fn rook_from_file(self) -> (file: File)
        ensures
            file == self.spec_rook_from_file(),
    {
        match self {
            CastlingSide::KingSide => File::H,
            CastlingSide::QueenSide => File::A,
        }
    }

    #[verifier::when_used_as_spec(spec_king_to_file)]
    pub fn king_to_file(self) -> (file: File)
        ensures
            file == self.spec_king_to_file(),
    {
        match self {
            CastlingSide::KingSide => File::G,
            CastlingSide::QueenSide => File::C,
        }
    }

    #[verifier::when_used_as_spec(spec_rook_to_file)]
    pub fn rook_to_file(self) -> (file: File)
        ensures
            file == self.spec_rook_to_file(),
    {
        match self {
            CastlingSide::KingSide => File::F,
            CastlingSide::QueenSide => File::D,
        }
    }
}

/// The square on which the rook of `color` for castling to `side` starts.
pub open spec fn rook_home(color: Color, side: CastlingSide) -> Square {
    Square { file: side.rook_from_file(), rank: color.backrank() }
}

/// The four castling rights: for each color and each side, whether that
/// color may still castle to that side at some later time.
#[derive(Clone, Copy, Debug, PartialEq, Eq, Hash, Structural)]
pub struct Castles {
    pub white_king_side: bool,
    pub white_queen_side: bool,
    pub black_king_side: bool,
    pub black_queen_side: bool,
}

impl Castles {
    /// Whether `color` still holds the right to castle on `side`.
    pub open spec fn spec_has(&self, color: Color, side: CastlingSide) -> bool {
        match (color, side) {
            (Color::White, CastlingSide::KingSide) => self.white_king_side,
            (Color::White, CastlingSide::QueenSide) => self.white_queen_side,
            (Color::Black, CastlingSide::KingSide) => self.black_king_side,
            (Color::Black, CastlingSide::QueenSide) => self.black_queen_side,
        }
    }

    /// These rights without the one of `color` on `side`.
    pub open spec fn without(self, color: Color, side: CastlingSide) -> Castles {
        match (color, side) {
            (Color::White, CastlingSide::KingSide) => Castles { white_king_side: false, ..self },
            (Color::White, CastlingSide::QueenSide) => Castles { white_queen_side: false, ..self },
            (Color::Black, CastlingSide::KingSide) => Castles { black_king_side: false, ..self },
            (Color::Black, CastlingSide::QueenSide) => Castles { black_queen_side: false, ..self },
        }
    }

    /// These rights without the two of `color`.
    pub open spec fn without_side(self, color: Color) -> Castles {
        self.without(color, CastlingSide::KingSide).without(color, CastlingSide::QueenSide)
    }

    /// These rights without the one whose rook starts on `sq`, if `sq` is a
    /// rook's starting square of `color`; unchanged otherwise.
    pub open spec fn without_rook(self, color: Color, sq: Square) -> Castles {
        if sq == rook_home(color, CastlingSide::QueenSide) {
            self.without(color, CastlingSide::QueenSide)
        } else if sq == rook_home(color, CastlingSide::KingSide) {
            self.without(color, CastlingSide::KingSide)
        } else {
            self
        }
    }

    /// All four rights, as at the start of a game.
    pub fn all() -> (c: Castles)
        ensures
            c == (Castles {
                white_king_side: true,
                white_queen_side: true,
                black_king_side: true,
                black_queen_side: true,
            }),
    {
        Castles {
            white_king_side: true,
            white_queen_side: true,
            black_king_side: true,
            black_queen_side: true,
        }
    }

    /// No right at all.
    pub fn empty() -> (c: Castles)
        ensures
            c == (Castles {
                white_king_side: false,
                white_queen_side: false,
                black_king_side: false,
                black_queen_side: false,
            }),
    {
        Castles {
            white_king_side: false,
            white_queen_side: false,
            black_king_side: false,
            black_queen_side: false,
        }
    }

    #[verifier::when_used_as_spec(spec_has)]
    pub fn has(&self, color: Color, side: CastlingSide) -> (held: bool)
        ensures
            held == self.spec_has(color, side),
    {
        match (color, side) {
            (Color::White, CastlingSide::KingSide) => self.white_king_side,
            (Color::White, CastlingSide::QueenSide) => self.white_queen_side,
            (Color::Black, CastlingSide::KingSide) => self.black_king_side,
            (Color::Black, CastlingSide::QueenSide) => self.black_queen_side,
        }
    }

    /// Gives up the right of `color` on `side`.
    pub fn discard(&mut self, color: Color, side: CastlingSide)
        ensures
            *final(self) == old(self).without(color, side),
    {
        match (color, side) {
            (Color::White, CastlingSide::KingSide) => self.white_king_side = false,
            (Color::White, CastlingSide::QueenSide) => self.white_queen_side = false,
            (Color::Black, CastlingSide::KingSide) => self.black_king_side = false,
            (Color::Black, CastlingSide::QueenSide) => self.black_queen_side = false,
        }
    }

    /// Gives up both rights of `color`.
    pub fn discard_side(&mut self, color: Color)
        ensures
            *final(self) == old(self).without_side(color),
    {
        self.discard(color, CastlingSide::KingSide);
        self.discard(color, CastlingSide::QueenSide);
    }

    /// Gives up the right of `color` whose rook starts on `sq`, if there is
    /// such a right.
    pub fn discard_rook(&mut self, color: Color, sq: Square)
        ensures
            *final(self) == old(self).without_rook(color, sq),
    {
        if sq.rank() == color.backrank() {
            if sq.file() == File::A {
                self.discard(color, CastlingSide::QueenSide);
            } else if sq.file() == File::H {
                self.discard(color, CastlingSide::KingSide);
            }
        }
    }
}

} // verus!
