//! Files, ranks and squares of the board.

use vstd::prelude::*;

verus! {

/// A file (column) of the board, from the queen-side edge to the king-side edge.
#[derive(Clone, Copy, Debug, PartialEq, Eq, Hash, Structural)]
pub enum File {
    A,
    B,
    C,
    D,
    E,
    F,
    G,
    H,
}

impl File {
    /// The position of the file, counted from `A` as 0.
    pub open spec fn spec_index(self) -> usize {
        match self {
            File::A => 0,
            File::B => 1,
            File::C => 2,
            File::D => 3,
            File::E => 4,
            File::F => 5,
            File::G => 6,
            File::H => 7,
        }
    }

    /// The file at position `i`; positions past 7 are read as `H`.
    pub open spec fn from_index(i: int) -> File {
        if i <= 0 {
            File::A
        } else if i == 1 {
            File::B
        } else if i == 2 {
            File::C
        } else if i == 3 {
            File::D
        } else if i == 4 {
            File::E
        } else if i == 5 {
            File::F
        } else if i == 6 {
            File::G
        } else {
            File::H
        }
    }

    #[verifier::when_used_as_spec(spec_index)]
    pub fn index(self) -> (i: usize)
        ensures
            i == self.spec_index(),
            i < 8,
    {
        match self {
            File::A => 0,
            File::B => 1,
            File::C => 2,
            File::D => 3,
            File::E => 4,
            File::F => 5,
            File::G => 6,
            File::H => 7,
        }
    }

    pub fn new(index: u32) -> (file: File)
        requires
            index < 8,
        ensures
            file == File::from_index(index as int),
            file.index() == index,
    {
        match index {
            0 => File::A,
            1 => File::B,
            2 => File::C,
            3 => File::D,
            4 => File::E,
            5 => File::F,
            6 => File::G,
            _ => File::H,
        }
    }
}

/// A rank (row) of the board, from White's back rank to Black's.
#[derive(Clone, Copy, Debug, PartialEq, Eq, Hash, Structural)]
pub enum Rank {
    First,
    Second,
    Third,
    Fourth,
    Fifth,
    Sixth,
    Seventh,
    Eighth,
}

impl Rank {
    /// The position of the rank, counted from `First` as 0.
    pub open spec fn spec_index(self) -> usize {
        match self {
            Rank::First => 0,
            Rank::Second => 1,
            Rank::Third => 2,
            Rank::Fourth => 3,
            Rank::Fifth => 4,
            Rank::Sixth => 5,
            Rank::Seventh => 6,
            Rank::Eighth => 7,
        }
    }

    /// The rank at position `i`; positions past 7 are read as `Eighth`.
    pub open spec fn from_index(i: int) -> Rank {
        if i <= 0 {
            Rank::First
        } else if i == 1 {
            Rank::Second
        } else if i == 2 {
            Rank::Third
        } else if i == 3 {
            Rank::Fourth
        } else if i == 4 {
            Rank::Fifth
        } else if i == 5 {
            Rank::Sixth
        } else if i == 6 {
            Rank::Seventh
        } else {
            Rank::Eighth
        }
    }

    /// The rank as the other player counts it: the first for the eighth, the
    /// second for the seventh, and so on.
    pub open spec fn spec_flip_vertical(self) -> Rank {
        match self {
            Rank::First => Rank::Eighth,
            Rank::Second => Rank::Seventh,
            Rank::Third => Rank::Sixth,
            Rank::Fourth => Rank::Fifth,
            Rank::Fifth => Rank::Fourth,
            Rank::Sixth => Rank::Third,
            Rank::Seventh => Rank::Second,
            Rank::Eighth => Rank::First,
        }
    }

    #[verifier::when_used_as_spec(spec_flip_vertical)]
    pub fn flip_vertical(self) -> (rank: Rank)
        ensures
            rank == self.spec_flip_vertical(),
    {
        match self {
            Rank::First => Rank::Eighth,
            Rank::Second => Rank::Seventh,
            Rank::Third => Rank::Sixth,
            Rank::Fourth => Rank::Fifth,
            Rank::Fifth => Rank::Fourth,
            Rank::Sixth => Rank::Third,
            Rank::Seventh => Rank::Second,
            Rank::Eighth => Rank::First,
        }
    }

    #[verifier::when_used_as_spec(spec_index)]
    pub fn index(self) -> (i: usize)
        ensures
            i == self.spec_index(),
            i < 8,
    {
        match self {
            Rank::First => 0,
            Rank::Second => 1,
            Rank::Third => 2,
            Rank::Fourth => 3,
            Rank::Fifth => 4,
            Rank::Sixth => 5,
            Rank::Seventh => 6,
            Rank::Eighth => 7,
        }
    }

    pub fn new(index: u32) -> (rank: Rank)
        requires
            index < 8,
        ensures
            rank == Rank::from_index(index as int),
            rank.index() == index,
    {
        match index {
            0 => Rank::First,
            1 => Rank::Second,
            2 => Rank::Third,
            3 => Rank::Fourth,
            4 => Rank::Fifth,
            5 => Rank::Sixth,
            6 => Rank::Seventh,
            _ => Rank::Eighth,
        }
    }
}

/// A square of the board. Squares are numbered 0 to 63, file by file along
/// the first rank, then along the second, and so on: the file is the number
/// modulo 8 and the rank is the number divided by 8.
#[derive(Clone, Copy, Debug, PartialEq, Eq, Hash, Structural)]
pub struct Square {
    pub file: File,
    pub rank: Rank,
}

impl Square {
    /// The number of the square, between 0 and 63.
    pub open spec fn spec_index(self) -> usize {
        (self.rank.index() * 8 + self.file.index()) as usize
    }

    /// The square with number `i`, for `i` between 0 and 63.
    pub open spec fn from_index(i: int) -> Square {
        Square { file: File::from_index(i % 8), rank: Rank::from_index(i / 8) }
    }

    #[verifier::when_used_as_spec(spec_index)]
    pub fn index(self) -> (i: usize)
        ensures
            i == self.spec_index(),
            i < 64,
    {
        self.rank.index() * 8 + self.file.index()
    }

    pub fn new(index: u32) -> (sq: Square)
        requires
            index < 64,
        ensures
            sq == Square::from_index(index as int),
            sq.index() == index,
    {
        Square { file: File::new(index % 8), rank: Rank::new(index / 8) }
    }

    pub fn from_coords(file: File, rank: Rank) -> (sq: Square)
        ensures
            sq.file == file,
            sq.rank == rank,
    {
        Square { file, rank }
    }

    /// Whether the square is a dark one, as the corner `A` `First` is.
    pub open spec fn spec_is_dark(self) -> bool {
        (self.file.index() + self.rank.index()) % 2 == 0
    }

    #[verifier::when_used_as_spec(spec_is_dark)]
    pub fn is_dark(self) -> (dark: bool)
        ensures
            dark == self.spec_is_dark(),
    {
        (self.file.index() + self.rank.index()) % 2 == 0
    }

    pub fn file(self) -> (file: File)
        ensures
            file == self.file,
    {
        self.file
    }

    pub fn rank(self) -> (rank: Rank)
        ensures
            rank == self.rank,
    {
        self.rank
    }

    /// Numbering the squares loses nothing: a square is found again from its
    /// number, and a number between 0 and 63 from its square.
    pub proof fn lemma_index_round_trip()
        ensures
            forall|sq: Square|
                0 <= #[trigger] sq.index() < 64 && Square::from_index(sq.index() as int) == sq,
            forall|i: int| 0 <= i < 64 ==> (#[trigger] Square::from_index(i)).index() == i,
    {
    }
}

} // verus!
