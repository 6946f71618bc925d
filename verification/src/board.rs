//! The board: which piece stands on which square.

use vstd::prelude::*;
use crate::piece::{Color, Piece, Role};
use crate::square::{File, Rank, Square};

verus! {

/// A board holds at most one piece on each of the 64 squares.
#[derive(Clone, Copy, Debug, PartialEq, Eq, Hash)]
pub struct Board {
    cells: [Option<Piece>; 64],
}

impl View for Board {
    type V = Map<Square, Piece>;

    /// The board as a partial map from the occupied squares to their pieces.
    closed spec fn view(&self) -> Map<Square, Piece> {
        Map::new(
            |sq: Square| self.cells@[sq.index() as int] is Some,
            |sq: Square| self.cells@[sq.index() as int]->0,
        )
    }
}

/// What stands on `sq` in a placement of pieces.
pub open spec fn piece_on(board: Map<Square, Piece>, sq: Square) -> Option<Piece> {
    if board.contains_key(sq) {
        Some(board[sq])
    } else {
        None
    }
}

/// The role of the piece that starts a game on `file` of its back rank.
pub open spec fn spec_backrank_role(file: File) -> Role {
    match file {
        File::A | File::H => Role::Rook,
        File::B | File::G => Role::Knight,
        File::C | File::F => Role::Bishop,
        File::D => Role::Queen,
        File::E => Role::King,
    }
}

#[verifier::when_used_as_spec(spec_backrank_role)]
pub fn backrank_role(file: File) -> (role: Role)
    ensures
        role == spec_backrank_role(file),
{
    match file {
        File::A | File::H => Role::Rook,
        File::B | File::G => Role::Knight,
        File::C | File::F => Role::Bishop,
        File::D => Role::Queen,
        File::E => Role::King,
    }
}

/// What stands on `sq` when a game starts.
pub open spec fn initial_piece(sq: Square) -> Option<Piece> {
    match sq.rank {
        Rank::First => Some(backrank_role(sq.file).of(Color::White)),
        Rank::Second => Some(Color::White.pawn()),
        Rank::Seventh => Some(Color::Black.pawn()),
        Rank::Eighth => Some(backrank_role(sq.file).of(Color::Black)),
        _ => None,
    }
}

/// The placement of the pieces when a game starts.
pub open spec fn initial_board() -> Map<Square, Piece> {
    Map::new(|sq: Square| initial_piece(sq) is Some, |sq: Square| initial_piece(sq)->0)
}

/// How many of the first `n` squares hold `piece`.
pub open spec fn count_upto(board: Map<Square, Piece>, piece: Piece, n: nat) -> nat
    decreases n,
{
    if n == 0 {
        0
    } else {
        count_upto(board, piece, (n - 1) as nat) + if piece_on(board, Square::from_index(n - 1))
            == Some(piece) {
            1nat
        } else {
            0nat
        }
    }
}

/// How many squares hold `piece`.
pub open spec fn count(board: Map<Square, Piece>, piece: Piece) -> nat {
    count_upto(board, piece, 64)
}

/// How many of the first `n` squares are of the given shade and hold
/// `piece`.
pub open spec fn count_on_shade_upto(
    board: Map<Square, Piece>,
    piece: Piece,
    dark: bool,
    n: nat,
) -> nat
    decreases n,
{
    if n == 0 {
        0
    } else {
        let sq = Square::from_index(n - 1);
        count_on_shade_upto(board, piece, dark, (n - 1) as nat) + if sq.is_dark() == dark
            && piece_on(board, sq) == Some(piece) {
            1nat
        } else {
            0nat
        }
    }
}

/// How many squares of the given shade hold `piece`.
pub open spec fn count_on_shade(board: Map<Square, Piece>, piece: Piece, dark: bool) -> nat {
    count_on_shade_upto(board, piece, dark, 64)
}

impl Board {
    /// The board on which a game starts.
    pub fn new() -> (board: Board)
        ensures
            board@ == initial_board(),
    {
        let mut board = Board::empty();
        let mut i: u32 = 0;
        while i < 8
            invariant
                i <= 8,
                forall|sq: Square|
                    piece_on(board@, sq) == if sq.file.index() < i {
                        initial_piece(sq)
                    } else {
                        None
                    },
            decreases 8 - i,
        {
            let file = File::new(i);
            let ghost before = board@;
            board.set_piece_at(
                Square::from_coords(file, Rank::First),
                backrank_role(file).of(Color::White),
            );
            board.set_piece_at(Square::from_coords(file, Rank::Second), Color::White.pawn());
            board.set_piece_at(Square::from_coords(file, Rank::Seventh), Color::Black.pawn());
            board.set_piece_at(
                Square::from_coords(file, Rank::Eighth),
                backrank_role(file).of(Color::Black),
            );
            i += 1;
            assert forall|sq: Square|
                piece_on(board@, sq) == if sq.file.index() < i {
                    initial_piece(sq)
                } else {
                    None
                } by {
                assert(piece_on(before, sq) == if sq.file.index() < i - 1 {
                    initial_piece(sq)
                } else {
                    None
                });
            }
        }
        assert(board@ =~= initial_board()) by {
            assert forall|sq: Square| board@.contains_key(sq) == initial_board().contains_key(sq) by {
                assert(piece_on(board@, sq) == initial_piece(sq));
            }
            assert forall|sq: Square| board@.contains_key(sq) implies board@[sq] == initial_board()[sq] by {
                assert(piece_on(board@, sq) == initial_piece(sq));
            }
        }
        board
    }

    /// The number of squares that hold `piece`.
    pub fn count(&self, piece: Piece) -> (n: usize)
        ensures
            n == count(self@, piece),
            n <= 64,
    {
        let mut n: usize = 0;
        let mut i: u32 = 0;
        while i < 64
            invariant
                i <= 64,
                n <= i,
                n == count_upto(self@, piece, i as nat),
            decreases 64 - i,
        {
            if self.piece_at(Square::new(i)) == Some(piece) {
                n += 1;
            }
            i += 1;
        }
        n
    }

    /// The number of dark squares, or of light squares, that hold `piece`.
    pub fn count_on_shade(&self, piece: Piece, dark: bool) -> (n: usize)
        ensures
            n == count_on_shade(self@, piece, dark),
            n <= 64,
    {
        let mut n: usize = 0;
        let mut i: u32 = 0;
        while i < 64
            invariant
                i <= 64,
                n <= i,
                n == count_on_shade_upto(self@, piece, dark, i as nat),
            decreases 64 - i,
        {
            let sq = Square::new(i);
            if sq.is_dark() == dark && self.piece_at(sq) == Some(piece) {
                n += 1;
            }
            i += 1;
        }
        n
    }

    /// The board with no piece on it.
    pub fn empty() -> (board: Board)
        ensures
            board@ == Map::<Square, Piece>::empty(),
    {
        let board = Board { cells: [None; 64] };
        assert(board@ =~= Map::<Square, Piece>::empty());
        board
    }

    /// What stands on `sq`.
    pub fn piece_at(&self, sq: Square) -> (piece: Option<Piece>)
        ensures
            piece == piece_on(self@, sq),
    {
        self.cells[sq.index()]
    }

    /// Puts `piece` on `sq`, in place of what stood there.
    pub fn set_piece_at(&mut self, sq: Square, piece: Piece)
        ensures
            final(self)@ == old(self)@.insert(sq, piece),
    {
        self.cells[sq.index()] = Some(piece);
        proof {
            Square::lemma_index_round_trip();
            assert(self@ =~= old(self)@.insert(sq, piece));
        }
    }

    /// Empties `sq`.
    pub fn discard_piece_at(&mut self, sq: Square)
        ensures
            final(self)@ == old(self)@.remove(sq),
    {
        self.cells[sq.index()] = None;
        proof {
            Square::lemma_index_round_trip();
            assert(self@ =~= old(self)@.remove(sq));
        }
    }

    /// Empties `sq` and returns what stood there.
    pub fn remove_piece_at(&mut self, sq: Square) -> (piece: Option<Piece>)
        ensures
            piece == piece_on(old(self)@, sq),
            final(self)@ == old(self)@.remove(sq),
    {
        let piece = self.piece_at(sq);
        self.discard_piece_at(sq);
        piece
    }
}

} // verus!
