//! The position of a game of chess.

use vstd::prelude::*;
use crate::board::{count, count_on_shade, initial_board, piece_on, Board};
use crate::castles::{rook_home, Castles, CastlingSide};
use crate::moves::{
    castle_king_to,
    castle_rook_to,
    en_passant_victim,
    ep_square_after,
    landing_piece,
    Move,
};
use crate::piece::{Color, Piece, Role};
use crate::position::{bumped, Outcome, Position, PositionView};
use crate::setup::{FromSetup, PositionError, PositionErrorKinds, Setup};
use crate::square::{File, Rank, Square};
use crate::zobrist::ZobristHashable;

verus! {

/// A position of chess: the board, the side to move, the castling rights,
/// the en passant square and the two move counters.
#[derive(Clone, Copy, Debug, PartialEq, Eq, Hash)]
pub struct Chess {
    board: Board,
    turn: Color,
    castles: Castles,
    ep_square: Option<Square>,
    halfmoves: u32,
    fullmoves: u32,
}

impl View for Chess {
    type V = PositionView;

    closed spec fn view(&self) -> PositionView {
        PositionView {
            board: self.board@,
            turn: self.turn,
            castles: self.castles,
            ep_square: self.ep_square,
            halfmoves: self.halfmoves,
            fullmoves: self.fullmoves,
        }
    }
}

/// The position from which a game starts: all pieces on their starting
/// squares, White to move, all four castling rights, no en passant square.
pub open spec fn initial_position() -> PositionView {
    PositionView {
        board: initial_board(),
        turn: Color::White,
        castles: Castles {
            white_king_side: true,
            white_queen_side: true,
            black_king_side: true,
            black_queen_side: true,
        },
        ep_square: None,
        halfmoves: 0,
        fullmoves: 1,
    }
}

/// The square on which the king of `color` starts.
pub open spec fn king_home(color: Color) -> Square {
    Square { file: File::E, rank: color.backrank() }
}

/// Whether the right of `color` to castle on `side` is either not held, or
/// held with the king and the rook on their starting squares.
pub open spec fn right_is_backed(setup: PositionView, color: Color, side: CastlingSide) -> bool {
    setup.castles.has(color, side) ==> piece_on(setup.board, king_home(color)) == Some(
        color.king(),
    ) && piece_on(setup.board, rook_home(color, side)) == Some(color.rook())
}

/// Whether a pawn stands on `sq`.
pub open spec fn holds_pawn(board: Map<Square, Piece>, sq: Square) -> bool {
    piece_on(board, sq) == Some(Color::White.pawn()) || piece_on(board, sq) == Some(
        Color::Black.pawn(),
    )
}

/// Whether a pawn stands on the first or the eighth rank of `file`.
pub open spec fn backrank_pawn_on(board: Map<Square, Piece>, file: File) -> bool {
    holds_pawn(board, Square { file, rank: Rank::First }) || holds_pawn(
        board,
        Square { file, rank: Rank::Eighth },
    )
}

/// Whether there is no en passant square, or one that the last move can
/// have left: on the third rank of the side that moved, with that side's
/// pawn just beyond it, and with nothing on it nor on the square where the
/// pawn came from.
pub open spec fn ep_square_is_backed(setup: PositionView) -> bool {
    match setup.ep_square {
        None => true,
        Some(sq) => {
            let pusher = setup.turn.other();
            &&& sq.rank == pusher.relative_rank(Rank::Third)
            &&& piece_on(
                setup.board,
                Square { file: sq.file, rank: pusher.relative_rank(Rank::Fourth) },
            ) == Some(pusher.pawn())
            &&& piece_on(setup.board, sq) is None
            &&& piece_on(
                setup.board,
                Square { file: sq.file, rank: pusher.relative_rank(Rank::Second) },
            ) is None
        },
    }
}

/// What is wrong with a setup as a position of chess.
pub open spec fn chess_setup_errors(setup: PositionView) -> PositionErrorKinds {
    PositionErrorKinds {
        missing_king: count(setup.board, Color::White.king()) == 0 || count(
            setup.board,
            Color::Black.king(),
        ) == 0,
        too_many_kings: count(setup.board, Color::White.king()) > 1 || count(
            setup.board,
            Color::Black.king(),
        ) > 1,
        pawns_on_backrank: exists|file: File| backrank_pawn_on(setup.board, file),
        invalid_castling_rights: !(right_is_backed(setup, Color::White, CastlingSide::KingSide)
            && right_is_backed(setup, Color::White, CastlingSide::QueenSide) && right_is_backed(
            setup,
            Color::Black,
            CastlingSide::KingSide,
        ) && right_is_backed(setup, Color::Black, CastlingSide::QueenSide)),
        invalid_ep_square: !ep_square_is_backed(setup),
    }
}

/// How many pieces of `role` stand on the board, of both colors together.
pub open spec fn count_role(board: Map<Square, Piece>, role: Role) -> nat {
    count(board, role.of(Color::White)) + count(board, role.of(Color::Black))
}

/// How many bishops stand on the dark squares, or on the light squares, of
/// both colors together.
pub open spec fn count_bishops_on_shade(board: Map<Square, Piece>, dark: bool) -> nat {
    count_on_shade(board, Role::Bishop.of(Color::White), dark) + count_on_shade(
        board,
        Role::Bishop.of(Color::Black),
        dark,
    )
}

/// Whether `color` has too little material to give mate, whatever is
/// played.
///
/// With a pawn, a rook or a queen there is always enough. With a knight
/// there is too little only if `color` has nothing besides it and the king,
/// and the opponent has no pawn, knight, bishop or rook that could stand in
/// the way of its own king. With bishops and no knight there is too little
/// only if all bishops on the board stand on squares of one shade and
/// nobody has a pawn or a knight. A bare king is too little.
pub open spec fn insufficient_material(board: Map<Square, Piece>, color: Color) -> bool {
    let them = color.other();
    if count(board, Role::Pawn.of(color)) > 0 || count(board, Role::Rook.of(color)) > 0 || count(
        board,
        Role::Queen.of(color),
    ) > 0 {
        false
    } else if count(board, Role::Knight.of(color)) > 0 {
        count(board, Role::Knight.of(color)) + count(board, Role::Bishop.of(color)) + count(
            board,
            Role::King.of(color),
        ) <= 2 && count(board, Role::Pawn.of(them)) == 0 && count(board, Role::Knight.of(them))
            == 0 && count(board, Role::Bishop.of(them)) == 0 && count(board, Role::Rook.of(them))
            == 0
    } else if count(board, Role::Bishop.of(color)) > 0 {
        (count_bishops_on_shade(board, true) == 0 || count_bishops_on_shade(board, false) == 0)
            && count_role(board, Role::Pawn) == 0 && count_role(board, Role::Knight) == 0
    } else {
        true
    }
}

fn is_pawn(piece: Option<Piece>) -> (pawn: bool)
    ensures
        pawn == (piece == Some(Color::White.pawn()) || piece == Some(Color::Black.pawn())),
{
    match piece {
        Some(p) => p.role == Role::Pawn,
        None => false,
    }
}

fn has_backrank_pawn(board: &Board) -> (found: bool)
    ensures
        found == exists|file: File| backrank_pawn_on(board@, file),
{
    let mut found = false;
    let mut i: u32 = 0;
    while i < 8
        invariant
            i <= 8,
            found == exists|file: File| file.index() < i && backrank_pawn_on(board@, file),
        decreases 8 - i,
    {
        let file = File::new(i);
        let here = is_pawn(board.piece_at(Square::from_coords(file, Rank::First))) || is_pawn(
            board.piece_at(Square::from_coords(file, Rank::Eighth)),
        );
        proof {
            assert(here == backrank_pawn_on(board@, file));
            if here {
                assert(file.index() < i + 1 && backrank_pawn_on(board@, file));
            }
        }
        found = found || here;
        i += 1;
    }
    found
}

fn right_backed(setup: &Setup, color: Color, side: CastlingSide) -> (backed: bool)
    ensures
        backed == right_is_backed(setup@, color, side),
{
    if setup.castling_rights.has(color, side) {
        let king_at = Square::from_coords(File::E, color.backrank());
        let rook_at = Square::from_coords(side.rook_from_file(), color.backrank());
        setup.board.piece_at(king_at) == Some(color.king()) && setup.board.piece_at(rook_at)
            == Some(color.rook())
    } else {
        true
    }
}

fn ep_square_backed(setup: &Setup) -> (backed: bool)
    ensures
        backed == ep_square_is_backed(setup@),
{
    match setup.ep_square {
        None => true,
        Some(sq) => {
            let pusher = setup.turn.other();
            let pawn_at = Square::from_coords(sq.file(), pusher.relative_rank(Rank::Fourth));
            let came_from = Square::from_coords(sq.file(), pusher.relative_rank(Rank::Second));
            sq.rank() == pusher.relative_rank(Rank::Third) && setup.board.piece_at(pawn_at)
                == Some(pusher.pawn()) && setup.board.piece_at(sq).is_none()
                && setup.board.piece_at(came_from).is_none()
        },
    }
}

fn bump(n: u32) -> (m: u32)
    ensures
        m == bumped(n),
{
    if n < u32::MAX {
        n + 1
    } else {
        n
    }
}

impl Default for Chess {
    /// The position from which a game starts.
    fn default() -> (pos: Chess)
        ensures
            pos@ == initial_position(),
    {
        Chess {
            board: Board::new(),
            turn: Color::White,
            castles: Castles::all(),
            ep_square: None,
            halfmoves: 0,
            fullmoves: 1,
        }
    }
}

impl ZobristHashable for Chess {

}

impl Position for Chess {
    fn board(&self) -> (board: &Board) {
        &self.board
    }

    fn turn(&self) -> (turn: Color) {
        self.turn
    }

    fn castles(&self) -> (castles: &Castles) {
        &self.castles
    }

    fn ep_square(&self) -> (sq: Option<Square>) {
        self.ep_square
    }

    fn halfmoves(&self) -> (n: u32) {
        self.halfmoves
    }

    fn fullmoves(&self) -> (n: u32) {
        self.fullmoves
    }

    /// Chess has no rule of its own that ends a game.
    open spec fn spec_is_variant_end(&self) -> bool {
        false
    }

    open spec fn spec_has_insufficient_material(&self, color: Color) -> bool {
        insufficient_material(self@.board, color)
    }

    /// Chess has no rule of its own that ends a game.
    open spec fn spec_variant_outcome(&self) -> Option<Outcome> {
        None
    }

    fn is_variant_end(&self) -> (ended: bool) {
        false
    }

    fn has_insufficient_material(&self, color: Color) -> (insufficient: bool) {
        let board = &self.board;
        let them = color.other();
        if board.count(Role::Pawn.of(color)) > 0 || board.count(Role::Rook.of(color)) > 0
            || board.count(Role::Queen.of(color)) > 0 {
            return false;
        }
        if board.count(Role::Knight.of(color)) > 0 {
            return board.count(Role::Knight.of(color)) + board.count(Role::Bishop.of(color))
                + board.count(Role::King.of(color)) <= 2 && board.count(Role::Pawn.of(them)) == 0
                && board.count(Role::Knight.of(them)) == 0 && board.count(Role::Bishop.of(them))
                == 0 && board.count(Role::Rook.of(them)) == 0;
        }
        if board.count(Role::Bishop.of(color)) > 0 {
            let dark = board.count_on_shade(Role::Bishop.of(Color::White), true)
                + board.count_on_shade(Role::Bishop.of(Color::Black), true);
            let light = board.count_on_shade(Role::Bishop.of(Color::White), false)
                + board.count_on_shade(Role::Bishop.of(Color::Black), false);
            return (dark == 0 || light == 0) && board.count(Role::Pawn.of(Color::White)) == 0
                && board.count(Role::Pawn.of(Color::Black)) == 0 && board.count(
                Role::Knight.of(Color::White),
            ) == 0 && board.count(Role::Knight.of(Color::Black)) == 0;
        }
        true
    }

    fn variant_outcome(&self) -> (outcome: Option<Outcome>) {
        None
    }

    fn play_unchecked(&mut self, m: &Move) {
        let color = self.turn;
        self.ep_square = ep_square_after(color, *m);
        self.halfmoves = if m.is_zeroing() {
            0
        } else {
            bump(self.halfmoves)
        };
        match *m {
            Move::Normal { role, from, capture, to, promotion } => {
                if role == Role::King {
                    self.castles.discard_side(color);
                } else if role == Role::Rook {
                    self.castles.discard_rook(color, from);
                }
                if capture == Some(Role::Rook) {
                    self.castles.discard_rook(color.other(), to);
                }
                self.board.discard_piece_at(from);
                self.board.set_piece_at(to, landing_piece(color, role, promotion));
            },
            Move::Castle { king, rook } => {
                self.board.discard_piece_at(king);
                self.board.discard_piece_at(rook);
                self.board.set_piece_at(castle_rook_to(king, rook), color.rook());
                self.board.set_piece_at(castle_king_to(king, rook), color.king());
                self.castles.discard_side(color);
            },
            Move::EnPassant { from, to } => {
                self.board.discard_piece_at(en_passant_victim(from, to));
                let ghost taken = self.board@;
                if let Some(pawn) = self.board.remove_piece_at(from) {
                    self.board.set_piece_at(to, pawn);
                } else {
                    assert(self.board@ =~= taken);
                }
            },
            Move::Put { role, to } => {
                self.board.set_piece_at(to, Piece { color, role });
            },
        }
        if color == Color::Black {
            self.fullmoves = bump(self.fullmoves);
        }
        self.turn = color.other();
    }
}

impl FromSetup for Chess {
    open spec fn setup_errors(setup: PositionView) -> PositionErrorKinds {
        chess_setup_errors(setup)
    }

    fn from_setup(setup: &Setup) -> (made: Result<Chess, PositionError<Chess>>) {
        let white_kings = setup.board.count(Color::White.king());
        let black_kings = setup.board.count(Color::Black.king());
        let errors = PositionErrorKinds {
            missing_king: white_kings == 0 || black_kings == 0,
            too_many_kings: white_kings > 1 || black_kings > 1,
            pawns_on_backrank: has_backrank_pawn(&setup.board),
            invalid_castling_rights: !(right_backed(setup, Color::White, CastlingSide::KingSide)
                && right_backed(setup, Color::White, CastlingSide::QueenSide) && right_backed(
                setup,
                Color::Black,
                CastlingSide::KingSide,
            ) && right_backed(setup, Color::Black, CastlingSide::QueenSide)),
            invalid_ep_square: !ep_square_backed(setup),
        };
        let pos = Chess {
            board: setup.board,
            turn: setup.turn,
            castles: setup.castling_rights,
            ep_square: setup.ep_square,
            halfmoves: setup.halfmoves,
            fullmoves: setup.fullmoves,
        };
        if errors.is_empty() {
            Ok(pos)
        } else {
            Err(PositionError { pos, errors })
        }
    }
}

} // verus!
