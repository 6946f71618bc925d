use zobrist_hash::board::Board;
use zobrist_hash::castles::{Castles, CastlingSide};
use zobrist_hash::chess::Chess;
use zobrist_hash::keys::{castle, enpassant, square, SIDE};
use zobrist_hash::moves::Move;
use zobrist_hash::piece::{Color, Piece, Role};
use zobrist_hash::position::Position;
use zobrist_hash::setup::{FromSetup, Setup};
use zobrist_hash::square::{File, Rank, Square};
use zobrist_hash::zobrist::{hash_after_move, hash_from_pos, zobrist_from_board, Zobrist};

fn at(file: File, rank: Rank) -> Square {
    Square::from_coords(file, rank)
}

fn white(role: Role) -> Piece {
    Piece { color: Color::White, role }
}

fn black(role: Role) -> Piece {
    Piece { color: Color::Black, role }
}

fn board_of(pieces: &[(Square, Piece)]) -> Board {
    let mut board = Board::empty();
    for (sq, piece) in pieces {
        board.set_piece_at(*sq, *piece);
    }
    board
}

fn setup_of(pieces: &[(Square, Piece)], turn: Color) -> Setup {
    Setup {
        board: board_of(pieces),
        turn,
        castling_rights: Castles::empty(),
        ep_square: None,
        halfmoves: 0,
        fullmoves: 1,
    }
}

fn normal(role: Role, from: Square, to: Square) -> Move {
    Move::Normal { role, from, capture: None, to, promotion: None }
}

fn capture(role: Role, from: Square, to: Square, taken: Role) -> Move {
    Move::Normal { role, from, capture: Some(taken), to, promotion: None }
}

/// Plays the moves from the start of a game and holds the fingerprint that
/// is carried along against the one computed from the whole position.
fn play_from_start(moves: &[Move]) -> Zobrist<Chess> {
    let mut game = Zobrist::<Chess>::default();
    assert_eq!(game.hash(), hash_from_pos(&game));
    for m in moves {
        let expected = hash_after_move(game.hash(), &game, m);
        game.play_unchecked(m);
        assert_eq!(game.hash(), expected);
        assert_eq!(game.hash(), hash_from_pos(&game), "after {:?}", m);
    }
    game
}

#[test]
fn fen_test() {
    // 8/8/8/8/p7/P7/6k1/2K5 w - -   and the same with Black to move
    let pieces = [
        (at(File::A, Rank::Fourth), black(Role::Pawn)),
        (at(File::A, Rank::Third), white(Role::Pawn)),
        (at(File::G, Rank::Second), black(Role::King)),
        (at(File::C, Rank::First), white(Role::King)),
    ];
    let setup1 = setup_of(&pieces, Color::White);
    let setup2 = setup_of(&pieces, Color::Black);

    let game1: Zobrist<Chess> = Zobrist::from_setup(&setup1).expect("Error setting up game");
    let game2: Zobrist<Chess> = Zobrist::from_setup(&setup2).expect("Error setting up game");

    println!("0x{:x} != 0x{:x}", game1.hash(), game2.hash());

    assert_ne!(game1.hash(), game2.hash());
    assert_eq!(game1.hash() ^ game2.hash(), SIDE);
}

#[test]
fn full_fingerprint_is_the_xor_of_the_keys() {
    let a4 = at(File::A, Rank::Fourth);
    let a3 = at(File::A, Rank::Third);
    let g2 = at(File::G, Rank::Second);
    let c1 = at(File::C, Rank::First);
    let pieces = [
        (a4, black(Role::Pawn)),
        (a3, white(Role::Pawn)),
        (g2, black(Role::King)),
        (c1, white(Role::King)),
    ];
    let board_part = square(a4, black(Role::Pawn)) ^ square(a3, white(Role::Pawn))
        ^ square(g2, black(Role::King)) ^ square(c1, white(Role::King));
    assert_eq!(zobrist_from_board(&board_of(&pieces)), board_part);
    assert_eq!(zobrist_from_board(&Board::empty()), 0);

    let game = Chess::from_setup(&setup_of(&pieces, Color::White)).expect("a good setup");
    assert_eq!(hash_from_pos(&game), board_part);
    let game = Chess::from_setup(&setup_of(&pieces, Color::Black)).expect("a good setup");
    assert_eq!(hash_from_pos(&game), board_part ^ SIDE);
}

#[test]
fn castling_rights_and_en_passant_file_enter_the_fingerprint() {
    let e1 = at(File::E, Rank::First);
    let h1 = at(File::H, Rank::First);
    let e8 = at(File::E, Rank::Eighth);
    let a8 = at(File::A, Rank::Eighth);
    let d4 = at(File::D, Rank::Fourth);
    let pieces = [
        (e1, white(Role::King)),
        (h1, white(Role::Rook)),
        (e8, black(Role::King)),
        (a8, black(Role::Rook)),
        (d4, white(Role::Pawn)),
    ];
    let board_part = zobrist_from_board(&board_of(&pieces));
    let mut setup = setup_of(&pieces, Color::Black);
    setup.castling_rights.white_king_side = true;
    setup.castling_rights.black_queen_side = true;
    setup.ep_square = Some(at(File::D, Rank::Third));
    let game = Chess::from_setup(&setup).expect("a good setup");
    assert_eq!(
        hash_from_pos(&game),
        board_part
            ^ castle(Color::White, CastlingSide::KingSide)
            ^ castle(Color::Black, CastlingSide::QueenSide)
            ^ enpassant(File::D)
            ^ SIDE
    );
}

#[test]
fn start_of_a_game() {
    let game = Zobrist::<Chess>::default();
    let start = Chess::default();
    assert_eq!(game.board(), start.board());
    assert_eq!(*game.board(), Board::new());
    assert_eq!(game.turn(), Color::White);
    assert_eq!(*game.castles(), Castles::all());
    assert_eq!(game.ep_square(), None);
    assert_eq!(game.halfmoves(), 0);
    assert_eq!(game.fullmoves(), 1);
    assert_eq!(
        game.hash(),
        zobrist_from_board(start.board())
            ^ castle(Color::White, CastlingSide::KingSide)
            ^ castle(Color::White, CastlingSide::QueenSide)
            ^ castle(Color::Black, CastlingSide::KingSide)
            ^ castle(Color::Black, CastlingSide::QueenSide)
    );
    assert_eq!(game.hash(), hash_from_pos(&start));
    assert_eq!(game.hash(), Zobrist::new(start).hash());
    assert_eq!(game.hash(), Zobrist::<Chess>::default().hash());
    assert_eq!(start.board().count(white(Role::Pawn)), 8);
    assert_eq!(start.board().count(black(Role::King)), 1);
    assert_eq!(start.board().piece_at(at(File::D, Rank::Eighth)), Some(black(Role::Queen)));
    assert_eq!(start.board().piece_at(at(File::D, Rank::Fourth)), None);
}

#[test]
fn first_move_of_the_king_pawn() {
    let e2 = at(File::E, Rank::Second);
    let e4 = at(File::E, Rank::Fourth);
    let mut game = Zobrist::<Chess>::default();
    let before = game.hash();
    game.play_unchecked(&normal(Role::Pawn, e2, e4));
    assert_ne!(game.hash(), before);
    assert_eq!(
        game.hash(),
        before ^ square(e2, white(Role::Pawn)) ^ square(e4, white(Role::Pawn))
            ^ enpassant(File::E) ^ SIDE
    );
    assert_eq!(game.hash(), hash_from_pos(&game));
    assert_eq!(game.ep_square(), Some(at(File::E, Rank::Third)));
    assert_eq!(game.turn(), Color::Black);
    assert_eq!(game.board().piece_at(e2), None);
    assert_eq!(game.board().piece_at(e4), Some(white(Role::Pawn)));
}

#[test]
fn en_passant_square_lasts_one_move() {
    let e2 = at(File::E, Rank::Second);
    let e4 = at(File::E, Rank::Fourth);
    let g8 = at(File::G, Rank::Eighth);
    let f6 = at(File::F, Rank::Sixth);
    let mut game = Zobrist::<Chess>::default();
    let start = game.hash();
    game.play_unchecked(&normal(Role::Pawn, e2, e4));
    let after_first = game.hash();
    game.play_unchecked(&normal(Role::Knight, g8, f6));
    assert_eq!(game.ep_square(), None);
    assert_eq!(
        game.hash(),
        after_first ^ enpassant(File::E) ^ square(g8, black(Role::Knight))
            ^ square(f6, black(Role::Knight)) ^ SIDE
    );
    assert_eq!(
        game.hash(),
        start ^ square(e2, white(Role::Pawn)) ^ square(e4, white(Role::Pawn))
            ^ square(g8, black(Role::Knight)) ^ square(f6, black(Role::Knight))
    );
    assert_eq!(game.hash(), hash_from_pos(&game));
    assert_eq!(game.halfmoves(), 1);
    assert_eq!(game.fullmoves(), 2);
}

#[test]
fn black_pawn_leaves_an_en_passant_square_too() {
    let game = play_from_start(&[
        normal(Role::Knight, at(File::G, Rank::First), at(File::F, Rank::Third)),
        normal(Role::Pawn, at(File::C, Rank::Seventh), at(File::C, Rank::Fifth)),
    ]);
    assert_eq!(game.ep_square(), Some(at(File::C, Rank::Sixth)));
    let game = play_from_start(&[
        normal(Role::Pawn, at(File::E, Rank::Second), at(File::E, Rank::Third)),
        normal(Role::Pawn, at(File::C, Rank::Seventh), at(File::C, Rank::Sixth)),
    ]);
    assert_eq!(game.ep_square(), None);
}

#[test]
fn capture_keeps_the_fingerprint_in_step() {
    // 1. e4 d5 2. exd5 Qxd5
    let d5 = at(File::D, Rank::Fifth);
    let e4 = at(File::E, Rank::Fourth);
    let mut game = play_from_start(&[
        normal(Role::Pawn, at(File::E, Rank::Second), e4),
        normal(Role::Pawn, at(File::D, Rank::Seventh), d5),
    ]);
    let before = game.hash();
    game.play_unchecked(&capture(Role::Pawn, e4, d5, Role::Pawn));
    assert_eq!(
        game.hash(),
        before ^ enpassant(File::D) ^ square(e4, white(Role::Pawn))
            ^ square(d5, black(Role::Pawn)) ^ square(d5, white(Role::Pawn)) ^ SIDE
    );
    assert_eq!(game.hash(), hash_from_pos(&game));
    game.play_unchecked(&capture(Role::Queen, at(File::D, Rank::Eighth), d5, Role::Pawn));
    assert_eq!(game.hash(), hash_from_pos(&game));
    assert_eq!(game.board().piece_at(d5), Some(black(Role::Queen)));
    assert_eq!(game.halfmoves(), 0);
}

#[test]
fn en_passant_capture_keeps_the_fingerprint_in_step() {
    // 1. e4 a6 2. e5 d5 3. exd6
    let e5 = at(File::E, Rank::Fifth);
    let d5 = at(File::D, Rank::Fifth);
    let d6 = at(File::D, Rank::Sixth);
    let mut game = play_from_start(&[
        normal(Role::Pawn, at(File::E, Rank::Second), at(File::E, Rank::Fourth)),
        normal(Role::Pawn, at(File::A, Rank::Seventh), at(File::A, Rank::Sixth)),
        normal(Role::Pawn, at(File::E, Rank::Fourth), e5),
        normal(Role::Pawn, at(File::D, Rank::Seventh), d5),
    ]);
    assert_eq!(game.ep_square(), Some(d6));
    let before = game.hash();
    game.play_unchecked(&Move::EnPassant { from: e5, to: d6 });
    assert_eq!(
        game.hash(),
        before ^ enpassant(File::D) ^ square(d5, black(Role::Pawn))
            ^ square(e5, white(Role::Pawn)) ^ square(d6, white(Role::Pawn)) ^ SIDE
    );
    assert_eq!(game.hash(), hash_from_pos(&game));
    assert_eq!(game.board().piece_at(d5), None);
    assert_eq!(game.board().piece_at(e5), None);
    assert_eq!(game.board().piece_at(d6), Some(white(Role::Pawn)));
    assert_eq!(game.ep_square(), None);
}

#[test]
fn castling_keeps_the_fingerprint_in_step() {
    // 1. e4 e5 2. Nf3 Nc6 3. Bc4 Bc5 4. O-O
    let e1 = at(File::E, Rank::First);
    let h1 = at(File::H, Rank::First);
    let f1 = at(File::F, Rank::First);
    let g1 = at(File::G, Rank::First);
    let mut game = play_from_start(&[
        normal(Role::Pawn, at(File::E, Rank::Second), at(File::E, Rank::Fourth)),
        normal(Role::Pawn, at(File::E, Rank::Seventh), at(File::E, Rank::Fifth)),
        normal(Role::Knight, g1, at(File::F, Rank::Third)),
        normal(Role::Knight, at(File::B, Rank::Eighth), at(File::C, Rank::Sixth)),
        normal(Role::Bishop, f1, at(File::C, Rank::Fourth)),
        normal(Role::Bishop, at(File::F, Rank::Eighth), at(File::C, Rank::Fifth)),
    ]);
    let before = game.hash();
    game.play_unchecked(&Move::Castle { king: e1, rook: h1 });
    assert_eq!(
        game.hash(),
        before ^ square(e1, white(Role::King)) ^ square(h1, white(Role::Rook))
            ^ square(g1, white(Role::King)) ^ square(f1, white(Role::Rook))
            ^ castle(Color::White, CastlingSide::KingSide)
            ^ castle(Color::White, CastlingSide::QueenSide)
            ^ SIDE
    );
    assert_eq!(game.hash(), hash_from_pos(&game));
    assert_eq!(game.board().piece_at(g1), Some(white(Role::King)));
    assert_eq!(game.board().piece_at(f1), Some(white(Role::Rook)));
    assert_eq!(game.board().piece_at(e1), None);
    assert_eq!(game.board().piece_at(h1), None);
    assert!(!game.castles().has(Color::White, CastlingSide::KingSide));
    assert!(!game.castles().has(Color::White, CastlingSide::QueenSide));
    assert!(game.castles().has(Color::Black, CastlingSide::KingSide));
    assert!(game.castles().has(Color::Black, CastlingSide::QueenSide));
}

#[test]
fn castling_to_the_queen_side_keeps_the_fingerprint_in_step() {
    let e8 = at(File::E, Rank::Eighth);
    let a8 = at(File::A, Rank::Eighth);
    let pieces = [
        (at(File::E, Rank::First), white(Role::King)),
        (e8, black(Role::King)),
        (a8, black(Role::Rook)),
        (at(File::H, Rank::Eighth), black(Role::Rook)),
    ];
    let mut setup = setup_of(&pieces, Color::Black);
    setup.castling_rights.black_king_side = true;
    setup.castling_rights.black_queen_side = true;
    let mut game: Zobrist<Chess> = Zobrist::from_setup(&setup).expect("a good setup");
    assert_eq!(game.hash(), hash_from_pos(&game));
    game.play_unchecked(&Move::Castle { king: e8, rook: a8 });
    assert_eq!(game.hash(), hash_from_pos(&game));
    assert_eq!(game.board().piece_at(at(File::C, Rank::Eighth)), Some(black(Role::King)));
    assert_eq!(game.board().piece_at(at(File::D, Rank::Eighth)), Some(black(Role::Rook)));
    assert_eq!(*game.castles(), Castles::empty());
    assert_eq!(game.fullmoves(), 2);
}

#[test]
fn king_and_rook_moves_give_up_castling_rights() {
    let e1 = at(File::E, Rank::First);
    let a1 = at(File::A, Rank::First);
    let h1 = at(File::H, Rank::First);
    let pieces = [
        (e1, white(Role::King)),
        (a1, white(Role::Rook)),
        (h1, white(Role::Rook)),
        (at(File::A, Rank::Fourth), white(Role::Rook)),
        (at(File::E, Rank::Eighth), black(Role::King)),
    ];
    let mut setup = setup_of(&pieces, Color::White);
    setup.castling_rights.white_king_side = true;
    setup.castling_rights.white_queen_side = true;

    // the rook from the corner gives up the right of its side
    let mut game: Zobrist<Chess> = Zobrist::from_setup(&setup).expect("a good setup");
    let before = game.hash();
    game.play_unchecked(&normal(Role::Rook, a1, at(File::B, Rank::First)));
    assert_eq!(
        game.hash(),
        before ^ castle(Color::White, CastlingSide::QueenSide)
            ^ square(a1, white(Role::Rook)) ^ square(at(File::B, Rank::First), white(Role::Rook))
            ^ SIDE
    );
    assert_eq!(game.hash(), hash_from_pos(&game));
    assert!(game.castles().has(Color::White, CastlingSide::KingSide));
    assert!(!game.castles().has(Color::White, CastlingSide::QueenSide));

    // another rook on the same file gives up nothing
    let mut game: Zobrist<Chess> = Zobrist::from_setup(&setup).expect("a good setup");
    game.play_unchecked(&normal(Role::Rook, at(File::A, Rank::Fourth), at(File::A, Rank::Fifth)));
    assert_eq!(game.hash(), hash_from_pos(&game));
    assert!(game.castles().has(Color::White, CastlingSide::QueenSide));
    assert!(game.castles().has(Color::White, CastlingSide::KingSide));

    // the king gives up both
    let mut game: Zobrist<Chess> = Zobrist::from_setup(&setup).expect("a good setup");
    let before = game.hash();
    game.play_unchecked(&normal(Role::King, e1, at(File::E, Rank::Second)));
    assert_eq!(
        game.hash(),
        before ^ castle(Color::White, CastlingSide::KingSide)
            ^ castle(Color::White, CastlingSide::QueenSide)
            ^ square(e1, white(Role::King)) ^ square(at(File::E, Rank::Second), white(Role::King))
            ^ SIDE
    );
    assert_eq!(game.hash(), hash_from_pos(&game));
    assert_eq!(*game.castles(), Castles::empty());
}

#[test]
fn capture_of_a_rook_gives_up_the_opponents_right() {
    let h8 = at(File::H, Rank::Eighth);
    let h1 = at(File::H, Rank::First);
    let pieces = [
        (at(File::E, Rank::First), white(Role::King)),
        (h1, white(Role::Rook)),
        (at(File::E, Rank::Eighth), black(Role::King)),
        (h8, black(Role::Rook)),
    ];
    let mut setup = setup_of(&pieces, Color::White);
    setup.castling_rights.white_king_side = true;
    setup.castling_rights.black_king_side = true;
    let mut game: Zobrist<Chess> = Zobrist::from_setup(&setup).expect("a good setup");
    let before = game.hash();
    game.play_unchecked(&capture(Role::Rook, h1, h8, Role::Rook));
    assert_eq!(
        game.hash(),
        before ^ castle(Color::White, CastlingSide::KingSide)
            ^ castle(Color::Black, CastlingSide::KingSide)
            ^ square(h1, white(Role::Rook)) ^ square(h8, black(Role::Rook))
            ^ square(h8, white(Role::Rook)) ^ SIDE
    );
    assert_eq!(game.hash(), hash_from_pos(&game));
    assert_eq!(*game.castles(), Castles::empty());
}

#[test]
fn promotion_keeps_the_fingerprint_in_step() {
    let b7 = at(File::B, Rank::Seventh);
    let a8 = at(File::A, Rank::Eighth);
    let pieces = [
        (at(File::E, Rank::First), white(Role::King)),
        (b7, white(Role::Pawn)),
        (at(File::E, Rank::Eighth), black(Role::King)),
        (a8, black(Role::Rook)),
    ];
    let mut setup = setup_of(&pieces, Color::White);
    setup.castling_rights.black_queen_side = true;
    let mut game: Zobrist<Chess> = Zobrist::from_setup(&setup).expect("a good setup");
    let before = game.hash();
    game.play_unchecked(&Move::Normal {
        role: Role::Pawn,
        from: b7,
        capture: Some(Role::Rook),
        to: a8,
        promotion: Some(Role::Queen),
    });
    assert_eq!(
        game.hash(),
        before ^ castle(Color::Black, CastlingSide::QueenSide)
            ^ square(b7, white(Role::Pawn)) ^ square(a8, black(Role::Rook))
            ^ square(a8, white(Role::Queen)) ^ SIDE
    );
    assert_eq!(game.hash(), hash_from_pos(&game));
    assert_eq!(game.board().piece_at(a8), Some(white(Role::Queen)));
    assert_eq!(*game.castles(), Castles::empty());
}

#[test]
fn putting_a_piece_keeps_the_fingerprint_in_step() {
    let d4 = at(File::D, Rank::Fourth);
    let mut game = Zobrist::<Chess>::default();
    let before = game.hash();
    game.play_unchecked(&Move::Put { role: Role::Knight, to: d4 });
    assert_eq!(game.hash(), before ^ square(d4, white(Role::Knight)) ^ SIDE);
    assert_eq!(game.hash(), hash_from_pos(&game));
    assert_eq!(game.board().piece_at(d4), Some(white(Role::Knight)));
    assert_eq!(game.halfmoves(), 1);
    game.play_unchecked(&Move::Put { role: Role::Pawn, to: at(File::D, Rank::Fifth) });
    assert_eq!(game.hash(), hash_from_pos(&game));
    assert_eq!(game.halfmoves(), 0);
}

#[test]
fn updater_reads_the_position_before_the_move() {
    let e2 = at(File::E, Rank::Second);
    let e4 = at(File::E, Rank::Fourth);
    let m = normal(Role::Pawn, e2, e4);
    let mut pos = Chess::default();
    let before = hash_from_pos(&pos);
    let carried = hash_after_move(before, &pos, &m);
    pos.play_unchecked(&m);
    assert_eq!(carried, hash_from_pos(&pos));
    // carried over any value, the same keys are toggled
    assert_eq!(hash_after_move(0, &Chess::default(), &m), carried ^ before);
}

#[test]
fn transpositions_share_a_fingerprint() {
    let first = play_from_start(&[
        normal(Role::Knight, at(File::G, Rank::First), at(File::F, Rank::Third)),
        normal(Role::Knight, at(File::G, Rank::Eighth), at(File::F, Rank::Sixth)),
        normal(Role::Knight, at(File::B, Rank::First), at(File::C, Rank::Third)),
        normal(Role::Knight, at(File::B, Rank::Eighth), at(File::C, Rank::Sixth)),
    ]);
    let second = play_from_start(&[
        normal(Role::Knight, at(File::B, Rank::First), at(File::C, Rank::Third)),
        normal(Role::Knight, at(File::B, Rank::Eighth), at(File::C, Rank::Sixth)),
        normal(Role::Knight, at(File::G, Rank::First), at(File::F, Rank::Third)),
        normal(Role::Knight, at(File::G, Rank::Eighth), at(File::F, Rank::Sixth)),
    ]);
    assert_eq!(first.board(), second.board());
    assert_eq!(first.hash(), second.hash());
}

#[test]
fn refused_setups_come_back_with_their_errors() {
    let e1 = at(File::E, Rank::First);
    let e8 = at(File::E, Rank::Eighth);
    let kings = [(e1, white(Role::King)), (e8, black(Role::King))];

    // no king at all
    let setup = setup_of(&[], Color::White);
    let e = Zobrist::<Chess>::from_setup(&setup).expect_err("an empty board");
    assert!(e.errors.missing_king);
    assert!(!e.errors.too_many_kings);
    assert!(!e.errors.is_empty());
    assert_eq!(e.pos.hash(), 0);
    assert_eq!(*e.pos.board(), Board::empty());

    // one side without a king
    let setup = setup_of(&kings[..1], Color::White);
    let e = Chess::from_setup(&setup).expect_err("no black king");
    assert!(e.errors.missing_king);
    assert_eq!(e.pos.board().piece_at(e1), Some(white(Role::King)));

    // two kings of one color
    let mut pieces = kings.to_vec();
    pieces.push((at(File::A, Rank::Fourth), white(Role::King)));
    let e = Zobrist::<Chess>::from_setup(&setup_of(&pieces, Color::White))
        .expect_err("two white kings");
    assert!(e.errors.too_many_kings);
    assert!(!e.errors.missing_king);
    assert_eq!(e.pos.hash(), 0);

    // a pawn on the last rank
    let mut pieces = kings.to_vec();
    pieces.push((at(File::C, Rank::Eighth), white(Role::Pawn)));
    let e = Zobrist::<Chess>::from_setup(&setup_of(&pieces, Color::White))
        .expect_err("a pawn on the eighth rank");
    assert!(e.errors.pawns_on_backrank);
    assert!(!e.errors.missing_king && !e.errors.too_many_kings);
    assert!(!e.errors.invalid_castling_rights && !e.errors.invalid_ep_square);
    assert_eq!(e.pos.hash(), 0);
    let mut pieces = kings.to_vec();
    pieces.push((at(File::H, Rank::First), black(Role::Pawn)));
    let e = Chess::from_setup(&setup_of(&pieces, Color::White))
        .expect_err("a pawn on the first rank");
    assert!(e.errors.pawns_on_backrank);

    // a castling right without its rook
    let mut setup = setup_of(&kings, Color::White);
    setup.castling_rights.white_king_side = true;
    let e = Zobrist::<Chess>::from_setup(&setup).expect_err("no rook on h1");
    assert!(e.errors.invalid_castling_rights);
    assert!(!e.errors.invalid_ep_square);
    assert_eq!(e.pos.hash(), 0);
    assert!(e.pos.castles().has(Color::White, CastlingSide::KingSide));

    // an en passant square with no pawn before it
    let mut setup = setup_of(&kings, Color::Black);
    setup.ep_square = Some(at(File::E, Rank::Third));
    let e = Zobrist::<Chess>::from_setup(&setup).expect_err("no pawn on e4");
    assert!(e.errors.invalid_ep_square);
    assert!(!e.errors.invalid_castling_rights);
    assert_eq!(e.pos.hash(), 0);
    assert_eq!(e.pos.ep_square(), Some(at(File::E, Rank::Third)));

    // an en passant square on the wrong rank for the side to move
    let mut pieces = kings.to_vec();
    pieces.push((at(File::E, Rank::Fourth), white(Role::Pawn)));
    let mut setup = setup_of(&pieces, Color::White);
    setup.ep_square = Some(at(File::E, Rank::Third));
    let e = Chess::from_setup(&setup).expect_err("White is to move");
    assert!(e.errors.invalid_ep_square);
    setup.turn = Color::Black;
    let game = Zobrist::<Chess>::from_setup(&setup).expect("Black is to move");
    assert_eq!(game.hash(), hash_from_pos(&game));
    assert_eq!(game.ep_square(), Some(at(File::E, Rank::Third)));
}

#[test]
fn accepted_setup_is_the_position() {
    let start = Chess::default();
    let setup = Setup {
        board: *start.board(),
        turn: Color::White,
        castling_rights: Castles::all(),
        ep_square: None,
        halfmoves: 0,
        fullmoves: 1,
    };
    let game = Chess::from_setup(&setup).expect("the start of a game");
    assert_eq!(game, start);
    let wrapped = Zobrist::<Chess>::from_setup(&setup).expect("the start of a game");
    assert_eq!(wrapped.hash(), Zobrist::<Chess>::default().hash());
}

#[test]
fn counters_stop_at_their_limit() {
    let e1 = at(File::E, Rank::First);
    let e2 = at(File::E, Rank::Second);
    let kings = [(e1, white(Role::King)), (at(File::E, Rank::Eighth), black(Role::King))];
    let mut setup = setup_of(&kings, Color::Black);
    setup.halfmoves = u32::MAX;
    setup.fullmoves = u32::MAX;
    let mut game = Chess::from_setup(&setup).expect("a good setup");
    game.play_unchecked(&normal(Role::King, at(File::E, Rank::Eighth), at(File::E, Rank::Seventh)));
    assert_eq!(game.halfmoves(), u32::MAX);
    assert_eq!(game.fullmoves(), u32::MAX);
    game.play_unchecked(&normal(Role::King, e1, e2));
    assert_eq!(game.fullmoves(), u32::MAX);
}

#[test]
fn misuse_goes_unreported_and_leaves_the_fingerprint_out_of_step() {
    let e2 = at(File::E, Rank::Second);
    let e4 = at(File::E, Rank::Fourth);

    // a piece put on a square that is not empty
    let mut game = Zobrist::<Chess>::default();
    let before = game.hash();
    game.play_unchecked(&Move::Put { role: Role::Knight, to: e2 });
    assert_eq!(game.hash(), before ^ square(e2, white(Role::Knight)) ^ SIDE);
    assert_eq!(
        hash_from_pos(&game),
        before ^ square(e2, white(Role::Pawn)) ^ square(e2, white(Role::Knight)) ^ SIDE
    );
    assert_ne!(game.hash(), hash_from_pos(&game));

    // a fingerprint carried twice over one move
    let pos = Chess::default();
    let m = normal(Role::Pawn, e2, e4);
    let once = hash_after_move(hash_from_pos(&pos), &pos, &m);
    let twice = hash_after_move(once, &pos, &m);
    assert_eq!(twice, hash_from_pos(&pos));
    let mut played = pos;
    played.play_unchecked(&m);
    assert_eq!(once, hash_from_pos(&played));
    assert_ne!(twice, hash_from_pos(&played));

    // a fingerprint carried over a move from the position after it
    let late = hash_after_move(hash_from_pos(&pos), &played, &m);
    assert_ne!(late, hash_from_pos(&played));
}
