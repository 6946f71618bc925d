//! The table of random keys.
//!
//! The table holds one 64-bit key for each of the twelve pieces on each of
//! the 64 squares, one for each of the four castling rights, one for each of
//! the eight files on which an en passant square can lie, and one for the
//! side to move: 781 keys. Key number `n` is the `n`-th value drawn from a
//! SplitMix64 generator started from a fixed seed, so the table is the same
//! in every run and on every machine. Every step of the generator can be
//! undone, from which it follows that no two keys are equal.

use vstd::prelude::*;
use crate::castles::CastlingSide;
use crate::piece::{Color, Piece};
use crate::square::{File, Square};

verus! {

/// The state from which the generator starts.
pub const SEED: u64 = 0x3243_F6A8_885A_308D;

/// The amount by which the generator's state grows at each draw.
pub const GAMMA: u64 = 0x9E37_79B9_7F4A_7C15;

/// The two odd numbers by which the generator's output function multiplies.
pub const MIX_A: u64 = 0xBF58_476D_1CE4_E5B9;

pub const MIX_B: u64 = 0x94D0_49BB_1331_11EB;

/// The inverses of `GAMMA`, `MIX_A` and `MIX_B` in arithmetic modulo 2^64:
/// multiplying by one of them undoes multiplying by the other.
const GAMMA_INVERSE: u64 = 0xF1DE_83E1_9937_733D;

const MIX_A_INVERSE: u64 = 0x96DE_1B17_3F11_9089;

const MIX_B_INVERSE: u64 = 0x3196_42B2_D24D_8EC3;

/// The key for the side to move: the last key of the table.
pub const SIDE: u64 = 0xDBA0_79DF_34F2_C015;

/// The generator's output function, applied to its state.
pub open spec fn scramble(z: u64) -> u64 {
    let a = (z ^ (z >> 30)).wrapping_mul(MIX_A);
    let b = (a ^ (a >> 27)).wrapping_mul(MIX_B);
    b ^ (b >> 31)
}

/// The `n`-th value drawn from the generator.
pub open spec fn key(n: u64) -> u64 {
    scramble(SEED.wrapping_add(n.wrapping_mul(GAMMA)))
}

/// The number of the key for `piece` on `sq`: 1 to 768.
pub open spec fn square_slot(sq: Square, piece: Piece) -> u64 {
    (1 + 12 * sq.index() + piece.index()) as u64
}

/// The number of the key for the right of `color` to castle on `side`: 769 to 772.
pub open spec fn castle_slot(color: Color, side: CastlingSide) -> u64 {
    (769 + 2 * color.index() + side.index()) as u64
}

/// The number of the key for an en passant square on `file`: 773 to 780.
pub open spec fn enpassant_slot(file: File) -> u64 {
    (773 + file.index()) as u64
}

/// The number of the key for the side to move.
pub open spec fn side_slot() -> u64 {
    781
}

/// The key for `piece` standing on `sq`.
pub open spec fn square_key(sq: Square, piece: Piece) -> u64 {
    key(square_slot(sq, piece))
}

/// The key for the right of `color` to castle on `side`.
pub open spec fn castle_key(color: Color, side: CastlingSide) -> u64 {
    key(castle_slot(color, side))
}

/// The key for an en passant square on `file`.
pub open spec fn enpassant_key(file: File) -> u64 {
    key(enpassant_slot(file))
}

proof fn lemma_fold30_undone(x: u64, y: u64)
    by (bit_vector)
    requires
        x ^ (x >> 30) == y ^ (y >> 30),
    ensures
        x == y,
{
}

proof fn lemma_fold27_undone(x: u64, y: u64)
    by (bit_vector)
    requires
        x ^ (x >> 27) == y ^ (y >> 27),
    ensures
        x == y,
{
}

proof fn lemma_fold31_undone(x: u64, y: u64)
    by (bit_vector)
    requires
        x ^ (x >> 31) == y ^ (y >> 31),
    ensures
        x == y,
{
}

proof fn lemma_mix_a_undone(x: u64)
    by (bit_vector)
    ensures
        x.wrapping_mul(MIX_A).wrapping_mul(MIX_A_INVERSE) == x,
{
}

proof fn lemma_mix_b_undone(x: u64)
    by (bit_vector)
    ensures
        x.wrapping_mul(MIX_B).wrapping_mul(MIX_B_INVERSE) == x,
{
}

proof fn lemma_step_undone(n: u64)
    by (bit_vector)
    ensures
        SEED.wrapping_add(n.wrapping_mul(GAMMA)).wrapping_sub(SEED).wrapping_mul(GAMMA_INVERSE)
            == n,
{
}

/// The output function maps different states to different values.
pub proof fn lemma_scramble_injective(x: u64, y: u64)
    requires
        scramble(x) == scramble(y),
    ensures
        x == y,
{
    let xa = (x ^ (x >> 30)).wrapping_mul(MIX_A);
    let ya = (y ^ (y >> 30)).wrapping_mul(MIX_A);
    let xb = (xa ^ (xa >> 27)).wrapping_mul(MIX_B);
    let yb = (ya ^ (ya >> 27)).wrapping_mul(MIX_B);
    lemma_fold31_undone(xb, yb);
    lemma_mix_b_undone(xa ^ (xa >> 27));
    lemma_mix_b_undone(ya ^ (ya >> 27));
    lemma_fold27_undone(xa, ya);
    lemma_mix_a_undone(x ^ (x >> 30));
    lemma_mix_a_undone(y ^ (y >> 30));
    lemma_fold30_undone(x, y);
}

/// No two draws from the generator give the same value.
pub proof fn lemma_keys_distinct(m: u64, n: u64)
    requires
        m != n,
    ensures
        key(m) != key(n),
{
    if key(m) == key(n) {
        lemma_scramble_injective(
            SEED.wrapping_add(m.wrapping_mul(GAMMA)),
            SEED.wrapping_add(n.wrapping_mul(GAMMA)),
        );
        lemma_step_undone(m);
        lemma_step_undone(n);
    }
}

/// The keys of the pieces on the squares are pairwise distinct over the
/// whole grid of 64 squares and 12 pieces.
pub proof fn lemma_square_keys_distinct(sq1: Square, piece1: Piece, sq2: Square, piece2: Piece)
    requires
        sq1 != sq2 || piece1 != piece2,
    ensures
        square_key(sq1, piece1) != square_key(sq2, piece2),
{
    lemma_keys_distinct(square_slot(sq1, piece1), square_slot(sq2, piece2));
}

/// An entry of the table: what a key stands for.
#[derive(Clone, Copy, Debug, PartialEq, Eq, Hash, Structural)]
pub enum Entry {
    Square { sq: Square, piece: Piece },
    Castle { color: Color, side: CastlingSide },
    EnPassant { file: File },
    Side,
}

/// The number of the key of an entry of the table: 1 to 781.
pub open spec fn entry_slot(entry: Entry) -> u64 {
    match entry {
        Entry::Square { sq, piece } => square_slot(sq, piece),
        Entry::Castle { color, side } => castle_slot(color, side),
        Entry::EnPassant { file } => enpassant_slot(file),
        Entry::Side => side_slot(),
    }
}

/// The key of an entry of the table.
pub open spec fn entry_key(entry: Entry) -> u64 {
    key(entry_slot(entry))
}

/// Different entries have keys of different numbers.
proof fn lemma_entry_slots_distinct(a: Entry, b: Entry)
    requires
        a != b,
    ensures
        entry_slot(a) != entry_slot(b),
{
    assert forall|sq: Square, piece: Piece| 1 <= #[trigger] square_slot(sq, piece) <= 768 by {}
    assert forall|color: Color, side: CastlingSide|
        769 <= #[trigger] castle_slot(color, side) <= 772 by {}
    assert forall|file: File| 773 <= #[trigger] enpassant_slot(file) <= 780 by {}
    match (a, b) {
        (Entry::Square { sq: sq1, piece: piece1 }, Entry::Square { sq: sq2, piece: piece2 }) => {
            assert(sq1.index() * 12 + piece1.index() != sq2.index() * 12 + piece2.index());
        },
        _ => {},
    }
}

/// No two entries of the table have the same key, whatever they stand for.
pub proof fn lemma_entries_distinct(a: Entry, b: Entry)
    requires
        a != b,
    ensures
        entry_key(a) != entry_key(b),
{
    lemma_entry_slots_distinct(a, b);
    lemma_keys_distinct(entry_slot(a), entry_slot(b));
}

/// The constant `SIDE` is the table's last key, and it is not zero.
pub proof fn lemma_side_key()
    ensures
        SIDE == key(side_slot()),
        SIDE == entry_key(Entry::Side),
        SIDE != 0,
{
    assert(key(781) == SIDE) by (bit_vector);
}

fn nth_key(n: u64) -> (k: u64)
    ensures
        k == key(n),
{
    let z = SEED.wrapping_add(n.wrapping_mul(GAMMA));
    let a = (z ^ (z >> 30)).wrapping_mul(MIX_A);
    let b = (a ^ (a >> 27)).wrapping_mul(MIX_B);
    b ^ (b >> 31)
}

/// The key for `piece` standing on `sq`.
pub fn square(sq: Square, piece: Piece) -> (k: u64)
    ensures
        k == square_key(sq, piece),
{
    nth_key((1 + 12 * sq.index() + piece.index()) as u64)
}

/// The key for the right of `color` to castle on `side`.
pub fn castle(color: Color, side: CastlingSide) -> (k: u64)
    ensures
        k == castle_key(color, side),
{
    nth_key((769 + 2 * color.index() + side.index()) as u64)
}

/// The key for an en passant square on `file`.
pub fn enpassant(file: File) -> (k: u64)
    ensures
        k == enpassant_key(file),
{
    nth_key((773 + file.index()) as u64)
}

} // verus!
