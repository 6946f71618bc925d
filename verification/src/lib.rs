//! Zobrist fingerprints of chess positions, kept current move by move.
//!
//! A fingerprint is a 64-bit value: the XOR of one random key for each piece
//! on its square, for each castling right that is still held, for the file
//! of the en passant square, and for the side to move. Two positions with
//! different fingerprints are certainly different, which is what tables of
//! positions already searched and the detection of repeated positions need.
//!
//! - [`keys`] is the table of random keys, the same in every run.
//! - [`zobrist::hash_from_pos`] computes a fingerprint from a whole position.
//! - [`zobrist::hash_after_move`] carries a fingerprint over one move, by
//!   toggling the keys of what the move changes and nothing else.
//! - [`zobrist::Zobrist`] wraps a position and carries its fingerprint along
//!   at every move that is played.
//! - [`fingerprint`] says what these compute and proves that they agree:
//!   the fingerprint carried along is always the fingerprint of the position
//!   reached.
//!
//! The rest is the position that is fingerprinted: [`square`], [`piece`],
//! [`board`], [`castles`], [`moves`], the interface [`position::Position`],
//! and [`chess::Chess`], which is made from a [`setup::Setup`].

pub mod square;
pub mod piece;
pub mod castles;
pub mod board;
pub mod moves;
pub mod position;
pub mod setup;
pub mod chess;
pub mod keys;
pub mod fingerprint;
pub mod zobrist;
