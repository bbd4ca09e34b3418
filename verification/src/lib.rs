//! A chess board model: an 8x8 grid of optional pieces with a turn counter,
//! tracked king positions and per-side capture lists, together with a
//! pseudo-legal move generator (movement geometry, boundary handling and
//! turn-based ownership filtering only; no check detection, castling,
//! en passant or promotion).

pub mod board;
pub mod laws;
pub mod moves;
pub mod piece;

pub use board::ChessBoard;
pub use piece::Color;
pub use piece::ChessPiece;
