//! Piece values: a color and a piece kind, each kind carrying its color.

use vstd::prelude::*;

verus! {

/// One of the two sides. Compared by value.
#[derive(PartialEq, Eq, Structural, Clone, Copy, Debug)]
pub enum Color {
    White,
    Black,
}

/// A piece: a kind tagged with the color that owns it.
#[derive(Clone, Copy)]
pub enum ChessPiece {
    Pawn(Color),
    Rook(Color),
    Knight(Color),
    Bishop(Color),
    Queen(Color),
    King(Color),
}

/// The color carried by a piece, as a mathematical function.
pub open spec fn spec_color(p: ChessPiece) -> Color {
    match p {
        ChessPiece::Pawn(c) => c,
        ChessPiece::Rook(c) => c,
        ChessPiece::Knight(c) => c,
        ChessPiece::Bishop(c) => c,
        ChessPiece::Queen(c) => c,
        ChessPiece::King(c) => c,
    }
}

/// The name of a piece's kind, as a sequence of characters.
pub open spec fn spec_kind_name(p: ChessPiece) -> Seq<char> {
    match p {
        ChessPiece::Pawn(_) => "Pawn"@,
        ChessPiece::Rook(_) => "Rook"@,
        ChessPiece::Knight(_) => "Knight"@,
        ChessPiece::Bishop(_) => "Bishop"@,
        ChessPiece::Queen(_) => "Queen"@,
        ChessPiece::King(_) => "King"@,
    }
}

impl ChessPiece {
    /// The kind's name, independent of the piece's color.
    pub fn to_string(&self) -> (r: &str)
        ensures
            r@ == spec_kind_name(*self),
    {
        match self {
            ChessPiece::Bishop(_) => "Bishop",
            ChessPiece::Pawn(_) => "Pawn",
            ChessPiece::Rook(_) => "Rook",
            ChessPiece::Knight(_) => "Knight",
            ChessPiece::Queen(_) => "Queen",
            ChessPiece::King(_) => "King",
        }
    }

    /// The color that owns this piece.
    pub fn get_color(&self) -> (r: &Color)
        ensures
            *r == spec_color(*self),
    {
        match self {
            ChessPiece::Bishop(x) => x,
            ChessPiece::Pawn(x) => x,
            ChessPiece::Rook(x) => x,
            ChessPiece::Knight(x) => x,
            ChessPiece::Queen(x) => x,
            ChessPiece::King(x) => x,
        }
    }
}

} // verus!
