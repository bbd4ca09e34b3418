//! Board state: the 8x8 grid, the turn counter, the tracked king positions
//! and the two capture lists.

use vstd::prelude::*;

use crate::piece::ChessPiece;
use crate::piece::Color;
use crate::piece::spec_color;

verus! {

/// A square `(x, y)` is on the board when both coordinates lie in `[0, 8)`.
pub open spec fn in_bounds(x: int, y: int) -> bool {
    0 <= x < 8 && 0 <= y < 8
}

/// The whole game state. Row `y` of `board` holds the squares of rank `y`,
/// indexed by file `x`, so the occupant of square `(x, y)` is `board[y][x]`.
pub struct ChessBoard {
    pub turn: u32,
    pub board: [[Option<ChessPiece>; 8]; 8],
    pub black_king_pos: (usize, usize),
    pub white_king_pos: (usize, usize),
    pub removed_black: Vec<ChessPiece>,
    pub removed_white: Vec<ChessPiece>,
}

/// The occupant of square `(x, y)`.
pub open spec fn square_at(b: ChessBoard, x: int, y: int) -> Option<ChessPiece>
    recommends
        in_bounds(x, y),
{
    b.board[y][x]
}

/// Square `(x, y)` holds no piece.
pub open spec fn empty_at(b: ChessBoard, x: int, y: int) -> bool
    recommends
        in_bounds(x, y),
{
    square_at(b, x, y) is None
}

/// Square `(x, y)` holds a piece of the side opposing `c`.
pub open spec fn enemy_at(b: ChessBoard, c: Color, x: int, y: int) -> bool
    recommends
        in_bounds(x, y),
{
    match square_at(b, x, y) {
        Some(p) => spec_color(p) != c,
        None => false,
    }
}

/// The piece of color `c` standing on file `x` of a back rank at the start:
/// rook, knight, bishop, queen, king, bishop, knight, rook.
pub open spec fn back_rank_piece(x: int, c: Color) -> ChessPiece {
    if x == 0 || x == 7 {
        ChessPiece::Rook(c)
    } else if x == 1 || x == 6 {
        ChessPiece::Knight(c)
    } else if x == 2 || x == 5 {
        ChessPiece::Bishop(c)
    } else if x == 3 {
        ChessPiece::Queen(c)
    } else {
        ChessPiece::King(c)
    }
}

/// The occupant of square `(x, y)` in the canonical starting layout: Black's
/// back rank on rank 0 and its pawns on rank 1, White's pawns on rank 6 and
/// its back rank on rank 7, every other square empty.
pub open spec fn initial_square(x: int, y: int) -> Option<ChessPiece> {
    if y == 0 {
        Some(back_rank_piece(x, Color::Black))
    } else if y == 1 {
        Some(ChessPiece::Pawn(Color::Black))
    } else if y == 6 {
        Some(ChessPiece::Pawn(Color::White))
    } else if y == 7 {
        Some(back_rank_piece(x, Color::White))
    } else {
        None
    }
}

/// The side whose move it is at turn number `t`: White when `t` is odd,
/// Black when `t` is even.
pub open spec fn faction_of_turn(t: u32) -> Color {
    if t % 2 == 0 {
        Color::Black
    } else {
        Color::White
    }
}

impl ChessBoard {
    /// A board in the canonical starting layout: all 32 pieces on their
    /// starting squares, turn 1, king positions tracking the two kings, and
    /// empty capture lists. Total: no error path.
    pub fn create() -> (r: Self)
        ensures
            r.turn == 1,
            r.white_king_pos == (4usize, 7usize),
            r.black_king_pos == (4usize, 0usize),
            r.removed_black@ == Seq::<ChessPiece>::empty(),
            r.removed_white@ == Seq::<ChessPiece>::empty(),
            forall|x: int, y: int|
                in_bounds(x, y) ==> #[trigger] square_at(r, x, y) == initial_square(x, y),
    {
        Self {
            turn: 1,
            board: [
                [
                    Some(ChessPiece::Rook(Color::Black)),
                    Some(ChessPiece::Knight(Color::Black)),
                    Some(ChessPiece::Bishop(Color::Black)),
                    Some(ChessPiece::Queen(Color::Black)),
                    Some(ChessPiece::King(Color::Black)),
                    Some(ChessPiece::Bishop(Color::Black)),
                    Some(ChessPiece::Knight(Color::Black)),
                    Some(ChessPiece::Rook(Color::Black)),
                ],
                [
                    Some(ChessPiece::Pawn(Color::Black)),
                    Some(ChessPiece::Pawn(Color::Black)),
                    Some(ChessPiece::Pawn(Color::Black)),
                    Some(ChessPiece::Pawn(Color::Black)),
                    Some(ChessPiece::Pawn(Color::Black)),
                    Some(ChessPiece::Pawn(Color::Black)),
                    Some(ChessPiece::Pawn(Color::Black)),
                    Some(ChessPiece::Pawn(Color::Black)),
                ],
                [None, None, None, None, None, None, None, None],
                [None, None, None, None, None, None, None, None],
                [None, None, None, None, None, None, None, None],
                [None, None, None, None, None, None, None, None],
                [
                    Some(ChessPiece::Pawn(Color::White)),
                    Some(ChessPiece::Pawn(Color::White)),
                    Some(ChessPiece::Pawn(Color::White)),
                    Some(ChessPiece::Pawn(Color::White)),
                    Some(ChessPiece::Pawn(Color::White)),
                    Some(ChessPiece::Pawn(Color::White)),
                    Some(ChessPiece::Pawn(Color::White)),
                    Some(ChessPiece::Pawn(Color::White)),
                ],
                [
                    Some(ChessPiece::Rook(Color::White)),
                    Some(ChessPiece::Knight(Color::White)),
                    Some(ChessPiece::Bishop(Color::White)),
                    Some(ChessPiece::Queen(Color::White)),
                    Some(ChessPiece::King(Color::White)),
                    Some(ChessPiece::Bishop(Color::White)),
                    Some(ChessPiece::Knight(Color::White)),
                    Some(ChessPiece::Rook(Color::White)),
                ],
            ],
            white_king_pos: (4, 7),
            black_king_pos: (4, 0),
            removed_black: Vec::new(),
            removed_white: Vec::new(),
        }
    }

    /// The side whose move it is, derived from the turn counter's parity.
    pub fn faction_decider(&self) -> (r: Color)
        ensures
            r == faction_of_turn(self.turn),
    {
        if self.turn % 2 == 0 {
            Color::Black
        } else {
            Color::White
        }
    }

    /// Moves the piece standing at `source` to `destination`: any previous
    /// occupant of `destination` is first appended to the capture list of its
    /// own color, the piece is placed on `destination`, `source` becomes
    /// empty, and a relocated king's tracked position is updated. When
    /// `source` is empty the call is a no-op with no observable effect. The
    /// move's geometry is not validated here: the caller is trusted to have
    /// obtained `destination` from the move generator. The turn never
    /// advances here.
    pub fn set_piece(&mut self, source: (usize, usize), destination: (usize, usize))
        requires
            in_bounds(source.0 as int, source.1 as int),
            in_bounds(destination.0 as int, destination.1 as int),
        ensures
            final(self).turn == old(self).turn,
            empty_at(*old(self), source.0 as int, source.1 as int) ==> *final(self) == *old(self),
            square_at(*old(self), source.0 as int, source.1 as int) matches Some(p) ==> {
                &&& forall|i: int, j: int|
                    in_bounds(i, j) ==> #[trigger] square_at(*final(self), i, j) == (
                    if i == source.0 as int && j == source.1 as int {
                        None::<ChessPiece>
                    } else if i == destination.0 as int && j == destination.1 as int {
                        Some(p)
                    } else {
                        square_at(*old(self), i, j)
                    })
                &&& final(self).white_king_pos == (if p == ChessPiece::King(Color::White) {
                    destination
                } else {
                    old(self).white_king_pos
                })
                &&& final(self).black_king_pos == (if p == ChessPiece::King(Color::Black) {
                    destination
                } else {
                    old(self).black_king_pos
                })
                &&& match square_at(*old(self), destination.0 as int, destination.1 as int) {
                    Some(q) => (if spec_color(q) == Color::Black {
                        final(self).removed_black@ == old(self).removed_black@.push(q)
                            && final(self).removed_white == old(self).removed_white
                    } else {
                        final(self).removed_white@ == old(self).removed_white@.push(q)
                            && final(self).removed_black == old(self).removed_black
                    }),
                    None => final(self).removed_black == old(self).removed_black && final(self).removed_white == old(self).removed_white,
                }
            },
    {
        let src_piece = self.board[source.1][source.0];
        if let Some(piece) = src_piece {
            if let Some(captured) = self.board[destination.1][destination.0] {
                match captured.get_color() {
                    Color::Black => self.removed_black.push(captured),
                    Color::White => self.removed_white.push(captured),
                }
            }
            if let ChessPiece::King(king_color) = piece {
                match king_color {
                    Color::White => self.white_king_pos = destination,
                    Color::Black => self.black_king_pos = destination,
                }
            }
            self.board[destination.1][destination.0] = Some(piece);
            self.board[source.1][source.0] = None;
        }
    }

    /// Advances the turn counter by one. The counter only grows, so the
    /// caller must keep it below the machine bound.
    pub fn increase_turn(&mut self)
        requires
            old(self).turn < u32::MAX,
        ensures
            final(self).turn == old(self).turn + 1,
            final(self).board == old(self).board,
            final(self).black_king_pos == old(self).black_king_pos,
            final(self).white_king_pos == old(self).white_king_pos,
            final(self).removed_black == old(self).removed_black,
            final(self).removed_white == old(self).removed_white,
    {
        self.turn += 1;
    }
}

} // verus!
