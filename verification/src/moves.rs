//! Move generation: for each piece kind, the ordered sequence of pseudo-legal
//! destination squares from a given origin, and the public selection entry
//! point that filters by ownership.
//!
//! The model works in a signed coordinate space: a candidate square is first
//! computed as a pair of mathematical integers and only indexed after an
//! explicit bounds test, so no offset arithmetic can wrap near the edge.

use vstd::prelude::*;

use crate::board::ChessBoard;
use crate::board::empty_at;
use crate::board::enemy_at;
use crate::board::in_bounds;
use crate::board::square_at;
use crate::piece::ChessPiece;
use crate::piece::Color;
use crate::piece::spec_color;

verus! {

/// A single step of a piece of color `c` may land on `(x, y)`: the square is
/// on the board and is either empty or holds an opposing piece.
pub open spec fn can_land(b: ChessBoard, c: Color, x: int, y: int) -> bool {
    in_bounds(x, y) && (empty_at(b, x, y) || enemy_at(b, c, x, y))
}

/// The contribution of the fixed offset `(dx, dy)` from `(x, y)`: one square
/// when the piece may land there, nothing otherwise.
pub open spec fn offset_target(
    b: ChessBoard,
    c: Color,
    x: int,
    y: int,
    dx: int,
    dy: int,
) -> Seq<(usize, usize)> {
    if can_land(b, c, x + dx, y + dy) {
        seq![(((x + dx) as usize), ((y + dy) as usize))]
    } else {
        Seq::empty()
    }
}

/// A unit direction: each component in `{-1, 0, 1}`, not both zero.
pub open spec fn is_direction(dx: int, dy: int) -> bool {
    -1 <= dx <= 1 && -1 <= dy <= 1 && !(dx == 0 && dy == 0)
}

/// The ray from `(x, y)` in direction `(dx, dy)`, bounded by `fuel` steps:
/// every empty square in order, then the first occupied square if and only
/// if its occupant opposes `c`; the board edge also ends the ray.
pub open spec fn ray_moves(
    b: ChessBoard,
    c: Color,
    x: int,
    y: int,
    dx: int,
    dy: int,
    fuel: nat,
) -> Seq<(usize, usize)>
    decreases fuel,
{
    if fuel == 0 {
        Seq::empty()
    } else {
        let nx = x + dx;
        let ny = y + dy;
        if !in_bounds(nx, ny) {
            Seq::empty()
        } else if empty_at(b, nx, ny) {
            seq![((nx as usize), (ny as usize))] + ray_moves(b, c, nx, ny, dx, dy, (fuel - 1) as nat)
        } else if enemy_at(b, c, nx, ny) {
            seq![((nx as usize), (ny as usize))]
        } else {
            Seq::empty()
        }
    }
}

/// The full ray from `(x, y)` in direction `(dx, dy)`: eight steps of fuel
/// always suffice on an 8x8 board.
pub open spec fn ray(b: ChessBoard, c: Color, x: int, y: int, dx: int, dy: int) -> Seq<
    (usize, usize),
> {
    ray_moves(b, c, x, y, dx, dy, 8)
}

/// How many further squares of the board lie ahead of `(x, y)` in direction
/// `(dx, dy)`: an upper bound on the length of the ray from there.
pub open spec fn steps_ahead(x: int, y: int, dx: int, dy: int) -> int {
    let sx = if dx == 1 {
        7 - x
    } else if dx == -1 {
        x
    } else {
        7
    };
    let sy = if dy == 1 {
        7 - y
    } else if dy == -1 {
        y
    } else {
        7
    };
    if sx <= sy {
        sx
    } else {
        sy
    }
}

/// Any fuel of at least `steps_ahead` squares yields the same ray, so the
/// fixed budget of eight steps never cuts a ray short.
pub proof fn lemma_ray_fuel(
    b: ChessBoard,
    c: Color,
    x: int,
    y: int,
    dx: int,
    dy: int,
    f1: nat,
    f2: nat,
)
    requires
        in_bounds(x, y),
        is_direction(dx, dy),
        f1 >= steps_ahead(x, y, dx, dy),
        f2 >= steps_ahead(x, y, dx, dy),
    ensures
        ray_moves(b, c, x, y, dx, dy, f1) == ray_moves(b, c, x, y, dx, dy, f2),
    decreases f1 + f2,
{
    let nx = x + dx;
    let ny = y + dy;
    if in_bounds(nx, ny) {
        assert(steps_ahead(x, y, dx, dy) >= 1);
        if empty_at(b, nx, ny) {
            lemma_ray_fuel(b, c, nx, ny, dx, dy, (f1 - 1) as nat, (f2 - 1) as nat);
        }
    } else {
        assert(ray_moves(b, c, x, y, dx, dy, f1) == Seq::<(usize, usize)>::empty());
        assert(ray_moves(b, c, x, y, dx, dy, f2) == Seq::<(usize, usize)>::empty());
    }
}

/// The direction a side's pawns advance in: White moves toward rank 0,
/// Black toward rank 7.
pub open spec fn forward_dir(c: Color) -> int {
    if c == Color::White {
        -1
    } else {
        1
    }
}

/// The rank a side's pawns start on: the rank next to its own back rank.
pub open spec fn start_rank(c: Color) -> int {
    if c == Color::White {
        6
    } else {
        1
    }
}

/// A pawn's moves, in fixed order: the two-step advance when the pawn stands
/// on its starting rank and both squares ahead are empty; the single step
/// when the square ahead is empty; then the forward-left and forward-right
/// diagonals, each only onto an opposing piece (captures only). A pawn whose
/// forward rank is off the board has no moves.
pub open spec fn pawn_moves_spec(b: ChessBoard, c: Color, x: int, y: int) -> Seq<(usize, usize)> {
    let d = forward_dir(c);
    let fy = y + d;
    if !in_bounds(x, fy) {
        Seq::empty()
    } else {
        (if y == start_rank(c) && empty_at(b, x, fy) && empty_at(b, x, y + 2 * d) {
            seq![((x as usize), ((y + 2 * d) as usize))]
        } else {
            Seq::empty()
        }) + (if empty_at(b, x, fy) {
            seq![((x as usize), (fy as usize))]
        } else {
            Seq::empty()
        }) + (if in_bounds(x - 1, fy) && enemy_at(b, c, x - 1, fy) {
            seq![(((x - 1) as usize), (fy as usize))]
        } else {
            Seq::empty()
        }) + (if in_bounds(x + 1, fy) && enemy_at(b, c, x + 1, fy) {
            seq![(((x + 1) as usize), (fy as usize))]
        } else {
            Seq::empty()
        })
    }
}

/// A knight's moves: the eight jump offsets in the fixed order below, each
/// contributing its square when the knight may land there.
pub open spec fn knight_moves_spec(b: ChessBoard, c: Color, x: int, y: int) -> Seq<
    (usize, usize),
> {
    offset_target(b, c, x, y, -1, -2) + offset_target(b, c, x, y, 1, -2) + offset_target(
        b,
        c,
        x,
        y,
        -1,
        2,
    ) + offset_target(b, c, x, y, 1, 2) + offset_target(b, c, x, y, -2, -1) + offset_target(
        b,
        c,
        x,
        y,
        -2,
        1,
    ) + offset_target(b, c, x, y, 2, -1) + offset_target(b, c, x, y, 2, 1)
}

/// A king's moves: the eight adjacent squares in the fixed order below, each
/// contributing its square when the king may land there.
pub open spec fn king_moves_spec(b: ChessBoard, c: Color, x: int, y: int) -> Seq<(usize, usize)> {
    offset_target(b, c, x, y, -1, -1) + offset_target(b, c, x, y, 1, -1) + offset_target(
        b,
        c,
        x,
        y,
        0,
        -1,
    ) + offset_target(b, c, x, y, -1, 1) + offset_target(b, c, x, y, 1, 1) + offset_target(
        b,
        c,
        x,
        y,
        0,
        1,
    ) + offset_target(b, c, x, y, -1, 0) + offset_target(b, c, x, y, 1, 0)
}

/// A rook's moves: the four orthogonal rays, walked right, left, down
/// (growing rank index), then up.
pub open spec fn rook_moves_spec(b: ChessBoard, c: Color, x: int, y: int) -> Seq<(usize, usize)> {
    ray(b, c, x, y, 1, 0) + ray(b, c, x, y, -1, 0) + ray(b, c, x, y, 0, 1) + ray(b, c, x, y, 0, -1)
}

/// A bishop's moves: the four diagonal rays, in the fixed order below.
pub open spec fn bishop_moves_spec(b: ChessBoard, c: Color, x: int, y: int) -> Seq<
    (usize, usize),
> {
    ray(b, c, x, y, 1, 1) + ray(b, c, x, y, -1, 1) + ray(b, c, x, y, 1, -1) + ray(b, c, x, y, -1, -1)
}

/// A queen's moves: the rook's rays followed by the bishop's rays.
pub open spec fn queen_moves_spec(b: ChessBoard, c: Color, x: int, y: int) -> Seq<(usize, usize)> {
    rook_moves_spec(b, c, x, y) + bishop_moves_spec(b, c, x, y)
}

/// The full pseudo-legal move sequence of piece `p` standing at `(x, y)`,
/// dispatched on its kind.
pub open spec fn piece_moves(b: ChessBoard, p: ChessPiece, x: int, y: int) -> Seq<(usize, usize)> {
    match p {
        ChessPiece::Pawn(c) => pawn_moves_spec(b, c, x, y),
        ChessPiece::Rook(c) => rook_moves_spec(b, c, x, y),
        ChessPiece::Knight(c) => knight_moves_spec(b, c, x, y),
        ChessPiece::Bishop(c) => bishop_moves_spec(b, c, x, y),
        ChessPiece::Queen(c) => queen_moves_spec(b, c, x, y),
        ChessPiece::King(c) => king_moves_spec(b, c, x, y),
    }
}

impl ChessBoard {
    /// Walks outward from `(x, y)` one step at a time in direction
    /// `(dx, dy)`, collecting the squares of the ray in order.
    fn walk_ray(&self, x: usize, y: usize, dx: i32, dy: i32, color: &Color) -> (r: Vec<
        (usize, usize),
    >)
        requires
            in_bounds(x as int, y as int),
            is_direction(dx as int, dy as int),
        ensures
            r@ == ray(*self, *color, x as int, y as int, dx as int, dy as int),
    {
        let mut moves: Vec<(usize, usize)> = Vec::new();
        let mut cx = x;
        let mut cy = y;
        loop
            invariant_except_break
                in_bounds(cx as int, cy as int),
                is_direction(dx as int, dy as int),
                moves@ + ray(*self, *color, cx as int, cy as int, dx as int, dy as int) == ray(
                    *self,
                    *color,
                    x as int,
                    y as int,
                    dx as int,
                    dy as int,
                ),
            ensures
                moves@ == ray(*self, *color, x as int, y as int, dx as int, dy as int),
            decreases steps_ahead(cx as int, cy as int, dx as int, dy as int),
        {
            let nx = cx as i32 + dx;
            let ny = cy as i32 + dy;
            if nx < 0 || nx >= 8 || ny < 0 || ny >= 8 {
                proof {
                    assert(moves@ + Seq::<(usize, usize)>::empty() =~= moves@);
                }
                break ;
            }
            let ux = nx as usize;
            let uy = ny as usize;
            match self.board[uy][ux] {
                Some(p) => {
                    if *p.get_color() != *color {
                        proof {
                            assert(moves@ + seq![(ux, uy)] =~= moves@.push((ux, uy)));
                        }
                        moves.push((ux, uy));
                    } else {
                        proof {
                            assert(moves@ + Seq::<(usize, usize)>::empty() =~= moves@);
                        }
                    }
                    break ;
                },
                None => {
                    proof {
                        lemma_ray_fuel(
                            *self,
                            *color,
                            ux as int,
                            uy as int,
                            dx as int,
                            dy as int,
                            7,
                            8,
                        );
                        assert(ray(*self, *color, cx as int, cy as int, dx as int, dy as int)
                            == seq![(ux, uy)] + ray(
                            *self,
                            *color,
                            ux as int,
                            uy as int,
                            dx as int,
                            dy as int,
                        ));
                        assert(moves@.push((ux, uy)) + ray(
                            *self,
                            *color,
                            ux as int,
                            uy as int,
                            dx as int,
                            dy as int,
                        ) =~= moves@ + ray(*self, *color, cx as int, cy as int, dx as int, dy as int));
                    }
                    moves.push((ux, uy));
                    cx = ux;
                    cy = uy;
                },
            }
        }
        moves
    }

    /// Appends the square at offset `(dx, dy)` from `(x, y)` when the piece
    /// may land there: in bounds, and empty or held by the opponent.
    fn push_offset(
        &self,
        x: usize,
        y: usize,
        dx: i32,
        dy: i32,
        color: &Color,
        moves: &mut Vec<(usize, usize)>,
    )
        requires
            in_bounds(x as int, y as int),
            -2 <= dx <= 2,
            -2 <= dy <= 2,
        ensures
            final(moves)@ == old(moves)@ + offset_target(
                *self,
                *color,
                x as int,
                y as int,
                dx as int,
                dy as int,
            ),
    {
        let nx = x as i32 + dx;
        let ny = y as i32 + dy;
        if nx >= 0 && nx < 8 && ny >= 0 && ny < 8 {
            let ux = nx as usize;
            let uy = ny as usize;
            let landable = match self.board[uy][ux] {
                Some(p) => *p.get_color() != *color,
                None => true,
            };
            if landable {
                moves.push((ux, uy));
                proof {
                    assert(old(moves)@.push((ux, uy)) =~= old(moves)@ + seq![(ux, uy)]);
                }
                return ;
            }
        }
        proof {
            assert(old(moves)@ + Seq::<(usize, usize)>::empty() =~= old(moves)@);
        }
    }

    /// The knight's destinations from `(x, y)`: its eight jump offsets in
    /// fixed order.
    fn generate_knight_moves(&self, x: usize, y: usize, color: &Color) -> (r: Vec<(usize, usize)>)
        requires
            in_bounds(x as int, y as int),
        ensures
            r@ == knight_moves_spec(*self, *color, x as int, y as int),
    {
        let mut moves: Vec<(usize, usize)> = Vec::new();
        self.push_offset(x, y, -1, -2, color, &mut moves);
        self.push_offset(x, y, 1, -2, color, &mut moves);
        self.push_offset(x, y, -1, 2, color, &mut moves);
        self.push_offset(x, y, 1, 2, color, &mut moves);
        self.push_offset(x, y, -2, -1, color, &mut moves);
        self.push_offset(x, y, -2, 1, color, &mut moves);
        self.push_offset(x, y, 2, -1, color, &mut moves);
        self.push_offset(x, y, 2, 1, color, &mut moves);
        moves
    }

    /// The king's destinations from `(x, y)`: its eight adjacent squares in
    /// fixed order. No castling.
    fn generate_king_moves(&self, x: usize, y: usize, color: &Color) -> (r: Vec<(usize, usize)>)
        requires
            in_bounds(x as int, y as int),
        ensures
            r@ == king_moves_spec(*self, *color, x as int, y as int),
    {
        let mut moves: Vec<(usize, usize)> = Vec::new();
        self.push_offset(x, y, -1, -1, color, &mut moves);
        self.push_offset(x, y, 1, -1, color, &mut moves);
        self.push_offset(x, y, 0, -1, color, &mut moves);
        self.push_offset(x, y, -1, 1, color, &mut moves);
        self.push_offset(x, y, 1, 1, color, &mut moves);
        self.push_offset(x, y, 0, 1, color, &mut moves);
        self.push_offset(x, y, -1, 0, color, &mut moves);
        self.push_offset(x, y, 1, 0, color, &mut moves);
        moves
    }

    /// The pawn's destinations from `(x, y)`, in fixed order: two-step
    /// advance, single step, forward-left capture, forward-right capture.
    fn generate_pawn_moves(&self, x: usize, y: usize, color: &Color) -> (r: Vec<(usize, usize)>)
        requires
            in_bounds(x as int, y as int),
        ensures
            r@ == pawn_moves_spec(*self, *color, x as int, y as int),
    {
        let mut moves: Vec<(usize, usize)> = Vec::new();
        let white = *color == Color::White;
        let fy_signed = if white {
            y as i32 - 1
        } else {
            y as i32 + 1
        };
        if fy_signed >= 0 && fy_signed < 8 {
            let fy = fy_signed as usize;
            let start: usize = if white {
                6
            } else {
                1
            };
            if self.board[fy][x].is_none() {
                if y == start {
                    let ty = if white {
                        y - 2
                    } else {
                        y + 2
                    };
                    if self.board[ty][x].is_none() {
                        moves.push((x, ty));
                    }
                }
                moves.push((x, fy));
            }
            if x >= 1 {
                match self.board[fy][x - 1] {
                    Some(p) => {
                        if *p.get_color() != *color {
                            moves.push((x - 1, fy));
                        }
                    },
                    None => {},
                }
            }
            if x + 1 < 8 {
                match self.board[fy][x + 1] {
                    Some(p) => {
                        if *p.get_color() != *color {
                            moves.push((x + 1, fy));
                        }
                    },
                    None => {},
                }
            }
        }
        proof {
            assert(moves@ =~= pawn_moves_spec(*self, *color, x as int, y as int));
        }
        moves
    }

    /// The rook's destinations from `(x, y)`: its four rays in fixed order.
    fn generate_rook_moves(&self, x: usize, y: usize, color: &Color) -> (r: Vec<(usize, usize)>)
        requires
            in_bounds(x as int, y as int),
        ensures
            r@ == rook_moves_spec(*self, *color, x as int, y as int),
    {
        let mut moves = self.walk_ray(x, y, 1, 0, color);
        let mut part = self.walk_ray(x, y, -1, 0, color);
        moves.append(&mut part);
        let mut part = self.walk_ray(x, y, 0, 1, color);
        moves.append(&mut part);
        let mut part = self.walk_ray(x, y, 0, -1, color);
        moves.append(&mut part);
        moves
    }

    /// The bishop's destinations from `(x, y)`: its four rays in fixed order.
    fn generate_bishop_moves(&self, x: usize, y: usize, color: &Color) -> (r: Vec<(usize, usize)>)
        requires
            in_bounds(x as int, y as int),
        ensures
            r@ == bishop_moves_spec(*self, *color, x as int, y as int),
    {
        let mut moves = self.walk_ray(x, y, 1, 1, color);
        let mut part = self.walk_ray(x, y, -1, 1, color);
        moves.append(&mut part);
        let mut part = self.walk_ray(x, y, 1, -1, color);
        moves.append(&mut part);
        let mut part = self.walk_ray(x, y, -1, -1, color);
        moves.append(&mut part);
        moves
    }

    /// The queen's destinations from `(x, y)`: the rook's rays followed by
    /// the bishop's rays.
    fn generate_queen_moves(&self, x: usize, y: usize, color: &Color) -> (r: Vec<(usize, usize)>)
        requires
            in_bounds(x as int, y as int),
        ensures
            r@ == queen_moves_spec(*self, *color, x as int, y as int),
    {
        let mut moves = self.generate_rook_moves(x, y, color);
        let mut part = self.generate_bishop_moves(x, y, color);
        moves.append(&mut part);
        moves
    }

    /// Selects the piece at `location` for the side `faction` and returns its
    /// full pseudo-legal move sequence. Returns `None` when the square lies
    /// off the board (a boundary violation, reported rather than undefined),
    /// when it is empty, or when its occupant belongs to the other side; the
    /// last two are ordinary outcomes of user interaction, not failures.
    pub fn select_piece(&self, location: (usize, usize), faction: &Color) -> (r: Option<
        Vec<(usize, usize)>,
    >)
        ensures
            r is Some <==> in_bounds(location.0 as int, location.1 as int) && (square_at(
                *self,
                location.0 as int,
                location.1 as int,
            ) matches Some(p) && spec_color(p) == *faction),
            r matches Some(v) ==> (square_at(
                *self,
                location.0 as int,
                location.1 as int,
            ) matches Some(p) && v@ == piece_moves(*self, p, location.0 as int, location.1 as int)),
    {
        let (x, y) = location;
        if x >= 8 || y >= 8 {
            return None;
        }
        match self.board[y][x] {
            Some(piece) => {
                if *piece.get_color() == *faction {
                    let moves = match piece {
                        ChessPiece::Pawn(c) => self.generate_pawn_moves(x, y, &c),
                        ChessPiece::Rook(c) => self.generate_rook_moves(x, y, &c),
                        ChessPiece::Knight(c) => self.generate_knight_moves(x, y, &c),
                        ChessPiece::Bishop(c) => self.generate_bishop_moves(x, y, &c),
                        ChessPiece::Queen(c) => self.generate_queen_moves(x, y, &c),
                        ChessPiece::King(c) => self.generate_king_moves(x, y, &c),
                    };
                    Some(moves)
                } else {
                    None
                }
            },
            None => None,
        }
    }
}

} // verus!
