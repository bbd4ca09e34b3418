//! General laws of the move generator, stated and proved once for every
//! board, color and origin square.

use vstd::prelude::*;

use crate::board::ChessBoard;
use crate::board::empty_at;
use crate::board::enemy_at;
use crate::board::in_bounds;
use crate::moves::forward_dir;
use crate::moves::is_direction;
use crate::moves::lemma_ray_fuel;
use crate::moves::pawn_moves_spec;
use crate::moves::ray;
use crate::moves::start_rank;
use crate::moves::steps_ahead;
use crate::piece::Color;

verus! {

/// The move sequence `m` offers the square `(tx, ty)`.
pub open spec fn offers(m: Seq<(usize, usize)>, tx: int, ty: int) -> bool {
    exists|i: int| 0 <= i < m.len() && m[i].0 == tx && m[i].1 == ty
}

/// Pawn double-step gating: a pawn gains the two-step destination exactly
/// when it stands on its side's starting rank and both squares ahead are
/// empty; and when the single-step square ahead is missing or occupied,
/// neither forward destination is offered.
pub proof fn lemma_pawn_double_step_gating(b: ChessBoard, c: Color, x: int, y: int)
    requires
        in_bounds(x, y),
    ensures
        offers(pawn_moves_spec(b, c, x, y), x, y + 2 * forward_dir(c)) <==> y == start_rank(c)
            && empty_at(b, x, y + forward_dir(c)) && empty_at(b, x, y + 2 * forward_dir(c)),
        !(in_bounds(x, y + forward_dir(c)) && empty_at(b, x, y + forward_dir(c))) ==> !offers(
            pawn_moves_spec(b, c, x, y),
            x,
            y + forward_dir(c),
        ) && !offers(pawn_moves_spec(b, c, x, y), x, y + 2 * forward_dir(c)),
{
    let d = forward_dir(c);
    let m = pawn_moves_spec(b, c, x, y);
    if y == start_rank(c) && empty_at(b, x, y + d) && empty_at(b, x, y + 2 * d) {
        assert(m[0] == ((x as usize), ((y + 2 * d) as usize)));
        assert(offers(m, x, y + 2 * d));
    }
    if offers(m, x, y + 2 * d) {
        let i = choose|i: int| 0 <= i < m.len() && m[i].0 == x && m[i].1 == y + 2 * d;
        assert(y == start_rank(c) && empty_at(b, x, y + d) && empty_at(b, x, y + 2 * d));
    }
    if !(in_bounds(x, y + d) && empty_at(b, x, y + d)) {
        if offers(m, x, y + d) {
            let i = choose|i: int| 0 <= i < m.len() && m[i].0 == x && m[i].1 == y + d;
            assert(false);
        }
        if offers(m, x, y + 2 * d) {
            let i = choose|i: int| 0 <= i < m.len() && m[i].0 == x && m[i].1 == y + 2 * d;
            assert(false);
        }
    }
}

/// Capture-only diagonals: every pawn destination on a file other than the
/// pawn's own lands on a square held by the opposing side, never on an empty
/// one.
pub proof fn lemma_pawn_diagonals_capture_only(
    b: ChessBoard,
    c: Color,
    x: int,
    y: int,
    tx: int,
    ty: int,
)
    requires
        in_bounds(x, y),
        offers(pawn_moves_spec(b, c, x, y), tx, ty),
        tx != x,
    ensures
        in_bounds(tx, ty),
        enemy_at(b, c, tx, ty),
        !empty_at(b, tx, ty),
{
    let m = pawn_moves_spec(b, c, x, y);
    let i = choose|i: int| 0 <= i < m.len() && m[i].0 == tx && m[i].1 == ty;
    assert(in_bounds(tx, ty) && enemy_at(b, c, tx, ty));
}

/// Squares 1 through `k - 1` ahead of `(x, y)` in direction `(dx, dy)` are
/// all on the board and empty.
pub open spec fn path_clear(b: ChessBoard, x: int, y: int, dx: int, dy: int, k: int) -> bool
    decreases k,
{
    k <= 1 || (in_bounds(x + dx, y + dy) && empty_at(b, x + dx, y + dy) && path_clear(
        b,
        x + dx,
        y + dy,
        dx,
        dy,
        k - 1,
    ))
}

/// Sliding stop rule for the rays of rook, bishop and queen: when the `k - 1`
/// squares before step `k` are empty, an empty step `k` is the ray's `k`-th
/// element (so every empty square up to the first occupant is included, in
/// ray order); an opposing occupant at step `k` is included as the `k`-th and
/// last element; a friendly occupant at step `k` ends the ray at `k - 1`
/// elements, excluded.
pub proof fn lemma_sliding_stop_rule(
    b: ChessBoard,
    c: Color,
    x: int,
    y: int,
    dx: int,
    dy: int,
    k: int,
)
    requires
        in_bounds(x, y),
        is_direction(dx, dy),
        1 <= k,
        path_clear(b, x, y, dx, dy, k),
        in_bounds(x + k * dx, y + k * dy),
    ensures
        empty_at(b, x + k * dx, y + k * dy) ==> ray(b, c, x, y, dx, dy).len() > k - 1 && ray(
            b,
            c,
            x,
            y,
            dx,
            dy,
        )[k - 1] == (((x + k * dx) as usize), ((y + k * dy) as usize)),
        enemy_at(b, c, x + k * dx, y + k * dy) ==> ray(b, c, x, y, dx, dy).len() == k && ray(
            b,
            c,
            x,
            y,
            dx,
            dy,
        )[k - 1] == (((x + k * dx) as usize), ((y + k * dy) as usize)),
        !empty_at(b, x + k * dx, y + k * dy) && !enemy_at(b, c, x + k * dx, y + k * dy) ==> ray(
            b,
            c,
            x,
            y,
            dx,
            dy,
        ).len() == k - 1,
    decreases k,
{
    let tx = x + k * dx;
    let ty = y + k * dy;
    let r = ray(b, c, x, y, dx, dy);
    if k == 1 {
        assert(x + 1 * dx == x + dx);
        assert(y + 1 * dy == y + dy);
    } else {
        let x1 = x + dx;
        let y1 = y + dy;
        assert(in_bounds(x1, y1) && empty_at(b, x1, y1));
        lemma_ray_fuel(b, c, x1, y1, dx, dy, 7, 8);
        assert(r == seq![((x1 as usize), (y1 as usize))] + ray(b, c, x1, y1, dx, dy));
        assert((x + dx) + (k - 1) * dx == x + k * dx) by (nonlinear_arith);
        assert((y + dy) + (k - 1) * dy == y + k * dy) by (nonlinear_arith);
        lemma_sliding_stop_rule(b, c, x1, y1, dx, dy, k - 1);
    }
}

/// A ray never reaches past the board's edge: it is at most as long as the
/// number of squares ahead of its origin in its direction.
pub proof fn lemma_ray_stays_on_board(b: ChessBoard, c: Color, x: int, y: int, dx: int, dy: int)
    requires
        in_bounds(x, y),
        is_direction(dx, dy),
    ensures
        ray(b, c, x, y, dx, dy).len() <= steps_ahead(x, y, dx, dy),
    decreases steps_ahead(x, y, dx, dy),
{
    let x1 = x + dx;
    let y1 = y + dy;
    if in_bounds(x1, y1) && empty_at(b, x1, y1) {
        lemma_ray_fuel(b, c, x1, y1, dx, dy, 7, 8);
        lemma_ray_stays_on_board(b, c, x1, y1, dx, dy);
    }
}

} // verus!
