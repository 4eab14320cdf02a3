//! Cell addresses and wrap-around movement on the square torus grid.

use vstd::prelude::*;
use vstd::arithmetic::div_mod::{
    lemma_fundamental_div_mod, lemma_mod_add_multiples_vanish, lemma_mod_self_0,
    lemma_multiply_divide_lt, lemma_small_mod,
};

verus! {

/// The four directions the snake can travel in.
#[derive(Clone, Copy, PartialEq, Eq, Debug, Structural)]
pub enum Direction {
    Up,
    Down,
    Left,
    Right,
}

/// The flat index of one grid cell occupied by the snake.
#[derive(Clone, Copy, PartialEq, Eq, Debug, Structural)]
pub struct SnakeCell(pub usize);

/// Row of a flat index on a grid of side `width`.
pub open spec fn row_of(width: int, index: int) -> int {
    index / width
}

/// Column of a flat index on a grid of side `width`.
pub open spec fn col_of(width: int, index: int) -> int {
    index % width
}

/// The neighbour of `head` in `direction` on the torus: one coordinate moves
/// by one modulo `width`, the other stays.
pub open spec fn torus_next(width: int, head: int, direction: Direction) -> int {
    let row = row_of(width, head);
    let col = col_of(width, head);
    match direction {
        Direction::Right => row * width + (col + 1) % width,
        Direction::Left => row * width + (col + width - 1) % width,
        Direction::Up => ((row + width - 1) % width) * width + col,
        Direction::Down => ((row + 1) % width) * width + col,
    }
}

/// Row and column of a cell on the grid are below `width` and rebuild the index.
pub proof fn lemma_coordinates(width: int, index: int)
    requires
        width > 0,
        0 <= index < width * width,
    ensures
        0 <= row_of(width, index) < width,
        0 <= col_of(width, index) < width,
        index == row_of(width, index) * width + col_of(width, index),
        row_of(width, index) * width <= index,
        (row_of(width, index) + 1) * width <= width * width,
{
    let row = index / width;
    let col = index % width;
    lemma_fundamental_div_mod(index, width);
    lemma_multiply_divide_lt(index, width, width);
    assert(0 <= row) by (nonlinear_arith)
        requires
            width > 0,
            index >= 0,
            row == index / width,
    ;
    assert(0 <= col < width) by (nonlinear_arith)
        requires
            width > 0,
            col == index % width,
    ;
    assert(width * row == row * width) by (nonlinear_arith);
    assert((row + 1) * width <= width * width) by (nonlinear_arith)
        requires
            row + 1 <= width,
            width > 0,
    ;
}

/// A coordinate below `width` that moves one up wraps from `width - 1` to 0.
pub proof fn lemma_wrap_forward(width: int, c: int)
    requires
        width > 0,
        0 <= c < width,
    ensures
        (c + 1) % width == (if c + 1 == width { 0 } else { c + 1 }),
{
    if c + 1 == width {
        lemma_mod_self_0(width);
    } else {
        lemma_small_mod((c + 1) as nat, width as nat);
    }
}

/// A coordinate below `width` that moves one down wraps from 0 to `width - 1`.
pub proof fn lemma_wrap_backward(width: int, c: int)
    requires
        width > 0,
        0 <= c < width,
    ensures
        (c + width - 1) % width == (if c == 0 { width - 1 } else { c - 1 }),
{
    if c == 0 {
        lemma_small_mod((width - 1) as nat, width as nat);
    } else {
        lemma_mod_add_multiples_vanish(c - 1, width);
        lemma_small_mod((c - 1) as nat, width as nat);
        assert(c + width - 1 == width + (c - 1));
    }
}

/// The torus neighbour in guarded form: the plain step by one or by `width`
/// away from the edges, and the jump to the opposite edge on them. The
/// neighbour is again a cell of the grid and keeps the other coordinate.
pub proof fn lemma_torus_next(width: int, head: int, direction: Direction)
    requires
        width > 0,
        0 <= head < width * width,
    ensures
        0 <= torus_next(width, head, direction) < width * width,
        direction == Direction::Right ==> torus_next(width, head, direction) == (if col_of(
            width,
            head,
        ) + 1 == width {
            row_of(width, head) * width
        } else {
            head + 1
        }),
        direction == Direction::Left ==> torus_next(width, head, direction) == (if col_of(
            width,
            head,
        ) == 0 {
            row_of(width, head) * width + width - 1
        } else {
            head - 1
        }),
        direction == Direction::Up ==> torus_next(width, head, direction) == (if row_of(
            width,
            head,
        ) == 0 {
            width * width - width + head
        } else {
            head - width
        }),
        direction == Direction::Down ==> torus_next(width, head, direction) == (if row_of(
            width,
            head,
        ) + 1 == width {
            col_of(width, head)
        } else {
            head + width
        }),
{
    let row = row_of(width, head);
    let col = col_of(width, head);
    lemma_coordinates(width, head);
    lemma_wrap_forward(width, col);
    lemma_wrap_backward(width, col);
    lemma_wrap_forward(width, row);
    lemma_wrap_backward(width, row);
    let up = (row + width - 1) % width;
    let down = (row + 1) % width;
    assert((row + 1) * width == row * width + width) by (nonlinear_arith);
    assert((row - 1) * width == row * width - width) by (nonlinear_arith);
    assert((width - 1) * width == width * width - width) by (nonlinear_arith);
    assert(0 * width == 0) by (nonlinear_arith);
    assert(up * width + width <= width * width) by (nonlinear_arith)
        requires
            0 <= up < width,
    ;
    assert(0 <= up * width) by (nonlinear_arith)
        requires
            0 <= up,
            width > 0,
    ;
    assert(down * width + width <= width * width) by (nonlinear_arith)
        requires
            0 <= down < width,
    ;
    assert(0 <= down * width) by (nonlinear_arith)
        requires
            0 <= down,
            width > 0,
    ;
    assert(0 <= row * width) by (nonlinear_arith)
        requires
            0 <= row,
            width > 0,
    ;
}

} // verus!
