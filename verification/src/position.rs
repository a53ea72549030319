//! Positions on the grid, the row-major correspondence between positions and
//! linear indices, and the wraparound arithmetic of the torus.

use vstd::prelude::*;
use vstd::arithmetic::div_mod::{
    lemma_fundamental_div_mod, lemma_fundamental_div_mod_converse, lemma_mod_add_multiples_vanish,
    lemma_mod_bound, lemma_small_mod,
};
use vstd::arithmetic::mul::{lemma_mul_inequality, lemma_mul_is_commutative};
use crate::direction::Direction;

verus! {

/// A place on the grid.
#[derive(Clone, Copy, Debug, PartialEq, Eq, Structural)]
pub struct Position {
    pub column: u32,
    pub row: u32,
}

impl Position {
    /// Whether the position lies on a grid of `height` rows and `width`
    /// columns.
    pub open spec fn within(self, height: int, width: int) -> bool {
        self.row < height && self.column < width
    }
}

/// The linear index of the cell at (`row`, `column`) in a grid of `width`
/// columns stored row by row.
pub open spec fn linear_index(width: int, row: int, column: int) -> int {
    row * width + column
}

/// The position of the cell with linear index `index` in a grid of `width`
/// columns stored row by row.
pub open spec fn coordinate(width: int, index: int) -> Position {
    Position { column: (index % width) as u32, row: (index / width) as u32 }
}

/// A coordinate moved by `delta` along an axis of length `dimension` that
/// closes on itself.
pub open spec fn wrap(coordinate: int, delta: int, dimension: int) -> int {
    (coordinate + delta + dimension) % dimension
}

/// The linear index of (`row`, `column`) on the torus: each coordinate is
/// taken modulo its dimension first.
pub open spec fn toroidal_index(height: int, width: int, row: int, column: int) -> int {
    linear_index(width, row % height, column % width)
}

/// The linear index reached from `index` by one step in `direction` on the
/// torus.
pub open spec fn step_index(height: int, width: int, index: int, direction: Direction) -> int {
    linear_index(
        width,
        wrap(index / width, direction.row_delta(), height),
        wrap(index % width, direction.column_delta(), width),
    )
}

/// Every position on the grid has a linear index below the number of cells,
/// and the index leads back to the position.
pub proof fn lemma_index_of_position(height: int, width: int, row: int, column: int)
    requires
        0 <= row < height,
        0 <= column < width,
    ensures
        0 <= linear_index(width, row, column) < height * width,
        linear_index(width, row, column) / width == row,
        linear_index(width, row, column) % width == column,
{
    lemma_fundamental_div_mod_converse(linear_index(width, row, column), width, row, column);
    lemma_mul_is_commutative(row, width);
    assert(row * width + column < height * width) by (nonlinear_arith)
        requires
            0 <= row < height,
            0 <= column < width,
    ;
    assert(0 <= row * width) by (nonlinear_arith)
        requires
            0 <= row,
            0 < width,
    ;
}

/// Every linear index below the number of cells has a position on the grid,
/// and the position leads back to the index.
pub proof fn lemma_position_of_index(height: int, width: int, index: int)
    requires
        0 <= index < height * width,
        0 < width,
    ensures
        0 <= index / width < height,
        0 <= index % width < width,
        linear_index(width, index / width, index % width) == index,
{
    lemma_fundamental_div_mod(index, width);
    lemma_mod_bound(index, width);
    lemma_mul_is_commutative(index / width, width);
    let q = index / width;
    assert(0 <= q < height) by (nonlinear_arith)
        requires
            0 <= index < height * width,
            0 < width,
            index == width * q + index % width,
            0 <= index % width < width,
    ;
}

/// Wrapping keeps a coordinate on its axis, and a whole turn leads back to
/// where it started.
pub proof fn lemma_wrap_stays_on_axis(coordinate: int, delta: int, dimension: int)
    requires
        0 < dimension,
    ensures
        0 <= wrap(coordinate, delta, dimension) < dimension,
        wrap(coordinate, delta + dimension, dimension) == wrap(coordinate, delta, dimension),
        0 <= coordinate < dimension ==> wrap(coordinate, 0, dimension) == coordinate,
{
    lemma_mod_bound(coordinate + delta + dimension, dimension);
    lemma_mod_add_multiples_vanish(coordinate + delta + dimension, dimension);
    lemma_mod_add_multiples_vanish(coordinate, dimension);
    if 0 <= coordinate < dimension {
        lemma_small_mod(coordinate as nat, dimension as nat);
    }
}

/// Indexing on the torus wraps: a row or a column one whole dimension further
/// on names the same cell, so row `height` is row zero and column `width` is
/// column zero. On the grid itself the toroidal index is the linear index.
pub proof fn lemma_toroidal_index_wraps(height: int, width: int, row: int, column: int)
    requires
        0 < height,
        0 < width,
    ensures
        0 <= toroidal_index(height, width, row, column) < height * width,
        toroidal_index(height, width, row + height, column) == toroidal_index(
            height,
            width,
            row,
            column,
        ),
        toroidal_index(height, width, row, column + width) == toroidal_index(
            height,
            width,
            row,
            column,
        ),
        toroidal_index(height, width, height, column) == toroidal_index(height, width, 0, column),
        toroidal_index(height, width, row, width) == toroidal_index(height, width, row, 0),
        (0 <= row < height && 0 <= column < width) ==> toroidal_index(height, width, row, column)
            == linear_index(width, row, column),
{
    lemma_mod_bound(row, height);
    lemma_mod_bound(column, width);
    lemma_index_of_position(height, width, row % height, column % width);
    lemma_mod_add_multiples_vanish(row, height);
    lemma_mod_add_multiples_vanish(column, width);
    lemma_mod_add_multiples_vanish(0, height);
    lemma_mod_add_multiples_vanish(0, width);
    if 0 <= row < height {
        lemma_small_mod(row as nat, height as nat);
    }
    if 0 <= column < width {
        lemma_small_mod(column as nat, width as nat);
    }
}

/// One step from a cell of the grid ends on a cell of the grid, and standing
/// still ends where it began.
pub proof fn lemma_step_stays_on_grid(height: int, width: int, index: int, direction: Direction)
    requires
        0 <= index < height * width,
        0 < width,
    ensures
        0 <= step_index(height, width, index, direction) < height * width,
        step_index(height, width, index, Direction::Stand) == index,
{
    lemma_position_of_index(height, width, index);
    let row = index / width;
    let column = index % width;
    lemma_wrap_stays_on_axis(row, direction.row_delta(), height);
    lemma_wrap_stays_on_axis(column, direction.column_delta(), width);
    lemma_wrap_stays_on_axis(row, 0, height);
    lemma_wrap_stays_on_axis(column, 0, width);
    lemma_index_of_position(
        height,
        width,
        wrap(row, direction.row_delta(), height),
        wrap(column, direction.column_delta(), width),
    );
}

/// The position of the cell with linear index `index` in a grid of `width`
/// columns.
pub fn get_coordinate(width: u32, index: usize) -> (position: Position)
    requires
        width > 0,
        index <= u32::MAX,
    ensures
        position == coordinate(width as int, index as int),
        position.row == index / (width as usize),
        position.column == index % (width as usize),
{
    let index = index as u32;
    let column = index % width;
    let row = index / width;
    Position { row, column }
}

/// A coordinate moved by a step of -1, 0 or 1 along an axis of length
/// `dimension` that closes on itself.
pub(crate) fn wrap_coordinate(coordinate: u32, delta: i32, dimension: u32) -> (wrapped: u32)
    requires
        coordinate < dimension,
        -1 <= delta <= 1,
    ensures
        wrapped == wrap(coordinate as int, delta as int, dimension as int),
        wrapped < dimension,
{
    proof {
        lemma_wrap_stays_on_axis(coordinate as int, delta as int, dimension as int);
    }
    let shift: u64 = if delta == -1 {
        (dimension - 1) as u64
    } else if delta == 0 {
        dimension as u64
    } else {
        dimension as u64 + 1
    };
    ((coordinate as u64 + shift) % (dimension as u64)) as u32
}

} // verus!
