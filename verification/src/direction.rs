//! The nine moves an organism can make in one tick.

use vstd::prelude::*;

verus! {

/// Staying put, or a step to one of the eight surrounding cells. North is
/// towards row zero, west towards column zero.
#[derive(Clone, Copy, Debug, PartialEq, Eq, Structural)]
pub enum Direction {
    Stand,
    North,
    NorthEast,
    East,
    SouthEast,
    South,
    SouthWest,
    West,
    NorthWest,
}

impl Direction {
    /// Change of column made by one step in this direction.
    pub open spec fn column_delta(self) -> int {
        match self {
            Direction::NorthEast | Direction::East | Direction::SouthEast => 1,
            Direction::SouthWest | Direction::West | Direction::NorthWest => -1,
            _ => 0,
        }
    }

    /// Change of row made by one step in this direction.
    pub open spec fn row_delta(self) -> int {
        match self {
            Direction::SouthEast | Direction::South | Direction::SouthWest => 1,
            Direction::North | Direction::NorthEast | Direction::NorthWest => -1,
            _ => 0,
        }
    }

    /// Stamina that one step in this direction costs.
    pub open spec fn cost(self) -> nat {
        if self == Direction::Stand {
            0
        } else {
            1
        }
    }

    /// The `k`-th of the eight directions that lead to a neighbour, row by
    /// row from the north-west to the south-east.
    pub open spec fn around(k: int) -> Direction {
        if k == 0 {
            Direction::NorthWest
        } else if k == 1 {
            Direction::North
        } else if k == 2 {
            Direction::NorthEast
        } else if k == 3 {
            Direction::West
        } else if k == 4 {
            Direction::East
        } else if k == 5 {
            Direction::SouthWest
        } else if k == 6 {
            Direction::South
        } else {
            Direction::SouthEast
        }
    }

    pub fn nth_around(k: usize) -> (direction: Direction)
        ensures
            direction == Direction::around(k as int),
    {
        if k == 0 {
            Direction::NorthWest
        } else if k == 1 {
            Direction::North
        } else if k == 2 {
            Direction::NorthEast
        } else if k == 3 {
            Direction::West
        } else if k == 4 {
            Direction::East
        } else if k == 5 {
            Direction::SouthWest
        } else if k == 6 {
            Direction::South
        } else {
            Direction::SouthEast
        }
    }

    /// The displacement of one step, as (change of column, change of row).
    pub fn get_direction_coordinate(&self) -> (delta: (i32, i32))
        ensures
            delta.0 == self.column_delta(),
            delta.1 == self.row_delta(),
    {
        match self {
            Direction::Stand => (0, 0),
            Direction::North => (0, -1),
            Direction::NorthEast => (1, -1),
            Direction::East => (1, 0),
            Direction::SouthEast => (1, 1),
            Direction::South => (0, 1),
            Direction::SouthWest => (-1, 1),
            Direction::West => (-1, 0),
            Direction::NorthWest => (-1, -1),
        }
    }

    pub fn stamina_cost(&self) -> (cost: u8)
        ensures
            cost == self.cost(),
    {
        match self {
            Direction::Stand => 0,
            _ => 1,
        }
    }
}

/// A direction is known by its displacement: two directions that change the
/// column and the row alike are the same, and only `Stand` changes neither.
pub proof fn lemma_direction_known_by_displacement(a: Direction, b: Direction)
    ensures
        (a.column_delta() == b.column_delta() && a.row_delta() == b.row_delta()) <==> a == b,
        (a.column_delta() == 0 && a.row_delta() == 0) <==> a == Direction::Stand,
        -1 <= a.column_delta() <= 1,
        -1 <= a.row_delta() <= 1,
{
}

/// The eight directions around a cell are all different, none of them is
/// `Stand`, and every direction but `Stand` is among them.
pub proof fn lemma_around_lists_the_moves(direction: Direction)
    ensures
        forall|j: int, k: int|
            0 <= j < k < 8 ==> #[trigger] Direction::around(j) != #[trigger] Direction::around(k),
        forall|k: int| 0 <= k < 8 ==> #[trigger] Direction::around(k) != Direction::Stand,
        direction != Direction::Stand ==> exists|k: int|
            0 <= k < 8 && #[trigger] Direction::around(k) == direction,
{
    assert(Direction::around(0) == Direction::NorthWest);
    assert(Direction::around(1) == Direction::North);
    assert(Direction::around(2) == Direction::NorthEast);
    assert(Direction::around(3) == Direction::West);
    assert(Direction::around(4) == Direction::East);
    assert(Direction::around(5) == Direction::SouthWest);
    assert(Direction::around(6) == Direction::South);
    assert(Direction::around(7) == Direction::SouthEast);
}

} // verus!
