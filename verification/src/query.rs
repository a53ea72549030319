//! Read-only queries on the grid: lookup by identifier, the Moore
//! neighbourhood on the torus, counts of neighbours, and listings by kind.

use vstd::prelude::*;
use crate::cell::Cell;
use crate::creature::{Creature, Life};
use crate::direction::Direction;
use crate::error::GridError;
use crate::position::{wrap_coordinate, Position};
use crate::universe::{GridView, Universe};

verus! {

impl GridView {
    /// The linear index of the `k`-th neighbour of the cell at `index`.
    pub open spec fn neighbor_index(self, index: int, k: int) -> int {
        crate::position::step_index(
            self.height as int,
            self.width as int,
            index,
            Direction::around(k),
        )
    }

    /// The eight neighbours of the cell at `index` on the torus, row by row
    /// from the north-west to the south-east.
    pub open spec fn neighbors_of(self, index: int) -> Seq<Position> {
        Seq::new(
            8,
            |k: int| crate::position::coordinate(self.width as int, self.neighbor_index(index, k)),
        )
    }

    /// How many of the first `k` neighbours of the cell at `index` are of
    /// kind `kind`.
    pub open spec fn matching_neighbors(self, index: int, kind: Creature, k: nat) -> nat
        decreases k,
    {
        if k == 0 {
            0
        } else {
            let before = self.matching_neighbors(index, kind, (k - 1) as nat);
            if self.cells[self.neighbor_index(index, k - 1)].creature == kind {
                before + 1
            } else {
                before
            }
        }
    }

    /// The kind that the occupant of the cell at `index` feeds on: grass for
    /// a living sheep, sheep for a living wolf, and for every other occupant
    /// `Empty`, the kind of rank zero.
    pub open spec fn hunted_kind(self, index: int) -> Creature {
        if self.cells[index].status == Life::Alive {
            self.cells[index].creature.food()
        } else {
            Creature::Empty
        }
    }

    /// The cells of kind `kind`, in grid order.
    pub open spec fn of_kind(self, kind: Creature) -> Seq<Cell> {
        self.cells.filter(|cell: Cell| cell.creature == kind)
    }
}

impl Universe {
    /// The position of the first cell, in grid order, that carries the
    /// identifier `cell_id`.
    pub fn get_position_with_id(&self, cell_id: u32) -> (position: Option<Position>)
        ensures
            match position {
                Some(p) => exists|i: int|
                    {
                        &&& 0 <= i < self@.cells.len()
                        &&& (#[trigger] self@.cells[i]).id == cell_id
                        &&& self@.unnamed_before(cell_id, i)
                        &&& p == self@.cells[i].position
                    },
                None => self@.unnamed_before(cell_id, self@.cells.len() as int),
            },
    {
        let cells = self.cells();
        let mut i: usize = 0;
        while i < cells.len()
            invariant
                i <= cells.len(),
                cells@ == self@.cells,
                self@.unnamed_before(cell_id, i as int),
            decreases cells.len() - i,
        {
            if cells[i].id == cell_id {
                return Some(cells[i].position);
            }
            i = i + 1;
        }
        None
    }

    /// The linear index of the first cell, in grid order, that carries the
    /// identifier `cell_id`.
    pub fn get_index_with_id(&self, cell_id: u32) -> (index: Option<usize>)
        requires
            self.wf(),
        ensures
            match index {
                Some(i) => {
                    &&& i < self@.cells.len()
                    &&& self@.cells[i as int].id == cell_id
                    &&& self@.unnamed_before(cell_id, i as int)
                },
                None => self@.unnamed_before(cell_id, self@.cells.len() as int),
            },
    {
        match self.get_position_with_id(cell_id) {
            Some(position) => {
                proof {
                    let i = choose|i: int|
                        0 <= i < self@.cells.len() && (#[trigger] self@.cells[i]).id == cell_id
                            && self@.unnamed_before(cell_id, i) && position
                            == self@.cells[i].position;
                    assert(self@.cell_fits(i));
                    assert(self@.width > 0) by (nonlinear_arith)
                        requires
                            0 < self@.height * self@.width,
                    ;
                    crate::position::lemma_position_of_index(
                        self@.height as int,
                        self@.width as int,
                        i,
                    );
                }
                match self.get_index(position.row, position.column) {
                    Ok(index) => Some(index),
                    Err(_) => None,
                }
            },
            None => None,
        }
    }

    /// The eight neighbours of `position` on the torus, row by row from the
    /// north-west to the south-east. A position off the grid is refused.
    pub fn neighbors(&self, position: Position) -> (around: Result<Vec<Position>, GridError>)
        requires
            self.wf(),
        ensures
            match around {
                Ok(around) => {
                    &&& self@.holds(position)
                    &&& around@ == self@.neighbors_of(self@.index_of(position))
                },
                Err(e) => e == GridError::BoundsError && !self@.holds(position),
            },
    {
        let index = match self.get_index(position.row, position.column) {
            Ok(index) => index,
            Err(e) => {
                return Err(e);
            },
        };
        let mut around: Vec<Position> = Vec::new();
        let mut k: usize = 0;
        while k < 8
            invariant
                k <= 8,
                self.wf(),
                self@.holds(position),
                index == self@.index_of(position),
                index < self@.cells.len(),
                around@ =~= self@.neighbors_of(index as int).take(k as int),
            decreases 8 - k,
        {
            let neighbor = self.neighbor(position, Direction::nth_around(k));
            around.push(self.cells()[neighbor].position);
            k = k + 1;
        }
        Ok(around)
    }

    /// The linear index of the cell one step in `direction` from `position`
    /// on the torus.
    pub(crate) fn neighbor(&self, position: Position, direction: Direction) -> (index: usize)
        requires
            self.wf(),
            self@.holds(position),
        ensures
            index == crate::position::step_index(
                self@.height as int,
                self@.width as int,
                self@.index_of(position),
                direction,
            ),
            index < self@.cells.len(),
            self@.cells[index as int].position == crate::position::coordinate(
                self@.width as int,
                index as int,
            ),
    {
        let delta = direction.get_direction_coordinate();
        let column = wrap_coordinate(position.column, delta.0, self.width());
        let row = wrap_coordinate(position.row, delta.1, self.height());
        proof {
            crate::position::lemma_index_of_position(
                self@.height as int,
                self@.width as int,
                position.row as int,
                position.column as int,
            );
            crate::position::lemma_index_of_position(
                self@.height as int,
                self@.width as int,
                row as int,
                column as int,
            );
            assert(self@.cell_fits(
                crate::position::linear_index(self@.width as int, row as int, column as int),
            ));
        }
        (row as u64 * self.width() as u64 + column as u64) as usize
    }

    /// How many of the eight neighbours of `position` on the torus are of
    /// kind `kind`. A position off the grid is refused.
    pub fn count_matching_neighbors(
        &self,
        position: Position,
        kind: Creature,
    ) -> (count: Result<u32, GridError>)
        requires
            self.wf(),
        ensures
            match count {
                Ok(count) => {
                    &&& self@.holds(position)
                    &&& count == self@.matching_neighbors(self@.index_of(position), kind, 8)
                },
                Err(e) => e == GridError::BoundsError && !self@.holds(position),
            },
    {
        let index = match self.get_index(position.row, position.column) {
            Ok(index) => index,
            Err(e) => {
                return Err(e);
            },
        };
        let mut count: u32 = 0;
        let mut k: usize = 0;
        while k < 8
            invariant
                k <= 8,
                self.wf(),
                self@.holds(position),
                index == self@.index_of(position),
                count == self@.matching_neighbors(index as int, kind, k as nat),
                count <= k,
            decreases 8 - k,
        {
            let neighbor = self.neighbor(position, Direction::nth_around(k));
            if self.cells()[neighbor].creature == kind {
                count = count + 1;
            }
            k = k + 1;
        }
        Ok(count)
    }

    /// How many of the eight neighbours of the cell at (`row`, `column`) are
    /// of the kind its occupant feeds on. A position off the grid is
    /// refused.
    pub fn get_food_count(&self, column: u32, row: u32) -> (count: Result<u32, GridError>)
        requires
            self.wf(),
        ensures
            match count {
                Ok(count) => {
                    let index = self@.index_of(Position { column, row });
                    &&& self@.holds(Position { column, row })
                    &&& count == self@.matching_neighbors(index, self@.hunted_kind(index), 8)
                },
                Err(e) => e == GridError::BoundsError && !self@.holds(Position { column, row }),
            },
    {
        let object_index = match self.get_index(row, column) {
            Ok(index) => index,
            Err(e) => {
                return Err(e);
            },
        };
        let occupant = self.cells()[object_index];
        let food_type = match occupant.status {
            Life::Alive => occupant.creature.get_eating_food_type(),
            Life::Dead => Creature::Empty,
        };
        self.count_matching_neighbors(Position { column, row }, food_type)
    }

    /// The cells of kind `creature_type`, in grid order.
    pub fn analyze_creatures(&self, creature_type: Creature) -> (listed: Vec<Cell>)
        ensures
            listed@ == self@.of_kind(creature_type),
    {
        let cells = self.cells();
        let ghost wanted = |cell: Cell| cell.creature == creature_type;
        let mut listed: Vec<Cell> = Vec::new();
        let mut i: usize = 0;
        proof {
            reveal(Seq::filter);
        }
        while i < cells.len()
            invariant
                i <= cells.len(),
                cells@ == self@.cells,
                wanted == |cell: Cell| cell.creature == creature_type,
                listed@ == cells@.take(i as int).filter(wanted),
            decreases cells.len() - i,
        {
            proof {
                reveal(Seq::filter);
                assert(cells@.take(i + 1).drop_last() =~= cells@.take(i as int));
            }
            if cells[i].creature == creature_type {
                listed.push(cells[i]);
            }
            i = i + 1;
        }
        proof {
            assert(cells@.take(cells@.len() as int) =~= cells@);
        }
        listed
    }
}

} // verus!
