//! The movement phase: every living organism may take one step on the
//! torus, swallowing what it steps onto and setting free what it had
//! swallowed before.
//!
//! All decisions of one phase read the grid as it was when the phase began.
//! The moves are written into a buffer in the order of the cells they start
//! from, so where two moves write the same cell, the one that starts from the
//! higher index stands. The buffer replaces the cells only if it holds every
//! organism once; a phase that would double an organism is refused.
//!
//! Where the organisms go is up to a [`MovementPolicy`]. Its decisions are
//! part of the contract of the phase, so a policy states them as a spec
//! function. A caller that decides by other means runs the energy phase,
//! reads the cells, and hands its decisions in as [`PlannedDirections`].

use vstd::prelude::*;
use crate::cell::{Cell, Inside};
use crate::creature::Life;
use crate::direction::Direction;
use crate::error::GridError;
use crate::identity::identifiers_are_distinct;
use crate::universe::{GridView, Universe};

verus! {

/// Decides where the organisms of a grid go. The movement phase asks once
/// for every living cell, always about the grid as it was when the phase
/// began.
pub trait MovementPolicy {
    /// The direction chosen for the occupant of the cell at `index`.
    spec fn decide(&self, grid: GridView, index: int) -> Direction;

    /// Computes the direction chosen for the occupant of the cell at `index`.
    fn pick_direction(&self, universe: &Universe, index: usize) -> (direction: Direction)
        requires
            universe.wf(),
            index < universe@.cells.len(),
        ensures
            direction == self.decide(universe@, index as int),
    ;
}

/// The policy that sends every organism the same way.
#[derive(Clone, Copy, Debug)]
pub struct FixedDirection {
    pub direction: Direction,
}

impl MovementPolicy for FixedDirection {
    open spec fn decide(&self, grid: GridView, index: int) -> Direction {
        self.direction
    }

    fn pick_direction(&self, universe: &Universe, index: usize) -> (direction: Direction) {
        self.direction
    }
}

/// The policy that reads the direction of each organism from a plan, one
/// entry per cell in grid order. An organism beyond the end of the plan
/// stands still.
#[derive(Debug)]
pub struct PlannedDirections {
    pub plan: Vec<Direction>,
}

impl MovementPolicy for PlannedDirections {
    open spec fn decide(&self, grid: GridView, index: int) -> Direction {
        if 0 <= index < self.plan@.len() {
            self.plan@[index]
        } else {
            Direction::Stand
        }
    }

    fn pick_direction(&self, universe: &Universe, index: usize) -> (direction: Direction) {
        if index < self.plan.len() {
            self.plan[index]
        } else {
            Direction::Stand
        }
    }
}

impl GridView {
    /// Whether the occupant of the cell at `index` takes the step in
    /// `direction`: it is alive and has the stamina, which standing still
    /// does not take.
    pub open spec fn moves(self, index: int, direction: Direction) -> bool {
        &&& self.cells[index].status == Life::Alive
        &&& (self.cells[index].stamina >= 1 || direction == Direction::Stand)
    }

    /// The linear index that one step in `direction` from the cell at
    /// `index` leads to.
    pub open spec fn destination(self, index: int, direction: Direction) -> int {
        crate::position::step_index(self.height as int, self.width as int, index, direction)
    }

    /// What the occupant of the cell at `index` holds after its step in
    /// `direction`: the occupant of the cell it steps onto, or, where it
    /// stands still, what it held before.
    pub open spec fn catch_of(self, index: int, direction: Direction) -> Option<Inside> {
        if direction == Direction::Stand {
            self.cells[index].inside
        } else {
            Some(self.cells[self.destination(index, direction)].swallowed())
        }
    }

    /// The occupant of the cell at `index` as it arrives after its step in
    /// `direction`: in its new place, the cost of the step taken off its
    /// stamina, with its catch.
    pub open spec fn arrival(self, index: int, direction: Direction) -> Cell {
        let mover = self.cells[index];
        Cell {
            id: mover.id,
            creature: mover.creature,
            position: self.cells[self.destination(index, direction)].position,
            stamina: (mover.stamina - direction.cost()) as u8,
            status: mover.status,
            inside: self.catch_of(index, direction),
            calories: mover.calories,
            direction,
            health: mover.health,
        }
    }

    /// What the occupant of the cell at `index` leaves behind there.
    pub open spec fn departure(self, index: int) -> Cell {
        self.cells[index].left_behind(index, self.cells[index].position)
    }

    /// The buffer after the move of the cell at `index` in `direction` has
    /// been written into it: first what stays behind, then the arrival. An
    /// occupant that does not move writes nothing.
    pub open spec fn relocated(
        self,
        buffer: Seq<Cell>,
        index: int,
        direction: Direction,
    ) -> Seq<Cell> {
        if self.moves(index, direction) {
            buffer.update(index, self.departure(index)).update(
                self.destination(index, direction),
                self.arrival(index, direction),
            )
        } else {
            buffer
        }
    }

    /// The buffer after the moves of the first `count` cells have been
    /// written into it, each in the direction that `policy` chose.
    pub open spec fn moved_through<P: MovementPolicy>(self, policy: P, count: nat) -> Seq<Cell>
        decreases count,
    {
        if count == 0 {
            self.cells
        } else {
            self.relocated(
                self.moved_through(policy, (count - 1) as nat),
                count - 1,
                policy.decide(self, count - 1),
            )
        }
    }

    /// The grid after the movement phase.
    pub open spec fn moved<P: MovementPolicy>(self, policy: P) -> GridView {
        GridView { cells: self.moved_through(policy, self.cells.len()), ..self }
    }
}

impl Universe {
    /// The linear index that one step in `direction` from the cell at
    /// `standing_index` leads to. An index off the grid is refused.
    pub fn get_new_index_with_direction(
        &self,
        standing_index: usize,
        direction: Direction,
    ) -> (new_index: Result<usize, GridError>)
        requires
            self.wf(),
        ensures
            match new_index {
                Ok(new_index) => {
                    &&& standing_index < self@.cells.len()
                    &&& new_index == self@.destination(standing_index as int, direction)
                    &&& new_index < self@.cells.len()
                },
                Err(e) => e == GridError::BoundsError && standing_index >= self@.cells.len(),
            },
    {
        if standing_index >= self.cells().len() {
            return Err(GridError::BoundsError);
        }
        let position = self.cells()[standing_index].position;
        proof {
            assert(self@.cell_fits(standing_index as int));
            assert(self@.width > 0) by (nonlinear_arith)
                requires
                    0 < self@.height * self@.width,
            ;
            crate::position::lemma_position_of_index(
                self@.height as int,
                self@.width as int,
                standing_index as int,
            );
        }
        Ok(self.neighbor(position, direction))
    }

    /// The occupant of the cell at `old_index` as it arrives at `new_index`
    /// after a step in `direction`, holding `inside_in_new_place`.
    pub(crate) fn create_cell_for_new_position(
        &self,
        new_index: usize,
        old_index: usize,
        inside_in_new_place: Option<Inside>,
        direction: Direction,
    ) -> (cell: Cell)
        requires
            new_index < self@.cells.len(),
            old_index < self@.cells.len(),
            self@.cells[old_index as int].stamina >= direction.cost(),
        ensures
            cell == (Cell {
                position: self@.cells[new_index as int].position,
                stamina: (self@.cells[old_index as int].stamina - direction.cost()) as u8,
                inside: inside_in_new_place,
                direction,
                ..self@.cells[old_index as int]
            }),
    {
        let cells = self.cells();
        Cell {
            id: cells[old_index].id,
            creature: cells[old_index].creature,
            position: cells[new_index].position,
            stamina: cells[old_index].stamina - direction.stamina_cost(),
            status: cells[old_index].status,
            inside: inside_in_new_place,
            direction,
            calories: cells[old_index].calories,
            health: cells[old_index].health,
        }
    }

    /// Writes the move of the cell at `index` in `direction` into `next`.
    /// It writes the cell that the occupant leaves and the cell that it
    /// arrives at, and no other: the buffer keeps its length, one organism
    /// vacates the source, and one, holding its catch, occupies the
    /// destination. An index off the grid and a buffer of another length
    /// than the grid are refused.
    pub fn relocate(
        &self,
        next: &mut Vec<Cell>,
        index: usize,
        direction: Direction,
    ) -> (written: Result<(), GridError>)
        requires
            self.wf(),
        ensures
            final(next)@.len() == old(next)@.len(),
            match written {
                Ok(_) => {
                    &&& index < self@.cells.len()
                    &&& old(next)@.len() == self@.cells.len()
                    &&& final(next)@ == self@.relocated(old(next)@, index as int, direction)
                },
                Err(e) => {
                    &&& e == GridError::BoundsError
                    &&& (index >= self@.cells.len() || old(next)@.len() != self@.cells.len())
                    &&& final(next)@ == old(next)@
                },
            },
            written is Ok ==> forall|j: int|
                0 <= j < old(next)@.len() && j != index
                    && j != self@.destination(index as int, direction)
                    ==> final(next)@[j] == old(next)@[j],
            written is Ok && self@.moves(index as int, direction)
                ==> final(next)@[self@.destination(index as int, direction)]
                    == self@.arrival(index as int, direction),
            written is Ok && self@.moves(index as int, direction)
                && self@.destination(index as int, direction) != index
                ==> final(next)@[index as int] == self@.departure(index as int),
            written is Ok && !self@.moves(index as int, direction)
                ==> final(next)@ == old(next)@,
    {
        if index >= self.cells().len() || next.len() != self.cells().len() {
            return Err(GridError::BoundsError);
        }
        let cell = self.cells()[index];
        if cell.status == Life::Alive && (cell.stamina >= 1 || direction == Direction::Stand) {
            let new_index = match self.get_new_index_with_direction(index, direction) {
                Ok(new_index) => new_index,
                Err(e) => {
                    return Err(e);
                },
            };
            let inside_in_new_place = if direction == Direction::Stand {
                cell.get_inside_cell()
            } else {
                self.cells()[new_index].pack_to_inside()
            };
            let creature_in_new_place = self.create_cell_for_new_position(
                new_index,
                index,
                inside_in_new_place,
                direction,
            );
            let inside_in_old_place = cell.spin_the_inside(index, cell.position);
            next.set(index, inside_in_old_place);
            next.set(new_index, creature_in_new_place);
        }
        Ok(())
    }

    /// Runs the movement phase: every living cell is asked for its
    /// direction, in grid order and about the grid as it is now, and its
    /// move is written into a fresh buffer. Where the moves leave every
    /// identifier on the grid once, the buffer replaces the cells all at
    /// once. Where they would put an organism on the grid twice, the phase
    /// is refused and the grid stays as it was.
    pub fn make_movement<P: MovementPolicy>(
        &mut self,
        policy: &P,
    ) -> (moved: Result<(), GridError>)
        requires
            old(self).wf(),
        ensures
            final(self).wf(),
            match moved {
                Ok(_) => {
                    &&& old(self)@.moved(*policy).identifiers_distinct()
                    &&& final(self)@ == old(self)@.moved(*policy)
                },
                Err(e) => {
                    &&& e == GridError::InvariantViolation
                    &&& !old(self)@.moved(*policy).identifiers_distinct()
                    &&& final(self)@ == old(self)@
                },
            },
    {
        let mut next = self.cells().clone();
        let count = next.len();
        let mut i: usize = 0;
        while i < count
            invariant
                i <= count,
                count == self@.cells.len(),
                self.wf(),
                self == old(self),
                next@ == self@.moved_through(*policy, i as nat),
                next@.len() == count,
            decreases count - i,
        {
            if self.cells()[i].status == Life::Alive {
                let chosen_direction = policy.pick_direction(self, i);
                let _ = self.relocate(&mut next, i, chosen_direction);
            }
            i = i + 1;
        }
        if !identifiers_are_distinct(&next) {
            return Err(GridError::InvariantViolation);
        }
        proof {
            crate::movement::lemma_movement_keeps_grid_shaped(self@, *policy);
        }
        self.commit(next);
        Ok(())
    }
}

/// One move writes the cell that the occupant leaves and the cell that it
/// arrives at, and no other: the buffer keeps its length and its shape, what
/// stays behind stands at the source, and the occupant, holding its catch,
/// stands at the destination.
pub proof fn lemma_move_writes_source_and_destination(
    grid: GridView,
    buffer: Seq<Cell>,
    index: int,
    direction: Direction,
)
    requires
        grid.shaped(),
        0 <= index < grid.cells.len(),
        (GridView { cells: buffer, ..grid }).shaped(),
    ensures
        (GridView { cells: grid.relocated(buffer, index, direction), ..grid }).shaped(),
        grid.relocated(buffer, index, direction).len() == buffer.len(),
        0 <= grid.destination(index, direction) < grid.cells.len(),
        forall|j: int|
            0 <= j < buffer.len() && j != index && j != grid.destination(index, direction)
                ==> grid.relocated(buffer, index, direction)[j] == buffer[j],
        grid.moves(index, direction)
            ==> grid.relocated(buffer, index, direction)[grid.destination(index, direction)]
                == grid.arrival(index, direction),
        grid.moves(index, direction) && grid.destination(index, direction) != index
            ==> grid.relocated(buffer, index, direction)[index] == grid.departure(index),
        !grid.moves(index, direction) ==> grid.relocated(buffer, index, direction) == buffer,
{
    let before = GridView { cells: buffer, ..grid };
    let after = GridView { cells: grid.relocated(buffer, index, direction), ..grid };
    let target = grid.destination(index, direction);
    assert(grid.width > 0) by (nonlinear_arith)
        requires
            0 < grid.height * grid.width,
    ;
    crate::position::lemma_step_stays_on_grid(
        grid.height as int,
        grid.width as int,
        index,
        direction,
    );
    assert(grid.cell_fits(index));
    assert(grid.cell_fits(target));
    assert forall|j: int| 0 <= j < after.cells.len() implies #[trigger] after.cell_fits(j) by {
        assert(before.cell_fits(j));
    }
}

/// The movement phase keeps the shape of the grid: its dimensions, its
/// number of cells, and the place and the bounds of every cell.
pub proof fn lemma_movement_keeps_grid_shaped<P: MovementPolicy>(grid: GridView, policy: P)
    requires
        grid.shaped(),
    ensures
        grid.moved(policy).shaped(),
        grid.moved(policy).height == grid.height,
        grid.moved(policy).width == grid.width,
        grid.moved(policy).cells.len() == grid.cells.len(),
        grid.moved(policy).creature_count == grid.creature_count,
{
    crate::movement::lemma_moves_keep_cells_fitting(grid, policy, grid.cells.len());
}

/// The moves of the first `count` cells leave a buffer of fitting cells, as
/// many as the grid has.
pub proof fn lemma_moves_keep_cells_fitting<P: MovementPolicy>(
    grid: GridView,
    policy: P,
    count: nat,
)
    requires
        grid.shaped(),
        count <= grid.cells.len(),
    ensures
        (GridView { cells: grid.moved_through(policy, count), ..grid }).shaped(),
        grid.moved_through(policy, count).len() == grid.cells.len(),
    decreases count,
{
    if count > 0 {
        lemma_moves_keep_cells_fitting(grid, policy, (count - 1) as nat);
        lemma_move_writes_source_and_destination(
            grid,
            grid.moved_through(policy, (count - 1) as nat),
            count - 1,
            policy.decide(grid, count - 1),
        );
    }
}

/// Where every organism stands still, the first `count` moves change only
/// the direction on record: a living cell among the first `count` holds its
/// occupant as before with `Stand` on record, and every other cell is as it
/// was.
pub proof fn lemma_standing_moves_nothing(grid: GridView, count: nat, index: int)
    requires
        grid.shaped(),
        count <= grid.cells.len(),
        0 <= index < grid.cells.len(),
    ensures
        grid.moved_through(FixedDirection { direction: Direction::Stand }, count).len()
            == grid.cells.len(),
        grid.moved_through(FixedDirection { direction: Direction::Stand }, count)[index]
            == if index < count && grid.cells[index].status == Life::Alive {
            Cell { direction: Direction::Stand, ..grid.cells[index] }
        } else {
            grid.cells[index]
        },
    decreases count,
{
    if count > 0 {
        lemma_standing_moves_nothing(grid, (count - 1) as nat, index);
        assert(grid.width > 0) by (nonlinear_arith)
            requires
                0 < grid.height * grid.width,
        ;
        crate::position::lemma_step_stays_on_grid(
            grid.height as int,
            grid.width as int,
            count - 1,
            Direction::Stand,
        );
    }
}

} // verus!
