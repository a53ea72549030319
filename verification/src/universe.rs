//! The grid: a torus of cells stored row by row, its invariant, and the
//! request that puts an organism on it.

use vstd::prelude::*;
use crate::cell::{Cell, MAX_HEALTH};
use crate::creature::{Creature, Life};
use crate::direction::Direction;
use crate::error::GridError;
use crate::position::Position;

verus! {

/// A request to put an organism on the grid.
#[derive(Clone, Copy, Debug, PartialEq, Eq, Structural)]
pub struct Organizm {
    pub position: Position,
    pub creature: Creature,
    pub stamina: u8,
    pub status: Life,
    /// The reserve, in units of a sixth of a calorie.
    pub calories: u64,
    /// Health above the bound is cut down to it.
    pub health: u8,
}

/// A toroidal grid of `height` rows and `width` columns.
#[derive(Debug)]
pub struct Universe {
    height: u32,
    width: u32,
    cells: Vec<Cell>,
    creature_count: u32,
}

/// The grid as a mathematical value: its dimensions, its cells row by row,
/// and the next identifier it will hand out.
pub struct GridView {
    pub height: nat,
    pub width: nat,
    pub cells: Seq<Cell>,
    pub creature_count: nat,
}

impl GridView {
    /// Whether the cell at `index` is in its place, its health within the
    /// bound and its identifiers handed out by this grid, and whether the
    /// same holds of the organism it contains.
    pub open spec fn cell_fits(self, index: int) -> bool {
        let cell = self.cells[index];
        let place = crate::position::coordinate(self.width as int, index);
        &&& cell.position == place
        &&& cell.id < self.creature_count
        &&& cell.health <= MAX_HEALTH
        &&& cell.inside matches Some(prey) ==> {
            &&& prey.position == place
            &&& prey.id < self.creature_count
            &&& prey.health <= MAX_HEALTH
        }
    }

    /// Whether the grid has its shape: it has exactly `height * width`
    /// cells, every cell fits, and the identifiers still to hand out lie
    /// above all that are in use.
    pub open spec fn shaped(self) -> bool {
        &&& self.cells.len() == self.height * self.width
        &&& self.cells.len() <= self.creature_count <= u32::MAX
        &&& forall|i: int| 0 <= i < self.cells.len() ==> #[trigger] self.cell_fits(i)
    }

    /// The invariant of the grid: it has its shape, and no identifier is on
    /// it twice.
    pub open spec fn wf(self) -> bool {
        &&& self.shaped()
        &&& self.identifiers_distinct()
    }

    /// Whether `position` lies on the grid.
    pub open spec fn holds(self, position: Position) -> bool {
        position.within(self.height as int, self.width as int)
    }

    /// The linear index of `position`.
    pub open spec fn index_of(self, position: Position) -> int {
        crate::position::linear_index(
            self.width as int,
            position.row as int,
            position.column as int,
        )
    }

    /// The grid as constructed: the cell at each index is seeded from the
    /// index, and the identifiers in use are the indices.
    pub open spec fn seeded(height: nat, width: nat) -> GridView {
        GridView {
            height,
            width,
            cells: Seq::new(height * width, |i: int| Cell::seeded(width as int, i)),
            creature_count: height * width,
        }
    }

    /// The cell that a spawn writes: the requested organism under the next
    /// identifier, its health cut down to the bound, with the previous
    /// occupant of its position as its contained organism.
    pub open spec fn newcomer(self, request: Organizm) -> Cell {
        Cell {
            id: self.creature_count as u32,
            creature: request.creature,
            position: request.position,
            stamina: request.stamina,
            status: request.status,
            inside: Some(self.cells[self.index_of(request.position)].swallowed()),
            calories: request.calories,
            direction: Direction::Stand,
            health: vstd::math::min(request.health as int, MAX_HEALTH as int) as u8,
        }
    }

    /// The grid after a spawn: the newcomer stands at the requested
    /// position, one more identifier is used up, nothing else has changed.
    pub open spec fn spawned(self, request: Organizm) -> GridView {
        GridView {
            cells: self.cells.update(self.index_of(request.position), self.newcomer(request)),
            creature_count: self.creature_count + 1,
            ..self
        }
    }

    /// The first `count` cells hold no identifier `id`.
    pub open spec fn unnamed_before(self, id: u32, count: int) -> bool {
        forall|j: int| 0 <= j < count ==> (#[trigger] self.cells[j]).id != id
    }
}

impl View for Universe {
    type V = GridView;

    closed spec fn view(&self) -> GridView {
        GridView {
            height: self.height as nat,
            width: self.width as nat,
            cells: self.cells@,
            creature_count: self.creature_count as nat,
        }
    }
}

impl Universe {
    /// The invariant of the grid, which construction establishes and every
    /// operation keeps.
    pub open spec fn wf(&self) -> bool {
        self@.wf()
    }

    /// Builds a grid of `height` rows and `width` columns. A cell is seeded
    /// as dormant grass where its index is even or a multiple of seven, and
    /// as empty elsewhere.
    pub fn new(height: u32, width: u32) -> (universe: Universe)
        requires
            height * width <= u32::MAX,
        ensures
            universe@ == GridView::seeded(height as nat, width as nat),
            universe.wf(),
    {
        let count: u32 = (height as u64 * width as u64) as u32;
        let mut cells: Vec<Cell> = Vec::new();
        let mut i: u32 = 0;
        while i < count
            invariant
                i <= count,
                count == height * width,
                cells@ =~= Seq::new(i as nat, |j: int| Cell::seeded(width as int, j)),
            decreases count - i,
        {
            assert(width > 0) by (nonlinear_arith)
                requires
                    0 < height * width,
            ;
            cells.push(Cell::seed(width, i));
            i = i + 1;
        }
        let universe = Universe { width, height, cells, creature_count: count };
        proof {
            crate::universe::lemma_seeded_grid_is_well_formed(height as nat, width as nat);
        }
        universe
    }

    pub fn height(&self) -> (height: u32)
        ensures
            height == self@.height,
    {
        self.height
    }

    pub fn width(&self) -> (width: u32)
        ensures
            width == self@.width,
    {
        self.width
    }

    /// The next identifier that a spawn will hand out.
    pub fn creature_count(&self) -> (count: u32)
        ensures
            count == self@.creature_count,
    {
        self.creature_count
    }

    /// The cells of the grid, row by row.
    pub fn cells(&self) -> (cells: &Vec<Cell>)
        ensures
            cells@ == self@.cells,
    {
        &self.cells
    }

    /// Replaces the cells of the grid by `next`, all at once.
    pub(crate) fn commit(&mut self, next: Vec<Cell>)
        ensures
            final(self)@ == (GridView { cells: next@, ..old(self)@ }),
    {
        self.cells = next;
    }

    /// The linear index of the cell at (`row`, `column`). A position off the
    /// grid is refused.
    pub fn get_index(&self, row: u32, column: u32) -> (index: Result<usize, GridError>)
        requires
            self.wf(),
        ensures
            match index {
                Ok(index) => {
                    &&& row < self@.height
                    &&& column < self@.width
                    &&& index == crate::position::linear_index(
                        self@.width as int,
                        row as int,
                        column as int,
                    )
                    &&& index < self@.cells.len()
                },
                Err(e) => {
                    &&& e == GridError::BoundsError
                    &&& (row >= self@.height || column >= self@.width)
                },
            },
    {
        if row >= self.height || column >= self.width {
            return Err(GridError::BoundsError);
        }
        proof {
            crate::position::lemma_index_of_position(
                self.height as int,
                self.width as int,
                row as int,
                column as int,
            );
        }
        Ok((row as u64 * self.width as u64 + column as u64) as usize)
    }

    /// The linear index of (`row`, `column`) on the torus: a row or a column
    /// past the edge continues from the opposite edge. Only a grid without
    /// cells has no such index.
    pub fn get_wrapped_index(&self, row: u32, column: u32) -> (index: Result<usize, GridError>)
        requires
            self.wf(),
        ensures
            match index {
                Ok(index) => {
                    &&& self@.cells.len() > 0
                    &&& index == crate::position::toroidal_index(
                        self@.height as int,
                        self@.width as int,
                        row as int,
                        column as int,
                    )
                    &&& index < self@.cells.len()
                },
                Err(e) => e == GridError::BoundsError && self@.cells.len() == 0,
            },
    {
        if self.height == 0 || self.width == 0 {
            assert(self.height * self.width == 0) by (nonlinear_arith)
                requires
                    self.height == 0 || self.width == 0,
            ;
            return Err(GridError::BoundsError);
        }
        assert(self.height * self.width > 0) by (nonlinear_arith)
            requires
                self.height > 0 && self.width > 0,
        ;
        proof {
            crate::position::lemma_toroidal_index_wraps(
                self.height as int,
                self.width as int,
                row as int,
                column as int,
            );
        }
        let wrapped_row = row % self.height;
        let wrapped_column = column % self.width;
        Ok((wrapped_row as u64 * self.width as u64 + wrapped_column as u64) as usize)
    }

    /// The cell at `position`. A position off the grid is refused.
    pub fn get_cell(&self, position: Position) -> (cell: Result<Cell, GridError>)
        requires
            self.wf(),
        ensures
            match cell {
                Ok(cell) => {
                    &&& self@.holds(position)
                    &&& 0 <= self@.index_of(position) < self@.cells.len()
                    &&& cell == self@.cells[self@.index_of(position)]
                },
                Err(e) => e == GridError::BoundsError && !self@.holds(position),
            },
    {
        match self.get_index(position.row, position.column) {
            Ok(index) => Ok(self.cells[index]),
            Err(e) => Err(e),
        }
    }

    /// Hands out `count` identifiers, one after the other, and returns the
    /// first. Nothing on the grid carries any of them, and none will be
    /// handed out again. Where fewer than `count` are left, none is handed
    /// out.
    pub fn mint_identifiers(&mut self, count: u32) -> (first: Result<u32, GridError>)
        requires
            old(self).wf(),
        ensures
            final(self).wf(),
            match first {
                Ok(first) => {
                    &&& first == old(self)@.creature_count
                    &&& old(self)@.creature_count + count <= u32::MAX
                    &&& final(self)@ == (GridView {
                        creature_count: old(self)@.creature_count + count as nat,
                        ..old(self)@
                    })
                },
                Err(e) => {
                    &&& e == GridError::InvariantViolation
                    &&& old(self)@.creature_count + count > u32::MAX
                    &&& final(self)@ == old(self)@
                },
            },
    {
        if count > u32::MAX - self.creature_count {
            return Err(GridError::InvariantViolation);
        }
        let first = self.creature_count;
        self.creature_count = first + count;
        proof {
            assert forall|i: int| 0 <= i < self@.cells.len()
                implies #[trigger] self@.cell_fits(i) by {
                assert(old(self)@.cell_fits(i));
            }
        }
        Ok(first)
    }

    /// Puts the requested organism on the grid and returns the identifier
    /// it was given, which no cell of the grid has carried before. The
    /// previous occupant of the position becomes its contained organism. A
    /// position off the grid is refused, and so is any request once the
    /// identifiers have run out; a refused request changes nothing.
    pub fn set(&mut self, new_creature: Organizm) -> (id: Result<u32, GridError>)
        requires
            old(self).wf(),
        ensures
            final(self).wf(),
            match id {
                Ok(id) => {
                    &&& old(self)@.holds(new_creature.position)
                    &&& old(self)@.creature_count < u32::MAX
                    &&& id == old(self)@.creature_count
                    &&& final(self)@ == old(self)@.spawned(new_creature)
                    &&& 0 <= old(self)@.index_of(new_creature.position) < old(self)@.cells.len()
                    &&& final(self)@.cells[old(self)@.index_of(new_creature.position)]
                        == old(self)@.newcomer(new_creature)
                },
                Err(GridError::BoundsError) => {
                    &&& !old(self)@.holds(new_creature.position)
                    &&& final(self)@ == old(self)@
                },
                Err(GridError::InvariantViolation) => {
                    &&& old(self)@.holds(new_creature.position)
                    &&& old(self)@.creature_count == u32::MAX
                    &&& final(self)@ == old(self)@
                },
            },
    {
        let position = new_creature.position;
        let cell_index = match self.get_index(position.row, position.column) {
            Ok(index) => index,
            Err(_) => {
                return Err(GridError::BoundsError);
            },
        };
        let id = match self.mint_identifiers(1) {
            Ok(id) => id,
            Err(e) => {
                return Err(e);
            },
        };
        let occupant = self.cells[cell_index];
        let newcomer = Cell {
            id,
            position: new_creature.position,
            creature: new_creature.creature,
            stamina: new_creature.stamina,
            status: new_creature.status,
            inside: occupant.pack_to_inside(),
            direction: Direction::Stand,
            calories: new_creature.calories,
            health: if new_creature.health > MAX_HEALTH {
                MAX_HEALTH
            } else {
                new_creature.health
            },
        };
        proof {
            crate::universe::lemma_spawn_keeps_grid_well_formed(old(self)@, new_creature);
        }
        self.cells.set(cell_index, newcomer);
        Ok(id)
    }
}

/// A grid as constructed is well formed: it has `height * width` cells, each
/// seeded from its index and named after it.
pub proof fn lemma_seeded_grid_is_well_formed(height: nat, width: nat)
    requires
        height * width <= u32::MAX,
    ensures
        GridView::seeded(height, width).wf(),
        GridView::seeded(height, width).cells.len() == height * width,
        forall|i: int|
            0 <= i < height * width
                ==> (#[trigger] GridView::seeded(height, width).cells[i]).id == i,
{
    let grid = GridView::seeded(height, width);
    assert forall|i: int| 0 <= i < grid.cells.len() implies #[trigger] grid.cell_fits(i) by {
        assert(grid.cells[i] == Cell::seeded(width as int, i));
    }
    crate::identity::lemma_seeded_identifiers_are_distinct(height, width);
}

/// A spawn on a grid that has its shape leaves one of the same shape, and
/// changes no cell but the one at the requested position.
pub proof fn lemma_spawn_keeps_grid_shaped(grid: GridView, request: Organizm)
    requires
        grid.shaped(),
        grid.holds(request.position),
        grid.creature_count < u32::MAX,
    ensures
        grid.spawned(request).shaped(),
        grid.spawned(request).height == grid.height,
        grid.spawned(request).width == grid.width,
        grid.spawned(request).cells.len() == grid.cells.len(),
        0 <= grid.index_of(request.position) < grid.cells.len(),
        forall|i: int|
            0 <= i < grid.cells.len() && i != grid.index_of(request.position)
                ==> grid.spawned(request).cells[i] == grid.cells[i],
{
    let after = grid.spawned(request);
    crate::position::lemma_index_of_position(
        grid.height as int,
        grid.width as int,
        request.position.row as int,
        request.position.column as int,
    );
    assert forall|i: int| 0 <= i < after.cells.len() implies #[trigger] after.cell_fits(i) by {
        assert(grid.cell_fits(i));
    }
}

/// A spawn on a well-formed grid leaves a well-formed grid of the same
/// dimensions, shows the requested kind at the requested position, and gives
/// the newcomer an identifier that nothing on the grid bore before.
pub proof fn lemma_spawn_keeps_grid_well_formed(grid: GridView, request: Organizm)
    requires
        grid.wf(),
        grid.holds(request.position),
        grid.creature_count < u32::MAX,
    ensures
        grid.spawned(request).wf(),
        grid.spawned(request).height == grid.height,
        grid.spawned(request).width == grid.width,
        grid.spawned(request).cells.len() == grid.cells.len(),
        0 <= grid.index_of(request.position) < grid.cells.len(),
        grid.spawned(request).cells[grid.index_of(request.position)].creature == request.creature,
        grid.spawned(request).cells[grid.index_of(request.position)].id == grid.creature_count,
        forall|i: int|
            0 <= i < grid.cells.len()
                ==> !(#[trigger] grid.cells[i]).bears(grid.creature_count as u32),
{
    lemma_spawn_keeps_grid_shaped(grid, request);
    crate::identity::lemma_spawn_keeps_identifiers_distinct(grid, request);
    assert forall|i: int| 0 <= i < grid.cells.len()
        implies !(#[trigger] grid.cells[i]).bears(grid.creature_count as u32) by {
        assert(grid.cell_fits(i));
    }
}

} // verus!
