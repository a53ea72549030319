//! One tick of the simulation: the energy phase over every living cell,
//! then the movement phase, each committed all at once.

use vstd::prelude::*;
use crate::cell::{Cell, MAX_HEALTH};
use crate::creature::Life;
use crate::direction::Direction;
use crate::error::GridError;
use crate::movement::{FixedDirection, MovementPolicy};
use crate::universe::{GridView, Universe};

verus! {

impl GridView {
    /// The grid after the energy phase: every cell has aged by one tick,
    /// each on its own.
    pub open spec fn energized(self) -> GridView {
        GridView { cells: Seq::new(self.cells.len(), |i: int| self.cells[i].aged()), ..self }
    }

    /// What one tick makes of the grid: the energy phase, then the movement
    /// phase on its result.
    pub open spec fn ticked<P: MovementPolicy>(self, policy: P) -> GridView {
        self.energized().moved(policy)
    }

    /// The grid after one call for a tick: what the tick makes of it where
    /// that leaves every identifier on the grid once, and the grid as it was
    /// where the tick is refused.
    pub open spec fn stepped<P: MovementPolicy>(self, policy: P) -> GridView {
        if self.ticked(policy).identifiers_distinct() {
            self.ticked(policy)
        } else {
            self
        }
    }

    /// The grid after `ticks` calls for a tick.
    pub open spec fn stepped_for<P: MovementPolicy>(self, policy: P, ticks: nat) -> GridView
        decreases ticks,
    {
        if ticks == 0 {
            self
        } else {
            self.stepped(policy).stepped_for(policy, (ticks - 1) as nat)
        }
    }
}

impl Universe {
    /// Runs the energy phase: every living cell digests, recovers, heals,
    /// starves and, with no health left, decays. Each cell is computed from
    /// its own state before the phase, and all are committed at once. No
    /// occupant that the phase leaves alive is without health.
    pub fn run_energy_phase(&mut self)
        requires
            old(self).wf(),
        ensures
            final(self)@ == old(self)@.energized(),
            final(self).wf(),
            forall|i: int|
                0 <= i < final(self)@.cells.len() && (#[trigger] final(self)@.cells[i]).status
                    == Life::Alive ==> final(self)@.cells[i].health > 0,
    {
        let mut next = self.cells().clone();
        let count = next.len();
        let mut i: usize = 0;
        while i < count
            invariant
                i <= count,
                count == self@.cells.len(),
                next@.len() == count,
                forall|j: int| 0 <= j < i ==> next@[j] == (#[trigger] self@.cells[j]).aged(),
                forall|j: int| i <= j < count ==> next@[j] == #[trigger] self@.cells[j],
            decreases count - i,
        {
            if next[i].status == Life::Alive {
                let mut cell = next[i];
                cell.balance_energy();
                next.set(i, cell);
            }
            i = i + 1;
        }
        proof {
            assert(next@ =~= self@.energized().cells);
            crate::tick::lemma_energy_phase_keeps_grid_well_formed(self@);
        }
        self.commit(next);
    }

    /// Advances the grid by one tick: the energy phase over every living
    /// cell, then the movement phase, in which `policy` chooses the
    /// direction of every living organism. A tick that would put an organism
    /// on the grid twice is refused as a whole, and the grid stays as it was
    /// before the energy phase. Either way the grid keeps its dimensions and
    /// its number of cells, and no health leaves its bound.
    pub fn tick<P: MovementPolicy>(&mut self, policy: &P) -> (ticked: Result<(), GridError>)
        requires
            old(self).wf(),
        ensures
            final(self).wf(),
            final(self)@ == old(self)@.stepped(*policy),
            match ticked {
                Ok(_) => {
                    &&& old(self)@.ticked(*policy).identifiers_distinct()
                    &&& final(self)@ == old(self)@.ticked(*policy)
                },
                Err(e) => {
                    &&& e == GridError::InvariantViolation
                    &&& !old(self)@.ticked(*policy).identifiers_distinct()
                    &&& final(self)@ == old(self)@
                },
            },
            final(self)@.height == old(self)@.height,
            final(self)@.width == old(self)@.width,
            final(self)@.cells.len() == final(self)@.height * final(self)@.width,
            final(self)@.creature_count == old(self)@.creature_count,
            forall|i: int|
                0 <= i < final(self)@.cells.len() ==> (#[trigger] final(self)@.cells[i]).health
                    <= MAX_HEALTH,
    {
        let before = self.cells().clone();
        self.run_energy_phase();
        let ticked = match self.make_movement(policy) {
            Ok(_) => Ok(()),
            Err(e) => {
                self.commit(before);
                Err(e)
            },
        };
        proof {
            assert forall|i: int| 0 <= i < self@.cells.len()
                implies (#[trigger] self@.cells[i]).health <= MAX_HEALTH by {
                assert(self@.cell_fits(i));
            }
        }
        ticked
    }
}

/// The energy phase keeps the shape of the grid: its dimensions, its number
/// of cells, and the place and the bounds of every cell. No occupant that it
/// leaves alive is without health.
pub proof fn lemma_energy_phase_keeps_grid_shaped(grid: GridView)
    requires
        grid.shaped(),
    ensures
        grid.energized().shaped(),
        grid.energized().height == grid.height,
        grid.energized().width == grid.width,
        grid.energized().cells.len() == grid.cells.len(),
        grid.energized().creature_count == grid.creature_count,
        forall|i: int|
            0 <= i < grid.cells.len() && (#[trigger] grid.energized().cells[i]).status
                == Life::Alive ==> grid.energized().cells[i].health > 0,
{
    let after = grid.energized();
    assert forall|i: int| 0 <= i < after.cells.len() implies #[trigger] after.cell_fits(i) by {
        assert(grid.cell_fits(i));
    }
    assert forall|i: int|
        0 <= i < grid.cells.len() && (#[trigger] after.cells[i]).status == Life::Alive
        implies after.cells[i].health > 0 by {
        crate::cell::lemma_metabolism_keeps_health_bound(grid.cells[i]);
    }
}

/// The energy phase of a well-formed grid leaves a well-formed grid: it
/// keeps the shape, and it puts no identifier on the grid twice.
pub proof fn lemma_energy_phase_keeps_grid_well_formed(grid: GridView)
    requires
        grid.wf(),
    ensures
        grid.energized().wf(),
{
    let after = grid.energized();
    lemma_energy_phase_keeps_grid_shaped(grid);
    assert forall|i: int, id: u32|
        0 <= i < after.cells.len() && #[trigger] after.cells[i].bears(id)
        implies grid.cells[i].bears(id) by {
        crate::identity::lemma_metabolism_keeps_identifiers(grid.cells[i], id);
    }
    assert forall|i: int| 0 <= i < after.cells.len()
        implies (#[trigger] after.cells[i]).distinct_within() by {
        crate::identity::lemma_metabolism_keeps_identifiers(grid.cells[i], 0);
    }
    crate::identity::lemma_fewer_identifiers_stay_distinct(grid.cells, after.cells);
}

/// One call for a tick on a well-formed grid leaves a well-formed grid of
/// the same dimensions, whether the tick is carried out or refused.
pub proof fn lemma_tick_keeps_grid_well_formed<P: MovementPolicy>(grid: GridView, policy: P)
    requires
        grid.wf(),
    ensures
        grid.stepped(policy).wf(),
        grid.stepped(policy).height == grid.height,
        grid.stepped(policy).width == grid.width,
        grid.stepped(policy).cells.len() == grid.cells.len(),
        grid.stepped(policy).creature_count == grid.creature_count,
{
    lemma_energy_phase_keeps_grid_well_formed(grid);
    lemma_energy_phase_keeps_grid_shaped(grid);
    crate::movement::lemma_movement_keeps_grid_shaped(grid.energized(), policy);
}

/// However many ticks are called for on a well-formed grid, it stays well
/// formed: it has `height * width` cells, its dimensions are those it began
/// with, and the health of every cell is at most the bound.
pub proof fn lemma_ticks_keep_grid_well_formed<P: MovementPolicy>(
    grid: GridView,
    policy: P,
    ticks: nat,
)
    requires
        grid.wf(),
    ensures
        grid.stepped_for(policy, ticks).wf(),
        grid.stepped_for(policy, ticks).height == grid.height,
        grid.stepped_for(policy, ticks).width == grid.width,
        grid.stepped_for(policy, ticks).cells.len() == grid.height * grid.width,
        grid.stepped_for(policy, ticks).creature_count == grid.creature_count,
        forall|i: int|
            0 <= i < grid.cells.len()
                ==> (#[trigger] grid.stepped_for(policy, ticks).cells[i]).health <= MAX_HEALTH,
    decreases ticks,
{
    if ticks > 0 {
        lemma_tick_keeps_grid_well_formed(grid, policy);
        lemma_ticks_keep_grid_well_formed(grid.stepped(policy), policy, (ticks - 1) as nat);
    }
    let after = grid.stepped_for(policy, ticks);
    assert forall|i: int| 0 <= i < grid.cells.len()
        implies (#[trigger] after.cells[i]).health <= MAX_HEALTH by {
        assert(after.cell_fits(i));
    }
}

/// A tick in which every organism stands still is never refused, and it is
/// the energy phase alone: each cell ages by one tick on its own, and a
/// living cell has `Stand` on record afterwards.
pub proof fn lemma_standing_tick_ages_each_cell(grid: GridView, index: int)
    requires
        grid.wf(),
        0 <= index < grid.cells.len(),
    ensures
        grid.stepped(FixedDirection { direction: Direction::Stand }) == grid.ticked(
            FixedDirection { direction: Direction::Stand },
        ),
        grid.ticked(FixedDirection { direction: Direction::Stand }).cells[index]
            == if grid.cells[index].aged().status == Life::Alive {
            Cell { direction: Direction::Stand, ..grid.cells[index].aged() }
        } else {
            grid.cells[index].aged()
        },
{
    let policy = FixedDirection { direction: Direction::Stand };
    let rested = grid.energized();
    let after = grid.ticked(policy);
    lemma_energy_phase_keeps_grid_well_formed(grid);
    crate::movement::lemma_standing_moves_nothing(rested, rested.cells.len(), index);
    assert forall|i: int| 0 <= i < after.cells.len()
        implies (#[trigger] after.cells[i]).distinct_within() by {
        crate::movement::lemma_standing_moves_nothing(rested, rested.cells.len(), i);
    }
    assert forall|i: int, id: u32|
        0 <= i < after.cells.len() && #[trigger] after.cells[i].bears(id)
        implies rested.cells[i].bears(id) by {
        crate::movement::lemma_standing_moves_nothing(rested, rested.cells.len(), i);
    }
    crate::identity::lemma_fewer_identifiers_stay_distinct(rested.cells, after.cells);
}

/// While every organism stands still, each cell goes through its own
/// metabolism and nothing else: after `ticks` ticks a cell that had `Stand`
/// on record is what `ticks` energy phases make of it.
pub proof fn lemma_standing_ticks_age_each_cell(grid: GridView, ticks: nat, index: int)
    requires
        grid.wf(),
        0 <= index < grid.cells.len(),
        grid.cells[index].direction == Direction::Stand,
    ensures
        grid.stepped_for(FixedDirection { direction: Direction::Stand }, ticks).cells[index]
            == grid.cells[index].aged_for(ticks),
    decreases ticks,
{
    if ticks > 0 {
        let policy = FixedDirection { direction: Direction::Stand };
        lemma_standing_tick_ages_each_cell(grid, index);
        lemma_tick_keeps_grid_well_formed(grid, policy);
        lemma_standing_ticks_age_each_cell(grid.stepped(policy), (ticks - 1) as nat, index);
    }
}

/// On the grid, a living organism that stands still with an empty reserve
/// and nothing swallowed, among organisms that all stand still, decays after
/// `health / 10` ticks, rounded up, and stays a deposit of dead grass.
pub proof fn lemma_starving_organism_decays_on_grid(grid: GridView, index: int, later: nat)
    requires
        grid.wf(),
        0 <= index < grid.cells.len(),
        grid.cells[index].status == Life::Alive,
        grid.cells[index].direction == Direction::Stand,
        grid.cells[index].calories == 0,
        grid.cells[index].inside is None,
        grid.cells[index].health > 0,
    ensures
        grid.stepped_for(
            FixedDirection { direction: Direction::Stand },
            ((grid.cells[index].health + 9) / 10) as nat + later,
        ).cells[index] == (Cell { health: 0, ..grid.cells[index] }).decayed(),
{
    let ticks = ((grid.cells[index].health + 9) / 10) as nat + later;
    assert(grid.cell_fits(index));
    lemma_standing_ticks_age_each_cell(grid, ticks, index);
    crate::cell::lemma_starving_cell_decays(grid.cells[index], later);
}

} // verus!
