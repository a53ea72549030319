//! One cell of the grid and its metabolism: digestion of swallowed prey,
//! recovery of stamina, healing, starvation and decay.
//!
//! Calorie amounts are counted in reserve units, six to the calorie, so that
//! every rate and cost is a whole number: healing one point of health costs
//! two thirds of a calorie, which is four units.

use vstd::prelude::*;
use crate::creature::{Creature, Life, UNITS_PER_CALORIE};
use crate::direction::Direction;
use crate::position::Position;

verus! {

/// The most health an organism can have.
pub const MAX_HEALTH: u8 = 100;

/// Health lost in a tick that finds the reserve empty.
pub const STARVATION_DAMAGE: u8 = 10;

/// The most reserve units a cell can hold.
pub const RESERVE_CAPACITY: u64 = 0xffff_ffff_ffff_ffff;

/// Reserve units that healing one point of health costs.
pub const UNITS_PER_HEALTH_POINT: u64 = 4;

/// An organism that a predator has swallowed and is digesting. It holds what
/// a cell holds except a direction and, since containment is one level deep,
/// a contained organism of its own.
#[derive(Clone, Copy, Debug, PartialEq, Eq, Structural)]
pub struct Inside {
    pub id: u32,
    pub creature: Creature,
    pub position: Position,
    pub stamina: u8,
    pub status: Life,
    pub calories: u64,
    pub health: u8,
}

/// The state of one grid cell: its occupant, the occupant's reserves and
/// what the occupant has swallowed.
#[derive(Clone, Copy, Debug, PartialEq, Eq, Structural)]
pub struct Cell {
    pub id: u32,
    pub creature: Creature,
    pub position: Position,
    pub stamina: u8,
    pub status: Life,
    pub inside: Option<Inside>,
    pub calories: u64,
    pub direction: Direction,
    pub health: u8,
}

/// `amount` reserve units, cut off at the capacity of a reserve.
pub open spec fn capped(amount: int) -> u64 {
    vstd::math::min(amount, RESERVE_CAPACITY as int) as u64
}

impl Cell {
    /// The cell that grid construction puts at linear index `index` of a
    /// grid of `width` columns: dormant grass where the index is even or a
    /// multiple of seven, nothing elsewhere.
    pub open spec fn seeded(width: int, index: int) -> Cell {
        if index % 2 == 0 || index % 7 == 0 {
            Cell {
                id: index as u32,
                creature: Creature::Grass,
                position: crate::position::coordinate(width, index),
                stamina: 40,
                status: Life::Dead,
                inside: None,
                calories: 60,
                direction: Direction::Stand,
                health: 0,
            }
        } else {
            Cell::vacant(index, crate::position::coordinate(width, index))
        }
    }

    /// An empty cell at `position`, named after its linear index.
    pub open spec fn vacant(index: int, position: Position) -> Cell {
        Cell {
            id: index as u32,
            creature: Creature::Empty,
            position,
            stamina: 0,
            status: Life::Dead,
            inside: None,
            calories: 0,
            direction: Direction::Stand,
            health: 0,
        }
    }

    /// Reserve units of the contained organism; zero where there is none.
    pub open spec fn prey_calories(self) -> int {
        match self.inside {
            Some(prey) => prey.calories as int,
            None => 0,
        }
    }

    /// Whether the cell holds prey that its occupant digests.
    pub open spec fn digests(self) -> bool {
        self.inside matches Some(prey) && self.creature.preys_on(prey.creature)
    }

    /// Reserve units that pass from the prey to the host in one tick: what
    /// the prey has left, at most the host's digestion rate, and at most what
    /// the host's reserve has room for.
    pub open spec fn meal(self) -> int {
        if self.digests() {
            let rate = self.creature.digestion_rate() as int;
            let room = RESERVE_CAPACITY - self.calories;
            vstd::math::min(self.prey_calories(), vstd::math::min(rate, room))
        } else {
            0
        }
    }

    /// The cell after digestion: the meal has passed from prey to host, and
    /// prey with nothing left is gone.
    pub open spec fn fed(self) -> Cell {
        match self.inside {
            Some(prey) if self.creature.preys_on(prey.creature) => Cell {
                calories: (self.calories + self.meal()) as u64,
                inside: if prey.calories == self.meal() {
                    None
                } else {
                    Some(Inside { calories: (prey.calories - self.meal()) as u64, ..prey })
                },
                ..self
            },
            _ => self,
        }
    }

    /// The cell with `stamina_size` more stamina, paid for with as many
    /// calories. Stamina stops at what a cell can record, and the reserve at
    /// zero.
    pub open spec fn with_more_stamina(self, stamina_size: int) -> Cell {
        Cell {
            stamina: vstd::math::min(self.stamina + stamina_size, u8::MAX as int) as u8,
            calories: vstd::math::max(self.calories - stamina_size * UNITS_PER_CALORIE, 0) as u64,
            ..self
        }
    }

    /// The cell after stamina replenishment: an exhausted occupant with more
    /// than one calorie turns one calorie into one point of stamina.
    pub open spec fn replenished(self) -> Cell {
        if self.stamina <= 1 && self.calories > UNITS_PER_CALORIE {
            self.with_more_stamina(1)
        } else {
            self
        }
    }

    /// The cell after an attempt to heal `heal_size` points: it heals, up to
    /// full health, where the reserve exceeds the cost by more than one
    /// calorie, and is unchanged elsewhere.
    pub open spec fn healed_by(self, heal_size: int) -> Cell {
        if self.calories > heal_size * UNITS_PER_HEALTH_POINT + UNITS_PER_CALORIE {
            Cell {
                health: vstd::math::min(self.health + heal_size, MAX_HEALTH as int) as u8,
                calories: (self.calories - heal_size * UNITS_PER_HEALTH_POINT) as u64,
                ..self
            }
        } else {
            self
        }
    }

    /// The cell after healing: an occupant short of full health with more
    /// than two calories tries to heal five points where it is ten or more
    /// short, one point elsewhere.
    pub open spec fn healed(self) -> Cell {
        if self.health < MAX_HEALTH && self.calories > 2 * UNITS_PER_CALORIE {
            if MAX_HEALTH - self.health >= 10 {
                self.healed_by(5)
            } else {
                self.healed_by(1)
            }
        } else {
            self
        }
    }

    /// The cell after `damage_size` points of damage; health stops at zero.
    pub open spec fn damaged_by(self, damage_size: int) -> Cell {
        Cell { health: vstd::math::max(self.health - damage_size, 0) as u8, ..self }
    }

    /// The cell after starvation: an empty reserve costs ten points of
    /// health.
    pub open spec fn starved(self) -> Cell {
        if self.calories == 0 {
            self.damaged_by(STARVATION_DAMAGE as int)
        } else {
            self
        }
    }

    /// The deposit of decayed grass that the cell turns into when its
    /// occupant dies. It carries the identifier and the calories of the
    /// contained organism where there is one, of the occupant where there is
    /// none, and in both cases the rot yield of the occupant's kind.
    pub open spec fn decayed(self) -> Cell {
        Cell {
            id: match self.inside {
                Some(prey) => prey.id,
                None => self.id,
            },
            creature: Creature::Grass,
            position: self.position,
            stamina: 0,
            status: Life::Dead,
            inside: None,
            calories: match self.inside {
                Some(prey) => capped(prey.calories + self.creature.rot_yield()),
                None => capped(self.calories + self.creature.rot_yield()),
            },
            direction: Direction::Stand,
            health: 0,
        }
    }

    /// The cell after the energy phase of one tick: digestion, stamina
    /// replenishment, healing and starvation in this order, then decay where
    /// no health is left.
    pub open spec fn metabolized(self) -> Cell {
        let next = self.fed().replenished().healed().starved();
        if next.health == 0 {
            next.decayed()
        } else {
            next
        }
    }

    /// The cell after the energy phase of one tick, which passes over a
    /// cell whose occupant is not alive.
    pub open spec fn aged(self) -> Cell {
        if self.status == Life::Alive {
            self.metabolized()
        } else {
            self
        }
    }

    /// The cell after the energy phase of `ticks` ticks in which it neither
    /// moves nor is moved onto.
    pub open spec fn aged_for(self, ticks: nat) -> Cell
        decreases ticks,
    {
        if ticks == 0 {
            self
        } else {
            self.aged().aged_for((ticks - 1) as nat)
        }
    }

    /// The record of this cell's occupant as prey in another cell. Swallowed
    /// prey keeps no health.
    pub open spec fn swallowed(self) -> Inside {
        Inside {
            id: self.id,
            creature: self.creature,
            position: self.position,
            stamina: self.stamina,
            status: self.status,
            calories: self.calories,
            health: 0,
        }
    }

    /// What the occupant leaves behind at linear index `index` when it moves
    /// away: the contained organism, set free without health, or an empty
    /// cell at `position`.
    pub open spec fn left_behind(self, index: int, position: Position) -> Cell {
        match self.inside {
            Some(prey) => Cell {
                id: prey.id,
                creature: prey.creature,
                position: prey.position,
                stamina: prey.stamina,
                status: prey.status,
                inside: None,
                calories: prey.calories,
                direction: Direction::Stand,
                health: 0,
            },
            None => Cell::vacant(index, position),
        }
    }

    /// Whether the health of the occupant and of what it contains is within
    /// the bound.
    pub open spec fn within_health_bound(self) -> bool {
        &&& self.health <= MAX_HEALTH
        &&& self.inside matches Some(prey) ==> prey.health <= MAX_HEALTH
    }

    /// Builds the cell that grid construction puts at `index`.
    pub fn seed(width: u32, index: u32) -> (cell: Cell)
        requires
            width > 0,
        ensures
            cell == Cell::seeded(width as int, index as int),
    {
        let position = Position { column: index % width, row: index / width };
        if index % 2 == 0 || index % 7 == 0 {
            Cell {
                id: index,
                creature: Creature::Grass,
                position,
                stamina: 40,
                status: Life::Dead,
                inside: None,
                calories: 10 * UNITS_PER_CALORIE,
                direction: Direction::Stand,
                health: 0,
            }
        } else {
            Cell {
                id: index,
                creature: Creature::Empty,
                position,
                stamina: 0,
                status: Life::Dead,
                inside: None,
                calories: 0,
                direction: Direction::Stand,
                health: 0,
            }
        }
    }

    /// Turns the cell into the deposit its occupant decays into.
    pub fn kill_cell(&mut self)
        ensures
            *final(self) == old(self).decayed(),
    {
        let bonus = self.creature.rot();
        *self = match self.inside {
            Some(inside_cell) => Cell {
                id: inside_cell.id,
                creature: Creature::Grass,
                position: self.position,
                stamina: 0,
                status: Life::Dead,
                inside: None,
                calories: inside_cell.calories.saturating_add(bonus),
                direction: Direction::Stand,
                health: 0,
            },
            None => Cell {
                id: self.id,
                creature: Creature::Grass,
                position: self.position,
                stamina: 0,
                status: Life::Dead,
                inside: None,
                calories: self.calories.saturating_add(bonus),
                direction: Direction::Stand,
                health: 0,
            },
        };
    }

    /// Heals `heal_size` points where the reserve can pay for it.
    pub fn heal(&mut self, heal_size: u8)
        ensures
            *final(self) == old(self).healed_by(heal_size as int),
    {
        let cost: u64 = heal_size as u64 * UNITS_PER_HEALTH_POINT;
        if self.calories > cost + UNITS_PER_CALORIE {
            let raised: u16 = self.health as u16 + heal_size as u16;
            self.health = if raised > MAX_HEALTH as u16 {
                MAX_HEALTH
            } else {
                raised as u8
            };
            self.calories = self.calories - cost;
        }
    }

    /// Takes `damage_size` points of health away, down to zero.
    pub fn take_damage(&mut self, damage_size: u8)
        ensures
            *final(self) == old(self).damaged_by(damage_size as int),
    {
        if self.health > damage_size {
            self.health = self.health - damage_size;
        } else {
            self.health = 0;
        }
    }

    /// Turns `stamina_size` calories into as many points of stamina.
    pub fn increase_stamina(&mut self, stamina_size: u8)
        ensures
            *final(self) == old(self).with_more_stamina(stamina_size as int),
    {
        self.stamina = self.stamina.saturating_add(stamina_size);
        self.calories = self.calories.saturating_sub(stamina_size as u64 * UNITS_PER_CALORIE);
    }

    /// Runs the energy phase of one tick on the cell. Health that was within
    /// its bound stays within it.
    pub fn balance_energy(&mut self)
        ensures
            *final(self) == old(self).metabolized(),
            final(self).position == old(self).position,
            old(self).health <= MAX_HEALTH ==> final(self).health <= MAX_HEALTH,
    {
        self.feed();
        if self.stamina <= 1 && self.calories > UNITS_PER_CALORIE {
            self.increase_stamina(1);
        }
        if self.health < MAX_HEALTH && self.calories > 2 * UNITS_PER_CALORIE {
            if MAX_HEALTH - self.health >= 10 {
                self.heal(5);
            } else {
                self.heal(1);
            }
        }
        if self.calories == 0 {
            self.take_damage(STARVATION_DAMAGE);
        }
        if self.health == 0 {
            self.kill_cell();
        }
    }

    /// Digests the contained prey for one tick. What the prey loses the host
    /// gains, and it is never more than the host's digestion rate.
    pub fn feed(&mut self)
        ensures
            *final(self) == old(self).fed(),
            final(self).calories - old(self).calories == old(self).meal(),
            old(self).prey_calories() - final(self).prey_calories() == old(self).meal(),
            0 <= old(self).meal() <= old(self).creature.digestion_rate(),
    {
        match self.inside {
            Some(mut inside) => {
                if self.creature.eats(inside.creature) {
                    let rate = self.creature.get_digestion_rate();
                    let room = RESERVE_CAPACITY - self.calories;
                    let meal = if inside.calories <= rate && inside.calories <= room {
                        inside.calories
                    } else if rate <= room {
                        rate
                    } else {
                        room
                    };
                    self.calories = self.calories + meal;
                    inside.calories = inside.calories - meal;
                    if inside.calories == 0 {
                        self.inside = None;
                    } else {
                        self.inside = Some(inside);
                    }
                }
            },
            None => (),
        }
    }

    /// The record of this cell's occupant as swallowed prey.
    pub fn pack_to_inside(&self) -> (inside: Option<Inside>)
        ensures
            inside == Some(self.swallowed()),
    {
        Some(
            Inside {
                id: self.id,
                creature: self.creature,
                position: self.position,
                stamina: self.stamina,
                status: self.status,
                calories: self.calories,
                health: 0,
            },
        )
    }

    /// A copy of the contained organism.
    pub fn get_inside_cell(&self) -> (inside: Option<Inside>)
        ensures
            inside == self.inside,
    {
        match self.inside {
            Some(inside) => Some(
                Inside {
                    id: inside.id,
                    creature: inside.creature,
                    position: inside.position,
                    stamina: inside.stamina,
                    status: inside.status,
                    calories: inside.calories,
                    health: inside.health,
                },
            ),
            None => None,
        }
    }

    /// What the occupant leaves behind when it moves away from the cell with
    /// linear index `spinned_cell_index` at `spinned_cell_position`.
    pub fn spin_the_inside(
        &self,
        spinned_cell_index: usize,
        spinned_cell_position: Position,
    ) -> (cell: Cell)
        requires
            spinned_cell_index <= u32::MAX,
        ensures
            cell == self.left_behind(spinned_cell_index as int, spinned_cell_position),
    {
        match self.inside {
            Some(e_cell) => Cell {
                id: e_cell.id,
                creature: e_cell.creature,
                position: e_cell.position,
                stamina: e_cell.stamina,
                status: e_cell.status,
                inside: None,
                calories: e_cell.calories,
                direction: Direction::Stand,
                health: 0,
            },
            None => Cell {
                id: spinned_cell_index as u32,
                creature: Creature::Empty,
                position: spinned_cell_position,
                stamina: 0,
                status: Life::Dead,
                inside: None,
                calories: 0,
                direction: Direction::Stand,
                health: 0,
            },
        }
    }
}

/// Digestion conserves energy: what the prey loses the host gains, and it is
/// never more than the host's digestion rate. While the host's reserve has
/// room for a full ration, the meal is the smaller of that ration and what the
/// prey has left.
pub proof fn lemma_digestion_conserves_energy(cell: Cell)
    ensures
        cell.fed().calories - cell.calories == cell.prey_calories() - cell.fed().prey_calories(),
        0 <= cell.fed().calories - cell.calories <= cell.creature.digestion_rate(),
        cell.fed().calories - cell.calories == cell.meal(),
        !cell.digests() ==> cell.fed() == cell,
        (cell.digests() && cell.calories + cell.creature.digestion_rate() <= RESERVE_CAPACITY)
            ==> cell.meal() == if cell.prey_calories() <= cell.creature.digestion_rate() {
            cell.prey_calories()
        } else {
            cell.creature.digestion_rate() as int
        },
        cell.digests() ==> (cell.fed().inside is None <==> cell.prey_calories() == cell.meal()),
{
}

/// The energy phase keeps health within its bound and keeps the cell in its
/// place, and no occupant that it leaves alive is without health.
pub proof fn lemma_metabolism_keeps_health_bound(cell: Cell)
    ensures
        cell.health <= MAX_HEALTH ==> cell.metabolized().health <= MAX_HEALTH,
        cell.within_health_bound() ==> cell.metabolized().within_health_bound(),
        cell.metabolized().position == cell.position,
        cell.metabolized().status == Life::Alive ==> cell.metabolized().health > 0,
        cell.metabolized().status == Life::Alive ==> cell.status == Life::Alive,
{
}

/// A cell whose occupant is not alive is left alone by the energy phase,
/// however many ticks pass.
pub proof fn lemma_dead_cell_rests(cell: Cell, ticks: nat)
    requires
        cell.status == Life::Dead,
    ensures
        cell.aged_for(ticks) == cell,
    decreases ticks,
{
    if ticks > 0 {
        lemma_dead_cell_rests(cell, (ticks - 1) as nat);
    }
}

/// A living occupant with an empty reserve and nothing swallowed loses ten
/// points of health per tick and decays when none is left: after
/// `health / 10` ticks, rounded up, the cell is a deposit of dead grass that
/// holds the rot yield of the occupant's kind, and it stays one.
pub proof fn lemma_starving_cell_decays(cell: Cell, later: nat)
    requires
        cell.status == Life::Alive,
        cell.calories == 0,
        cell.inside is None,
        0 < cell.health <= MAX_HEALTH,
    ensures
        cell.aged_for(((cell.health + 9) / 10) as nat + later) == (Cell {
            health: 0,
            ..cell
        }).decayed(),
        cell.aged_for(((cell.health + 9) / 10) as nat + later).creature == Creature::Grass,
        cell.aged_for(((cell.health + 9) / 10) as nat + later).status == Life::Dead,
        cell.aged_for(((cell.health + 9) / 10) as nat + later).health == 0,
        cell.aged_for(((cell.health + 9) / 10) as nat + later).calories
            == cell.creature.rot_yield(),
    decreases cell.health,
{
    let ticks = ((cell.health + 9) / 10) as nat;
    let next = cell.aged();
    if cell.health <= 10 {
        lemma_dead_cell_rests(next, (ticks + later - 1) as nat);
    } else {
        lemma_starving_cell_decays(next, later);
    }
}

/// A living occupant that starves does not decay earlier than that: as long
/// as fewer than `health / 10` ticks, rounded up, have passed, it is alive.
pub proof fn lemma_starving_cell_lasts(cell: Cell, ticks: nat)
    requires
        cell.status == Life::Alive,
        cell.calories == 0,
        cell.inside is None,
        0 < cell.health <= MAX_HEALTH,
        ticks < (cell.health + 9) / 10,
    ensures
        cell.aged_for(ticks) == (Cell { health: (cell.health - 10 * ticks) as u8, ..cell }),
    decreases ticks,
{
    if ticks > 0 {
        let next = cell.aged();
        lemma_starving_cell_lasts(next, (ticks - 1) as nat);
    }
}

} // verus!
