//! The kinds of occupant a grid cell can hold, and what each kind eats,
//! digests and leaves behind.

use vstd::prelude::*;

verus! {

/// Number of reserve units in one calorie. Every calorie amount of the
/// library is a whole number of these units.
pub const UNITS_PER_CALORIE: u64 = 6;

/// What occupies a cell. The kinds are ordered by `rank`:
/// `Empty < Grass < Sheep < Wolf`.
#[derive(Clone, Copy, Debug, PartialEq, Eq, Structural)]
pub enum Creature {
    Empty,
    Grass,
    Sheep,
    Wolf,
}

/// Whether an occupant takes part in the simulation.
#[derive(Clone, Copy, Debug, PartialEq, Eq, Structural)]
pub enum Life {
    Dead,
    Alive,
}

impl Creature {
    /// Position of the kind in the food chain.
    pub open spec fn rank(self) -> nat {
        match self {
            Creature::Empty => 0,
            Creature::Grass => 1,
            Creature::Sheep => 2,
            Creature::Wolf => 3,
        }
    }

    /// The kind this kind eats; `Empty` for a kind that eats nothing.
    pub open spec fn food(self) -> Creature {
        match self {
            Creature::Sheep => Creature::Grass,
            Creature::Wolf => Creature::Sheep,
            _ => Creature::Empty,
        }
    }

    /// Whether a predator of this kind digests prey of kind `prey`.
    /// Only sheep and wolves digest anything.
    pub open spec fn preys_on(self, prey: Creature) -> bool {
        (self == Creature::Sheep || self == Creature::Wolf) && prey == self.food()
    }

    /// Reserve units a predator of this kind extracts from its prey per tick.
    pub open spec fn digestion_rate(self) -> nat {
        match self {
            Creature::Wolf => 12,
            Creature::Sheep => 3,
            _ => 0,
        }
    }

    /// Reserve units that the body of this kind adds to the deposit it
    /// decays into.
    pub open spec fn rot_yield(self) -> nat {
        match self {
            Creature::Sheep => 90,
            Creature::Wolf => 60,
            _ => 0,
        }
    }

    /// The character that stands for this kind in a rendered grid.
    pub open spec fn glyph(self) -> char {
        match self {
            Creature::Empty => '.',
            Creature::Grass => '#',
            Creature::Sheep => 'S',
            Creature::Wolf => 'W',
        }
    }

    pub fn get_rank(&self) -> (rank: u8)
        ensures
            rank == self.rank(),
    {
        match self {
            Creature::Empty => 0,
            Creature::Grass => 1,
            Creature::Sheep => 2,
            Creature::Wolf => 3,
        }
    }

    pub fn get_eating_food_type(&self) -> (food: Creature)
        ensures
            food == self.food(),
    {
        match self {
            Creature::Sheep => Creature::Grass,
            Creature::Wolf => Creature::Sheep,
            _ => Creature::Empty,
        }
    }

    pub fn eats(&self, prey: Creature) -> (yes: bool)
        ensures
            yes == self.preys_on(prey),
    {
        match self {
            Creature::Sheep => prey == Creature::Grass,
            Creature::Wolf => prey == Creature::Sheep,
            _ => false,
        }
    }

    pub fn get_digestion_rate(&self) -> (rate: u64)
        ensures
            rate == self.digestion_rate(),
    {
        match self {
            Creature::Wolf => 2 * UNITS_PER_CALORIE,
            Creature::Sheep => UNITS_PER_CALORIE / 2,
            _ => 0,
        }
    }

    pub fn rot(&self) -> (bonus: u64)
        ensures
            bonus == self.rot_yield(),
    {
        match self {
            Creature::Sheep => 15 * UNITS_PER_CALORIE,
            Creature::Wolf => 10 * UNITS_PER_CALORIE,
            Creature::Grass => 0,
            Creature::Empty => 0,
        }
    }

    pub fn symbol(&self) -> (c: char)
        ensures
            c == self.glyph(),
    {
        match self {
            Creature::Empty => '.',
            Creature::Grass => '#',
            Creature::Sheep => 'S',
            Creature::Wolf => 'W',
        }
    }
}

/// Distinct kinds have distinct ranks, and the ranks order the food chain:
/// what a kind eats ranks directly below it.
pub proof fn lemma_rank_orders_kinds(a: Creature, b: Creature)
    ensures
        a.rank() == b.rank() <==> a == b,
        a.preys_on(b) ==> b.rank() + 1 == a.rank(),
{
}

} // verus!
